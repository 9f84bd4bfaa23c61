use crate::duration::{read_spec, TimeSpan};
use crate::ident::{url_text_of, utc_instant_of, utc_text_of, uuid_value_of, ShardUrl, UserId, UtcInstant};
use crate::node::{find_key, get, Node};
use vstd::prelude::*;

verus! {

/// A named field of the request schema.
#[derive(PartialEq, Eq, Structural, Clone, Copy, Debug)]
pub enum Field {
    Type,
    Stream,
    Gifts,
    DebugInfo,
    UserId,
    IsPrivate,
    Settings,
    ShardUrl,
    PublicTariff,
    PrivateTariff,
    Id,
    Price,
    ClientPrice,
    Duration,
    Description,
    At,
    Name,
    Date,
}

/// The key under which a field stands in a document.
pub open spec fn key_of(f: Field) -> Seq<char> {
    match f {
        Field::Type => "type"@,
        Field::Stream => "stream"@,
        Field::Gifts => "gifts"@,
        Field::DebugInfo => "debug"@,
        Field::UserId => "user_id"@,
        Field::IsPrivate => "is_private"@,
        Field::Settings => "settings"@,
        Field::ShardUrl => "shard_url"@,
        Field::PublicTariff => "public_tariff"@,
        Field::PrivateTariff => "private_tariff"@,
        Field::Id => "id"@,
        Field::Price => "price"@,
        Field::ClientPrice => "client_price"@,
        Field::Duration => "duration"@,
        Field::Description => "description"@,
        Field::At => "at"@,
        Field::Name => "name"@,
        Field::Date => "date"@,
    }
}

impl Field {
    pub fn key(self) -> (r: &'static str)
        ensures
            r@ == key_of(self),
    {
        match self {
            Field::Type => "type",
            Field::Stream => "stream",
            Field::Gifts => "gifts",
            Field::DebugInfo => "debug",
            Field::UserId => "user_id",
            Field::IsPrivate => "is_private",
            Field::Settings => "settings",
            Field::ShardUrl => "shard_url",
            Field::PublicTariff => "public_tariff",
            Field::PrivateTariff => "private_tariff",
            Field::Id => "id",
            Field::Price => "price",
            Field::ClientPrice => "client_price",
            Field::Duration => "duration",
            Field::Description => "description",
            Field::At => "at",
            Field::Name => "name",
            Field::Date => "date",
        }
    }
}

/// One step of the path to a value that failed to decode.
#[derive(PartialEq, Eq, Structural, Clone, Copy, Debug)]
pub enum Step {
    Key(Field),
    Item(usize),
}

/// Why a value failed to decode.
#[derive(PartialEq, Eq, Structural, Clone, Copy, Debug)]
pub enum Reason {
    /// A required field is absent.
    Missing,
    /// The value has the wrong primitive shape (not an object, a list, a string, a
    /// boolean, or a whole number that fits in 32 bits, as required).
    WrongShape,
    /// The request type is neither `success` nor `failure`.
    UnknownType,
    BadUuid,
    BadUrl,
    BadDuration,
    BadTimestamp,
}

/// A decode failure: the path to the value that failed, outermost step first, and why.
#[derive(Clone, Debug)]
pub struct DecodeError {
    pub path: Vec<Step>,
    pub reason: Reason,
}

pub type Failure = (Seq<Step>, Reason);

impl View for DecodeError {
    type V = Failure;

    open spec fn view(&self) -> Failure {
        (self.path@, self.reason)
    }
}

/// A failure at the value itself.
pub open spec fn here(r: Reason) -> Failure {
    (seq![], r)
}

/// A failure at a field of the value.
pub open spec fn at(f: Field, r: Reason) -> Failure {
    (seq![Step::Key(f)], r)
}

/// A failure inside a part of the value.
pub open spec fn under(s: Step, e: Failure) -> Failure {
    (seq![s] + e.0, e.1)
}

/// A decoding result whose success value is compared as it is.
pub open spec fn agrees<T>(r: Result<T, DecodeError>, s: Result<T, Failure>) -> bool {
    match r {
        Ok(v) => s == Ok::<T, Failure>(v),
        Err(e) => s == Err::<T, Failure>(e@),
    }
}

/// A decoding result whose success value is compared by its view.
pub open spec fn agrees_view<T: View>(r: Result<T, DecodeError>, s: Result<T::V, Failure>) -> bool {
    match r {
        Ok(v) => s == Ok::<T::V, Failure>(v@),
        Err(e) => s == Err::<T::V, Failure>(e@),
    }
}

pub open spec fn u32_of(n: Node) -> Option<u32> {
    match n {
        Node::Int(x) => if 0 <= x <= u32::MAX {
            Some(x as u32)
        } else {
            None
        },
        _ => None,
    }
}

pub open spec fn bool_of(n: Node) -> Option<bool> {
    match n {
        Node::Bool(b) => Some(b),
        _ => None,
    }
}

pub open spec fn text_of(n: Node) -> Option<Seq<char>> {
    match n {
        Node::Text(s) => Some(s@),
        _ => None,
    }
}

/// The value under a field, which must be there.
pub open spec fn field_spec(n: Node, f: Field) -> Result<Node, Failure> {
    match get(n, key_of(f)) {
        Some(v) => Ok(v),
        None => Err(at(f, Reason::Missing)),
    }
}

pub open spec fn u32_field(n: Node, f: Field) -> Result<u32, Failure> {
    match field_spec(n, f) {
        Err(e) => Err(e),
        Ok(v) => match u32_of(v) {
            Some(x) => Ok(x),
            None => Err(at(f, Reason::WrongShape)),
        },
    }
}

pub open spec fn bool_field(n: Node, f: Field) -> Result<bool, Failure> {
    match field_spec(n, f) {
        Err(e) => Err(e),
        Ok(v) => match bool_of(v) {
            Some(x) => Ok(x),
            None => Err(at(f, Reason::WrongShape)),
        },
    }
}

pub open spec fn text_field(n: Node, f: Field) -> Result<Seq<char>, Failure> {
    match field_spec(n, f) {
        Err(e) => Err(e),
        Ok(v) => match text_of(v) {
            Some(x) => Ok(x),
            None => Err(at(f, Reason::WrongShape)),
        },
    }
}

/// A text field read by a codec: `None` from the codec is a failure for `bad`.
pub open spec fn coded_field<T>(n: Node, f: Field, bad: Reason, decoded: Option<T>) -> Result<T, Failure> {
    match text_field(n, f) {
        Err(e) => Err(e),
        Ok(_) => match decoded {
            Some(x) => Ok(x),
            None => Err(at(f, bad)),
        },
    }
}

pub open spec fn duration_field(n: Node, f: Field) -> Result<TimeSpan, Failure> {
    coded_field(
        n,
        f,
        Reason::BadDuration,
        read_spec(text_field(n, f)->Ok_0),
    )
}

pub open spec fn uuid_field(n: Node, f: Field) -> Result<UserId, Failure> {
    coded_field(
        n,
        f,
        Reason::BadUuid,
        match uuid_value_of(text_field(n, f)->Ok_0) {
            Some(v) => Some(UserId { value: v }),
            None => None,
        },
    )
}

pub open spec fn url_field(n: Node, f: Field) -> Result<Seq<char>, Failure> {
    coded_field(n, f, Reason::BadUrl, url_text_of(text_field(n, f)->Ok_0))
}

pub open spec fn instant_field(n: Node, f: Field) -> Result<UtcInstant, Failure> {
    coded_field(
        n,
        f,
        Reason::BadTimestamp,
        match utc_instant_of(text_field(n, f)->Ok_0) {
            Some(p) => Some(UtcInstant { secs: p.0, nanos: p.1 }),
            None => None,
        },
    )
}

pub fn fail(f: Field, r: Reason) -> (e: DecodeError)
    ensures
        e@ == at(f, r),
{
    let mut path = Vec::new();
    path.push(Step::Key(f));
    assert(path@ =~= seq![Step::Key(f)]);
    DecodeError { path, reason: r }
}

impl DecodeError {
    /// The same failure, seen from one step further out.
    pub fn within(self, s: Step) -> (e: DecodeError)
        ensures
            e@ == under(s, self@),
    {
        let mut path = self.path;
        path.insert(0, s);
        assert(path@ =~= seq![s] + self.path@);
        DecodeError { path, reason: self.reason }
    }
}

/// The value under a field.
pub fn field_of(n: &Node, f: Field) -> (r: Result<&Node, DecodeError>)
    ensures
        match r {
            Ok(v) => field_spec(*n, f) == Ok::<Node, Failure>(*v),
            Err(e) => field_spec(*n, f) == Err::<Node, Failure>(e@),
        },
{
    match n {
        Node::Object(entries) => match find_key(entries, f.key()) {
            Some(k) => Ok(&entries[k].value),
            None => Err(fail(f, Reason::Missing)),
        },
        _ => Err(fail(f, Reason::Missing)),
    }
}

pub fn read_u32(n: &Node, f: Field) -> (r: Result<u32, DecodeError>)
    ensures
        agrees(r, u32_field(*n, f)),
{
    let v = match field_of(n, f) {
        Ok(v) => v,
        Err(e) => return Err(e),
    };
    match v {
        Node::Int(x) => if 0 <= *x && *x <= 0xffff_ffff {
            Ok(*x as u32)
        } else {
            Err(fail(f, Reason::WrongShape))
        },
        _ => Err(fail(f, Reason::WrongShape)),
    }
}

pub fn read_bool(n: &Node, f: Field) -> (r: Result<bool, DecodeError>)
    ensures
        agrees(r, bool_field(*n, f)),
{
    let v = match field_of(n, f) {
        Ok(v) => v,
        Err(e) => return Err(e),
    };
    match v {
        Node::Bool(b) => Ok(*b),
        _ => Err(fail(f, Reason::WrongShape)),
    }
}

pub fn read_str<'a>(n: &'a Node, f: Field) -> (r: Result<&'a str, DecodeError>)
    ensures
        match r {
            Ok(s) => text_field(*n, f) == Ok::<Seq<char>, Failure>(s@),
            Err(e) => text_field(*n, f) == Err::<Seq<char>, Failure>(e@),
        },
{
    let v = match field_of(n, f) {
        Ok(v) => v,
        Err(e) => return Err(e),
    };
    match v {
        Node::Text(s) => Ok(s.as_str()),
        _ => Err(fail(f, Reason::WrongShape)),
    }
}

pub fn read_text(n: &Node, f: Field) -> (r: Result<String, DecodeError>)
    ensures
        agrees_view(r, text_field(*n, f)),
{
    match read_str(n, f) {
        Ok(s) => Ok(s.to_owned()),
        Err(e) => Err(e),
    }
}

pub fn read_duration(n: &Node, f: Field) -> (r: Result<TimeSpan, DecodeError>)
    ensures
        agrees(r, duration_field(*n, f)),
        r matches Ok(t) ==> t.wf(),
{
    let s = match read_str(n, f) {
        Ok(s) => s,
        Err(e) => return Err(e),
    };
    match TimeSpan::read(s) {
        Some(t) => Ok(t),
        None => Err(fail(f, Reason::BadDuration)),
    }
}

pub fn read_uuid(n: &Node, f: Field) -> (r: Result<UserId, DecodeError>)
    ensures
        agrees(r, uuid_field(*n, f)),
{
    let s = match read_str(n, f) {
        Ok(s) => s,
        Err(e) => return Err(e),
    };
    match UserId::parse(s) {
        Some(u) => Ok(u),
        None => Err(fail(f, Reason::BadUuid)),
    }
}

pub fn read_url(n: &Node, f: Field) -> (r: Result<ShardUrl, DecodeError>)
    ensures
        agrees_view(r, url_field(*n, f)),
{
    let s = match read_str(n, f) {
        Ok(s) => s,
        Err(e) => return Err(e),
    };
    match ShardUrl::parse(s) {
        Some(u) => Ok(u),
        None => Err(fail(f, Reason::BadUrl)),
    }
}

pub fn read_instant(n: &Node, f: Field) -> (r: Result<UtcInstant, DecodeError>)
    ensures
        agrees(r, instant_field(*n, f)),
        r matches Ok(t) ==> utc_text_of(t.secs, t.nanos) is Some,
{
    let s = match read_str(n, f) {
        Ok(s) => s,
        Err(e) => return Err(e),
    };
    match UtcInstant::parse(s) {
        Some(t) => Ok(t),
        None => Err(fail(f, Reason::BadTimestamp)),
    }
}

} // verus!
