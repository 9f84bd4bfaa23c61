use crate::date_tag::{encode_date, tagged};
use crate::duration::{humantime_text, humantime_value, TimeSpan};
use crate::field::{key_of, Field};
use crate::ident::{hyphenated, utc_text_of, uuid_value_of, UserId};
use crate::node::{Entry, Node};
use crate::schema::{
    DebugInfo, DebugInfoView, Event, EventView, Gift, GiftView, PrivateTariff, PrivateTariffView,
    PublicTariff, PublicTariffView, Request, RequestType, RequestView, Stream, StreamView,
};
use vstd::prelude::*;

verus! {

/// Why a request could not be encoded.
#[derive(PartialEq, Eq, Structural, Clone, Copy, Debug)]
pub enum EncodeError {
    /// The debug timestamp is not an instant that can be written as a date.
    TimestampOutOfRange,
}

pub open spec fn text_node(n: Node, s: Seq<char>) -> bool {
    match n {
        Node::Text(t) => t@ == s,
        _ => false,
    }
}

pub open spec fn int_node(n: Node, x: u32) -> bool {
    n == Node::Int(x as i128)
}

/// Entry `i` of `es` stands under the key of `f`.
pub open spec fn keyed(es: Seq<Entry>, i: int, f: Field) -> bool {
    es[i].key@ == key_of(f)
}

pub open spec fn token_of(t: RequestType) -> Seq<char> {
    match t {
        RequestType::Success => "success"@,
        RequestType::Failure => "failure"@,
    }
}

/// The span's expression, which reads back as the span.
pub open spec fn duration_node(n: Node, t: TimeSpan) -> bool {
    text_node(n, humantime_text(t.secs, t.nanos)) && humantime_value(
        humantime_text(t.secs, t.nanos),
    ) == Some((t.secs, t.nanos))
}

/// The identifier's hyphenated form, which reads back as the identifier.
pub open spec fn uuid_node(n: Node, u: UserId) -> bool {
    text_node(n, hyphenated(u.value)) && uuid_value_of(hyphenated(u.value)) == Some(u.value)
}

pub open spec fn public_tariff_node(n: Node, t: PublicTariffView) -> bool {
    match n {
        Node::Object(es) => es@.len() == 4 && keyed(es@, 0, Field::Id) && int_node(es@[0].value, t.id)
            && keyed(es@, 1, Field::Price) && int_node(es@[1].value, t.price) && keyed(
            es@,
            2,
            Field::Duration,
        ) && duration_node(es@[2].value, t.duration) && keyed(es@, 3, Field::Description)
            && text_node(es@[3].value, t.description),
        _ => false,
    }
}

pub open spec fn private_tariff_node(n: Node, t: PrivateTariffView) -> bool {
    match n {
        Node::Object(es) => es@.len() == 3 && keyed(es@, 0, Field::ClientPrice) && int_node(
            es@[0].value,
            t.client_price,
        ) && keyed(es@, 1, Field::Duration) && duration_node(es@[1].value, t.duration) && keyed(
            es@,
            2,
            Field::Description,
        ) && text_node(es@[2].value, t.description),
        _ => false,
    }
}

pub open spec fn stream_node(n: Node, s: StreamView) -> bool {
    match n {
        Node::Object(es) => es@.len() == 6 && keyed(es@, 0, Field::UserId) && uuid_node(
            es@[0].value,
            s.user_id,
        ) && keyed(es@, 1, Field::IsPrivate) && es@[1].value == Node::Bool(s.is_private) && keyed(
            es@,
            2,
            Field::Settings,
        ) && int_node(es@[2].value, s.settings) && keyed(es@, 3, Field::ShardUrl) && text_node(
            es@[3].value,
            s.shard_url,
        ) && keyed(es@, 4, Field::PublicTariff) && public_tariff_node(
            es@[4].value,
            s.public_tariff,
        ) && keyed(es@, 5, Field::PrivateTariff) && private_tariff_node(
            es@[5].value,
            s.private_tariff,
        ),
        _ => false,
    }
}

pub open spec fn gift_node(n: Node, g: GiftView) -> bool {
    match n {
        Node::Object(es) => es@.len() == 3 && keyed(es@, 0, Field::Id) && int_node(es@[0].value, g.id)
            && keyed(es@, 1, Field::Price) && int_node(es@[1].value, g.price) && keyed(
            es@,
            2,
            Field::Description,
        ) && text_node(es@[2].value, g.description),
        _ => false,
    }
}

/// A list whose items encode the gifts one for one, in the same order.
pub open spec fn gifts_node(n: Node, gs: Seq<GiftView>) -> bool {
    match n {
        Node::List(items) => items@.len() == gs.len() && forall|i: int|
            0 <= i < gs.len() ==> #[trigger] gift_node(items@[i], gs[i]),
        _ => false,
    }
}

pub open spec fn debug_node(n: Node, d: DebugInfoView) -> bool {
    match n {
        Node::Object(es) => es@.len() == 2 && keyed(es@, 0, Field::Duration) && duration_node(
            es@[0].value,
            d.duration,
        ) && keyed(es@, 1, Field::At) && utc_text_of(d.at.secs, d.at.nanos) is Some && text_node(
            es@[1].value,
            utc_text_of(d.at.secs, d.at.nanos)->Some_0,
        ),
        _ => false,
    }
}

pub open spec fn request_node(n: Node, q: RequestView) -> bool {
    match n {
        Node::Object(es) => es@.len() == 4 && keyed(es@, 0, Field::Type) && text_node(
            es@[0].value,
            token_of(q.request_type),
        ) && keyed(es@, 1, Field::Stream) && stream_node(es@[1].value, q.stream) && keyed(
            es@,
            2,
            Field::Gifts,
        ) && gifts_node(es@[2].value, q.gifts) && keyed(es@, 3, Field::DebugInfo) && debug_node(
            es@[3].value,
            q.debug,
        ),
        _ => false,
    }
}

pub open spec fn event_node(n: Node, e: EventView) -> bool {
    match n {
        Node::Object(es) => es@.len() == 2 && keyed(es@, 0, Field::Name) && text_node(
            es@[0].value,
            e.name,
        ) && keyed(es@, 1, Field::Date) && text_node(es@[1].value, tagged(e.date)),
        _ => false,
    }
}

fn entry(f: Field, value: Node) -> (e: Entry)
    ensures
        e.key@ == key_of(f),
        e.value == value,
{
    Entry { key: f.key().to_owned(), value }
}

fn text(s: &str) -> (n: Node)
    ensures
        text_node(n, s@),
{
    Node::Text(s.to_owned())
}

fn whole(x: u32) -> (n: Node)
    ensures
        int_node(n, x),
{
    Node::Int(x as i128)
}

fn duration(t: &TimeSpan) -> (n: Node)
    requires
        t.wf(),
    ensures
        duration_node(n, *t),
{
    Node::Text(t.to_text())
}

pub fn encode_public_tariff(t: &PublicTariff) -> (n: Node)
    requires
        t.wf(),
    ensures
        public_tariff_node(n, t@),
{
    let mut es: Vec<Entry> = Vec::new();
    es.push(entry(Field::Id, whole(t.id)));
    es.push(entry(Field::Price, whole(t.price)));
    es.push(entry(Field::Duration, duration(&t.duration)));
    es.push(entry(Field::Description, text(t.description.as_str())));
    Node::Object(es)
}

pub fn encode_private_tariff(t: &PrivateTariff) -> (n: Node)
    requires
        t.wf(),
    ensures
        private_tariff_node(n, t@),
{
    let mut es: Vec<Entry> = Vec::new();
    es.push(entry(Field::ClientPrice, whole(t.client_price)));
    es.push(entry(Field::Duration, duration(&t.duration)));
    es.push(entry(Field::Description, text(t.description.as_str())));
    Node::Object(es)
}

pub fn encode_stream(s: &Stream) -> (n: Node)
    requires
        s.wf(),
    ensures
        stream_node(n, s@),
{
    let mut es: Vec<Entry> = Vec::new();
    let id = s.user_id.to_text();
    es.push(entry(Field::UserId, Node::Text(id)));
    es.push(entry(Field::IsPrivate, Node::Bool(s.is_private)));
    es.push(entry(Field::Settings, whole(s.settings)));
    es.push(entry(Field::ShardUrl, text(s.shard_url.as_str())));
    es.push(entry(Field::PublicTariff, encode_public_tariff(&s.public_tariff)));
    es.push(entry(Field::PrivateTariff, encode_private_tariff(&s.private_tariff)));
    Node::Object(es)
}

pub fn encode_gift(g: &Gift) -> (n: Node)
    ensures
        gift_node(n, g@),
{
    let mut es: Vec<Entry> = Vec::new();
    es.push(entry(Field::Id, whole(g.id)));
    es.push(entry(Field::Price, whole(g.price)));
    es.push(entry(Field::Description, text(g.description.as_str())));
    Node::Object(es)
}

/// Encodes the gifts as a list, one item for each, in the same order.
pub fn encode_gifts(gs: &Vec<Gift>) -> (n: Node)
    ensures
        gifts_node(n, gs@.map_values(|g: Gift| g@)),
{
    let mut items: Vec<Node> = Vec::new();
    let mut i: usize = 0;
    while i < gs.len()
        invariant
            i <= gs@.len(),
            items@.len() == i,
            forall|j: int| 0 <= j < i ==> #[trigger] gift_node(items@[j], gs@[j]@),
        decreases gs@.len() - i,
    {
        items.push(encode_gift(&gs[i]));
        i = i + 1;
    }
    let ghost views = gs@.map_values(|g: Gift| g@);
    assert forall|j: int| 0 <= j < views.len() implies #[trigger] gift_node(items@[j], views[j]) by {
        assert(gift_node(items@[j], gs@[j]@));
    }
    Node::List(items)
}

pub fn encode_debug(d: &DebugInfo) -> (r: Result<Node, EncodeError>)
    requires
        d.wf(),
    ensures
        r is Err <==> utc_text_of(d.at.secs, d.at.nanos) is None,
        r matches Ok(n) ==> debug_node(n, d@),
{
    let at = match d.at.to_text() {
        Some(t) => t,
        None => return Err(EncodeError::TimestampOutOfRange),
    };
    let mut es: Vec<Entry> = Vec::new();
    es.push(entry(Field::Duration, duration(&d.duration)));
    es.push(entry(Field::At, Node::Text(at)));
    Ok(Node::Object(es))
}

/// Encodes a request, field by field and with the gifts in order. It fails only
/// where the debug timestamp cannot be written as a date.
pub fn encode_request(q: &Request) -> (r: Result<Node, EncodeError>)
    requires
        q.wf(),
    ensures
        r is Err <==> utc_text_of(q.debug.at.secs, q.debug.at.nanos) is None,
        r matches Ok(n) ==> request_node(n, q@),
{
    let debug = match encode_debug(&q.debug) {
        Ok(n) => n,
        Err(e) => return Err(e),
    };
    let token = match q.request_type {
        RequestType::Success => "success",
        RequestType::Failure => "failure",
    };
    let mut es: Vec<Entry> = Vec::new();
    es.push(entry(Field::Type, text(token)));
    es.push(entry(Field::Stream, encode_stream(&q.stream)));
    es.push(entry(Field::Gifts, encode_gifts(&q.gifts)));
    es.push(entry(Field::DebugInfo, debug));
    Ok(Node::Object(es))
}

/// Encodes an event; its date is written with the tag in front.
pub fn encode_event(e: &Event) -> (n: Node)
    ensures
        event_node(n, e@),
{
    let mut es: Vec<Entry> = Vec::new();
    es.push(entry(Field::Name, text(e.name.as_str())));
    es.push(entry(Field::Date, Node::Text(encode_date(e.date.as_str()))));
    Node::Object(es)
}

} // verus!
