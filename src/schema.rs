use crate::date_tag::untagged;
use crate::duration::TimeSpan;
use crate::field::{
    bool_field, coded_field, duration_field, field_spec, here, instant_field, text_field,
    u32_field, under, url_field, uuid_field, Failure, Field, Reason, Step,
};
use crate::ident::{utc_text_of, ShardUrl, UserId, UtcInstant};
use crate::node::Node;
use vstd::prelude::*;

verus! {

/// Whether a request succeeded; `success` or `failure` on the wire.
#[derive(PartialEq, Eq, Structural, Clone, Copy, Debug)]
pub enum RequestType {
    Success,
    Failure,
}

#[derive(Clone, Debug)]
pub struct PublicTariff {
    pub id: u32,
    pub price: u32,
    pub duration: TimeSpan,
    pub description: String,
}

#[derive(Clone, Debug)]
pub struct PrivateTariff {
    pub client_price: u32,
    pub duration: TimeSpan,
    pub description: String,
}

#[derive(Clone, Debug)]
pub struct Stream {
    pub user_id: UserId,
    pub is_private: bool,
    /// Opaque flags.
    pub settings: u32,
    pub shard_url: ShardUrl,
    pub public_tariff: PublicTariff,
    pub private_tariff: PrivateTariff,
}

#[derive(Clone, Debug)]
pub struct Gift {
    pub id: u32,
    pub price: u32,
    pub description: String,
}

#[derive(Clone, Debug)]
pub struct DebugInfo {
    pub duration: TimeSpan,
    pub at: UtcInstant,
}

#[derive(Clone, Debug)]
pub struct Request {
    pub request_type: RequestType,
    pub stream: Stream,
    /// In document order; ids may repeat.
    pub gifts: Vec<Gift>,
    pub debug: DebugInfo,
}

/// A named event whose date is tagged on the wire.
#[derive(Clone, Debug)]
pub struct Event {
    pub name: String,
    pub date: String,
}

pub struct PublicTariffView {
    pub id: u32,
    pub price: u32,
    pub duration: TimeSpan,
    pub description: Seq<char>,
}

pub struct PrivateTariffView {
    pub client_price: u32,
    pub duration: TimeSpan,
    pub description: Seq<char>,
}

pub struct StreamView {
    pub user_id: UserId,
    pub is_private: bool,
    pub settings: u32,
    pub shard_url: Seq<char>,
    pub public_tariff: PublicTariffView,
    pub private_tariff: PrivateTariffView,
}

pub struct GiftView {
    pub id: u32,
    pub price: u32,
    pub description: Seq<char>,
}

pub struct DebugInfoView {
    pub duration: TimeSpan,
    pub at: UtcInstant,
}

pub struct RequestView {
    pub request_type: RequestType,
    pub stream: StreamView,
    pub gifts: Seq<GiftView>,
    pub debug: DebugInfoView,
}

pub struct EventView {
    pub name: Seq<char>,
    pub date: Seq<char>,
}

impl View for PublicTariff {
    type V = PublicTariffView;

    open spec fn view(&self) -> PublicTariffView {
        PublicTariffView {
            id: self.id,
            price: self.price,
            duration: self.duration,
            description: self.description@,
        }
    }
}

impl View for PrivateTariff {
    type V = PrivateTariffView;

    open spec fn view(&self) -> PrivateTariffView {
        PrivateTariffView {
            client_price: self.client_price,
            duration: self.duration,
            description: self.description@,
        }
    }
}

impl View for Stream {
    type V = StreamView;

    open spec fn view(&self) -> StreamView {
        StreamView {
            user_id: self.user_id,
            is_private: self.is_private,
            settings: self.settings,
            shard_url: self.shard_url@,
            public_tariff: self.public_tariff@,
            private_tariff: self.private_tariff@,
        }
    }
}

impl View for Gift {
    type V = GiftView;

    open spec fn view(&self) -> GiftView {
        GiftView { id: self.id, price: self.price, description: self.description@ }
    }
}

impl View for DebugInfo {
    type V = DebugInfoView;

    open spec fn view(&self) -> DebugInfoView {
        DebugInfoView { duration: self.duration, at: self.at }
    }
}

impl View for Request {
    type V = RequestView;

    open spec fn view(&self) -> RequestView {
        RequestView {
            request_type: self.request_type,
            stream: self.stream@,
            gifts: self.gifts@.map_values(|g: Gift| g@),
            debug: self.debug@,
        }
    }
}

impl View for Event {
    type V = EventView;

    open spec fn view(&self) -> EventView {
        EventView { name: self.name@, date: self.date@ }
    }
}

impl PublicTariff {
    pub open spec fn wf(&self) -> bool {
        self.duration.wf()
    }
}

impl PrivateTariff {
    pub open spec fn wf(&self) -> bool {
        self.duration.wf()
    }
}

impl Stream {
    pub open spec fn wf(&self) -> bool {
        self.public_tariff.wf() && self.private_tariff.wf()
    }
}

impl DebugInfo {
    pub open spec fn wf(&self) -> bool {
        self.duration.wf()
    }

    /// The timestamp can be written as a date, so the record encodes.
    pub open spec fn writable(&self) -> bool {
        utc_text_of(self.at.secs, self.at.nanos) is Some
    }
}

impl Request {
    /// Every duration is a proper span.
    pub open spec fn wf(&self) -> bool {
        self.stream.wf() && self.debug.wf()
    }
}

pub open spec fn is_object(n: Node) -> bool {
    n is Object
}

/// A nested object's decoding, seen from the object that holds it under `f`.
pub open spec fn nested<T>(n: Node, f: Field, inner: spec_fn(Node) -> Result<T, Failure>) -> Result<T, Failure> {
    match field_spec(n, f) {
        Err(e) => Err(e),
        Ok(v) => match inner(v) {
            Ok(x) => Ok(x),
            Err(e) => Err(under(Step::Key(f), e)),
        },
    }
}

/// The request type that a token stands for.
pub open spec fn type_of_token(s: Seq<char>) -> Option<RequestType> {
    if s == "success"@ {
        Some(RequestType::Success)
    } else if s == "failure"@ {
        Some(RequestType::Failure)
    } else {
        None
    }
}

pub open spec fn type_field(n: Node, f: Field) -> Result<RequestType, Failure> {
    coded_field(n, f, Reason::UnknownType, type_of_token(text_field(n, f)->Ok_0))
}

pub open spec fn public_tariff_spec(n: Node) -> Result<PublicTariffView, Failure> {
    if !is_object(n) {
        Err(here(Reason::WrongShape))
    } else if u32_field(n, Field::Id) is Err {
        Err(u32_field(n, Field::Id)->Err_0)
    } else if u32_field(n, Field::Price) is Err {
        Err(u32_field(n, Field::Price)->Err_0)
    } else if duration_field(n, Field::Duration) is Err {
        Err(duration_field(n, Field::Duration)->Err_0)
    } else if text_field(n, Field::Description) is Err {
        Err(text_field(n, Field::Description)->Err_0)
    } else {
        Ok(
            PublicTariffView {
                id: u32_field(n, Field::Id)->Ok_0,
                price: u32_field(n, Field::Price)->Ok_0,
                duration: duration_field(n, Field::Duration)->Ok_0,
                description: text_field(n, Field::Description)->Ok_0,
            },
        )
    }
}

pub open spec fn private_tariff_spec(n: Node) -> Result<PrivateTariffView, Failure> {
    if !is_object(n) {
        Err(here(Reason::WrongShape))
    } else if u32_field(n, Field::ClientPrice) is Err {
        Err(u32_field(n, Field::ClientPrice)->Err_0)
    } else if duration_field(n, Field::Duration) is Err {
        Err(duration_field(n, Field::Duration)->Err_0)
    } else if text_field(n, Field::Description) is Err {
        Err(text_field(n, Field::Description)->Err_0)
    } else {
        Ok(
            PrivateTariffView {
                client_price: u32_field(n, Field::ClientPrice)->Ok_0,
                duration: duration_field(n, Field::Duration)->Ok_0,
                description: text_field(n, Field::Description)->Ok_0,
            },
        )
    }
}

pub open spec fn stream_spec(n: Node) -> Result<StreamView, Failure> {
    let public = nested(n, Field::PublicTariff, |v: Node| public_tariff_spec(v));
    let private = nested(n, Field::PrivateTariff, |v: Node| private_tariff_spec(v));
    if !is_object(n) {
        Err(here(Reason::WrongShape))
    } else if uuid_field(n, Field::UserId) is Err {
        Err(uuid_field(n, Field::UserId)->Err_0)
    } else if bool_field(n, Field::IsPrivate) is Err {
        Err(bool_field(n, Field::IsPrivate)->Err_0)
    } else if u32_field(n, Field::Settings) is Err {
        Err(u32_field(n, Field::Settings)->Err_0)
    } else if url_field(n, Field::ShardUrl) is Err {
        Err(url_field(n, Field::ShardUrl)->Err_0)
    } else if public is Err {
        Err(public->Err_0)
    } else if private is Err {
        Err(private->Err_0)
    } else {
        Ok(
            StreamView {
                user_id: uuid_field(n, Field::UserId)->Ok_0,
                is_private: bool_field(n, Field::IsPrivate)->Ok_0,
                settings: u32_field(n, Field::Settings)->Ok_0,
                shard_url: url_field(n, Field::ShardUrl)->Ok_0,
                public_tariff: public->Ok_0,
                private_tariff: private->Ok_0,
            },
        )
    }
}

pub open spec fn gift_spec(n: Node) -> Result<GiftView, Failure> {
    if !is_object(n) {
        Err(here(Reason::WrongShape))
    } else if u32_field(n, Field::Id) is Err {
        Err(u32_field(n, Field::Id)->Err_0)
    } else if u32_field(n, Field::Price) is Err {
        Err(u32_field(n, Field::Price)->Err_0)
    } else if text_field(n, Field::Description) is Err {
        Err(text_field(n, Field::Description)->Err_0)
    } else {
        Ok(
            GiftView {
                id: u32_field(n, Field::Id)->Ok_0,
                price: u32_field(n, Field::Price)->Ok_0,
                description: text_field(n, Field::Description)->Ok_0,
            },
        )
    }
}

/// The first `k` items of a list decoded as gifts, in order; the first item that
/// fails decides the failure.
pub open spec fn gifts_prefix(items: Seq<Node>, k: int) -> Result<Seq<GiftView>, Failure>
    decreases k,
{
    if k <= 0 {
        Ok(seq![])
    } else {
        match gifts_prefix(items, k - 1) {
            Err(e) => Err(e),
            Ok(s) => match gift_spec(items[k - 1]) {
                Err(e) => Err(under(Step::Item((k - 1) as usize), e)),
                Ok(g) => Ok(s.push(g)),
            },
        }
    }
}

pub open spec fn gifts_spec(n: Node) -> Result<Seq<GiftView>, Failure> {
    match n {
        Node::List(items) => gifts_prefix(items@, items@.len() as int),
        _ => Err(here(Reason::WrongShape)),
    }
}

pub open spec fn debug_spec(n: Node) -> Result<DebugInfoView, Failure> {
    if !is_object(n) {
        Err(here(Reason::WrongShape))
    } else if duration_field(n, Field::Duration) is Err {
        Err(duration_field(n, Field::Duration)->Err_0)
    } else if instant_field(n, Field::At) is Err {
        Err(instant_field(n, Field::At)->Err_0)
    } else {
        Ok(
            DebugInfoView {
                duration: duration_field(n, Field::Duration)->Ok_0,
                at: instant_field(n, Field::At)->Ok_0,
            },
        )
    }
}

/// What a document decodes to as a request: the request, or the first failure.
pub open spec fn request_spec(n: Node) -> Result<RequestView, Failure> {
    let stream = nested(n, Field::Stream, |v: Node| stream_spec(v));
    let gifts = nested(n, Field::Gifts, |v: Node| gifts_spec(v));
    let debug = nested(n, Field::DebugInfo, |v: Node| debug_spec(v));
    if !is_object(n) {
        Err(here(Reason::WrongShape))
    } else if type_field(n, Field::Type) is Err {
        Err(type_field(n, Field::Type)->Err_0)
    } else if stream is Err {
        Err(stream->Err_0)
    } else if gifts is Err {
        Err(gifts->Err_0)
    } else if debug is Err {
        Err(debug->Err_0)
    } else {
        Ok(
            RequestView {
                request_type: type_field(n, Field::Type)->Ok_0,
                stream: stream->Ok_0,
                gifts: gifts->Ok_0,
                debug: debug->Ok_0,
            },
        )
    }
}

/// What a document decodes to as an event; a tagged date loses its tag.
pub open spec fn event_spec(n: Node) -> Result<EventView, Failure> {
    if !is_object(n) {
        Err(here(Reason::WrongShape))
    } else if text_field(n, Field::Name) is Err {
        Err(text_field(n, Field::Name)->Err_0)
    } else if text_field(n, Field::Date) is Err {
        Err(text_field(n, Field::Date)->Err_0)
    } else {
        Ok(
            EventView {
                name: text_field(n, Field::Name)->Ok_0,
                date: untagged(text_field(n, Field::Date)->Ok_0),
            },
        )
    }
}

} // verus!
