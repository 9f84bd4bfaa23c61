use crate::date_tag::lemma_date_round_trip;
use crate::encode::{
    debug_node, event_node, gift_node, gifts_node, private_tariff_node, public_tariff_node,
    request_node, stream_node,
};
use crate::ident::{url_text_of, utc_instant_of, utc_text_of};
use crate::field::{field_spec, key_of, text_field, Failure, Field};
use crate::node::{find_from, get, Node};
use crate::schema::{
    debug_spec, event_spec, gift_spec, gifts_prefix, gifts_spec, private_tariff_spec,
    public_tariff_spec, request_spec, stream_spec, type_of_token, DebugInfoView, EventView,
    GiftView, PrivateTariffView, PublicTariffView, RequestView, StreamView,
};
use vstd::prelude::*;

verus! {

/// Distinct fields stand under distinct keys.
proof fn lemma_keys_distinct()
    ensures
        forall|f: Field, g: Field| #[trigger] key_of(f) == #[trigger] key_of(g) ==> f == g,
{
    reveal_strlit("type");
    reveal_strlit("stream");
    reveal_strlit("gifts");
    reveal_strlit("debug");
    reveal_strlit("user_id");
    reveal_strlit("is_private");
    reveal_strlit("settings");
    reveal_strlit("shard_url");
    reveal_strlit("public_tariff");
    reveal_strlit("private_tariff");
    reveal_strlit("id");
    reveal_strlit("price");
    reveal_strlit("client_price");
    reveal_strlit("duration");
    reveal_strlit("description");
    reveal_strlit("at");
    reveal_strlit("name");
    reveal_strlit("date");
    assert forall|f: Field, g: Field| #[trigger] key_of(f) == #[trigger] key_of(g) implies f == g by {
        if f != g {
            assert(key_of(f).len() != key_of(g).len() || key_of(f)[0] != key_of(g)[0]);
        }
    }
}

/// A decoded prefix of the gifts holds one gift for each item, each decoded from
/// the item at the same position.
proof fn lemma_gifts_prefix_ok(items: Seq<Node>, k: int)
    requires
        0 <= k <= items.len(),
        gifts_prefix(items, k) is Ok,
    ensures
        gifts_prefix(items, k)->Ok_0.len() == k,
        forall|i: int|
            0 <= i < k ==> gift_spec(#[trigger] items[i]) == Ok::<GiftView, Failure>(
                gifts_prefix(items, k)->Ok_0[i],
            ),
    decreases k,
{
    if k > 0 {
        lemma_gifts_prefix_ok(items, k - 1);
    }
}

/// Decoding keeps the order of the gifts: the `i`-th gift decoded is the one
/// decoded from the `i`-th item of the list.
pub proof fn lemma_gift_order_kept(items: Vec<Node>)
    requires
        gifts_spec(Node::List(items)) is Ok,
    ensures
        gifts_spec(Node::List(items))->Ok_0.len() == items@.len(),
        forall|i: int|
            0 <= i < items@.len() ==> gift_spec(#[trigger] items@[i]) == Ok::<GiftView, Failure>(
                gifts_spec(Node::List(items))->Ok_0[i],
            ),
{
    lemma_gifts_prefix_ok(items@, items@.len() as int);
}

/// An encoded gift decodes to the same gift.
pub proof fn lemma_gift_round_trip(n: Node, g: GiftView)
    requires
        gift_node(n, g),
    ensures
        gift_spec(n) == Ok::<GiftView, Failure>(g),
{
    lemma_keys_distinct();
    reveal_with_fuel(find_from, 4);
}

/// The first `k` items of a list of encoded gifts decode to the first `k` gifts.
proof fn lemma_gifts_prefix_round_trip(items: Vec<Node>, gs: Seq<GiftView>, k: int)
    requires
        gifts_node(Node::List(items), gs),
        0 <= k <= gs.len(),
    ensures
        gifts_prefix(items@, k) == Ok::<Seq<GiftView>, Failure>(gs.subrange(0, k)),
    decreases k,
{
    if k == 0 {
        assert(gs.subrange(0, 0) =~= seq![]);
    } else {
        lemma_gifts_prefix_round_trip(items, gs, k - 1);
        assert(gift_node(items@[k - 1], gs[k - 1]));
        lemma_gift_round_trip(items@[k - 1], gs[k - 1]);
        assert(gs.subrange(0, k) =~= gs.subrange(0, k - 1).push(gs[k - 1]));
    }
}

/// A list of encoded gifts decodes to the same gifts, in the same order.
pub proof fn lemma_gifts_round_trip(n: Node, gs: Seq<GiftView>)
    requires
        gifts_node(n, gs),
    ensures
        gifts_spec(n) == Ok::<Seq<GiftView>, Failure>(gs),
{
    if let Node::List(items) = n {
        lemma_gifts_prefix_round_trip(items, gs, gs.len() as int);
        assert(gs.subrange(0, gs.len() as int) =~= gs);
    }
}

/// An encoded event decodes to the same event: the tag that encoding puts on the
/// date is taken off again.
pub proof fn lemma_event_round_trip(n: Node, e: EventView)
    requires
        event_node(n, e),
    ensures
        event_spec(n) == Ok::<EventView, Failure>(e),
{
    lemma_keys_distinct();
    reveal_with_fuel(find_from, 3);
    lemma_date_round_trip(e.date);
}

/// An encoded public tariff decodes to the same tariff.
pub proof fn lemma_public_tariff_round_trip(n: Node, t: PublicTariffView)
    requires
        public_tariff_node(n, t),
        t.duration.readable(),
    ensures
        public_tariff_spec(n) == Ok::<PublicTariffView, Failure>(t),
{
    lemma_keys_distinct();
    reveal_with_fuel(find_from, 5);
}

/// An encoded private tariff decodes to the same tariff.
pub proof fn lemma_private_tariff_round_trip(n: Node, t: PrivateTariffView)
    requires
        private_tariff_node(n, t),
        t.duration.readable(),
    ensures
        private_tariff_spec(n) == Ok::<PrivateTariffView, Failure>(t),
{
    lemma_keys_distinct();
    reveal_with_fuel(find_from, 4);
}

/// An encoded stream decodes to the same stream, provided that its URL reads back
/// as itself and its duration texts are within the tally.
pub proof fn lemma_stream_round_trip(n: Node, s: StreamView)
    requires
        stream_node(n, s),
        s.public_tariff.duration.readable(),
        s.private_tariff.duration.readable(),
        url_text_of(s.shard_url) == Some(s.shard_url),
    ensures
        stream_spec(n) == Ok::<StreamView, Failure>(s),
{
    lemma_keys_distinct();
    reveal_with_fuel(find_from, 7);
    let es = n->Object_0@;
    lemma_public_tariff_round_trip(es[4].value, s.public_tariff);
    lemma_private_tariff_round_trip(es[5].value, s.private_tariff);
}

/// An encoded debug record decodes to the same record, provided that its
/// timestamp text reads back as the same instant and its duration text is within
/// the tally.
pub proof fn lemma_debug_round_trip(n: Node, d: DebugInfoView)
    requires
        debug_node(n, d),
        d.duration.readable(),
        utc_instant_of(utc_text_of(d.at.secs, d.at.nanos)->Some_0) == Some((d.at.secs, d.at.nanos)),
    ensures
        debug_spec(n) == Ok::<DebugInfoView, Failure>(d),
{
    lemma_keys_distinct();
    reveal_with_fuel(find_from, 3);
}

/// The texts that url and chrono write for a request read back: its URL as
/// itself, and its timestamp as the same instant.
pub open spec fn reads_back(q: RequestView) -> bool {
    &&& url_text_of(q.stream.shard_url) == Some(q.stream.shard_url)
    &&& utc_instant_of(utc_text_of(q.debug.at.secs, q.debug.at.nanos)->Some_0) == Some(
        (q.debug.at.secs, q.debug.at.nanos),
    )
}

/// A request decoded from a document `m`, once encoded as `n`, decodes from `n`
/// to the same request, field for field and with the gifts in order, provided
/// that its URL and timestamp texts read back.
pub proof fn lemma_request_round_trip(m: Node, n: Node, q: RequestView)
    requires
        request_spec(m) == Ok::<RequestView, Failure>(q),
        request_node(n, q),
        reads_back(q),
    ensures
        request_spec(n) == Ok::<RequestView, Failure>(q),
{
    lemma_keys_distinct();
    reveal_with_fuel(find_from, 5);
    reveal_strlit("success");
    reveal_strlit("failure");
    assert("success"@[0] != "failure"@[0]);
    let stream = field_spec(m, Field::Stream)->Ok_0;
    assert(stream_spec(stream) == Ok::<StreamView, Failure>(q.stream));
    assert(public_tariff_spec(field_spec(stream, Field::PublicTariff)->Ok_0) is Ok);
    assert(private_tariff_spec(field_spec(stream, Field::PrivateTariff)->Ok_0) is Ok);
    assert(debug_spec(field_spec(m, Field::DebugInfo)->Ok_0) is Ok);
    let es = n->Object_0@;
    lemma_stream_round_trip(es[1].value, q.stream);
    lemma_gifts_round_trip(es[2].value, q.gifts);
    lemma_debug_round_trip(es[3].value, q.debug);
}

/// A request type other than `success` or `failure` is refused.
pub proof fn lemma_unknown_type_rejected(n: Node)
    requires
        text_field(n, Field::Type) is Ok,
        text_field(n, Field::Type)->Ok_0 != "success"@,
        text_field(n, Field::Type)->Ok_0 != "failure"@,
    ensures
        request_spec(n) is Err,
{
    assert(type_of_token(text_field(n, Field::Type)->Ok_0) is None);
}

pub open spec fn has(n: Node, f: Field) -> bool {
    get(n, key_of(f)) is Some
}

pub open spec fn part(n: Node, f: Field) -> Node {
    get(n, key_of(f))->Some_0
}

/// Only a complete document decodes: where a request decodes, every required
/// field, at the top and in each nested object and gift, is present. A document
/// missing any of them is refused.
pub proof fn lemma_decoded_is_complete(n: Node)
    requires
        request_spec(n) is Ok,
    ensures
        has(n, Field::Type) && has(n, Field::Stream) && has(n, Field::Gifts) && has(
            n,
            Field::DebugInfo,
        ),
        has(part(n, Field::Stream), Field::UserId) && has(part(n, Field::Stream), Field::IsPrivate)
            && has(part(n, Field::Stream), Field::Settings) && has(
            part(n, Field::Stream),
            Field::ShardUrl,
        ) && has(part(n, Field::Stream), Field::PublicTariff) && has(
            part(n, Field::Stream),
            Field::PrivateTariff,
        ),
        has(part(part(n, Field::Stream), Field::PublicTariff), Field::Id) && has(
            part(part(n, Field::Stream), Field::PublicTariff),
            Field::Price,
        ) && has(part(part(n, Field::Stream), Field::PublicTariff), Field::Duration) && has(
            part(part(n, Field::Stream), Field::PublicTariff),
            Field::Description,
        ),
        has(part(part(n, Field::Stream), Field::PrivateTariff), Field::ClientPrice) && has(
            part(part(n, Field::Stream), Field::PrivateTariff),
            Field::Duration,
        ) && has(part(part(n, Field::Stream), Field::PrivateTariff), Field::Description),
        has(part(n, Field::DebugInfo), Field::Duration) && has(
            part(n, Field::DebugInfo),
            Field::At,
        ),
        part(n, Field::Gifts) is List,
        forall|i: int|
            0 <= i < part(n, Field::Gifts)->List_0@.len() ==> has(
                #[trigger] part(n, Field::Gifts)->List_0@[i],
                Field::Id,
            ) && has(part(n, Field::Gifts)->List_0@[i], Field::Price) && has(
                part(n, Field::Gifts)->List_0@[i],
                Field::Description,
            ),
{
    let s = part(n, Field::Stream);
    assert(field_spec(n, Field::Stream) == Ok::<Node, Failure>(s));
    assert(stream_spec(s) is Ok);
    let g = part(n, Field::Gifts);
    assert(gifts_spec(g) is Ok);
    if let Node::List(items) = g {
        lemma_gift_order_kept(items);
        assert forall|i: int| 0 <= i < items@.len() implies has(#[trigger] items@[i], Field::Id)
            && has(items@[i], Field::Price) && has(items@[i], Field::Description) by {
            assert(gift_spec(items@[i]) is Ok);
        }
    }
}

} // verus!
