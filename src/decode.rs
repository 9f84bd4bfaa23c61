use crate::date_tag::decode_date;
use crate::field::{
    agrees, agrees_view, fail, field_of, here, read_bool, read_duration, read_instant, read_str,
    read_text, read_u32, read_url, read_uuid, DecodeError, Failure, Field, Reason, Step,
};
use crate::node::{same_text, Node};
use crate::schema::{
    debug_spec, event_spec, gift_spec, gifts_prefix, gifts_spec, is_object, private_tariff_spec,
    public_tariff_spec, request_spec, stream_spec, type_field, DebugInfo, Event, Gift, GiftView,
    PrivateTariff, PublicTariff, Request, RequestType, Stream,
};
use vstd::prelude::*;

verus! {

fn expect_object(n: &Node) -> (r: Result<(), DecodeError>)
    ensures
        r is Ok <==> is_object(*n),
        r matches Err(e) ==> e@ == here(Reason::WrongShape),
{
    match n {
        Node::Object(_) => Ok(()),
        _ => {
            let e = DecodeError { path: Vec::new(), reason: Reason::WrongShape };
            assert(e.path@ =~= seq![]);
            Err(e)
        },
    }
}

/// Reads the request type from its token, `success` or `failure`; any other token fails.
pub fn read_type(n: &Node, f: Field) -> (r: Result<RequestType, DecodeError>)
    ensures
        agrees(r, type_field(*n, f)),
{
    let s = match read_str(n, f) {
        Ok(s) => s,
        Err(e) => return Err(e),
    };
    if same_text(s, "success") {
        Ok(RequestType::Success)
    } else if same_text(s, "failure") {
        Ok(RequestType::Failure)
    } else {
        Err(fail(f, Reason::UnknownType))
    }
}

pub fn decode_public_tariff(n: &Node) -> (r: Result<PublicTariff, DecodeError>)
    ensures
        agrees_view(r, public_tariff_spec(*n)),
        r matches Ok(t) ==> t.wf(),
{
    if let Err(e) = expect_object(n) {
        return Err(e);
    }
    let id = match read_u32(n, Field::Id) {
        Ok(x) => x,
        Err(e) => return Err(e),
    };
    let price = match read_u32(n, Field::Price) {
        Ok(x) => x,
        Err(e) => return Err(e),
    };
    let duration = match read_duration(n, Field::Duration) {
        Ok(x) => x,
        Err(e) => return Err(e),
    };
    let description = match read_text(n, Field::Description) {
        Ok(x) => x,
        Err(e) => return Err(e),
    };
    Ok(PublicTariff { id, price, duration, description })
}

pub fn decode_private_tariff(n: &Node) -> (r: Result<PrivateTariff, DecodeError>)
    ensures
        agrees_view(r, private_tariff_spec(*n)),
        r matches Ok(t) ==> t.wf(),
{
    if let Err(e) = expect_object(n) {
        return Err(e);
    }
    let client_price = match read_u32(n, Field::ClientPrice) {
        Ok(x) => x,
        Err(e) => return Err(e),
    };
    let duration = match read_duration(n, Field::Duration) {
        Ok(x) => x,
        Err(e) => return Err(e),
    };
    let description = match read_text(n, Field::Description) {
        Ok(x) => x,
        Err(e) => return Err(e),
    };
    Ok(PrivateTariff { client_price, duration, description })
}

pub fn decode_stream(n: &Node) -> (r: Result<Stream, DecodeError>)
    ensures
        agrees_view(r, stream_spec(*n)),
        r matches Ok(s) ==> s.wf(),
{
    if let Err(e) = expect_object(n) {
        return Err(e);
    }
    let user_id = match read_uuid(n, Field::UserId) {
        Ok(x) => x,
        Err(e) => return Err(e),
    };
    let is_private = match read_bool(n, Field::IsPrivate) {
        Ok(x) => x,
        Err(e) => return Err(e),
    };
    let settings = match read_u32(n, Field::Settings) {
        Ok(x) => x,
        Err(e) => return Err(e),
    };
    let shard_url = match read_url(n, Field::ShardUrl) {
        Ok(x) => x,
        Err(e) => return Err(e),
    };
    let public_tariff = match field_of(n, Field::PublicTariff) {
        Err(e) => return Err(e),
        Ok(v) => match decode_public_tariff(v) {
            Ok(x) => x,
            Err(e) => return Err(e.within(Step::Key(Field::PublicTariff))),
        },
    };
    let private_tariff = match field_of(n, Field::PrivateTariff) {
        Err(e) => return Err(e),
        Ok(v) => match decode_private_tariff(v) {
            Ok(x) => x,
            Err(e) => return Err(e.within(Step::Key(Field::PrivateTariff))),
        },
    };
    Ok(Stream { user_id, is_private, settings, shard_url, public_tariff, private_tariff })
}

pub fn decode_gift(n: &Node) -> (r: Result<Gift, DecodeError>)
    ensures
        agrees_view(r, gift_spec(*n)),
{
    if let Err(e) = expect_object(n) {
        return Err(e);
    }
    let id = match read_u32(n, Field::Id) {
        Ok(x) => x,
        Err(e) => return Err(e),
    };
    let price = match read_u32(n, Field::Price) {
        Ok(x) => x,
        Err(e) => return Err(e),
    };
    let description = match read_text(n, Field::Description) {
        Ok(x) => x,
        Err(e) => return Err(e),
    };
    Ok(Gift { id, price, description })
}

/// Once a prefix of the list fails, every longer prefix fails the same way.
proof fn lemma_gifts_prefix_err(items: Seq<Node>, k: int, m: int)
    requires
        0 <= k <= m,
        gifts_prefix(items, k) is Err,
    ensures
        gifts_prefix(items, m) == gifts_prefix(items, k),
    decreases m - k,
{
    if m > k {
        lemma_gifts_prefix_err(items, k, m - 1);
    }
}

/// Decodes a list of gifts, keeping their order.
pub fn decode_gifts(n: &Node) -> (r: Result<Vec<Gift>, DecodeError>)
    ensures
        match r {
            Ok(v) => gifts_spec(*n) == Ok::<Seq<GiftView>, Failure>(v@.map_values(|g: Gift| g@)),
            Err(e) => gifts_spec(*n) == Err::<Seq<GiftView>, Failure>(e@),
        },
{
    match n {
        Node::List(items) => {
            let mut out: Vec<Gift> = Vec::new();
            let mut i: usize = 0;
            assert(out@.map_values(|g: Gift| g@) =~= seq![]);
            while i < items.len()
                invariant
                    i <= items@.len(),
                    gifts_spec(*n) == gifts_prefix(items@, items@.len() as int),
                    gifts_prefix(items@, i as int) == Ok::<Seq<GiftView>, Failure>(
                        out@.map_values(|g: Gift| g@),
                    ),
                decreases items@.len() - i,
            {
                match decode_gift(&items[i]) {
                    Ok(g) => {
                        let ghost before = out@;
                        out.push(g);
                        assert(out@.map_values(|g: Gift| g@) =~= before.map_values(
                            |g: Gift| g@,
                        ).push(g@));
                    },
                    Err(e) => {
                        let e2 = e.within(Step::Item(i));
                        proof {
                            let k = i + 1;
                            assert(((k - 1) as usize) == i);
                            assert(gifts_prefix(items@, k as int) == Err::<Seq<GiftView>, Failure>(
                                e2@,
                            ));
                            lemma_gifts_prefix_err(items@, i + 1, items@.len() as int);
                            assert(gifts_spec(*n) == Err::<Seq<GiftView>, Failure>(e2@));
                        }
                        return Err(e2);
                    },
                }
                i = i + 1;
            }
            Ok(out)
        },
        _ => {
            let e = DecodeError { path: Vec::new(), reason: Reason::WrongShape };
            assert(e.path@ =~= seq![]);
            Err(e)
        },
    }
}

pub fn decode_debug(n: &Node) -> (r: Result<DebugInfo, DecodeError>)
    ensures
        agrees_view(r, debug_spec(*n)),
        r matches Ok(d) ==> d.wf() && d.writable(),
{
    if let Err(e) = expect_object(n) {
        return Err(e);
    }
    let duration = match read_duration(n, Field::Duration) {
        Ok(x) => x,
        Err(e) => return Err(e),
    };
    let at = match read_instant(n, Field::At) {
        Ok(x) => x,
        Err(e) => return Err(e),
    };
    Ok(DebugInfo { duration, at })
}

/// Decodes a whole request document. Every required field must be present with
/// the right shape and a valid encoding; otherwise the first failure, with the
/// path to it, is returned and no request is built.
pub fn decode_request(n: &Node) -> (r: Result<Request, DecodeError>)
    ensures
        agrees_view(r, request_spec(*n)),
        r matches Ok(q) ==> q.wf() && q.debug.writable(),
{
    if let Err(e) = expect_object(n) {
        return Err(e);
    }
    let request_type = match read_type(n, Field::Type) {
        Ok(x) => x,
        Err(e) => return Err(e),
    };
    let stream = match field_of(n, Field::Stream) {
        Err(e) => return Err(e),
        Ok(v) => match decode_stream(v) {
            Ok(x) => x,
            Err(e) => return Err(e.within(Step::Key(Field::Stream))),
        },
    };
    let gifts = match field_of(n, Field::Gifts) {
        Err(e) => return Err(e),
        Ok(v) => match decode_gifts(v) {
            Ok(x) => x,
            Err(e) => return Err(e.within(Step::Key(Field::Gifts))),
        },
    };
    let debug = match field_of(n, Field::DebugInfo) {
        Err(e) => return Err(e),
        Ok(v) => match decode_debug(v) {
            Ok(x) => x,
            Err(e) => return Err(e.within(Step::Key(Field::DebugInfo))),
        },
    };
    Ok(Request { request_type, stream, gifts, debug })
}

/// Decodes an event; its date loses a leading tag, and is kept as it is without one.
pub fn decode_event(n: &Node) -> (r: Result<Event, DecodeError>)
    ensures
        agrees_view(r, event_spec(*n)),
{
    if let Err(e) = expect_object(n) {
        return Err(e);
    }
    let name = match read_text(n, Field::Name) {
        Ok(x) => x,
        Err(e) => return Err(e),
    };
    let date = match read_str(n, Field::Date) {
        Ok(s) => decode_date(s),
        Err(e) => return Err(e),
    };
    Ok(Event { name, date })
}

} // verus!
