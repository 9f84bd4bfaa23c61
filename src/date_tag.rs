use vstd::prelude::*;

verus! {

/// The tag that a date carries on the wire.
pub open spec fn date_tag() -> Seq<char> {
    seq!['D', 'a', 't', 'e', ':', ' ']
}

pub open spec fn has_date_tag(s: Seq<char>) -> bool {
    s.len() >= date_tag().len() && s.subrange(0, date_tag().len() as int) == date_tag()
}

/// A stored date as it stands on the wire: always tagged.
pub open spec fn tagged(date: Seq<char>) -> Seq<char> {
    date_tag() + date
}

/// A date read from the wire: the tag is removed where it leads, and an untagged
/// value is kept as it is.
pub open spec fn untagged(s: Seq<char>) -> Seq<char> {
    if has_date_tag(s) {
        s.subrange(date_tag().len() as int, s.len() as int)
    } else {
        s
    }
}

/// Writes a date for the wire, prefixed with its tag.
pub fn encode_date(date: &str) -> (r: String)
    ensures
        r@ == tagged(date@),
{
    let mut r = "Date: ".to_string();
    proof {
        reveal_strlit("Date: ");
    }
    assert(r@ == date_tag());
    r.append(date);
    r
}

/// Reads a date from the wire. A value that does not begin with the tag is
/// accepted unchanged: the reading is deliberately lenient.
pub fn decode_date(s: &str) -> (r: String)
    ensures
        r@ == untagged(s@),
{
    let tag = "Date: ";
    proof {
        reveal_strlit("Date: ");
    }
    assert(tag@ == date_tag());
    let n = s.unicode_len();
    if n >= 6 {
        let head = s.substring_char(0, 6);
        if crate::node::same_text(head, tag) {
            return s.substring_char(6, n).to_owned();
        }
    }
    proof {
        if has_date_tag(s@) {
            assert(s@.subrange(0, 6) == tag@);
        }
    }
    s.to_owned()
}

/// Decoding an encoded date gives the date back, whatever it holds.
pub proof fn lemma_date_round_trip(s: Seq<char>)
    ensures
        untagged(tagged(s)) == s,
{
    let t = tagged(s);
    assert(t.subrange(0, date_tag().len() as int) == date_tag());
    assert(t.subrange(date_tag().len() as int, t.len() as int) == s);
}

/// A value without the leading tag decodes to itself.
pub proof fn lemma_untagged_kept(s: Seq<char>)
    requires
        !has_date_tag(s),
    ensures
        untagged(s) == s,
{
}

} // verus!
