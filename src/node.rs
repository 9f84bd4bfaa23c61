use vstd::prelude::*;

verus! {

/// A generic document tree: what a structured text format holds once parsed.
#[derive(Debug)]
pub enum Node {
    Null,
    Bool(bool),
    /// An integral number.
    Int(i128),
    /// A number with a fractional part or an exponent.
    Real,
    Text(String),
    List(Vec<Node>),
    /// Keyed entries, in the order in which the document writes them.
    Object(Vec<Entry>),
}

/// One keyed entry of an object.
#[derive(Debug)]
pub struct Entry {
    pub key: String,
    pub value: Node,
}

/// The value of the first entry at or after index `i` whose key is `key`.
pub open spec fn find_from(entries: Seq<Entry>, key: Seq<char>, i: int) -> Option<Node>
    decreases entries.len() - i,
{
    if i < 0 || i >= entries.len() {
        None
    } else if entries[i].key@ == key {
        Some(entries[i].value)
    } else {
        find_from(entries, key, i + 1)
    }
}

/// The value that an object holds under `key` (the first one, if the key repeats).
pub open spec fn get(n: Node, key: Seq<char>) -> Option<Node> {
    match n {
        Node::Object(entries) => find_from(entries@, key, 0),
        _ => None,
    }
}

/// Whether two strings hold the same characters.
pub fn same_text(a: &str, b: &str) -> (r: bool)
    ensures
        r == (a@ == b@),
{
    let n = a.unicode_len();
    if n != b.unicode_len() {
        return false;
    }
    let mut i: usize = 0;
    while i < n
        invariant
            n == a@.len(),
            n == b@.len(),
            i <= n,
            a@.subrange(0, i as int) == b@.subrange(0, i as int),
        decreases n - i,
    {
        if a.get_char(i) != b.get_char(i) {
            return false;
        }
        assert(a@.subrange(0, i + 1) == a@.subrange(0, i as int).push(a@[i as int]));
        assert(b@.subrange(0, i + 1) == b@.subrange(0, i as int).push(b@[i as int]));
        i = i + 1;
    }
    assert(a@ == a@.subrange(0, n as int));
    assert(b@ == b@.subrange(0, n as int));
    true
}

/// The index of the first entry whose key is `key`.
pub fn find_key(entries: &Vec<Entry>, key: &str) -> (r: Option<usize>)
    ensures
        match r {
            Some(k) => k < entries@.len() && entries@[k as int].key@ == key@ && find_from(
                entries@,
                key@,
                0,
            ) == Some(entries@[k as int].value),
            None => find_from(entries@, key@, 0) is None,
        },
{
    let mut i: usize = 0;
    while i < entries.len()
        invariant
            i <= entries@.len(),
            find_from(entries@, key@, 0) == find_from(entries@, key@, i as int),
        decreases entries@.len() - i,
    {
        if same_text(entries[i].key.as_str(), key) {
            return Some(i);
        }
        i = i + 1;
    }
    None
}

} // verus!
