use vstd::prelude::*;

verus! {

/// An elapsed time, to the nanosecond.
#[derive(PartialEq, Eq, Structural, Clone, Copy, Debug)]
pub struct TimeSpan {
    pub secs: u64,
    /// Always under one second.
    pub nanos: u32,
}

/// The value that humantime reads from a duration expression, as whole seconds and
/// nanoseconds, or `None` where it rejects the expression.
pub uninterp spec fn humantime_value(s: Seq<char>) -> Option<(u64, u32)>;

/// The expression that humantime writes for an elapsed time.
pub uninterp spec fn humantime_text(secs: u64, nanos: u32) -> Seq<char>;

/// The largest tally, in nanoseconds, of an expression handed to humantime: the
/// largest `Duration` in whole seconds.
pub const TALLY_LIMIT: u128 = 18_446_744_073_709_551_615_000_000_000;

/// humantime's largest unit, a year of 365.25 days, in nanoseconds.
pub const YEAR_NS: u128 = 31_557_600_000_000_000;

pub open spec fn is_digit(c: char) -> bool {
    '0' <= c <= '9'
}

/// The ASCII characters that humantime, like `char::is_whitespace`, skips.
pub open spec fn is_space(c: char) -> bool {
    c == ' ' || ('\t' <= c <= '\r')
}

pub open spec fn is_letter(c: char) -> bool {
    ('a' <= c <= 'z') || ('A' <= c <= 'Z') || c == 'µ'
}

/// ASCII, or the micro sign of humantime's `µs`.
pub open spec fn is_plain(c: char) -> bool {
    (c as u32) < 128 || c == 'µ'
}

/// At least the length, in nanoseconds, of the unit whose name starts with `c`
/// followed by `next`: exact for each of humantime's unit names, a year otherwise.
pub open spec fn unit_weight(c: char, next: char) -> int {
    if c == 'n' {
        1
    } else if c == 'u' || c == 'µ' {
        1_000
    } else if c == 'm' {
        if next == 's' {
            1_000_000
        } else if next == 'o' {
            2_630_016_000_000_000
        } else {
            60_000_000_000
        }
    } else if c == 's' {
        1_000_000_000
    } else if c == 'h' {
        3_600_000_000_000
    } else if c == 'd' {
        86_400_000_000_000
    } else if c == 'w' {
        604_800_000_000_000
    } else if c == 'M' {
        2_630_016_000_000_000
    } else {
        31_557_600_000_000_000
    }
}

pub open spec fn next_char(s: Seq<char>, i: int) -> char {
    if i + 1 < s.len() {
        s[i + 1]
    } else {
        ' '
    }
}

/// Reading the first `i` characters: the tally of the numbers that have ended,
/// the value of the number in progress, and whether one is in progress. As in
/// humantime, a number's digits may be split by whitespace; it ends at its unit,
/// where it counts its value plus one in that unit, or at any other character,
/// where it counts its value plus one in years.
pub open spec fn scan_upto(s: Seq<char>, i: int) -> (int, int, bool)
    decreases i,
{
    if i <= 0 {
        (0, 0, false)
    } else {
        let p = scan_upto(s, i - 1);
        let c = s[i - 1];
        if is_digit(c) {
            if p.2 {
                (p.0, p.1 * 10 + (c as int - '0' as int), true)
            } else {
                (p.0, c as int - '0' as int, true)
            }
        } else if is_space(c) || !p.2 {
            p
        } else if is_letter(c) {
            (p.0 + (p.1 + 1) * unit_weight(c, next_char(s, i - 1)), 0, false)
        } else {
            (p.0 + (p.1 + 1) * 31_557_600_000_000_000, 0, false)
        }
    }
}

/// What the first `i` characters have counted so far, a number in progress at
/// its value plus one.
pub open spec fn counted(s: Seq<char>, i: int) -> int {
    let p = scan_upto(s, i);
    p.0 + if p.2 {
        p.1 + 1
    } else {
        0
    }
}

/// An upper bound, in nanoseconds, on every partial sum that humantime's parser
/// forms while reading `s`: each number whole or fractional counts as its value
/// plus one in its unit (in years where the unit is unclear or absent).
pub open spec fn tally(s: Seq<char>) -> int {
    let p = scan_upto(s, s.len() as int);
    p.0 + if p.2 {
        (p.1 + 1) * 31_557_600_000_000_000
    } else {
        0
    }
}

/// Expressions that humantime reads without panicking. humantime's partial sums
/// are exact, and the carry in `Duration::new` overflows only where one of them
/// reaches 2^64 seconds; within the tally none can.
pub open spec fn within_tally(s: Seq<char>) -> bool {
    &&& forall|i: int| 0 <= i < s.len() ==> is_plain(#[trigger] s[i])
    &&& tally(s) <= TALLY_LIMIT
}

proof fn lemma_weight_grows(v: int, w: int)
    requires
        v >= 0,
        w >= 1,
    ensures
        (v + 1) * w >= v + 1,
{
    assert((v + 1) * w >= v + 1) by (nonlinear_arith)
        requires
            v >= 0,
            w >= 1,
    ;
}

proof fn lemma_scan_nonneg(s: Seq<char>, i: int)
    ensures
        scan_upto(s, i).0 >= 0,
        scan_upto(s, i).1 >= 0,
    decreases i,
{
    if i > 0 {
        lemma_scan_nonneg(s, i - 1);
        let p = scan_upto(s, i - 1);
        lemma_weight_grows(p.1, unit_weight(s[i - 1], next_char(s, i - 1)));
        lemma_weight_grows(p.1, 31_557_600_000_000_000);
        assert(p.1 * 10 >= 0) by (nonlinear_arith)
            requires
                p.1 >= 0,
        ;
    }
}

proof fn lemma_counted_step(s: Seq<char>, j: int)
    requires
        0 < j,
    ensures
        counted(s, j - 1) <= counted(s, j),
{
    lemma_scan_nonneg(s, j - 1);
    let p = scan_upto(s, j - 1);
    lemma_weight_grows(p.1, unit_weight(s[j - 1], next_char(s, j - 1)));
    lemma_weight_grows(p.1, 31_557_600_000_000_000);
    assert(p.1 * 10 >= p.1) by (nonlinear_arith)
        requires
            p.1 >= 0,
    ;
}

/// What is counted only grows, up to the tally of the whole expression.
proof fn lemma_counted_grows(s: Seq<char>, i: int, j: int)
    requires
        0 <= i <= j <= s.len(),
    ensures
        counted(s, i) <= counted(s, j),
        counted(s, j) <= tally(s),
    decreases j - i,
{
    if j > i {
        lemma_counted_grows(s, i, j - 1);
        lemma_counted_step(s, j);
        lemma_counted_to_end(s, j);
    } else {
        lemma_counted_to_end(s, j);
    }
}

proof fn lemma_counted_to_end(s: Seq<char>, j: int)
    requires
        0 <= j <= s.len(),
    ensures
        counted(s, j) <= tally(s),
    decreases s.len() - j,
{
    if j < s.len() {
        lemma_counted_step(s, j + 1);
        lemma_counted_to_end(s, j + 1);
    } else {
        lemma_scan_nonneg(s, j);
        lemma_weight_grows(scan_upto(s, j).1, 31_557_600_000_000_000);
    }
}

fn weight_of(c: char, next: char) -> (w: u128)
    ensures
        w as int == unit_weight(c, next),
        w >= 1,
{
    if c == 'n' {
        1
    } else if c == 'u' || c == 'µ' {
        1_000
    } else if c == 'm' {
        if next == 's' {
            1_000_000
        } else if next == 'o' {
            2_630_016_000_000_000
        } else {
            60_000_000_000
        }
    } else if c == 's' {
        1_000_000_000
    } else if c == 'h' {
        3_600_000_000_000
    } else if c == 'd' {
        86_400_000_000_000
    } else if c == 'w' {
        604_800_000_000_000
    } else if c == 'M' {
        2_630_016_000_000_000
    } else {
        YEAR_NS
    }
}

/// Whether `(v + 1) * w` more fits under the limit after `closed`.
fn room_for(closed: u128, v: u128, w: u128) -> (r: bool)
    requires
        closed <= TALLY_LIMIT,
        w >= 1,
    ensures
        r == (closed + (v + 1) * w <= TALLY_LIMIT),
{
    let room = TALLY_LIMIT - closed;
    let q = room / w;
    proof {
        let vv = v as int + 1;
        assert(vv <= q ==> vv * w <= room) by (nonlinear_arith)
            requires
                q == room / w,
                w >= 1,
                room >= 0,
        ;
        assert(vv > q ==> vv * w > room) by (nonlinear_arith)
            requires
                q == room / w,
                w >= 1,
                room >= 0,
        ;
    }
    v < q
}

/// Whether an expression is within the tally that humantime can read safely.
pub fn fits_tally(s: &str) -> (r: bool)
    ensures
        r == within_tally(s@),
{
    let n = s.unicode_len();
    let mut closed: u128 = 0;
    let mut value: u128 = 0;
    let mut open = false;
    let mut i: usize = 0;
    while i < n
        invariant
            n == s@.len(),
            i <= n,
            closed as int == scan_upto(s@, i as int).0,
            value as int == scan_upto(s@, i as int).1,
            open == scan_upto(s@, i as int).2,
            counted(s@, i as int) <= TALLY_LIMIT,
            forall|k: int| 0 <= k < i ==> is_plain(#[trigger] s@[k]),
        decreases n - i,
    {
        proof {
            lemma_counted_grows(s@, i as int, i as int);
            lemma_counted_grows(s@, i as int + 1, n as int);
        }
        let c = s.get_char(i);
        if !((c as u32) < 128 || c == 'µ') {
            return false;
        }
        if '0' <= c && c <= '9' {
            let d = (c as u32 - '0' as u32) as u128;
            let v = if open {
                value * 10 + d
            } else {
                d
            };
            if closed + v + 1 > TALLY_LIMIT {
                return false;
            }
            value = v;
            open = true;
        } else if c == ' ' || ('\t' <= c && c <= '\r') || !open {
        } else {
            let next = if i + 1 < n {
                s.get_char(i + 1)
            } else {
                ' '
            };
            let w = if ('a' <= c && c <= 'z') || ('A' <= c && c <= 'Z') || c == 'µ' {
                weight_of(c, next)
            } else {
                YEAR_NS
            };
            if !room_for(closed, value, w) {
                return false;
            }
            closed = closed + (value + 1) * w;
            value = 0;
            open = false;
        }
        i = i + 1;
    }
    proof {
        lemma_counted_grows(s@, n as int, n as int);
    }
    if open {
        room_for(closed, value, YEAR_NS)
    } else {
        true
    }
}

/// Relies on humantime::parse_duration, which reads expressions such as
/// `1h 12min 5s`, and on `Duration::subsec_nanos`, which is under one second.
/// Within the tally, which joins digits across whitespace as humantime does and
/// weighs each number by its unit, every partial sum stays at or below the
/// largest `Duration`'s whole seconds, short of the 2^64 seconds at which the
/// carry in `Duration::new` overflows, so the call cannot panic.
#[verifier::external_body]
fn parse_human(s: &str) -> (r: Option<TimeSpan>)
    requires
        within_tally(s@),
    ensures
        match r {
            Some(t) => humantime_value(s@) == Some((t.secs, t.nanos)) && t.nanos < 1_000_000_000,
            None => humantime_value(s@) is None,
        },
{
    match humantime::parse_duration(s) {
        Ok(d) => Some(TimeSpan { secs: d.as_secs(), nanos: d.subsec_nanos() }),
        Err(_) => None,
    }
}

/// Relies on humantime::format_duration, whose output is documented to read back
/// through `parse_duration` as the same value.
#[verifier::external_body]
fn format_human(secs: u64, nanos: u32) -> (r: String)
    requires
        nanos < 1_000_000_000,
    ensures
        r@ == humantime_text(secs, nanos),
        humantime_value(r@) == Some((secs, nanos)),
{
    humantime::format_duration(std::time::Duration::new(secs, nanos)).to_string()
}

/// What `TimeSpan::read` gives for an expression: humantime's value, where both
/// the expression and the text humantime writes for that value are within the tally.
pub open spec fn read_spec(s: Seq<char>) -> Option<TimeSpan> {
    if !within_tally(s) {
        None
    } else {
        match humantime_value(s) {
            Some(p) => if within_tally(humantime_text(p.0, p.1)) {
                Some(TimeSpan { secs: p.0, nanos: p.1 })
            } else {
                None
            },
            None => None,
        }
    }
}

impl TimeSpan {
    pub open spec fn wf(self) -> bool {
        self.nanos < 1_000_000_000
    }

    /// The text that humantime writes for the span is within the tally.
    pub open spec fn readable(self) -> bool {
        within_tally(humantime_text(self.secs, self.nanos))
    }

    /// The span in nanoseconds.
    pub open spec fn total_nanos(self) -> int {
        self.secs * 1_000_000_000 + self.nanos
    }

    /// A span of whole milliseconds.
    pub fn from_millis(ms: u64) -> (r: TimeSpan)
        ensures
            r.wf(),
            r.total_nanos() == ms * 1_000_000,
    {
        let r = TimeSpan { secs: ms / 1000, nanos: ((ms % 1000) * 1_000_000) as u32 };
        assert(r.total_nanos() == ms * 1_000_000) by (nonlinear_arith)
            requires
                r.secs == ms / 1000,
                r.nanos == (ms % 1000) * 1_000_000,
        ;
        r
    }

    /// Reads a human-readable duration expression (`233ms`, `1h`, `2days`,
    /// `1h 30m`), or `None` where it is not one.
    pub fn parse(s: &str) -> (r: Option<TimeSpan>)
        requires
            within_tally(s@),
        ensures
            match r {
                Some(t) => t.wf() && humantime_value(s@) == Some((t.secs, t.nanos)),
                None => humantime_value(s@) is None,
            },
    {
        parse_human(s)
    }

    /// Reads a duration expression like `parse`, or gives `None` where the
    /// expression, or the one that humantime writes for the span it reads, lies
    /// beyond the tally that can be read safely.
    pub fn read(s: &str) -> (r: Option<TimeSpan>)
        ensures
            r == read_spec(s@),
            r matches Some(t) ==> t.wf(),
    {
        if !fits_tally(s) {
            return None;
        }
        match TimeSpan::parse(s) {
            Some(t) => {
                let text = t.to_text();
                if fits_tally(text.as_str()) {
                    Some(t)
                } else {
                    None
                }
            },
            None => None,
        }
    }

    /// Writes the span as a human-readable expression, which humantime reads back
    /// as the same span. Where the span is one that `read` gave, `read` gives it
    /// back from the text: decoding, encoding and decoding again yields what the
    /// first decoding gave.
    pub fn to_text(&self) -> (r: String)
        requires
            self.wf(),
        ensures
            r@ == humantime_text(self.secs, self.nanos),
            humantime_value(r@) == Some((self.secs, self.nanos)),
            self.readable() ==> read_spec(r@) == Some(*self),
    {
        format_human(self.secs, self.nanos)
    }
}

} // verus!
