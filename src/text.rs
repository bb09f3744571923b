//! Character-level helpers: whitespace, literal comparison, tokens.
use vstd::prelude::*;
use vstd::std_specs::iter::IteratorSpec;

verus! {

/// The Unicode `White_Space` property, which is also what
/// `char::is_whitespace` and `str::split_whitespace` go by.
pub open spec fn white_space(c: char) -> bool {
    ('\u{9}' <= c && c <= '\u{d}') || c == ' ' || c == '\u{85}' || c == '\u{a0}'
        || c == '\u{1680}' || ('\u{2000}' <= c && c <= '\u{200a}') || c == '\u{2028}'
        || c == '\u{2029}' || c == '\u{202f}' || c == '\u{205f}' || c == '\u{3000}'
}

/// Tests `c` for the Unicode `White_Space` property.
pub fn is_white_space(c: char) -> (r: bool)
    ensures
        r == white_space(c),
{
    ('\u{9}' <= c && c <= '\u{d}') || c == ' ' || c == '\u{85}' || c == '\u{a0}'
        || c == '\u{1680}' || ('\u{2000}' <= c && c <= '\u{200a}') || c == '\u{2028}'
        || c == '\u{2029}' || c == '\u{202f}' || c == '\u{205f}' || c == '\u{3000}'
}

/// Whether two strings hold the same characters.
pub fn same_text(a: &str, b: &str) -> (r: bool)
    ensures
        r == (a@ == b@),
{
    let n = a.unicode_len();
    if n != b.unicode_len() {
        return false;
    }
    let mut i: usize = 0;
    while i < n
        invariant
            n == a@.len(),
            n == b@.len(),
            i <= n,
            a@.subrange(0, i as int) == b@.subrange(0, i as int),
        decreases n - i,
    {
        if a.get_char(i) != b.get_char(i) {
            assert(a@[i as int] != b@[i as int]);
            return false;
        }
        assert(a@.subrange(0, i + 1) == a@.subrange(0, i as int).push(a@[i as int]));
        assert(b@.subrange(0, i + 1) == b@.subrange(0, i as int).push(b@[i as int]));
        i = i + 1;
    }
    assert(a@ == a@.subrange(0, n as int));
    assert(b@ == b@.subrange(0, n as int));
    true
}

/// Whether `p` is a prefix of `s`.
pub fn has_prefix(s: &str, p: &str) -> (r: bool)
    ensures
        r == p@.is_prefix_of(s@),
{
    let n = p.unicode_len();
    if n > s.unicode_len() {
        return false;
    }
    let mut i: usize = 0;
    while i < n
        invariant
            n == p@.len(),
            n <= s@.len(),
            i <= n,
            forall|j: int| 0 <= j < i ==> p@[j] == s@[j],
        decreases n - i,
    {
        if p.get_char(i) != s.get_char(i) {
            return false;
        }
        i = i + 1;
    }
    true
}

/// The maximal runs of non-whitespace characters of `s`, in order: the
/// tokens that `str::split_whitespace` yields.
pub open spec fn words(s: Seq<char>) -> Seq<Seq<char>>
    decreases s.len(),
{
    if s.len() == 0 {
        Seq::empty()
    } else {
        let before = words(s.drop_last());
        let c = s.last();
        if white_space(c) {
            before
        } else if s.len() >= 2 && !white_space(s[s.len() - 2]) {
            before.drop_last().push(before.last().push(c))
        } else {
            before.push(seq![c])
        }
    }
}

/// The characters of `s`, in order.
pub fn chars_of(s: &str) -> (r: Vec<char>)
    ensures
        r@ == s@,
{
    let mut out: Vec<char> = Vec::new();
    let mut it = s.chars();
    loop
        invariant
            it.remaining() == s@.subrange(out@.len() as int, s@.len() as int),
            out@ == s@.subrange(0, out@.len() as int),
            out@.len() <= s@.len(),
        ensures
            out@ == s@,
        decreases s@.len() - out@.len(),
    {
        match it.next() {
            Some(c) => {
                out.push(c);
            },
            None => {
                break ;
            },
        }
    }
    out
}

/// The start and end index of each token of `cs`, in order.
pub fn token_spans(cs: &Vec<char>) -> (r: Vec<(usize, usize)>)
    ensures
        r@.len() == words(cs@).len(),
        forall|k: int|
            #![trigger r@[k]]
            0 <= k < r@.len() ==> {
                &&& r@[k].0 <= r@[k].1 <= cs@.len()
                &&& cs@.subrange(r@[k].0 as int, r@[k].1 as int) == words(cs@)[k]
            },
{
    let n = cs.len();
    let mut spans: Vec<(usize, usize)> = Vec::new();
    let mut start: usize = 0;
    let mut inside = false;
    let mut i: usize = 0;
    while i < n
        invariant
            n == cs@.len(),
            i <= n,
            inside == (i > 0 && !white_space(cs@[i - 1])),
            inside ==> start < i,
            ({
                let w = words(cs@.subrange(0, i as int));
                &&& w.len() == spans@.len() + (if inside { 1int } else { 0 })
                &&& inside ==> w.last() == cs@.subrange(start as int, i as int)
                &&& forall|k: int|
                    #![trigger spans@[k]]
                    0 <= k < spans@.len() ==> {
                        &&& spans@[k].0 <= spans@[k].1 <= i
                        &&& cs@.subrange(spans@[k].0 as int, spans@[k].1 as int)
                            == w[k]
                    }
            }),
        decreases n - i,
    {
        let c = cs[i];
        let ghost pre = cs@.subrange(0, i as int);
        let ghost cur = cs@.subrange(0, i + 1);
        assert(cur.drop_last() == pre);
        assert(cur.last() == c);
        let ghost w = words(pre);
        let ghost old_spans = spans@;
        if is_white_space(c) {
            assert(words(cur) == w);
            if inside {
                spans.push((start, i));
                assert(spans@.last() == (start, i));
            }
            inside = false;
        } else {
            if !inside {
                start = i;
                assert(cs@.subrange(start as int, i + 1) == seq![c]);
                assert(words(cur) == w.push(seq![c]));
            } else {
                assert(cs@.subrange(start as int, i + 1) == cs@.subrange(start as int, i as int).push(c));
                assert(words(cur) == w.drop_last().push(w.last().push(c)));
            }
            inside = true;
        }
        assert forall|k: int|
            #![trigger spans@[k]]
            0 <= k < spans@.len() implies {
                &&& spans@[k].0 <= spans@[k].1 <= i + 1
                &&& cs@.subrange(spans@[k].0 as int, spans@[k].1 as int) == words(cur)[k]
            } by {
            if k < old_spans.len() {
                assert(spans@[k] == old_spans[k]);
                assert(old_spans[k].0 <= old_spans[k].1 <= i);
                assert(words(cur)[k] == w[k]);
            }
        }
        i = i + 1;
    }
    if inside {
        spans.push((start, n));
    }
    assert(cs@.subrange(0, n as int) == cs@);
    spans
}

/// Whether `c` is an ASCII decimal digit.
pub open spec fn is_digit(c: char) -> bool {
    '0' <= c && c <= '9'
}

/// The number that a run of decimal digits spells.
pub open spec fn decimal_value(s: Seq<char>) -> nat
    decreases s.len(),
{
    if s.len() == 0 {
        0
    } else {
        decimal_value(s.drop_last()) * 10 + ((s.last() as u32) - ('0' as u32)) as nat
    }
}

/// The digits of an unsigned number's text: one leading `+` is allowed.
pub open spec fn unsigned_digits(s: Seq<char>) -> Seq<char> {
    if s.len() > 0 && s[0] == '+' {
        s.drop_first()
    } else {
        s
    }
}

/// What `str::parse::<u16>` gives: an optional `+`, then one or more ASCII
/// digits whose value fits in 16 bits.
pub open spec fn u16_value(s: Seq<char>) -> Option<u16> {
    let d = unsigned_digits(s);
    if d.len() > 0 && (forall|i: int| 0 <= i < d.len() ==> is_digit(#[trigger] d[i]))
        && decimal_value(d) <= u16::MAX {
        Some(decimal_value(d) as u16)
    } else {
        None
    }
}

/// Reads `s` as a 16-bit unsigned number.
pub fn parse_u16(s: &str) -> (r: Option<u16>)
    ensures
        r == u16_value(s@),
{
    let cs = chars_of(s);
    let n = cs.len();
    let mut i: usize = 0;
    if n > 0 && cs[0] == '+' {
        i = 1;
    }
    let start = i;
    let ghost d = cs@.subrange(start as int, n as int);
    assert(d == unsigned_digits(s@));
    if start == n {
        return None;
    }
    let mut acc: u32 = 0;
    while i < n
        invariant
            n == cs@.len(),
            start <= i <= n,
            d == cs@.subrange(start as int, n as int),
            d == unsigned_digits(s@),
            forall|j: int| start <= j < i ==> is_digit(#[trigger] cs@[j]),
            acc == if decimal_value(cs@.subrange(start as int, i as int)) <= 65535 {
                decimal_value(cs@.subrange(start as int, i as int))
            } else {
                65536
            },
        decreases n - i,
    {
        let c = cs[i];
        if !('0' <= c && c <= '9') {
            assert(d[i - start] == c);
            assert(!is_digit(d[i - start]));
            return None;
        }
        let ghost pre = cs@.subrange(start as int, i as int);
        let ghost cur = cs@.subrange(start as int, i + 1);
        assert(cur.drop_last() == pre);
        let dig: u32 = (c as u32) - ('0' as u32);
        assert(decimal_value(cur) == decimal_value(pre) * 10 + dig);
        if acc > 65535 {
            assert(decimal_value(cur) > 65535) by (nonlinear_arith)
                requires
                    decimal_value(pre) > 65535,
                    decimal_value(cur) == decimal_value(pre) * 10 + dig,
            ;
        } else {
            let next = acc * 10 + dig;
            if next > 65535 {
                acc = 65536;
            } else {
                acc = next;
            }
        }
        i = i + 1;
    }
    assert(cs@.subrange(start as int, n as int) == d);
    assert forall|j: int| 0 <= j < d.len() implies is_digit(#[trigger] d[j]) by {
        assert(d[j] == cs@[start + j]);
    }
    if acc > 65535 {
        None
    } else {
        Some(acc as u16)
    }
}

} // verus!
