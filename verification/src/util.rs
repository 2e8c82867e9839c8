//! Small text utilities and plain helper types: character scanning,
//! whitespace trimming, decimal parsing, and the parsed display
//! position of the configuration file.
use vstd::prelude::*;
use vstd::string::StrSliceExecFns;
use vstd::string::StringExecFns;

verus! {

/// A compass direction.
#[derive(Clone, Copy, Debug, PartialEq, Eq, Structural)]
pub enum Direction {
    East,
    South,
    North,
    West,
}

/// The whitespace stripped from around keys, values and numbers.
pub open spec fn spec_is_space(c: char) -> bool {
    c == ' ' || c == '\t' || c == '\r' || c == '\n'
}

/// First position of `c` in `s`.
pub open spec fn find_char_spec(s: Seq<char>, c: char) -> Option<nat>
    decreases s.len(),
{
    if s.len() == 0 {
        None
    } else if s[0] == c {
        Some(0nat)
    } else {
        match find_char_spec(s.drop_first(), c) {
            Some(i) => Some(i + 1),
            None => None,
        }
    }
}

/// `find_char_spec` returns the least position holding `c`.
pub proof fn lemma_find_char(s: Seq<char>, c: char)
    ensures
        match find_char_spec(s, c) {
            Some(i) => {
                &&& i < s.len()
                &&& s[i as int] == c
                &&& forall|j: int| 0 <= j < i ==> s[j] != c
            },
            None => forall|j: int| 0 <= j < s.len() ==> s[j] != c,
        },
    decreases s.len(),
{
    if s.len() > 0 && s[0] != c {
        lemma_find_char(s.drop_first(), c);
        assert(forall|j: int| 1 <= j < s.len() ==> #[trigger] s[j] == s.drop_first()[j - 1]);
    }
}

/// First position of `c` in `s`, scanning the characters.
pub fn find_char(s: &str, c: char) -> (r: Option<usize>)
    ensures
        r matches Some(i) ==> find_char_spec(s@, c) == Some(i as nat),
        r is None ==> find_char_spec(s@, c) is None,
{
    proof {
        lemma_find_char(s@, c);
    }
    let n = s.unicode_len();
    let mut i: usize = 0;
    while i < n
        invariant
            n == s@.len(),
            i <= n,
            forall|j: int| 0 <= j < i ==> s@[j] != c,
        decreases n - i,
    {
        if s.get_char(i) == c {
            proof {
                lemma_find_char(s@, c);
                let f = find_char_spec(s@, c);
                if f is Some {
                    if f->0 < i {
                        assert(s@[f->0 as int] != c);
                    }
                    if f->0 > i {
                        assert(s@[i as int] != c);
                    }
                }
            }
            return Some(i);
        }
        i += 1;
    }
    None
}

/// `s` without its leading whitespace.
pub open spec fn trim_front(s: Seq<char>) -> Seq<char>
    decreases s.len(),
{
    if s.len() > 0 && spec_is_space(s[0]) {
        trim_front(s.drop_first())
    } else {
        s
    }
}

/// `s` without its trailing whitespace.
pub open spec fn trim_back(s: Seq<char>) -> Seq<char>
    decreases s.len(),
{
    if s.len() > 0 && spec_is_space(s.last()) {
        trim_back(s.drop_last())
    } else {
        s
    }
}

/// `s` without its outer whitespace.
pub open spec fn spec_trim(s: Seq<char>) -> Seq<char> {
    trim_back(trim_front(s))
}

/// Whether `c` is one of the characters trimming strips.
pub fn is_space(c: char) -> (r: bool)
    ensures
        r == spec_is_space(c),
{
    c == ' ' || c == '\t' || c == '\r' || c == '\n'
}

/// Strip the outer whitespace of `s`.
#[verifier::loop_isolation(false)]
pub fn trim_str(s: &str) -> (r: &str)
    ensures
        r@ == spec_trim(s@),
{
    let n = s.unicode_len();
    proof {
        assert(s@.subrange(0, n as int) =~= s@);
    }
    let mut lo: usize = 0;
    while lo < n && is_space(s.get_char(lo))
        invariant
            n == s@.len(),
            lo <= n,
            trim_front(s@) == trim_front(s@.subrange(lo as int, n as int)),
        decreases n - lo,
    {
        proof {
            let cur = s@.subrange(lo as int, n as int);
            assert(cur[0] == s@[lo as int]);
            assert(cur.drop_first() =~= s@.subrange(lo as int + 1, n as int));
        }
        lo += 1;
    }
    proof {
        let cur = s@.subrange(lo as int, n as int);
        if lo < n {
            assert(cur[0] == s@[lo as int]);
        }
        assert(trim_front(s@) == cur);
    }
    let mut hi: usize = n;
    while hi > lo && is_space(s.get_char(hi - 1))
        invariant
            lo <= hi <= n,
            trim_back(s@.subrange(lo as int, n as int)) == trim_back(
                s@.subrange(lo as int, hi as int),
            ),
        decreases hi,
    {
        proof {
            let cur = s@.subrange(lo as int, hi as int);
            assert(cur.last() == s@[hi as int - 1]);
            assert(cur.drop_last() =~= s@.subrange(lo as int, hi as int - 1));
        }
        hi -= 1;
    }
    proof {
        let cur = s@.subrange(lo as int, hi as int);
        if hi > lo {
            assert(cur.last() == s@[hi as int - 1]);
        }
        assert(spec_trim(s@) == cur);
    }
    s.substring_char(lo, hi)
}

/// Whether `c` is a decimal digit.
pub open spec fn spec_digit(c: char) -> bool {
    '0' <= c && c <= '9'
}

/// The value of a digit string, most significant digit first.
pub open spec fn spec_digits_val(s: Seq<char>) -> int
    decreases s.len(),
{
    if s.len() == 0 {
        0
    } else {
        spec_digits_val(s.drop_last()) * 10 + (s.last() as int - 48)
    }
}

/// What `parse_u32` accepts: one or more decimal digits whose value
/// fits in 32 bits.
pub open spec fn spec_parse_u32(s: Seq<char>) -> Option<u32> {
    if s.len() > 0 && (forall|i: int| 0 <= i < s.len() ==> spec_digit(s[i])) && spec_digits_val(s)
        <= u32::MAX {
        Some(spec_digits_val(s) as u32)
    } else {
        None
    }
}

/// A digit string's value only grows as digits are appended.
proof fn lemma_digits_monotonic(s: Seq<char>, i: int)
    requires
        0 <= i <= s.len(),
        forall|j: int| 0 <= j < s.len() ==> spec_digit(s[j]),
    ensures
        spec_digits_val(s) >= spec_digits_val(s.subrange(0, i)),
        spec_digits_val(s) >= 0,
    decreases s.len() - i,
{
    if i == s.len() {
        assert(s.subrange(0, i) =~= s);
        assert(s =~= s.subrange(0, s.len() as int));
        lemma_digits_nonneg(s, s);
    } else {
        lemma_digits_monotonic(s, i + 1);
        let a = s.subrange(0, i);
        let b = s.subrange(0, i + 1);
        assert(b.drop_last() =~= a);
        assert(b.last() == s[i]);
        lemma_digits_nonneg(a, s);
    }
}

/// Prefixes of a digit string have non-negative values.
proof fn lemma_digits_nonneg(a: Seq<char>, s: Seq<char>)
    requires
        forall|j: int| 0 <= j < s.len() ==> spec_digit(s[j]),
        exists|i: int| 0 <= i <= s.len() && a == s.subrange(0, i),
    ensures
        spec_digits_val(a) >= 0,
    decreases a.len(),
{
    if a.len() > 0 {
        let i = choose|i: int| 0 <= i <= s.len() && a == s.subrange(0, i);
        assert(a.last() == s[i - 1]);
        assert(a.drop_last() =~= s.subrange(0, i - 1));
        lemma_digits_nonneg(a.drop_last(), s);
    }
}

/// Parse a string of decimal digits into a 32-bit value.  The empty
/// string, any non-digit character, and any value above `u32::MAX`
/// are rejected.
#[verifier::loop_isolation(false)]
pub fn parse_u32(s: &str) -> (r: Option<u32>)
    ensures
        r == spec_parse_u32(s@),
{
    let n = s.unicode_len();
    if n == 0 {
        return None;
    }
    let mut i: usize = 0;
    while i < n
        invariant
            n == s@.len(),
            i <= n,
            forall|j: int| 0 <= j < i ==> spec_digit(s@[j]),
        decreases n - i,
    {
        let c = s.get_char(i);
        if !('0' <= c && c <= '9') {
            return None;
        }
        i += 1;
    }
    let mut acc: u64 = 0;
    let mut k: usize = 0;
    while k < n
        invariant
            n == s@.len(),
            k <= n,
            forall|j: int| 0 <= j < n ==> spec_digit(s@[j]),
            acc <= u32::MAX,
            acc as int == spec_digits_val(s@.subrange(0, k as int)),
        decreases n - k,
    {
        let c = s.get_char(k);
        let d: u64 = (c as u32) as u64 - 48;
        let next: u64 = acc * 10 + d;
        proof {
            let a = s@.subrange(0, k as int);
            let b = s@.subrange(0, k as int + 1);
            assert(b.drop_last() =~= a);
            assert(b.last() == s@[k as int]);
        }
        if next > 0xffff_ffff {
            proof {
                lemma_digits_monotonic(s@, k as int + 1);
            }
            return None;
        }
        acc = next;
        k += 1;
    }
    proof {
        assert(s@.subrange(0, n as int) =~= s@);
    }
    Some(acc as u32)
}

/// A desired display position read from the configuration: two
/// decimal coordinates separated by a single space.
#[derive(Clone, Copy, Debug, PartialEq, Eq, Structural)]
pub struct DisplayPosition {
    pub x: u32,
    pub y: u32,
}

/// What `DisplayPosition::from_str` accepts: exactly one space, with
/// a 32-bit decimal number on each side.
pub open spec fn spec_parse_position(s: Seq<char>) -> Option<(u32, u32)> {
    match find_char_spec(s, ' ') {
        None => None,
        Some(i) => {
            let xs = s.subrange(0, i as int);
            let ys = s.subrange(i as int + 1, s.len() as int);
            if find_char_spec(ys, ' ') is Some {
                None
            } else {
                match (spec_parse_u32(xs), spec_parse_u32(ys)) {
                    (Some(x), Some(y)) => Some((x, y)),
                    _ => None,
                }
            }
        },
    }
}

impl DisplayPosition {
    /// Parse `"<x> <y>"`.  A missing or repeated separator and an
    /// unparsable coordinate are rejected with a message.
    pub fn from_str(s: &str) -> (r: Result<DisplayPosition, String>)
        ensures
            r is Ok <==> spec_parse_position(s@) is Some,
            r matches Ok(p) ==> spec_parse_position(s@) == Some((p.x, p.y)),
            r matches Err(m) ==> m@.len() > 0,
    {
        proof {
            lemma_find_char(s@, ' ');
            reveal_strlit("cannot parse display position: missing space separator");
            reveal_strlit("cannot parse display position: more than two fields");
            reveal_strlit("cannot parse coordinate as a 32-bit number");
        }
        let n = s.unicode_len();
        let i = match find_char(s, ' ') {
            Some(i) => i,
            None => {
                return Err(String::from_str(
                    "cannot parse display position: missing space separator",
                ));
            }
        };
        let xs = s.substring_char(0, i);
        let ys = s.substring_char(i + 1, n);
        proof {
            lemma_find_char(ys@, ' ');
        }
        if find_char(ys, ' ').is_some() {
            return Err(String::from_str("cannot parse display position: more than two fields"));
        }
        let x = match parse_u32(xs) {
            Some(x) => x,
            None => {
                return Err(String::from_str("cannot parse coordinate as a 32-bit number"));
            }
        };
        let y = match parse_u32(ys) {
            Some(y) => y,
            None => {
                return Err(String::from_str("cannot parse coordinate as a 32-bit number"));
            }
        };
        Ok(DisplayPosition { x, y })
    }
}

} // verus!
