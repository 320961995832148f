//! Character-level text helpers: whitespace trimming, UTF-8 byte lengths,
//! string comparison and conversions between `String` and `Vec<char>`.

use vstd::prelude::*;
use vstd::string::*;

verus! {

/// Unicode `White_Space` property, as used by `char::is_whitespace`.
pub open spec fn is_ws(c: char) -> bool {
    let u = c as u32;
    ||| 0x09 <= u <= 0x0D
    ||| u == 0x20
    ||| u == 0x85
    ||| u == 0xA0
    ||| u == 0x1680
    ||| 0x2000 <= u <= 0x200A
    ||| u == 0x2028
    ||| u == 0x2029
    ||| u == 0x202F
    ||| u == 0x205F
    ||| u == 0x3000
}

/// Whitespace test on one character.
pub fn is_whitespace(c: char) -> (r: bool)
    ensures
        r == is_ws(c),
{
    let u = c as u32;
    (0x09 <= u && u <= 0x0D) || u == 0x20 || u == 0x85 || u == 0xA0 || u == 0x1680 || (0x2000
        <= u && u <= 0x200A) || u == 0x2028 || u == 0x2029 || u == 0x202F || u == 0x205F || u
        == 0x3000
}

/// The sequence without its leading whitespace.
pub open spec fn trim_start(s: Seq<char>) -> Seq<char>
    decreases s.len(),
{
    if s.len() > 0 && is_ws(s[0]) {
        trim_start(s.drop_first())
    } else {
        s
    }
}

/// The sequence without its trailing whitespace.
pub open spec fn trim_end(s: Seq<char>) -> Seq<char>
    decreases s.len(),
{
    if s.len() > 0 && is_ws(s.last()) {
        trim_end(s.drop_last())
    } else {
        s
    }
}

/// The sequence without leading and trailing whitespace (`str::trim`).
pub open spec fn trim(s: Seq<char>) -> Seq<char> {
    trim_end(trim_start(s))
}

/// Whether the sequence holds nothing but whitespace.
pub open spec fn is_blank(s: Seq<char>) -> bool {
    trim(s).len() == 0
}

/// Number of bytes that UTF-8 needs for one character.
pub open spec fn utf8_width(c: char) -> nat {
    let u = c as u32;
    if u <= 0x7F {
        1
    } else if u <= 0x7FF {
        2
    } else if u <= 0xFFFF {
        3
    } else {
        4
    }
}

/// Number of bytes of the UTF-8 encoding of a character sequence (`str::len`).
pub open spec fn utf8_len(s: Seq<char>) -> nat
    decreases s.len(),
{
    if s.len() == 0 {
        0
    } else {
        utf8_width(s[0]) + utf8_len(s.drop_first())
    }
}

proof fn lemma_trim_start_suffix(s: Seq<char>, i: int)
    requires
        0 <= i < s.len(),
        is_ws(s[i]),
        trim_start(s) == trim_start(s.subrange(i, s.len() as int)),
    ensures
        trim_start(s) == trim_start(s.subrange(i + 1, s.len() as int)),
{
    let t = s.subrange(i, s.len() as int);
    assert(t.drop_first() =~= s.subrange(i + 1, s.len() as int));
}

proof fn lemma_trim_end_step(s: Seq<char>)
    requires
        0 < s.len(),
        is_ws(s.last()),
    ensures
        trim_end(s) == trim_end(s.drop_last()),
{
}

/// Index of the first non-whitespace character (or the length).
fn first_non_ws(v: &Vec<char>) -> (i: usize)
    ensures
        i <= v@.len(),
        trim_start(v@) == v@.subrange(i as int, v@.len() as int),
{
    let mut i: usize = 0;
    assert(v@.subrange(0, v@.len() as int) =~= v@);
    while i < v.len()
        invariant
            i <= v@.len(),
            trim_start(v@) == trim_start(v@.subrange(i as int, v@.len() as int)),
        decreases v@.len() - i,
    {
        if !is_whitespace(v[i]) {
            return i;
        }
        proof {
            lemma_trim_start_suffix(v@, i as int);
        }
        i = i + 1;
    }
    assert(v@.subrange(i as int, v@.len() as int).len() == 0);
    i
}

/// Trim leading and trailing whitespace.
pub fn trim_chars(v: &Vec<char>) -> (r: Vec<char>)
    ensures
        r@ == trim(v@),
{
    let start = first_non_ws(v);
    let ghost mid = v@.subrange(start as int, v@.len() as int);
    let mut end: usize = v.len();
    assert(mid.subrange(0, mid.len() as int) =~= mid);
    while end > start && is_whitespace(v[end - 1])
        invariant
            start <= end <= v@.len(),
            mid == v@.subrange(start as int, v@.len() as int),
            trim_end(mid) == trim_end(v@.subrange(start as int, end as int)),
        decreases end,
    {
        proof {
            let sub = v@.subrange(start as int, end as int);
            lemma_trim_end_step(sub);
            assert(sub.drop_last() =~= v@.subrange(start as int, (end - 1) as int));
        }
        end = end - 1;
    }
    let mut r: Vec<char> = Vec::new();
    let mut k: usize = start;
    while k < end
        invariant
            start <= k <= end <= v@.len(),
            r@ =~= v@.subrange(start as int, k as int),
        decreases end - k,
    {
        r.push(v[k]);
        k = k + 1;
    }
    proof {
        let sub = v@.subrange(start as int, end as int);
        if end > start {
            assert(sub.last() == v@[end - 1]);
        }
        assert(trim_end(sub) == sub);
    }
    r
}

/// Whether the UTF-8 encoding of `v` is shorter than `limit` bytes.
pub fn utf8_len_below(v: &Vec<char>, limit: usize) -> (r: bool)
    ensures
        r == (utf8_len(v@) < limit),
{
    if limit == 0 {
        return false;
    }
    let mut i: usize = v.len();
    let mut acc: usize = 0;
    assert(v@.subrange(v@.len() as int, v@.len() as int).len() == 0);
    while i > 0
        invariant
            i <= v@.len(),
            acc == utf8_len(v@.subrange(i as int, v@.len() as int)),
            acc < limit,
        decreases i,
    {
        let c = v[i - 1];
        let u = c as u32;
        let w: usize = if u <= 0x7F {
            1
        } else if u <= 0x7FF {
            2
        } else if u <= 0xFFFF {
            3
        } else {
            4
        };
        proof {
            let s = v@.subrange(i - 1, v@.len() as int);
            assert(s.drop_first() =~= v@.subrange(i as int, v@.len() as int));
            assert(s[0] == c);
        }
        if w >= limit - acc {
            proof {
                lemma_utf8_len_suffix_bound(v@, (i - 1) as int);
            }
            return false;
        }
        acc = acc + w;
        i = i - 1;
    }
    assert(v@.subrange(0, v@.len() as int) =~= v@);
    true
}

/// The byte length of a sequence is at least that of any of its suffixes.
proof fn lemma_utf8_len_suffix_bound(s: Seq<char>, i: int)
    requires
        0 <= i <= s.len(),
    ensures
        utf8_len(s) >= utf8_len(s.subrange(i, s.len() as int)),
    decreases i,
{
    if i > 0 {
        lemma_utf8_len_suffix_bound(s, i - 1);
        let t = s.subrange(i - 1, s.len() as int);
        assert(t.drop_first() =~= s.subrange(i, s.len() as int));
        assert(utf8_len(t) == utf8_width(t[0]) + utf8_len(t.drop_first()));
    } else {
        assert(s.subrange(0, s.len() as int) =~= s);
    }
}

/// A sequence takes at least one byte per character.
pub proof fn lemma_utf8_len_ge_len(s: Seq<char>)
    ensures
        utf8_len(s) >= s.len(),
    decreases s.len(),
{
    if s.len() > 0 {
        lemma_utf8_len_ge_len(s.drop_first());
    }
}

/// Character-wise equality of two string slices.
pub fn str_eq(a: &str, b: &str) -> (r: bool)
    ensures
        r == (a@ == b@),
{
    let n = a.unicode_len();
    if n != b.unicode_len() {
        return false;
    }
    let mut i: usize = 0;
    while i < n
        invariant
            n == a@.len(),
            n == b@.len(),
            i <= n,
            forall|k: int| 0 <= k < i ==> a@[k] == b@[k],
        decreases n - i,
    {
        if a.get_char(i) != b.get_char(i) {
            return false;
        }
        i = i + 1;
    }
    assert(a@ =~= b@);
    true
}

/// The characters of a string slice.
pub(crate) fn chars_of(s: &str) -> (r: Vec<char>)
    ensures
        r@ == s@,
{
    broadcast use vstd::string::axiom_spec_iter;
    let mut r: Vec<char> = Vec::new();
    for c in it: s.chars()
        invariant
            it.seq() == s@,
            r@ == it.seq().subrange(0, it.index() as int),
    {
        r.push(c);
        assert(r@ =~= it.seq().subrange(0, it.index() + 1));
    }
    assert(r@ =~= s@);
    r
}

/// A string made of the given characters.
#[verifier::external_body]
pub(crate) fn string_of(v: &Vec<char>) -> (r: String)
    ensures
        r@ == v@,
{
    v.iter().collect()
}

/// A copy of an owned string.
pub fn dup_string(s: &String) -> (r: String)
    ensures
        r == *s,
{
    s.clone()
}

/// A copy of an optional string.
pub fn dup_opt_string(s: &Option<String>) -> (r: Option<String>)
    ensures
        r == *s,
{
    match s {
        Some(x) => Some(x.clone()),
        None => None,
    }
}

/// A copy of a character buffer.
pub fn dup_chars(v: &Vec<char>) -> (r: Vec<char>)
    ensures
        r@ == v@,
{
    let mut r: Vec<char> = Vec::new();
    let mut i: usize = 0;
    while i < v.len()
        invariant
            i <= v@.len(),
            r@ == v@.subrange(0, i as int),
        decreases v@.len() - i,
    {
        r.push(v[i]);
        i = i + 1;
        assert(r@ =~= v@.subrange(0, i as int));
    }
    assert(v@.subrange(0, v@.len() as int) =~= v@);
    r
}

/// A copy of a list of strings.
pub fn dup_strings(v: &Vec<String>) -> (r: Vec<String>)
    ensures
        r@ == v@,
{
    let mut r: Vec<String> = Vec::new();
    let mut i: usize = 0;
    while i < v.len()
        invariant
            i <= v@.len(),
            r@ == v@.subrange(0, i as int),
        decreases v@.len() - i,
    {
        r.push(v[i].clone());
        i = i + 1;
        assert(r@ =~= v@.subrange(0, i as int));
    }
    assert(v@.subrange(0, v@.len() as int) =~= v@);
    r
}

/// The first `n` characters of `s` (all of it when shorter).
pub fn prefix_chars(s: &str, n: usize) -> (r: String)
    ensures
        r@ == s@.subrange(0, if s@.len() < n { s@.len() as int } else { n as int }),
{
    let len = s.unicode_len();
    let k = if len < n {
        len
    } else {
        n
    };
    let sub = s.substring_char(0, k);
    sub.to_owned()
}

/// A string made of `a` followed by `b`.
pub fn concat2(a: &str, b: &str) -> (r: String)
    ensures
        r@ == a@ + b@,
{
    let mut s = a.to_owned();
    s.append(b);
    s
}

/// A string made of `a`, `b` and `c` in order.
pub fn concat3(a: &str, b: &str, c: &str) -> (r: String)
    ensures
        r@ == a@ + b@ + c@,
{
    let mut s = a.to_owned();
    s.append(b);
    s.append(c);
    s
}

/// The decimal digit `d`.
pub open spec fn digit_char(d: nat) -> char {
    (('0' as u32) + d) as char
}

/// The decimal text of `n`.
pub open spec fn decimal(n: nat) -> Seq<char>
    decreases n,
{
    if n < 10 {
        seq![digit_char(n)]
    } else {
        decimal(n / 10).push(digit_char(n % 10))
    }
}

pub fn digit(d: usize) -> (c: char)
    requires
        d < 10,
    ensures
        c == digit_char(d as nat),
{
    let u: u8 = 48 + d as u8;
    u as char
}

fn decimal_chars(n: usize) -> (r: Vec<char>)
    ensures
        r@ == decimal(n as nat),
    decreases n,
{
    if n < 10 {
        let mut v: Vec<char> = Vec::new();
        v.push(digit(n));
        assert(v@ =~= decimal(n as nat));
        v
    } else {
        let mut v = decimal_chars(n / 10);
        v.push(digit(n % 10));
        v
    }
}

/// The decimal text of a count.
pub fn decimal_string(n: usize) -> (r: String)
    ensures
        r@ == decimal(n as nat),
{
    let v = decimal_chars(n);
    string_of(&v)
}

} // verus!
