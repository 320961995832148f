//! Word wrapping of message text for display: the text is cut into lines
//! (`str::lines`), and each line that is wider than the limit, counted in
//! UTF-8 bytes, is refilled greedily from its whitespace-separated words.

use vstd::prelude::*;
use crate::text::{is_ws, is_whitespace, utf8_len, utf8_width, string_of, chars_of};

verus! {

/// The texts of a list of strings.
pub open spec fn texts(v: Seq<String>) -> Seq<Seq<char>> {
    v.map_values(|s: String| s@)
}

/// Number of leading characters before the first line feed.
pub open spec fn line_end(s: Seq<char>) -> nat
    decreases s.len(),
{
    if s.len() == 0 || s[0] == '\n' {
        0
    } else {
        1 + line_end(s.drop_first())
    }
}

/// Number of leading characters before the first whitespace character.
pub open spec fn word_end(s: Seq<char>) -> nat
    decreases s.len(),
{
    if s.len() == 0 || is_ws(s[0]) {
        0
    } else {
        1 + word_end(s.drop_first())
    }
}

/// A line without the carriage return that ends it, if any.
pub open spec fn strip_cr(l: Seq<char>) -> Seq<char> {
    if l.len() > 0 && l.last() == '\r' {
        l.drop_last()
    } else {
        l
    }
}

/// The lines of a text, as `str::lines` yields them: cut at each line feed,
/// a carriage return before the line feed dropped, and no empty line after
/// a final line feed.
pub open spec fn lines_of(s: Seq<char>) -> Seq<Seq<char>>
    decreases s.len(),
{
    if s.len() == 0 {
        seq![]
    } else {
        let k = line_end(s);
        if k < s.len() {
            seq![strip_cr(s.take(k as int))] + lines_of(s.skip(k + 1 as int))
        } else {
            seq![s]
        }
    }
}

/// The words of a line, as `str::split_whitespace` yields them.
pub open spec fn words_of(s: Seq<char>) -> Seq<Seq<char>>
    decreases s.len(),
{
    if s.len() == 0 {
        seq![]
    } else if is_ws(s[0]) {
        words_of(s.drop_first())
    } else {
        let k = word_end(s);
        proof {
            lemma_word_end_bound(s);
        }
        seq![s.take(k as int)] + words_of(s.skip(k as int))
    }
}

/// Greedy filling: `cur` is the line being built; each word joins it,
/// separated by one space, while the result stays within `w` bytes, and
/// otherwise starts the next line.
pub open spec fn pack(words: Seq<Seq<char>>, w: nat, cur: Seq<char>) -> Seq<Seq<char>>
    decreases words.len(),
{
    if words.len() == 0 {
        if cur.len() == 0 {
            seq![]
        } else {
            seq![cur]
        }
    } else {
        let wd = words[0];
        let rest = words.drop_first();
        if cur.len() == 0 {
            pack(rest, w, wd)
        } else if utf8_len(cur) + 1 + utf8_len(wd) <= w {
            pack(rest, w, cur + seq![' '] + wd)
        } else {
            seq![cur] + pack(rest, w, wd)
        }
    }
}

/// One line as displayed: kept whole when it fits, refilled otherwise.
pub open spec fn wrap_line(l: Seq<char>, w: nat) -> Seq<Seq<char>> {
    if utf8_len(l) <= w {
        seq![l]
    } else {
        pack(words_of(l), w, seq![])
    }
}

/// The display lines of a list of lines, in order.
pub open spec fn wrap_lines(ls: Seq<Seq<char>>, w: nat) -> Seq<Seq<char>>
    decreases ls.len(),
{
    if ls.len() == 0 {
        seq![]
    } else {
        wrap_line(ls[0], w) + wrap_lines(ls.drop_first(), w)
    }
}

/// The display lines of a text within `w` bytes; a zero width leaves the text
/// whole, and a text with no line gives one empty line.
pub open spec fn wrapped(text: Seq<char>, w: nat) -> Seq<Seq<char>> {
    if w == 0 {
        seq![text]
    } else {
        let ls = wrap_lines(lines_of(text), w);
        if ls.len() == 0 {
            seq![Seq::empty()]
        } else {
            ls
        }
    }
}

pub proof fn lemma_word_end_bound(s: Seq<char>)
    ensures
        word_end(s) <= s.len(),
    decreases s.len(),
{
    if s.len() > 0 && !is_ws(s[0]) {
        lemma_word_end_bound(s.drop_first());
    }
}

/// A value cut off at `cap`.
pub open spec fn capped(n: nat, cap: nat) -> nat {
    if n < cap {
        n
    } else {
        cap
    }
}

proof fn lemma_texts_push(v: Seq<String>, s: String)
    ensures
        texts(v.push(s)) == texts(v).push(s@),
{
    assert(texts(v.push(s)) =~= texts(v).push(s@));
}

proof fn lemma_utf8_len_concat(a: Seq<char>, b: Seq<char>)
    ensures
        utf8_len(a + b) == utf8_len(a) + utf8_len(b),
    decreases a.len(),
{
    if a.len() > 0 {
        lemma_utf8_len_concat(a.drop_first(), b);
        assert((a + b).drop_first() =~= a.drop_first() + b);
        assert((a + b)[0] == a[0]);
    } else {
        assert(a + b =~= b);
    }
}

proof fn lemma_utf8_len_one(c: char)
    ensures
        utf8_len(seq![c]) == utf8_width(c),
{
    let s = seq![c];
    assert(s[0] == c);
    assert(s.drop_first() =~= Seq::<char>::empty());
    assert(utf8_len(s.drop_first()) == 0);
}

proof fn lemma_word_end_is(t: Seq<char>, k: int)
    requires
        0 <= k <= t.len(),
        forall|m: int| 0 <= m < k ==> !is_ws(#[trigger] t[m]),
        k == t.len() || is_ws(t[k]),
    ensures
        word_end(t) == k,
    decreases k,
{
    if k > 0 {
        let d = t.drop_first();
        assert forall|m: int| 0 <= m < k - 1 implies !is_ws(#[trigger] d[m]) by {
            assert(d[m] == t[m + 1]);
        }
        if k < t.len() {
            assert(d[k - 1] == t[k]);
        }
        lemma_word_end_is(d, k - 1);
    }
}

proof fn lemma_line_end_is(t: Seq<char>, k: int)
    requires
        0 <= k <= t.len(),
        forall|m: int| 0 <= m < k ==> #[trigger] t[m] != '\n',
        k == t.len() || t[k] == '\n',
    ensures
        line_end(t) == k,
    decreases k,
{
    if k > 0 {
        let d = t.drop_first();
        assert forall|m: int| 0 <= m < k - 1 implies #[trigger] d[m] != '\n' by {
            assert(d[m] == t[m + 1]);
        }
        if k < t.len() {
            assert(d[k - 1] == t[k]);
        }
        lemma_line_end_is(d, k - 1);
    }
}

proof fn lemma_wrap_lines_cons(a: Seq<char>, rest: Seq<Seq<char>>, w: nat)
    ensures
        wrap_lines(seq![a] + rest, w) == wrap_line(a, w) + wrap_lines(rest, w),
{
    let l = seq![a] + rest;
    assert(l[0] == a);
    assert(l.drop_first() =~= rest);
}

proof fn lemma_pack_cons(x: Seq<char>, rest: Seq<Seq<char>>, w: nat, cur: Seq<char>)
    ensures
        pack(seq![x] + rest, w, cur) == (if cur.len() == 0 {
            pack(rest, w, x)
        } else if utf8_len(cur) + 1 + utf8_len(x) <= w {
            pack(rest, w, cur + seq![' '] + x)
        } else {
            seq![cur] + pack(rest, w, x)
        }),
{
    let l = seq![x] + rest;
    assert(l[0] == x);
    assert(l.drop_first() =~= rest);
}

/// End of the run of non-whitespace characters of `v` that starts at `i`.
fn scan_word(v: &Vec<char>, i: usize, hi: usize) -> (j: usize)
    requires
        i <= hi <= v@.len(),
    ensures
        i <= j <= hi,
        j - i == word_end(v@.subrange(i as int, hi as int)),
{
    let mut j = i;
    while j < hi && !is_whitespace(v[j])
        invariant
            i <= j <= hi <= v@.len(),
            forall|m: int| i <= m < j ==> !is_ws(#[trigger] v@[m]),
        decreases hi - j,
    {
        j = j + 1;
    }
    proof {
        let t = v@.subrange(i as int, hi as int);
        assert forall|m: int| 0 <= m < j - i implies !is_ws(#[trigger] t[m]) by {
            assert(t[m] == v@[i + m]);
        }
        if j < hi {
            assert(t[j - i] == v@[j as int]);
        }
        lemma_word_end_is(t, j - i);
    }
    j
}

/// Position of the first line feed of `v` at or after `i` (or `hi`).
fn scan_line(v: &Vec<char>, i: usize, hi: usize) -> (j: usize)
    requires
        i <= hi <= v@.len(),
    ensures
        i <= j <= hi,
        j - i == line_end(v@.subrange(i as int, hi as int)),
{
    let mut j = i;
    while j < hi && v[j] != '\n'
        invariant
            i <= j <= hi <= v@.len(),
            forall|m: int| i <= m < j ==> #[trigger] v@[m] != '\n',
        decreases hi - j,
    {
        j = j + 1;
    }
    proof {
        let t = v@.subrange(i as int, hi as int);
        assert forall|m: int| 0 <= m < j - i implies #[trigger] t[m] != '\n' by {
            assert(t[m] == v@[i + m]);
        }
        if j < hi {
            assert(t[j - i] == v@[j as int]);
        }
        lemma_line_end_is(t, j - i);
    }
    j
}

/// UTF-8 byte length of `v[lo..hi]`, cut off at `cap`.
fn utf8_len_capped(v: &Vec<char>, lo: usize, hi: usize, cap: u128) -> (r: u128)
    requires
        lo <= hi <= v@.len(),
    ensures
        r == capped(utf8_len(v@.subrange(lo as int, hi as int)), cap as nat),
{
    if cap == 0 {
        return 0;
    }
    let mut i = lo;
    let mut acc: u128 = 0;
    assert(v@.subrange(lo as int, lo as int) =~= Seq::<char>::empty());
    while i < hi
        invariant
            lo <= i <= hi <= v@.len(),
            acc == utf8_len(v@.subrange(lo as int, i as int)),
            acc < cap,
        decreases hi - i,
    {
        let c = v[i];
        let u = c as u32;
        let w: u128 = if u <= 0x7F {
            1
        } else if u <= 0x7FF {
            2
        } else if u <= 0xFFFF {
            3
        } else {
            4
        };
        proof {
            let a = v@.subrange(lo as int, i as int);
            lemma_utf8_len_one(c);
            lemma_utf8_len_concat(a, seq![c]);
            assert(a + seq![c] =~= v@.subrange(lo as int, i + 1));
        }
        if w >= cap - acc {
            proof {
                let a = v@.subrange(lo as int, i + 1);
                let b = v@.subrange(i + 1, hi as int);
                lemma_utf8_len_concat(a, b);
                assert(a + b =~= v@.subrange(lo as int, hi as int));
            }
            return cap;
        }
        acc = acc + w;
        i = i + 1;
    }
    acc
}

/// A copy of `v[lo..hi]`.
fn slice_chars(v: &Vec<char>, lo: usize, hi: usize) -> (r: Vec<char>)
    requires
        lo <= hi <= v@.len(),
    ensures
        r@ == v@.subrange(lo as int, hi as int),
{
    let mut r: Vec<char> = Vec::new();
    let mut i = lo;
    while i < hi
        invariant
            lo <= i <= hi <= v@.len(),
            r@ == v@.subrange(lo as int, i as int),
        decreases hi - i,
    {
        r.push(v[i]);
        i = i + 1;
        assert(r@ =~= v@.subrange(lo as int, i as int));
    }
    r
}

/// Appends `v[lo..hi]` to `r`.
fn append_chars(r: &mut Vec<char>, v: &Vec<char>, lo: usize, hi: usize)
    requires
        lo <= hi <= v@.len(),
    ensures
        final(r)@ == old(r)@ + v@.subrange(lo as int, hi as int),
{
    let ghost start = r@;
    let mut i = lo;
    while i < hi
        invariant
            lo <= i <= hi <= v@.len(),
            r@ == start + v@.subrange(lo as int, i as int),
        decreases hi - i,
    {
        r.push(v[i]);
        i = i + 1;
        assert(r@ =~= start + v@.subrange(lo as int, i as int));
    }
}

/// Appends the display lines of the line `v[lo..hi]` within `w` bytes.
fn push_wrapped_line(out: &mut Vec<String>, v: &Vec<char>, lo: usize, hi: usize, w: usize)
    requires
        lo <= hi <= v@.len(),
        w > 0,
    ensures
        texts(final(out)@) == texts(old(out)@) + wrap_line(
            v@.subrange(lo as int, hi as int),
            w as nat,
        ),
{
    let ghost line = v@.subrange(lo as int, hi as int);
    let ghost start = texts(out@);
    let cap: u128 = w as u128 + 1;
    let line_c = utf8_len_capped(v, lo, hi, cap);
    if line_c <= w as u128 {
        let piece = slice_chars(v, lo, hi);
        let s = string_of(&piece);
        proof {
            lemma_texts_push(out@, s);
        }
        out.push(s);
        assert(texts(out@) =~= start + seq![line]);
        return;
    }
    let mut cur: Vec<char> = Vec::new();
    let mut cur_c: u128 = 0;
    let mut i = lo;
    assert(v@.subrange(lo as int, hi as int) =~= line);
    assert(start + pack(words_of(line), w as nat, seq![]) =~= texts(out@) + pack(
        words_of(v@.subrange(i as int, hi as int)),
        w as nat,
        cur@,
    ));
    while i < hi
        invariant
            lo <= i <= hi <= v@.len(),
            cap == w + 1,
            w > 0,
            cur_c == capped(utf8_len(cur@), cap as nat),
            start + pack(words_of(line), w as nat, seq![]) == texts(out@) + pack(
                words_of(v@.subrange(i as int, hi as int)),
                w as nat,
                cur@,
            ),
        decreases hi - i,
    {
        let ghost rest = v@.subrange(i as int, hi as int);
        if is_whitespace(v[i]) {
            proof {
                assert(rest[0] == v@[i as int]);
                assert(rest.drop_first() =~= v@.subrange(i + 1, hi as int));
            }
            i = i + 1;
        } else {
            let j = scan_word(v, i, hi);
            let ghost wd = v@.subrange(i as int, j as int);
            let ghost after = v@.subrange(j as int, hi as int);
            proof {
                assert(rest[0] == v@[i as int]);
                let k = word_end(rest);
                assert(rest.take(k as int) =~= wd);
                assert(rest.skip(k as int) =~= after);
                assert(words_of(rest) == seq![wd] + words_of(after));
                lemma_pack_cons(wd, words_of(after), w as nat, cur@);
            }
            let wd_c = utf8_len_capped(v, i, j, cap);
            if cur.len() == 0 {
                cur = slice_chars(v, i, j);
                cur_c = wd_c;
            } else if cur_c + 1 + wd_c <= w as u128 {
                let ghost old_cur = cur@;
                cur.push(' ');
                append_chars(&mut cur, v, i, j);
                proof {
                    assert(cur@ =~= old_cur + seq![' '] + wd);
                    lemma_utf8_len_concat(old_cur, seq![' ']);
                    lemma_utf8_len_one(' ');
                    lemma_utf8_len_concat(old_cur + seq![' '], wd);
                }
                cur_c = cur_c + 1 + wd_c;
            } else {
                let s = string_of(&cur);
                let ghost before = texts(out@);
                proof {
                    lemma_texts_push(out@, s);
                }
                out.push(s);
                assert(before + (seq![cur@] + pack(words_of(after), w as nat, wd)) =~= texts(out@)
                    + pack(words_of(after), w as nat, wd));
                cur = slice_chars(v, i, j);
                cur_c = wd_c;
            }
            i = j;
        }
    }
    assert(v@.subrange(hi as int, hi as int) =~= Seq::<char>::empty());
    if cur.len() > 0 {
        let s = string_of(&cur);
        let ghost before = texts(out@);
        proof {
            lemma_texts_push(out@, s);
        }
        out.push(s);
        assert(texts(out@) =~= before + seq![cur@]);
    } else {
        assert(texts(out@) + Seq::<Seq<char>>::empty() =~= texts(out@));
    }
}

/// Word-wraps `text` into display lines of at most `max_width` bytes where
/// its words allow; a zero width leaves the text whole.
pub fn wrap_text(text: &str, max_width: usize) -> (r: Vec<String>)
    ensures
        texts(r@) == wrapped(text@, max_width as nat),
{
    if max_width == 0 {
        let mut r: Vec<String> = Vec::new();
        let s = text.to_owned();
        proof {
            lemma_texts_push(r@, s);
        }
        r.push(s);
        assert(texts(r@) =~= seq![text@]);
        return r;
    }
    let v = chars_of(text);
    let n = v.len();
    let mut out: Vec<String> = Vec::new();
    let mut i: usize = 0;
    let ghost w = max_width as nat;
    assert(v@.subrange(0, n as int) =~= v@);
    assert(texts(out@) =~= Seq::<Seq<char>>::empty());
    assert(wrap_lines(lines_of(v@), w) =~= texts(out@) + wrap_lines(
        lines_of(v@.subrange(0, n as int)),
        w,
    ));
    while i < n
        invariant
            i <= n == v@.len(),
            max_width > 0,
            w == max_width as nat,
            wrap_lines(lines_of(v@), w) == texts(out@) + wrap_lines(
                lines_of(v@.subrange(i as int, n as int)),
                w,
            ),
        decreases n - i,
    {
        let ghost rest = v@.subrange(i as int, n as int);
        let ghost before = texts(out@);
        let j = scan_line(&v, i, n);
        if j < n {
            let e = if j > i && v[j - 1] == '\r' {
                j - 1
            } else {
                j
            };
            let ghost line = v@.subrange(i as int, e as int);
            let ghost after = v@.subrange(j + 1, n as int);
            proof {
                let k = line_end(rest);
                assert(rest[k as int] == v@[j as int]);
                let head = rest.take(k as int);
                assert(head =~= v@.subrange(i as int, j as int));
                if j > i && v@[j - 1] == '\r' {
                    assert(head.drop_last() =~= line);
                } else {
                    assert(head =~= line);
                }
                assert(strip_cr(head) == line);
                assert(rest.skip(k + 1 as int) =~= after);
                assert(lines_of(rest) == seq![line] + lines_of(after));
                lemma_wrap_lines_cons(line, lines_of(after), w);
            }
            push_wrapped_line(&mut out, &v, i, e, max_width);
            assert(before + (wrap_line(line, w) + wrap_lines(lines_of(after), w)) =~= texts(out@)
                + wrap_lines(lines_of(after), w));
            i = j + 1;
        } else {
            proof {
                assert(lines_of(rest) == seq![rest]);
                lemma_wrap_lines_cons(rest, Seq::empty(), w);
                assert(seq![rest] + Seq::<Seq<char>>::empty() =~= seq![rest]);
            }
            push_wrapped_line(&mut out, &v, i, n, max_width);
            assert(v@.subrange(n as int, n as int) =~= Seq::<char>::empty());
            assert(texts(out@) + Seq::<Seq<char>>::empty() =~= texts(out@));
            i = n;
        }
    }
    assert(v@.subrange(n as int, n as int) =~= Seq::<char>::empty());
    assert(texts(out@) + Seq::<Seq<char>>::empty() =~= texts(out@));
    if out.len() == 0 {
        let s = String::new();
        proof {
            lemma_texts_push(out@, s);
        }
        out.push(s);
        assert(texts(out@) =~= seq![Seq::<char>::empty()]);
    }
    out
}

/// The text holds no whitespace character.
pub open spec fn no_ws(s: Seq<char>) -> bool {
    forall|i: int| 0 <= i < s.len() ==> !is_ws(#[trigger] s[i])
}

/// A display line is within `w` bytes, or is one word (which is never cut).
pub open spec fn fits(l: Seq<char>, w: nat) -> bool {
    utf8_len(l) <= w || no_ws(l)
}

/// Every line of a list fits.
pub open spec fn all_fit(ls: Seq<Seq<char>>, w: nat) -> bool {
    forall|i: int| 0 <= i < ls.len() ==> fits(#[trigger] ls[i], w)
}

proof fn lemma_word_end_prefix(s: Seq<char>)
    ensures
        forall|m: int| 0 <= m < word_end(s) ==> !is_ws(#[trigger] s[m]),
    decreases s.len(),
{
    if s.len() > 0 && !is_ws(s[0]) {
        let d = s.drop_first();
        lemma_word_end_prefix(d);
        lemma_word_end_bound(d);
        assert forall|m: int| 0 <= m < word_end(s) implies !is_ws(#[trigger] s[m]) by {
            if m > 0 {
                assert(s[m] == d[m - 1]);
            }
        }
    }
}

proof fn lemma_words_have_no_ws(s: Seq<char>)
    ensures
        forall|k: int| 0 <= k < words_of(s).len() ==> no_ws(#[trigger] words_of(s)[k]),
    decreases s.len(),
{
    if s.len() > 0 {
        if is_ws(s[0]) {
            lemma_words_have_no_ws(s.drop_first());
            assert(words_of(s) == words_of(s.drop_first()));
        } else {
            let k = word_end(s);
            lemma_word_end_bound(s);
            lemma_word_end_prefix(s);
            lemma_words_have_no_ws(s.skip(k as int));
            let head = s.take(k as int);
            let ws = words_of(s);
            assert(ws == seq![head] + words_of(s.skip(k as int)));
            assert forall|j: int| 0 <= j < ws.len() implies no_ws(#[trigger] ws[j]) by {
                if j == 0 {
                    assert forall|m: int| 0 <= m < head.len() implies !is_ws(#[trigger] head[m]) by {
                        assert(head[m] == s[m]);
                    }
                } else {
                    assert(ws[j] == words_of(s.skip(k as int))[j - 1]);
                }
            }
        }
    }
}

proof fn lemma_pack_fits(words: Seq<Seq<char>>, w: nat, cur: Seq<char>)
    requires
        forall|k: int| 0 <= k < words.len() ==> no_ws(#[trigger] words[k]),
        fits(cur, w),
    ensures
        all_fit(pack(words, w, cur), w),
    decreases words.len(),
{
    if words.len() > 0 {
        let wd = words[0];
        let rest = words.drop_first();
        assert forall|k: int| 0 <= k < rest.len() implies no_ws(#[trigger] rest[k]) by {
            assert(rest[k] == words[k + 1]);
        }
        assert(no_ws(words[0]));
        if cur.len() == 0 {
            lemma_pack_fits(rest, w, wd);
        } else if utf8_len(cur) + 1 + utf8_len(wd) <= w {
            lemma_utf8_len_concat(cur, seq![' ']);
            lemma_utf8_len_one(' ');
            lemma_utf8_len_concat(cur + seq![' '], wd);
            lemma_pack_fits(rest, w, cur + seq![' '] + wd);
        } else {
            lemma_pack_fits(rest, w, wd);
            let out = seq![cur] + pack(rest, w, wd);
            assert forall|i: int| 0 <= i < out.len() implies fits(#[trigger] out[i], w) by {
                if i > 0 {
                    assert(out[i] == pack(rest, w, wd)[i - 1]);
                }
            }
        }
    }
}

proof fn lemma_wrap_line_fits(l: Seq<char>, w: nat)
    ensures
        all_fit(wrap_line(l, w), w),
{
    if utf8_len(l) > w {
        lemma_words_have_no_ws(l);
        assert(no_ws(Seq::<char>::empty()));
        lemma_pack_fits(words_of(l), w, seq![]);
    }
}

proof fn lemma_wrap_lines_fit(ls: Seq<Seq<char>>, w: nat)
    ensures
        all_fit(wrap_lines(ls, w), w),
    decreases ls.len(),
{
    if ls.len() > 0 {
        lemma_wrap_line_fits(ls[0], w);
        lemma_wrap_lines_fit(ls.drop_first(), w);
        let a = wrap_line(ls[0], w);
        let b = wrap_lines(ls.drop_first(), w);
        assert forall|i: int| 0 <= i < (a + b).len() implies fits(#[trigger] (a + b)[i], w) by {
            if i < a.len() {
                assert((a + b)[i] == a[i]);
            } else {
                assert((a + b)[i] == b[i - a.len()]);
            }
        }
    }
}

/// With a positive width, every display line is within the width or is a
/// single word.
pub proof fn wrapped_lines_fit(text: Seq<char>, w: nat)
    requires
        w > 0,
    ensures
        all_fit(wrapped(text, w), w),
{
    lemma_wrap_lines_fit(lines_of(text), w);
    assert(utf8_len(Seq::<char>::empty()) == 0);
}

/// The words of a list of lines, in order.
pub open spec fn words_of_lines(ls: Seq<Seq<char>>) -> Seq<Seq<char>>
    decreases ls.len(),
{
    if ls.len() == 0 {
        seq![]
    } else {
        words_of(ls[0]) + words_of_lines(ls.drop_first())
    }
}

/// A word: not empty, and no whitespace in it.
pub open spec fn is_word(s: Seq<char>) -> bool {
    s.len() > 0 && no_ws(s)
}

proof fn lemma_words_of_lines_concat(a: Seq<Seq<char>>, b: Seq<Seq<char>>)
    ensures
        words_of_lines(a + b) == words_of_lines(a) + words_of_lines(b),
    decreases a.len(),
{
    if a.len() == 0 {
        assert(a + b =~= b);
        assert(Seq::<Seq<char>>::empty() + words_of_lines(b) =~= words_of_lines(b));
    } else {
        lemma_words_of_lines_concat(a.drop_first(), b);
        assert((a + b).drop_first() =~= a.drop_first() + b);
        assert((a + b)[0] == a[0]);
        assert(words_of(a[0]) + (words_of_lines(a.drop_first()) + words_of_lines(b)) =~= (words_of(a[0])
            + words_of_lines(a.drop_first())) + words_of_lines(b));
    }
}

proof fn lemma_words_of_lines_one(l: Seq<char>)
    ensures
        words_of_lines(seq![l]) == words_of(l),
{
    let one = seq![l];
    assert(one[0] == l);
    assert(one.drop_first() =~= Seq::<Seq<char>>::empty());
    assert(words_of_lines(one.drop_first()) == Seq::<Seq<char>>::empty());
    assert(words_of(l) + Seq::<Seq<char>>::empty() =~= words_of(l));
}

proof fn lemma_word_end_stop(s: Seq<char>)
    ensures
        word_end(s) < s.len() ==> is_ws(s[word_end(s) as int]),
    decreases s.len(),
{
    if s.len() > 0 && !is_ws(s[0]) {
        let d = s.drop_first();
        lemma_word_end_stop(d);
        if word_end(s) < s.len() {
            assert(s[word_end(s) as int] == d[word_end(d) as int]);
        }
    }
}

proof fn lemma_word_end_concat(a: Seq<char>, t: Seq<char>)
    requires
        word_end(a) < a.len() || (t.len() > 0 && is_ws(t[0])),
    ensures
        word_end(a + t) == word_end(a),
{
    let k = word_end(a) as int;
    lemma_word_end_bound(a);
    lemma_word_end_prefix(a);
    lemma_word_end_stop(a);
    let at = a + t;
    assert forall|m: int| 0 <= m < k implies !is_ws(#[trigger] at[m]) by {
        assert(at[m] == a[m]);
    }
    if k < a.len() {
        assert(at[k] == a[k]);
    } else {
        assert(at[k] == t[0]);
    }
    lemma_word_end_is(at, k);
}

proof fn lemma_words_of_word(b: Seq<char>)
    requires
        is_word(b),
    ensures
        words_of(b) == seq![b],
{
    assert(!is_ws(b[0]));
    assert forall|m: int| 0 <= m < b.len() implies !is_ws(#[trigger] b[m]) by {}
    lemma_word_end_is(b, b.len() as int);
    let k = b.len() as int;
    assert(b.take(k) =~= b);
    assert(b.skip(k) =~= Seq::<char>::empty());
    assert(words_of(Seq::<char>::empty()) == Seq::<Seq<char>>::empty());
    assert(words_of(b) == seq![b.take(k)] + words_of(b.skip(k)));
    assert(seq![b] + Seq::<Seq<char>>::empty() =~= seq![b]);
}

proof fn lemma_words_join(a: Seq<char>, b: Seq<char>)
    requires
        is_word(b),
    ensures
        words_of(a + seq![' '] + b) == words_of(a) + seq![b],
    decreases a.len(),
{
    let t = seq![' '] + b;
    assert(a + seq![' '] + b =~= a + t);
    assert(is_ws(' '));
    if a.len() == 0 {
        assert(a + t =~= t);
        assert(t[0] == ' ');
        assert(t.drop_first() =~= b);
        lemma_words_of_word(b);
        assert(Seq::<Seq<char>>::empty() + seq![b] =~= seq![b]);
    } else if is_ws(a[0]) {
        let d = a.drop_first();
        lemma_words_join(d, b);
        assert((a + t).drop_first() =~= d + t);
        assert((a + t)[0] == a[0]);
        assert(d + seq![' '] + b =~= d + t);
    } else {
        let k = word_end(a) as int;
        lemma_word_end_bound(a);
        assert(t[0] == ' ');
        lemma_word_end_concat(a, t);
        let at = a + t;
        assert(at[0] == a[0]);
        assert(at.take(k) =~= a.take(k));
        assert(at.skip(k) =~= a.skip(k) + t);
        lemma_words_join(a.skip(k), b);
        assert(a.skip(k) + seq![' '] + b =~= a.skip(k) + t);
        assert(words_of(at) == seq![a.take(k)] + words_of(a.skip(k) + t));
        assert(words_of(a) == seq![a.take(k)] + words_of(a.skip(k)));
        assert(seq![a.take(k)] + (words_of(a.skip(k)) + seq![b]) =~= (seq![a.take(k)] + words_of(
            a.skip(k),
        )) + seq![b]);
    }
}

proof fn lemma_words_are_words(s: Seq<char>)
    ensures
        forall|i: int| 0 <= i < words_of(s).len() ==> is_word(#[trigger] words_of(s)[i]),
    decreases s.len(),
{
    lemma_words_have_no_ws(s);
    if s.len() > 0 {
        if is_ws(s[0]) {
            lemma_words_are_words(s.drop_first());
            assert(words_of(s) == words_of(s.drop_first()));
        } else {
            let k = word_end(s);
            lemma_word_end_bound(s);
            lemma_words_are_words(s.skip(k as int));
            let ws = words_of(s);
            assert(ws == seq![s.take(k as int)] + words_of(s.skip(k as int)));
            assert forall|i: int| 0 <= i < ws.len() implies is_word(#[trigger] ws[i]) by {
                if i == 0 {
                    assert(s.take(k as int).len() == k);
                    assert(k >= 1);
                } else {
                    assert(ws[i] == words_of(s.skip(k as int))[i - 1]);
                }
            }
        }
    }
}

proof fn lemma_pack_keeps_words(words: Seq<Seq<char>>, w: nat, cur: Seq<char>)
    requires
        forall|i: int| 0 <= i < words.len() ==> is_word(#[trigger] words[i]),
    ensures
        words_of_lines(pack(words, w, cur)) == words_of(cur) + words,
    decreases words.len(),
{
    if words.len() == 0 {
        if cur.len() == 0 {
            assert(words_of(cur) == Seq::<Seq<char>>::empty());
            assert(words_of(cur) + words =~= Seq::<Seq<char>>::empty());
        } else {
            lemma_words_of_lines_one(cur);
            assert(words_of(cur) + words =~= words_of(cur));
        }
    } else {
        let wd = words[0];
        let rest = words.drop_first();
        assert forall|i: int| 0 <= i < rest.len() implies is_word(#[trigger] rest[i]) by {
            assert(rest[i] == words[i + 1]);
        }
        assert(is_word(words[0]));
        assert(words =~= seq![wd] + rest);
        lemma_words_of_word(wd);
        if cur.len() == 0 {
            lemma_pack_keeps_words(rest, w, wd);
            assert(words_of(cur) == Seq::<Seq<char>>::empty());
            assert(words_of(cur) + words =~= seq![wd] + rest);
        } else if utf8_len(cur) + 1 + utf8_len(wd) <= w {
            lemma_pack_keeps_words(rest, w, cur + seq![' '] + wd);
            lemma_words_join(cur, wd);
            assert(words_of(cur) + seq![wd] + rest =~= words_of(cur) + words);
        } else {
            lemma_pack_keeps_words(rest, w, wd);
            lemma_words_of_lines_concat(seq![cur], pack(rest, w, wd));
            lemma_words_of_lines_one(cur);
            assert(words_of(cur) + (seq![wd] + rest) =~= words_of(cur) + words);
        }
    }
}

proof fn lemma_wrap_lines_keep_words(ls: Seq<Seq<char>>, w: nat)
    ensures
        words_of_lines(wrap_lines(ls, w)) == words_of_lines(ls),
    decreases ls.len(),
{
    if ls.len() > 0 {
        let l = ls[0];
        lemma_wrap_lines_keep_words(ls.drop_first(), w);
        lemma_words_of_lines_concat(wrap_line(l, w), wrap_lines(ls.drop_first(), w));
        if utf8_len(l) <= w {
            lemma_words_of_lines_one(l);
        } else {
            lemma_words_are_words(l);
            lemma_pack_keeps_words(words_of(l), w, seq![]);
            assert(words_of(Seq::<char>::empty()) == Seq::<Seq<char>>::empty());
            assert(Seq::<Seq<char>>::empty() + words_of(l) =~= words_of(l));
        }
    }
}

/// With a positive width, wrapping loses no word and adds none: the words
/// of the display lines are those of the text's lines, in order.
pub proof fn wrapping_keeps_the_words(text: Seq<char>, w: nat)
    requires
        w > 0,
    ensures
        words_of_lines(wrapped(text, w)) == words_of_lines(lines_of(text)),
{
    lemma_wrap_lines_keep_words(lines_of(text), w);
    if wrap_lines(lines_of(text), w).len() == 0 {
        lemma_words_of_lines_one(Seq::<char>::empty());
        assert(words_of(Seq::<char>::empty()) == Seq::<Seq<char>>::empty());
    }
}

} // verus!
