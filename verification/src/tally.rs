//! Reactions on a message, counted per emoji and listed in text order.

use vstd::prelude::*;
use crate::store::StoredReaction;

verus! {

/// Text order: by code points, left to right, a proper prefix first (the
/// order of the texts' UTF-8 bytes).
pub open spec fn text_lt(a: Seq<char>, b: Seq<char>) -> bool
    decreases a.len(),
{
    if a.len() == 0 {
        b.len() > 0
    } else if b.len() == 0 {
        false
    } else if a[0] == b[0] {
        text_lt(a.drop_first(), b.drop_first())
    } else {
        (a[0] as int) < (b[0] as int)
    }
}

/// No text comes before itself.
pub proof fn lemma_text_lt_irreflexive(a: Seq<char>)
    ensures
        !text_lt(a, a),
    decreases a.len(),
{
    if a.len() > 0 {
        lemma_text_lt_irreflexive(a.drop_first());
    }
}

/// Text order is transitive.
pub proof fn lemma_text_lt_transitive(a: Seq<char>, b: Seq<char>, c: Seq<char>)
    requires
        text_lt(a, b),
        text_lt(b, c),
    ensures
        text_lt(a, c),
    decreases a.len(),
{
    if a.len() > 0 && b.len() > 0 && c.len() > 0 {
        if a[0] == b[0] && b[0] == c[0] {
            lemma_text_lt_transitive(a.drop_first(), b.drop_first(), c.drop_first());
        }
    }
}

/// Of two different texts, one comes first.
pub proof fn lemma_text_lt_total(a: Seq<char>, b: Seq<char>)
    requires
        a != b,
    ensures
        text_lt(a, b) || text_lt(b, a),
    decreases a.len(),
{
    if a.len() == 0 {
        assert(b.len() > 0) by {
            if b.len() == 0 {
                assert(a =~= b);
            }
        }
    } else if b.len() > 0 && a[0] == b[0] {
        assert(a.drop_first() != b.drop_first()) by {
            if a.drop_first() == b.drop_first() {
                assert(a =~= seq![a[0]] + a.drop_first());
                assert(b =~= seq![b[0]] + b.drop_first());
            }
        }
        lemma_text_lt_total(a.drop_first(), b.drop_first());
    } else if b.len() > 0 {
        assert((a[0] as int) != (b[0] as int));
    }
}

/// Whether `a` comes before `b` in text order.
pub fn text_less(a: &str, b: &str) -> (r: bool)
    ensures
        r == text_lt(a@, b@),
{
    let la = a.unicode_len();
    let lb = b.unicode_len();
    let mut i: usize = 0;
    assert(a@.subrange(0, la as int) =~= a@);
    assert(b@.subrange(0, lb as int) =~= b@);
    while i < la && i < lb
        invariant
            la == a@.len(),
            lb == b@.len(),
            i <= la && i <= lb,
            text_lt(a@, b@) == text_lt(a@.subrange(i as int, la as int), b@.subrange(i as int, lb as int)),
        decreases la - i,
    {
        let x = a.get_char(i);
        let y = b.get_char(i);
        proof {
            let sa = a@.subrange(i as int, la as int);
            let sb = b@.subrange(i as int, lb as int);
            assert(sa.drop_first() =~= a@.subrange(i + 1, la as int));
            assert(sb.drop_first() =~= b@.subrange(i + 1, lb as int));
            assert(sa[0] == x && sb[0] == y);
        }
        if x != y {
            return (x as u32) < (y as u32);
        }
        i = i + 1;
    }
    i == la && i < lb
}

/// How many of the reactions carry this emoji.
pub open spec fn emoji_count(rs: Seq<StoredReaction>, e: Seq<char>) -> nat
    decreases rs.len(),
{
    if rs.len() == 0 {
        0
    } else {
        emoji_count(rs.drop_last(), e) + if rs.last().emoji@ == e {
            1nat
        } else {
            0nat
        }
    }
}

/// Some entry of the tally is for this emoji.
pub open spec fn listed(out: Seq<(String, usize)>, e: Seq<char>) -> bool {
    exists|i: int| 0 <= i < out.len() && #[trigger] out[i].0@ == e
}

/// `out` is the tally of `rs`: one entry per emoji that occurs, in text
/// order, with the number of reactions carrying it.
pub open spec fn tally_of(rs: Seq<StoredReaction>, out: Seq<(String, usize)>) -> bool {
    &&& forall|i: int, j: int| 0 <= i < j < out.len() ==> text_lt(#[trigger] out[i].0@, #[trigger] out[j].0@)
    &&& forall|i: int| 0 <= i < out.len() ==> (#[trigger] out[i]).1 == emoji_count(rs, out[i].0@) && out[i].1 > 0
    &&& forall|k: int| 0 <= k < rs.len() ==> listed(out, (#[trigger] rs[k]).emoji@)
}

proof fn lemma_count_bound(rs: Seq<StoredReaction>, e: Seq<char>)
    ensures
        emoji_count(rs, e) <= rs.len(),
        emoji_count(rs, e) > 0 ==> exists|k: int| 0 <= k < rs.len() && (#[trigger] rs[k]).emoji@ == e,
    decreases rs.len(),
{
    if rs.len() > 0 {
        lemma_count_bound(rs.drop_last(), e);
        if emoji_count(rs.drop_last(), e) > 0 {
            let k = choose|k: int| 0 <= k < rs.drop_last().len() && (#[trigger] rs.drop_last()[k]).emoji@ == e;
            assert(rs[k] == rs.drop_last()[k]);
        }
        if rs.last().emoji@ == e {
            assert(rs[rs.len() - 1] == rs.last());
        }
    }
}

/// The reactions counted per emoji, in text order of the emoji.
pub fn tally_reactions(rs: &Vec<StoredReaction>) -> (out: Vec<(String, usize)>)
    ensures
        tally_of(rs@, out@),
{
    let mut out: Vec<(String, usize)> = Vec::new();
    let mut k: usize = 0;
    while k < rs.len()
        invariant
            k <= rs@.len(),
            tally_of(rs@.subrange(0, k as int), out@),
            forall|i: int| 0 <= i < out@.len() ==> (#[trigger] out@[i]).1 <= k,
        decreases rs@.len() - k,
    {
        let ghost s = rs@.subrange(0, k as int);
        let ghost s2 = rs@.subrange(0, k + 1);
        let e = &rs[k].emoji;
        proof {
            assert(s2.drop_last() =~= s);
            assert(s2.last() == rs@[k as int]);
            assert forall|x: Seq<char>| #[trigger] emoji_count(s2, x) == emoji_count(s, x) + if x == e@ {
                1nat
            } else {
                0nat
            } by {}
            assert forall|j: int| 0 <= j < k implies s2[j] == #[trigger] s[j] by {}
        }
        let mut p: usize = 0;
        while p < out.len() && text_less(out[p].0.as_str(), e.as_str())
            invariant
                p <= out@.len(),
                forall|i: int| 0 <= i < p ==> text_lt((#[trigger] out@[i]).0@, e@),
            decreases out@.len() - p,
        {
            p = p + 1;
        }
        let ghost before = out@;
        if p < out.len() && crate::text::str_eq(out[p].0.as_str(), e.as_str()) {
            let name = out[p].0.clone();
            let c = out[p].1;
            out.set(p, (name, c + 1));
            proof {
                assert forall|i: int| 0 <= i < out@.len() && i != p implies (#[trigger] out@[i]).0@ != e@ by {
                    if i < p {
                        lemma_text_lt_irreflexive(e@);
                        assert(text_lt(before[i].0@, before[p as int].0@));
                    } else {
                        assert(text_lt(before[p as int].0@, before[i].0@));
                        lemma_text_lt_irreflexive(e@);
                    }
                }
                assert forall|j: int| 0 <= j < s2.len() implies listed(out@, (#[trigger] s2[j]).emoji@) by {
                    if j < k {
                        assert(s2[j] == s[j]);
                        assert(listed(before, s[j].emoji@));
                        let i = choose|i: int| 0 <= i < before.len() && #[trigger] before[i].0@ == s[j].emoji@;
                        assert(out@[i].0@ == before[i].0@);
                    } else {
                        assert(out@[p as int].0@ == e@);
                    }
                }
            }
        } else {
            proof {
                assert forall|i: int| 0 <= i < before.len() implies (#[trigger] before[i]).0@ != e@ by {
                    if i < p {
                        lemma_text_lt_irreflexive(e@);
                    } else {
                        if before[p as int].0@ != e@ {
                            lemma_text_lt_total(before[p as int].0@, e@);
                        }
                        if i > p {
                            assert(text_lt(before[p as int].0@, before[i].0@));
                            lemma_text_lt_transitive(e@, before[p as int].0@, before[i].0@);
                            lemma_text_lt_irreflexive(e@);
                        } else {
                            lemma_text_lt_irreflexive(e@);
                        }
                    }
                }
                lemma_count_bound(s, e@);
                if emoji_count(s, e@) > 0 {
                    let j = choose|j: int| 0 <= j < s.len() && (#[trigger] s[j]).emoji@ == e@;
                    assert(listed(before, s[j].emoji@));
                }
            }
            out.insert(p, (e.clone(), 1));
            proof {
                assert forall|i: int, j: int| 0 <= i < j < out@.len() implies text_lt(
                    #[trigger] out@[i].0@,
                    #[trigger] out@[j].0@,
                ) by {
                    if j < p {
                        assert(out@[i] == before[i] && out@[j] == before[j]);
                    } else if j == p {
                        assert(out@[i] == before[i]);
                    } else if i < p {
                        assert(out@[i] == before[i] && out@[j] == before[j - 1]);
                        if before[p as int].0@ != e@ {
                            lemma_text_lt_total(before[p as int].0@, e@);
                        }
                        if j - 1 > p {
                            assert(text_lt(before[p as int].0@, before[j - 1].0@));
                            lemma_text_lt_transitive(e@, before[p as int].0@, before[j - 1].0@);
                        }
                        lemma_text_lt_transitive(before[i].0@, e@, before[j - 1].0@);
                    } else if i == p {
                        assert(out@[j] == before[j - 1]);
                        if before[p as int].0@ != e@ {
                            lemma_text_lt_total(before[p as int].0@, e@);
                        }
                        if j - 1 > p {
                            assert(text_lt(before[p as int].0@, before[j - 1].0@));
                            lemma_text_lt_transitive(e@, before[p as int].0@, before[j - 1].0@);
                        }
                    } else {
                        assert(out@[i] == before[i - 1] && out@[j] == before[j - 1]);
                    }
                }
                assert forall|i: int| 0 <= i < out@.len() implies (#[trigger] out@[i]).1 == emoji_count(
                    s2,
                    out@[i].0@,
                ) && out@[i].1 > 0 by {
                    if i < p {
                        assert(out@[i] == before[i]);
                    } else if i > p {
                        assert(out@[i] == before[i - 1]);
                    }
                }
                assert forall|j: int| 0 <= j < s2.len() implies listed(out@, (#[trigger] s2[j]).emoji@) by {
                    if j < k {
                        assert(s2[j] == s[j]);
                        assert(listed(before, s[j].emoji@));
                        let i = choose|i: int| 0 <= i < before.len() && #[trigger] before[i].0@ == s[j].emoji@;
                        if i < p {
                            assert(out@[i] == before[i]);
                        } else {
                            assert(out@[i + 1] == before[i]);
                        }
                    } else {
                        assert(out@[p as int].0@ == e@);
                    }
                }
            }
        }
        k = k + 1;
    }
    assert(rs@.subrange(0, rs@.len() as int) =~= rs@);
    out
}

} // verus!
