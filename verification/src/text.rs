//! Placeholder substitution in text, over sequences of characters.

use vstd::prelude::*;
use vstd::string::*;

verus! {

/// `s` holds `pat` at position `i`.
pub open spec fn occurs_at(s: Seq<char>, pat: Seq<char>, i: int) -> bool {
    0 <= i && i + pat.len() <= s.len() && s.subrange(i, i + pat.len()) == pat
}

/// `pat` occurs somewhere in `s`.
pub open spec fn occurs_in(s: Seq<char>, pat: Seq<char>) -> bool {
    exists|i: int| occurs_at(s, pat, i)
}

/// Every non-overlapping occurrence of `pat` in `s`, taken from left to right,
/// replaced by `rep`: what `str::replace` computes for a non-empty pattern.
pub open spec fn replace_all(s: Seq<char>, pat: Seq<char>, rep: Seq<char>) -> Seq<char>
    recommends
        pat.len() > 0,
    decreases s.len(),
{
    if s.len() == 0 {
        s
    } else if pat.len() > 0 && occurs_at(s, pat, 0) {
        rep + replace_all(s.skip(pat.len() as int), pat, rep)
    } else {
        seq![s[0]] + replace_all(s.skip(1), pat, rep)
    }
}


/// `rep` cannot take part in an occurrence of `q`: it is not empty, its first
/// character is not in `q`, and the first character of `q` is not in `rep`.
pub open spec fn kept_apart(q: Seq<char>, rep: Seq<char>) -> bool {
    &&& rep.len() > 0
    &&& !q.contains(rep[0])
    &&& !rep.contains(q[0])
}

/// The first `k` characters of a replacement's output are those of its input,
/// unless the replacement text begins somewhere among them.
proof fn lemma_replace_all_prefix(t: Seq<char>, pat: Seq<char>, rep: Seq<char>, k: int)
    requires
        pat.len() > 0,
        rep.len() > 0,
        0 <= k <= replace_all(t, pat, rep).len(),
    ensures
        ({
            let out = replace_all(t, pat, rep);
            ||| (t.len() >= k && out.take(k) == t.take(k))
            ||| exists|j: int| 0 <= j < k && #[trigger] out[j] == rep[0]
        }),
    decreases t.len(),
{
    let out = replace_all(t, pat, rep);
    if k == 0 {
        assert(out.take(0) =~= t.take(0));
    } else if t.len() == 0 {
    } else if occurs_at(t, pat, 0) {
        assert(out[0] == rep[0]);
    } else {
        let t1 = t.skip(1);
        let out1 = replace_all(t1, pat, rep);
        assert(out == seq![t[0]] + out1);
        lemma_replace_all_prefix(t1, pat, rep, k - 1);
        if t1.len() >= k - 1 && out1.take(k - 1) == t1.take(k - 1) {
            assert(out.take(k) =~= seq![t[0]] + out1.take(k - 1));
            assert(t.take(k) =~= seq![t[0]] + t1.take(k - 1));
        } else {
            let j = choose|j: int| 0 <= j < k - 1 && #[trigger] out1[j] == rep[0];
            assert(out[j + 1] == rep[0]);
        }
    }
}

/// Replacing `pat` leaves no occurrence of `q` behind, where `q` is `pat`
/// itself or does not occur in the input, and the replacement text is kept
/// apart from `q`.
pub proof fn lemma_replace_all_no_occurrence(s: Seq<char>, pat: Seq<char>, rep: Seq<char>, q: Seq<char>)
    requires
        pat.len() > 0,
        q.len() > 0,
        kept_apart(q, rep),
        q == pat || !occurs_in(s, q),
    ensures
        !occurs_in(replace_all(s, pat, rep), q),
    decreases s.len(),
{
    let out = replace_all(s, pat, rep);
    if s.len() == 0 {
    } else if occurs_at(s, pat, 0) {
        let t = s.skip(pat.len() as int);
        if q != pat {
            assert forall|i: int| !occurs_at(t, q, i) by {
                if occurs_at(t, q, i) {
                    assert(s.subrange(i + pat.len(), i + pat.len() + q.len()) =~= t.subrange(i, i + q.len()));
                    assert(occurs_at(s, q, i + pat.len()));
                }
            }
        }
        lemma_replace_all_no_occurrence(t, pat, rep, q);
        let r1 = replace_all(t, pat, rep);
        assert(out == rep + r1);
        assert forall|i: int| !occurs_at(out, q, i) by {
            if occurs_at(out, q, i) {
                if i < rep.len() {
                    assert(out.subrange(i, i + q.len())[0] == q[0]);
                    assert(rep[i] == q[0]);
                } else {
                    assert(r1.subrange(i - rep.len(), i - rep.len() + q.len()) =~= out.subrange(i, i + q.len()));
                    assert(occurs_at(r1, q, i - rep.len()));
                }
            }
        }
    } else {
        let t = s.skip(1);
        if q != pat {
            assert forall|i: int| !occurs_at(t, q, i) by {
                if occurs_at(t, q, i) {
                    assert(s.subrange(i + 1, i + 1 + q.len()) =~= t.subrange(i, i + q.len()));
                    assert(occurs_at(s, q, i + 1));
                }
            }
        }
        lemma_replace_all_no_occurrence(t, pat, rep, q);
        let r1 = replace_all(t, pat, rep);
        assert(out == seq![s[0]] + r1);
        assert forall|i: int| !occurs_at(out, q, i) by {
            if occurs_at(out, q, i) {
                if i >= 1 {
                    assert(r1.subrange(i - 1, i - 1 + q.len()) =~= out.subrange(i, i + q.len()));
                    assert(occurs_at(r1, q, i - 1));
                } else {
                    let k = q.len() - 1;
                    lemma_replace_all_prefix(t, pat, rep, k);
                    if t.len() >= k && r1.take(k) == t.take(k) {
                        assert(out.subrange(0, q.len() as int) =~= seq![s[0]] + r1.take(k));
                        assert(s.subrange(0, q.len() as int) =~= seq![s[0]] + t.take(k));
                        assert(occurs_at(s, q, 0));
                    } else {
                        let j = choose|j: int| 0 <= j < k && #[trigger] r1[j] == rep[0];
                        assert(out[j + 1] == rep[0]);
                        assert(out.subrange(0, q.len() as int)[j + 1] == q[j + 1]);
                        assert(q.contains(rep[0]));
                    }
                }
            }
        }
    }
}

/// Where `pat` does not occur, replacing it changes nothing.
pub proof fn lemma_replace_all_absent(s: Seq<char>, pat: Seq<char>, rep: Seq<char>)
    requires
        pat.len() > 0,
        !occurs_in(s, pat),
    ensures
        replace_all(s, pat, rep) == s,
    decreases s.len(),
{
    if s.len() > 0 {
        assert(!occurs_at(s, pat, 0));
        let t = s.skip(1);
        assert forall|i: int| !occurs_at(t, pat, i) by {
            if occurs_at(t, pat, i) {
                assert(s.subrange(i + 1, i + 1 + pat.len()) =~= t.subrange(i, i + pat.len()));
                assert(occurs_at(s, pat, i + 1));
            }
        }
        lemma_replace_all_absent(t, pat, rep);
        assert(s =~= seq![s[0]] + t);
    }
}


/// With a one-character pattern, replacing in a concatenation is replacing
/// in each part.
pub proof fn lemma_replace_char_concat(a: Seq<char>, b: Seq<char>, c: char, rep: Seq<char>)
    ensures
        replace_all(a + b, seq![c], rep) == replace_all(a, seq![c], rep) + replace_all(b, seq![c], rep),
    decreases a.len(),
{
    let pat = seq![c];
    if a.len() == 0 {
        assert(a + b =~= b);
    } else {
        let ab = a + b;
        assert(ab.skip(1) =~= a.skip(1) + b);
        lemma_replace_char_concat(a.skip(1), b, c, rep);
        assert(occurs_at(ab, pat, 0) == occurs_at(a, pat, 0)) by {
            assert(ab.subrange(0, 1) =~= a.subrange(0, 1));
        }
        if occurs_at(a, pat, 0) {
            assert(replace_all(ab, pat, rep) == rep + replace_all(ab.skip(1), pat, rep));
            assert(replace_all(a, pat, rep) == rep + replace_all(a.skip(1), pat, rep));
        } else {
            assert(ab[0] == a[0]);
        }
        assert(replace_all(ab, pat, rep) =~= replace_all(a, pat, rep) + replace_all(b, pat, rep));
    }
}

/// The number of positions at which `q` occurs in `s` (overlapping ones included).
pub open spec fn count_occurrences(s: Seq<char>, q: Seq<char>) -> nat
    decreases s.len(),
{
    if s.len() == 0 {
        0
    } else {
        (if occurs_at(s, q, 0) { 1nat } else { 0nat }) + count_occurrences(s.skip(1), q)
    }
}

/// Occurrences that cannot start inside `a` are those of `b`.
proof fn lemma_count_skip_prefix(a: Seq<char>, b: Seq<char>, q: Seq<char>)
    requires
        forall|i: int| 0 <= i < a.len() ==> !occurs_at(a + b, q, i),
    ensures
        count_occurrences(a + b, q) == count_occurrences(b, q),
    decreases a.len(),
{
    if a.len() == 0 {
        assert(a + b =~= b);
    } else {
        let ab = a + b;
        assert(ab.skip(1) =~= a.skip(1) + b);
        assert forall|i: int| 0 <= i < a.skip(1).len() implies !occurs_at(a.skip(1) + b, q, i) by {
            if occurs_at(a.skip(1) + b, q, i) {
                assert(ab.subrange(i + 1, i + 1 + q.len()) =~= (a.skip(1) + b).subrange(i, i + q.len()));
                assert(occurs_at(ab, q, i + 1));
            }
        }
        assert(!occurs_at(ab, q, 0));
        lemma_count_skip_prefix(a.skip(1), b, q);
    }
}

/// Where no occurrence of `pat` starts before position `k`, replacing leaves
/// the first `k` characters as they were.
proof fn lemma_replace_all_keeps_prefix(t: Seq<char>, pat: Seq<char>, rep: Seq<char>, k: int)
    requires
        pat.len() > 0,
        0 <= k <= t.len(),
        forall|j: int| 0 <= j < k ==> !occurs_at(t, pat, j),
    ensures
        replace_all(t, pat, rep).len() >= k,
        replace_all(t, pat, rep).take(k) == t.take(k),
    decreases t.len(),
{
    let out = replace_all(t, pat, rep);
    if k == 0 {
        assert(out.take(0) =~= t.take(0));
    } else {
        assert(!occurs_at(t, pat, 0));
        let t1 = t.skip(1);
        assert forall|j: int| 0 <= j < k - 1 implies !occurs_at(t1, pat, j) by {
            if occurs_at(t1, pat, j) {
                assert(t.subrange(j + 1, j + 1 + pat.len()) =~= t1.subrange(j, j + pat.len()));
                assert(occurs_at(t, pat, j + 1));
            }
        }
        lemma_replace_all_keeps_prefix(t1, pat, rep, k - 1);
        let out1 = replace_all(t1, pat, rep);
        assert(out == seq![t[0]] + out1);
        assert(out.take(k) =~= seq![t[0]] + out1.take(k - 1));
        assert(t.take(k) =~= seq![t[0]] + t1.take(k - 1));
    }
}

/// Replacing `pat` neither adds nor removes occurrences of `q`, where `q`
/// and `pat` cannot overlap (neither holds the other's first character) and
/// the replacement text is kept apart from `q`.
pub proof fn lemma_replace_all_count(s: Seq<char>, pat: Seq<char>, rep: Seq<char>, q: Seq<char>)
    requires
        pat.len() > 0,
        q.len() > 0,
        kept_apart(q, rep),
        !pat.contains(q[0]),
        !q.contains(pat[0]),
    ensures
        count_occurrences(replace_all(s, pat, rep), q) == count_occurrences(s, q),
    decreases s.len(),
{
    let out = replace_all(s, pat, rep);
    if s.len() == 0 {
    } else if occurs_at(s, pat, 0) {
        let t = s.skip(pat.len() as int);
        let r1 = replace_all(t, pat, rep);
        lemma_replace_all_count(t, pat, rep, q);
        assert(out == rep + r1);
        assert forall|i: int| 0 <= i < rep.len() implies !occurs_at(rep + r1, q, i) by {
            if occurs_at(rep + r1, q, i) {
                assert((rep + r1).subrange(i, i + q.len())[0] == q[0]);
                assert(rep[i] == q[0]);
            }
        }
        lemma_count_skip_prefix(rep, r1, q);
        let head = s.take(pat.len() as int);
        assert(s =~= head + t);
        assert forall|i: int| 0 <= i < head.len() implies !occurs_at(head + t, q, i) by {
            if occurs_at(head + t, q, i) {
                assert((head + t).subrange(i, i + q.len())[0] == q[0]);
                assert(s.subrange(0, pat.len() as int)[i] == pat[i]);
                assert(pat[i] == q[0]);
            }
        }
        lemma_count_skip_prefix(head, t, q);
    } else {
        let t = s.skip(1);
        let r1 = replace_all(t, pat, rep);
        lemma_replace_all_count(t, pat, rep, q);
        assert(out == seq![s[0]] + r1);
        assert(out.skip(1) =~= r1);
        let k = q.len() - 1;
        if occurs_at(out, q, 0) {
            lemma_replace_all_prefix(t, pat, rep, k);
            if t.len() >= k && r1.take(k) == t.take(k) {
                assert(out.subrange(0, q.len() as int) =~= seq![s[0]] + r1.take(k));
                assert(s.subrange(0, q.len() as int) =~= seq![s[0]] + t.take(k));
                assert(occurs_at(s, q, 0));
            } else {
                let j = choose|j: int| 0 <= j < k && #[trigger] r1[j] == rep[0];
                assert(out[j + 1] == rep[0]);
                assert(out.subrange(0, q.len() as int)[j + 1] == q[j + 1]);
                assert(q.contains(rep[0]));
            }
        }
        if occurs_at(s, q, 0) {
            assert forall|j: int| 0 <= j < k implies !occurs_at(t, pat, j) by {
                if occurs_at(t, pat, j) {
                    assert(t.subrange(j, j + pat.len())[0] == pat[0]);
                    assert(s.subrange(0, q.len() as int)[j + 1] == q[j + 1]);
                    assert(q[j + 1] == pat[0]);
                }
            }
            lemma_replace_all_keeps_prefix(t, pat, rep, k);
            assert(out.subrange(0, q.len() as int) =~= seq![s[0]] + r1.take(k));
            assert(s.subrange(0, q.len() as int) =~= seq![s[0]] + t.take(k));
            assert(occurs_at(out, q, 0));
        }
    }
}

/// An occurrence of `q` after the replacement lies inside a copy of the
/// replacement text, where `q` is `pat` or absent from the input and `q`
/// holds neither the first nor the last character of the replacement text.
pub proof fn lemma_replace_all_occurrence_within(s: Seq<char>, pat: Seq<char>, rep: Seq<char>, q: Seq<char>)
    requires
        pat.len() > 0,
        q.len() > 0,
        rep.len() > 0,
        !q.contains(rep[0]),
        !q.contains(rep[rep.len() - 1]),
        q == pat || !occurs_in(s, q),
        occurs_in(replace_all(s, pat, rep), q),
    ensures
        occurs_in(rep, q),
    decreases s.len(),
{
    let out = replace_all(s, pat, rep);
    let i = choose|i: int| occurs_at(out, q, i);
    if s.len() == 0 {
    } else if occurs_at(s, pat, 0) {
        let t = s.skip(pat.len() as int);
        let r1 = replace_all(t, pat, rep);
        assert(out == rep + r1);
        if i < rep.len() {
            if i + q.len() <= rep.len() {
                assert(rep.subrange(i, i + q.len()) =~= out.subrange(i, i + q.len()));
                assert(occurs_at(rep, q, i));
            } else {
                let last = rep.len() - 1;
                assert(out.subrange(i, i + q.len())[last - i] == q[last - i]);
                assert(out[last] == rep[last]);
                assert(q.contains(rep[rep.len() - 1]));
            }
        } else {
            assert(r1.subrange(i - rep.len(), i - rep.len() + q.len()) =~= out.subrange(i, i + q.len()));
            assert(occurs_at(r1, q, i - rep.len()));
            if q != pat {
                assert forall|j: int| !occurs_at(t, q, j) by {
                    if occurs_at(t, q, j) {
                        assert(s.subrange(j + pat.len(), j + pat.len() + q.len()) =~= t.subrange(j, j + q.len()));
                        assert(occurs_at(s, q, j + pat.len()));
                    }
                }
            }
            lemma_replace_all_occurrence_within(t, pat, rep, q);
        }
    } else {
        let t = s.skip(1);
        let r1 = replace_all(t, pat, rep);
        assert(out == seq![s[0]] + r1);
        if q != pat {
            assert forall|j: int| !occurs_at(t, q, j) by {
                if occurs_at(t, q, j) {
                    assert(s.subrange(j + 1, j + 1 + q.len()) =~= t.subrange(j, j + q.len()));
                    assert(occurs_at(s, q, j + 1));
                }
            }
        }
        if i >= 1 {
            assert(r1.subrange(i - 1, i - 1 + q.len()) =~= out.subrange(i, i + q.len()));
            assert(occurs_at(r1, q, i - 1));
            lemma_replace_all_occurrence_within(t, pat, rep, q);
        } else {
            let k = q.len() - 1;
            lemma_replace_all_prefix(t, pat, rep, k);
            if t.len() >= k && r1.take(k) == t.take(k) {
                assert(out.subrange(0, q.len() as int) =~= seq![s[0]] + r1.take(k));
                assert(s.subrange(0, q.len() as int) =~= seq![s[0]] + t.take(k));
                assert(occurs_at(s, q, 0));
            } else {
                let j = choose|j: int| 0 <= j < k && #[trigger] r1[j] == rep[0];
                assert(out[j + 1] == rep[0]);
                assert(out.subrange(0, q.len() as int)[j + 1] == q[j + 1]);
                assert(q.contains(rep[0]));
            }
        }
    }
}

/// Where `pat` occurs in the input, the replacement text occurs in the output.
pub proof fn lemma_replace_all_contains_rep(s: Seq<char>, pat: Seq<char>, rep: Seq<char>)
    requires
        pat.len() > 0,
        occurs_in(s, pat),
    ensures
        occurs_in(replace_all(s, pat, rep), rep),
    decreases s.len(),
{
    let out = replace_all(s, pat, rep);
    if occurs_at(s, pat, 0) {
        let t = s.skip(pat.len() as int);
        assert(out == rep + replace_all(t, pat, rep));
        assert(out.subrange(0, rep.len() as int) =~= rep);
        assert(occurs_at(out, rep, 0));
    } else {
        let i = choose|i: int| occurs_at(s, pat, i);
        let t = s.skip(1);
        assert(t.subrange(i - 1, i - 1 + pat.len()) =~= s.subrange(i, i + pat.len()));
        assert(occurs_at(t, pat, i - 1));
        lemma_replace_all_contains_rep(t, pat, rep);
        let r1 = replace_all(t, pat, rep);
        assert(out == seq![s[0]] + r1);
        let j = choose|j: int| occurs_at(r1, rep, j);
        assert(out.subrange(j + 1, j + 1 + rep.len()) =~= r1.subrange(j, j + rep.len()));
        assert(occurs_at(out, rep, j + 1));
    }
}

/// The number of replacements made.
pub open spec fn replacement_count(s: Seq<char>, pat: Seq<char>) -> nat
    decreases s.len(),
{
    if s.len() == 0 {
        0
    } else if pat.len() > 0 && occurs_at(s, pat, 0) {
        1 + replacement_count(s.skip(pat.len() as int), pat)
    } else {
        replacement_count(s.skip(1), pat)
    }
}

/// The output's length: each replacement trades the pattern's length for
/// the replacement's; and one replacement at least is made where the
/// pattern occurs.
pub proof fn lemma_replace_all_len(s: Seq<char>, pat: Seq<char>, rep: Seq<char>)
    requires
        pat.len() > 0,
    ensures
        replace_all(s, pat, rep).len() + replacement_count(s, pat) * pat.len()
            == s.len() + replacement_count(s, pat) * rep.len(),
        occurs_in(s, pat) ==> replacement_count(s, pat) > 0,
    decreases s.len(),
{
    if s.len() == 0 {
        assert(replacement_count(s, pat) == 0);
        let n = replacement_count(s, pat);
        assert(n == 0);
        assert(n * pat.len() == 0) by (nonlinear_arith)
            requires n == 0;
        assert(n * rep.len() == 0) by (nonlinear_arith)
            requires n == 0;
    } else if occurs_at(s, pat, 0) {
        let t = s.skip(pat.len() as int);
        lemma_replace_all_len(t, pat, rep);
        let n = replacement_count(t, pat);
        assert(replace_all(s, pat, rep) == rep + replace_all(t, pat, rep));
        assert(replacement_count(s, pat) == 1 + n);
        assert(t.len() == s.len() - pat.len());
        assert((1 + n) * pat.len() == pat.len() + n * pat.len()) by (nonlinear_arith);
        assert((1 + n) * rep.len() == rep.len() + n * rep.len()) by (nonlinear_arith);
        assert(replace_all(s, pat, rep).len() == rep.len() + replace_all(t, pat, rep).len());
    } else {
        let t = s.skip(1);
        lemma_replace_all_len(t, pat, rep);
        assert(replace_all(s, pat, rep) == seq![s[0]] + replace_all(t, pat, rep));
        assert(replacement_count(s, pat) == replacement_count(t, pat));
        if occurs_in(s, pat) {
            let i = choose|i: int| occurs_at(s, pat, i);
            assert(t.subrange(i - 1, i - 1 + pat.len()) =~= s.subrange(i, i + pat.len()));
            assert(occurs_at(t, pat, i - 1));
        }
    }
}

/// Where the pattern occurs, two replacement texts that give the same output
/// are the same.
pub proof fn lemma_replace_all_injective(s: Seq<char>, pat: Seq<char>, rep1: Seq<char>, rep2: Seq<char>)
    requires
        pat.len() > 0,
        occurs_in(s, pat),
        replace_all(s, pat, rep1) == replace_all(s, pat, rep2),
    ensures
        rep1 == rep2,
    decreases s.len(),
{
    lemma_replace_all_len(s, pat, rep1);
    lemma_replace_all_len(s, pat, rep2);
    let n = replacement_count(s, pat);
    if rep1.len() != rep2.len() {
        if rep1.len() < rep2.len() {
            assert(n * rep1.len() < n * rep2.len()) by (nonlinear_arith)
                requires n > 0, rep1.len() < rep2.len();
        } else {
            assert(n * rep2.len() < n * rep1.len()) by (nonlinear_arith)
                requires n > 0, rep2.len() < rep1.len();
        }
    } else if occurs_at(s, pat, 0) {
        let t = s.skip(pat.len() as int);
        assert(replace_all(s, pat, rep1) == rep1 + replace_all(t, pat, rep1));
        assert(replace_all(s, pat, rep2) == rep2 + replace_all(t, pat, rep2));
        assert(rep1 =~= replace_all(s, pat, rep1).take(rep1.len() as int));
        assert(rep2 =~= replace_all(s, pat, rep2).take(rep2.len() as int));
    } else {
        let t = s.skip(1);
        let i = choose|i: int| occurs_at(s, pat, i);
        assert(t.subrange(i - 1, i - 1 + pat.len()) =~= s.subrange(i, i + pat.len()));
        assert(occurs_at(t, pat, i - 1));
        assert(replace_all(t, pat, rep1) =~= replace_all(s, pat, rep1).skip(1));
        assert(replace_all(t, pat, rep2) =~= replace_all(s, pat, rep2).skip(1));
        lemma_replace_all_injective(t, pat, rep1, rep2);
    }
}


/// `pat` lines up with `q` from position `j` on, as far as both reach.
pub open spec fn fits_at(q: Seq<char>, pat: Seq<char>, j: int) -> bool {
    forall|k: int| 0 <= k < pat.len() && j + k < q.len() ==> #[trigger] pat[k] == q[j + k]
}

/// An occurrence of `q` survives the replacement of `pat` where no
/// occurrence of `pat` can overlap it: `pat` holds not the first character
/// of `q`, and lines up with `q` at no position of `q`.
pub proof fn lemma_replace_all_keeps_occurrence(s: Seq<char>, pat: Seq<char>, rep: Seq<char>, q: Seq<char>)
    requires
        pat.len() > 0,
        q.len() > 0,
        occurs_in(s, q),
        !pat.contains(q[0]),
        forall|j: int| 0 <= j < q.len() ==> !fits_at(q, pat, j),
    ensures
        occurs_in(replace_all(s, pat, rep), q),
    decreases s.len(),
{
    let out = replace_all(s, pat, rep);
    let i = choose|i: int| occurs_at(s, q, i);
    if i == 0 {
        assert forall|j: int| 0 <= j < q.len() implies !occurs_at(s, pat, j) by {
            if occurs_at(s, pat, j) {
                assert forall|k: int| 0 <= k < pat.len() && j + k < q.len() implies #[trigger] pat[k] == q[j + k] by {
                    assert(s.subrange(j, j + pat.len())[k] == s[j + k]);
                    assert(s.subrange(0, q.len() as int)[j + k] == s[j + k]);
                }
                assert(fits_at(q, pat, j));
            }
        }
        lemma_replace_all_keeps_prefix(s, pat, rep, q.len() as int);
        assert(out.subrange(0, q.len() as int) =~= out.take(q.len() as int));
        assert(s.subrange(0, q.len() as int) =~= s.take(q.len() as int));
        assert(occurs_at(out, q, 0));
    } else if occurs_at(s, pat, 0) {
        if i < pat.len() {
            assert(s.subrange(0, pat.len() as int)[i] == s[i]);
            assert(s.subrange(i, i + q.len())[0] == s[i]);
            assert(pat[i] == q[0]);
        }
        let t = s.skip(pat.len() as int);
        assert(t.subrange(i - pat.len(), i - pat.len() + q.len()) =~= s.subrange(i, i + q.len()));
        assert(occurs_at(t, q, i - pat.len()));
        lemma_replace_all_keeps_occurrence(t, pat, rep, q);
        let r1 = replace_all(t, pat, rep);
        assert(out == rep + r1);
        let j = choose|j: int| occurs_at(r1, q, j);
        assert(out.subrange(j + rep.len(), j + rep.len() + q.len()) =~= r1.subrange(j, j + q.len()));
        assert(occurs_at(out, q, j + rep.len()));
    } else {
        let t = s.skip(1);
        assert(t.subrange(i - 1, i - 1 + q.len()) =~= s.subrange(i, i + q.len()));
        assert(occurs_at(t, q, i - 1));
        lemma_replace_all_keeps_occurrence(t, pat, rep, q);
        let r1 = replace_all(t, pat, rep);
        assert(out == seq![s[0]] + r1);
        let j = choose|j: int| occurs_at(r1, q, j);
        assert(out.subrange(j + 1, j + 1 + q.len()) =~= r1.subrange(j, j + q.len()));
        assert(occurs_at(out, q, j + 1));
    }
}

/// A text that occurs in something that occurs in `s` occurs in `s`.
pub proof fn lemma_occurs_transitive(s: Seq<char>, mid: Seq<char>, q: Seq<char>)
    ensures
        occurs_in(s, mid) && occurs_in(mid, q) ==> occurs_in(s, q),
{
    if occurs_in(s, mid) && occurs_in(mid, q) {
        let i = choose|i: int| occurs_at(s, mid, i);
        let j = choose|j: int| occurs_at(mid, q, j);
        assert(s.subrange(i + j, i + j + q.len()) =~= mid.subrange(j, j + q.len()));
        assert(occurs_at(s, q, i + j));
    }
}


/// Replacing in a concatenation is replacing in each part, where no
/// occurrence of `pat` can straddle the join: `pat` lacks the last character
/// of `u` or the first character of `v`.
pub proof fn lemma_replace_all_concat(u: Seq<char>, v: Seq<char>, pat: Seq<char>, rep: Seq<char>)
    requires
        pat.len() > 0,
        u.len() == 0 || v.len() == 0 || !pat.contains(u[u.len() - 1]) || !pat.contains(v[0]),
    ensures
        replace_all(u + v, pat, rep) == replace_all(u, pat, rep) + replace_all(v, pat, rep),
    decreases u.len(),
{
    let s = u + v;
    if u.len() == 0 {
        assert(s =~= v);
        assert(replace_all(u, pat, rep) =~= Seq::<char>::empty());
        assert(replace_all(u, pat, rep) + replace_all(v, pat, rep) =~= replace_all(v, pat, rep));
    } else if v.len() == 0 {
        assert(s =~= u);
        assert(replace_all(v, pat, rep) =~= Seq::<char>::empty());
        assert(replace_all(u, pat, rep) + replace_all(v, pat, rep) =~= replace_all(u, pat, rep));
    } else {
        assert forall|j: int| 0 <= j < u.len() && u.len() < j + pat.len() implies !occurs_at(s, pat, j) by {
            if occurs_at(s, pat, j) {
                assert(s.subrange(j, j + pat.len())[u.len() - 1 - j] == s[u.len() - 1]);
                assert(s.subrange(j, j + pat.len())[u.len() - j] == s[u.len() as int]);
                assert(pat[u.len() - 1 - j] == u[u.len() - 1]);
                assert(pat[u.len() - j] == v[0]);
            }
        }
        if occurs_at(s, pat, 0) {
            assert(pat.len() <= u.len());
            assert(u.subrange(0, pat.len() as int) =~= s.subrange(0, pat.len() as int));
            assert(occurs_at(u, pat, 0));
            let u1 = u.skip(pat.len() as int);
            assert(s.skip(pat.len() as int) =~= u1 + v);
            lemma_replace_all_concat(u1, v, pat, rep);
            if u1.len() > 0 {
                assert(u1[u1.len() - 1] == u[u.len() - 1]);
            }
            assert(replace_all(s, pat, rep) == rep + replace_all(u1 + v, pat, rep));
            assert(replace_all(u, pat, rep) == rep + replace_all(u1, pat, rep));
            assert(replace_all(s, pat, rep) =~= replace_all(u, pat, rep) + replace_all(v, pat, rep));
        } else {
            assert(!occurs_at(u, pat, 0)) by {
                if occurs_at(u, pat, 0) {
                    assert(u.subrange(0, pat.len() as int) =~= s.subrange(0, pat.len() as int));
                }
            }
            let u1 = u.skip(1);
            assert(s.skip(1) =~= u1 + v);
            lemma_replace_all_concat(u1, v, pat, rep);
            if u1.len() > 0 {
                assert(u1[u1.len() - 1] == u[u.len() - 1]);
            }
            assert(s[0] == u[0]);
            assert(replace_all(s, pat, rep) == seq![u[0]] + replace_all(u1 + v, pat, rep));
            assert(replace_all(u, pat, rep) == seq![u[0]] + replace_all(u1, pat, rep));
            assert(replace_all(s, pat, rep) =~= replace_all(u, pat, rep) + replace_all(v, pat, rep));
        }
    }
}

/// Where `s` lacks the first character of `pat`, replacing changes nothing.
pub proof fn lemma_replace_all_lacks_first(s: Seq<char>, pat: Seq<char>, rep: Seq<char>)
    requires
        pat.len() > 0,
        !s.contains(pat[0]),
    ensures
        replace_all(s, pat, rep) == s,
{
    assert forall|i: int| !occurs_at(s, pat, i) by {
        if occurs_at(s, pat, i) {
            assert(s.subrange(i, i + pat.len())[0] == s[i]);
        }
    }
    lemma_replace_all_absent(s, pat, rep);
}

/// Occurrences of a one-character text add up over a concatenation.
pub proof fn lemma_count_char_concat(a: Seq<char>, b: Seq<char>, c: char)
    ensures
        count_occurrences(a + b, seq![c]) == count_occurrences(a, seq![c]) + count_occurrences(b, seq![c]),
    decreases a.len(),
{
    let q = seq![c];
    if a.len() == 0 {
        assert(a + b =~= b);
    } else {
        let ab = a + b;
        assert(ab.skip(1) =~= a.skip(1) + b);
        lemma_count_char_concat(a.skip(1), b, c);
        assert(occurs_at(ab, q, 0) == occurs_at(a, q, 0)) by {
            assert(ab.subrange(0, 1) =~= a.subrange(0, 1));
        }
    }
}

/// Two prefixes of one text that both end a line and hold equally many
/// lines are the same prefix.
pub proof fn lemma_line_prefix_unique(x1: Seq<char>, y1: Seq<char>, x2: Seq<char>, y2: Seq<char>)
    requires
        x1 + y1 == x2 + y2,
        x1.len() > 0,
        x2.len() > 0,
        x1[x1.len() - 1] == '\n',
        x2[x2.len() - 1] == '\n',
        count_occurrences(x1, seq!['\n']) == count_occurrences(x2, seq!['\n']),
    ensures
        x1 == x2,
        y1 == y2,
{
    let s = x1 + y1;
    let nl = seq!['\n'];
    if x1.len() != x2.len() {
        let (short, long) = if x1.len() < x2.len() { (x1, x2) } else { (x2, x1) };
        assert(short =~= s.take(short.len() as int));
        assert(long =~= s.take(long.len() as int));
        let z = long.skip(short.len() as int);
        assert(long =~= short + z);
        lemma_count_char_concat(short, z, '\n');
        let z0 = z.drop_last();
        assert(z =~= z0 + nl);
        lemma_count_char_concat(z0, nl, '\n');
        assert(nl.subrange(0, 1) =~= nl);
        assert(count_occurrences(nl.skip(1), nl) == 0);
        assert(count_occurrences(nl, nl) == 1);
    }
    assert(x1 =~= s.take(x1.len() as int));
    assert(x2 =~= s.take(x2.len() as int));
    assert(y1 =~= s.skip(x1.len() as int));
    assert(y2 =~= s.skip(x2.len() as int));
}

/// Two texts without a line break, each followed by a text whose second
/// character, and not its first, is a line break, split a text alike.
pub proof fn lemma_split_before_line_break(x1: Seq<char>, y1: Seq<char>, x2: Seq<char>, y2: Seq<char>)
    requires
        x1 + y1 == x2 + y2,
        !x1.contains('\n'),
        !x2.contains('\n'),
        y1.len() >= 2 && y1[0] != '\n' && y1[1] == '\n',
        y2.len() >= 2 && y2[0] != '\n' && y2[1] == '\n',
    ensures
        x1 == x2,
        y1 == y2,
{
    let s = x1 + y1;
    if x1.len() < x2.len() {
        assert(s[x1.len() as int + 1] == '\n');
        if x1.len() + 1 < x2.len() {
            assert(s[x1.len() as int + 1] == x2[x1.len() as int + 1]);
        } else {
            assert(s[x1.len() as int + 1] == y2[0]);
        }
    } else if x2.len() < x1.len() {
        assert(s[x2.len() as int + 1] == '\n');
        if x2.len() + 1 < x1.len() {
            assert(s[x2.len() as int + 1] == x1[x2.len() as int + 1]);
        } else {
            assert(s[x2.len() as int + 1] == y1[0]);
        }
    }
    assert(x1 =~= s.take(x1.len() as int));
    assert(x2 =~= s.take(x2.len() as int));
    assert(y1 =~= s.skip(x1.len() as int));
    assert(y2 =~= s.skip(x2.len() as int));
}

/// The characters of `s`, collected into a vector.
pub fn chars_of(s: &str) -> (res: Vec<char>)
    ensures
        res@ == s@,
{
    let mut v: Vec<char> = Vec::new();
    for c in it: s.chars()
        invariant
            v@ == it.seq().take(it.index() as int),
    {
        v.push(c);
    }
    v
}

/// Whether `pat` occurs in `text` at position `i`.
fn matches_at(text: &Vec<char>, pat: &Vec<char>, i: usize) -> (res: bool)
    ensures
        res == occurs_at(text@, pat@, i as int),
{
    if i > text.len() || pat.len() > text.len() - i {
        return false;
    }
    let mut k: usize = 0;
    while k < pat.len()
        invariant
            i + pat.len() <= text.len(),
            k <= pat.len(),
            forall|j: int| 0 <= j < k ==> text@[i + j] == pat@[j],
        decreases pat.len() - k,
    {
        if text[i + k] != pat[k] {
            assert(text@.subrange(i as int, i + pat.len())[k as int] != pat@[k as int]);
            return false;
        }
        k = k + 1;
    }
    assert(text@.subrange(i as int, i + pat.len()) =~= pat@);
    true
}

/// `s` with every occurrence of `pat` replaced by `rep`, scanning left to right.
pub fn replace_str(s: &str, pat: &str, rep: &str) -> (res: String)
    requires
        pat@.len() > 0,
    ensures
        res@ == replace_all(s@, pat@, rep@),
{
    let text = chars_of(s);
    let p = chars_of(pat);
    let n = text.len();
    let m = p.len();
    let mut out = String::new();
    let mut seg_start: usize = 0;
    let mut i: usize = 0;
    assert(s@.skip(0) =~= s@);
    assert(s@.subrange(0, 0) =~= Seq::<char>::empty());
    while i < n
        invariant
            text@ == s@,
            p@ == pat@,
            n == text.len(),
            m == p.len(),
            m > 0,
            seg_start <= i <= n,
            replace_all(s@, pat@, rep@) == out@ + s@.subrange(seg_start as int, i as int)
                + replace_all(s@.skip(i as int), pat@, rep@),
        decreases n - i,
    {
        let ghost rest = s@.skip(i as int);
        if matches_at(&text, &p, i) {
            assert(occurs_at(rest, pat@, 0)) by {
                assert(rest.subrange(0, m as int) =~= s@.subrange(i as int, i + m));
            }
            assert(rest.skip(m as int) =~= s@.skip(i + m));
            out.append(s.substring_char(seg_start, i));
            out.append(rep);
            i = i + m;
            seg_start = i;
            assert(s@.subrange(seg_start as int, i as int) =~= Seq::<char>::empty());
        } else {
            assert(!occurs_at(rest, pat@, 0)) by {
                if occurs_at(rest, pat@, 0) {
                    assert(rest.subrange(0, m as int) =~= s@.subrange(i as int, i + m));
                }
            }
            assert(rest.skip(1) =~= s@.skip(i + 1));
            assert(s@.subrange(seg_start as int, i + 1) =~= s@.subrange(seg_start as int, i as int).push(s@[i as int]));
            i = i + 1;
        }
    }
    assert(s@.skip(n as int) =~= Seq::<char>::empty());
    out.append(s.substring_char(seg_start, n));
    out
}

} // verus!
