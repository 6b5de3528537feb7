//! Small operations on text, stated over sequences of characters.

use vstd::prelude::*;
use vstd::string::*;

verus! {

/// The characters of `s`, in order.
pub fn chars_of(s: &str) -> (v: Vec<char>)
    ensures
        v@ == s@,
{
    let n = s.unicode_len();
    let mut v: Vec<char> = Vec::new();
    let mut i: usize = 0;
    while i < n
        invariant
            n == s@.len(),
            i <= n,
            v@ == s@.subrange(0, i as int),
        decreases n - i,
    {
        let c = s.get_char(i);
        v.push(c);
        i = i + 1;
        assert(v@ =~= s@.subrange(0, i as int));
    }
    assert(s@.subrange(0, n as int) =~= s@);
    v
}

/// `a` followed by `b`.
pub fn joined(a: &str, b: &str) -> (r: String)
    ensures
        r@ == a@ + b@,
{
    String::from_str(a).concat(b)
}

/// Whether two strings hold the same characters.
pub fn same_text(a: &str, b: &str) -> (r: bool)
    ensures
        r == (a@ == b@),
{
    String::from_str(a) == String::from_str(b)
}

/// Whether `pat` stands in `s` at position `i`.
pub open spec fn occurs_at(s: Seq<char>, pat: Seq<char>, i: int) -> bool {
    0 <= i && i + pat.len() <= s.len() && s.subrange(i, i + pat.len()) == pat
}

/// Whether `pat` stands anywhere in `s`.
pub open spec fn occurs_in(s: Seq<char>, pat: Seq<char>) -> bool {
    exists|i: int| occurs_at(s, pat, i)
}

/// `s` with every occurrence of `pat` replaced by `to`, reading from the left
/// and resuming after each occurrence. An empty pattern occurs nowhere.
pub open spec fn replace_all_spec(s: Seq<char>, pat: Seq<char>, to: Seq<char>) -> Seq<char>
    decreases s.len(),
{
    if pat.len() == 0 || s.len() < pat.len() {
        s
    } else if s.subrange(0, pat.len() as int) == pat {
        to + replace_all_spec(s.subrange(pat.len() as int, s.len() as int), pat, to)
    } else {
        seq![s[0]] + replace_all_spec(s.subrange(1, s.len() as int), pat, to)
    }
}

/// Whether the first character of `pat` stands nowhere else in it. Two
/// occurrences of such a pattern never overlap.
pub open spec fn starts_uniquely(pat: Seq<char>) -> bool {
    pat.len() > 0 && forall|k: int| 0 < k < pat.len() ==> #[trigger] pat[k] != pat[0]
}

/// Replacing changes nothing in a text that the pattern does not occur in.
pub proof fn lemma_replace_absent(s: Seq<char>, pat: Seq<char>, to: Seq<char>)
    requires
        !occurs_in(s, pat),
    ensures
        replace_all_spec(s, pat, to) == s,
    decreases s.len(),
{
    if pat.len() == 0 || s.len() < pat.len() {
    } else {
        assert(!occurs_at(s, pat, 0));
        let rest = s.subrange(1, s.len() as int);
        assert forall|i: int| !occurs_at(rest, pat, i) by {
            if occurs_at(rest, pat, i) {
                assert(s.subrange(i + 1, i + 1 + pat.len()) =~= rest.subrange(i, i + pat.len()));
                assert(occurs_at(s, pat, i + 1));
            }
        }
        lemma_replace_absent(rest, pat, to);
        assert(seq![s[0]] + rest =~= s);
    }
}

/// Replacing in a text that holds the pattern replaces that occurrence and
/// goes on independently on both sides of it, for a pattern whose
/// occurrences cannot overlap.
pub proof fn lemma_replace_around(a: Seq<char>, b: Seq<char>, pat: Seq<char>, to: Seq<char>)
    requires
        starts_uniquely(pat),
    ensures
        replace_all_spec(a + pat + b, pat, to) == replace_all_spec(a, pat, to) + to
            + replace_all_spec(b, pat, to),
    decreases a.len(),
{
    let s = a + pat + b;
    let m = pat.len() as int;
    if a.len() == 0 {
        assert(s.subrange(0, m) =~= pat);
        assert(s.subrange(m, s.len() as int) =~= b);
        assert(a + to =~= to);
    } else {
        let a1 = a.subrange(1, a.len() as int);
        assert(s.subrange(1, s.len() as int) =~= a1 + pat + b);
        if a.len() < m {
            if s.subrange(0, m) == pat {
                assert(s.subrange(0, m)[a.len() as int] == s[a.len() as int]);
                assert(s[a.len() as int] == pat[0]);
            }
            lemma_replace_around(a1, b, pat, to);
            assert(seq![s[0]] + (a1 + to + replace_all_spec(b, pat, to)) =~= a + to
                + replace_all_spec(b, pat, to));
        } else {
            assert(s.subrange(0, m) =~= a.subrange(0, m));
            if a.subrange(0, m) == pat {
                let am = a.subrange(m, a.len() as int);
                assert(s.subrange(m, s.len() as int) =~= am + pat + b);
                lemma_replace_around(am, b, pat, to);
                assert(to + (replace_all_spec(am, pat, to) + to + replace_all_spec(b, pat, to))
                    =~= (to + replace_all_spec(am, pat, to)) + to + replace_all_spec(b, pat, to));
            } else {
                lemma_replace_around(a1, b, pat, to);
                assert(seq![s[0]] + (replace_all_spec(a1, pat, to) + to + replace_all_spec(
                    b,
                    pat,
                    to,
                )) =~= (seq![a[0]] + replace_all_spec(a1, pat, to)) + to + replace_all_spec(
                    b,
                    pat,
                    to,
                ));
            }
        }
    }
}

/// Whether `pat` stands in `s` at position `i`.
fn matches_at(s: &Vec<char>, pat: &Vec<char>, i: usize) -> (r: bool)
    requires
        i + pat@.len() <= s@.len(),
    ensures
        r == occurs_at(s@, pat@, i as int),
{
    let m = pat.len();
    let n = s.len();
    let mut j: usize = 0;
    while j < m
        invariant
            m == pat@.len(),
            n == s@.len(),
            i + m <= n,
            j <= m,
            forall|k: int| 0 <= k < j ==> s@[i + k] == pat@[k],
        decreases m - j,
    {
        if s[i + j] != pat[j] {
            proof {
                assert(s@.subrange(i as int, i + m)[j as int] == s@[i + j]);
            }
            return false;
        }
        j = j + 1;
    }
    assert(s@.subrange(i as int, i + m) =~= pat@);
    true
}

/// Replaces every occurrence of `pat` in `s` by `to`.
pub fn replace_all(s: &str, pat: &str, to: &str) -> (r: String)
    ensures
        r@ == replace_all_spec(s@, pat@, to@),
{
    let sv = chars_of(s);
    let pv = chars_of(pat);
    let n = sv.len();
    let m = pv.len();
    if m == 0 || n < m {
        return String::from_str(s);
    }
    let mut out = String::new();
    let mut run: usize = 0;
    let mut i: usize = 0;
    proof {
        assert(s@.subrange(0, n as int) =~= s@);
        assert(out@ + s@.subrange(0, 0) =~= Seq::<char>::empty());
        assert(Seq::<char>::empty() + replace_all_spec(s@, pat@, to@) =~= replace_all_spec(
            s@,
            pat@,
            to@,
        ));
    }
    while i <= n - m
        invariant
            sv@ == s@,
            pv@ == pat@,
            n == sv@.len(),
            m == pv@.len(),
            0 < m <= n,
            run <= i <= n,
            replace_all_spec(s@, pat@, to@) == out@ + s@.subrange(run as int, i as int)
                + replace_all_spec(s@.subrange(i as int, n as int), pat@, to@),
        decreases n - i,
    {
        let ghost rest = s@.subrange(i as int, n as int);
        if matches_at(&sv, &pv, i) {
            proof {
                assert(rest.subrange(0, m as int) =~= s@.subrange(i as int, i + m));
                assert(rest.subrange(m as int, rest.len() as int) =~= s@.subrange(
                    i + m,
                    n as int,
                ));
                assert(s@.subrange(i + m, i + m) =~= Seq::<char>::empty());
            }
            out.append(s.substring_char(run, i));
            out.append(to);
            i = i + m;
            run = i;
            assert(replace_all_spec(s@, pat@, to@) =~= out@ + s@.subrange(run as int, i as int)
                + replace_all_spec(s@.subrange(i as int, n as int), pat@, to@));
        } else {
            proof {
                assert(rest.subrange(0, m as int) =~= s@.subrange(i as int, i + m));
                assert(rest.subrange(1, rest.len() as int) =~= s@.subrange(i + 1, n as int));
                assert(s@.subrange(run as int, i as int) + seq![rest[0]] =~= s@.subrange(
                    run as int,
                    i + 1,
                ));
            }
            i = i + 1;
            assert(replace_all_spec(s@, pat@, to@) =~= out@ + s@.subrange(run as int, i as int)
                + replace_all_spec(s@.subrange(i as int, n as int), pat@, to@));
        }
    }
    proof {
        assert(s@.subrange(run as int, i as int) + s@.subrange(i as int, n as int) =~= s@.subrange(
            run as int,
            n as int,
        ));
    }
    out.append(s.substring_char(run, n));
    assert(out@ =~= replace_all_spec(s@, pat@, to@));
    out
}

} // verus!
