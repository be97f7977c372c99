//! Verified character-level utilities over `&str` and `String`.
use vstd::prelude::*;

verus! {

use vstd::string::StrSliceExecFns;

/// Character-wise string equality, proved against the string views.
pub fn str_eq_str(a: &str, b: &str) -> (r: bool)
    ensures
        r == (a@ == b@),
{
    let alen = a.unicode_len();
    let blen = b.unicode_len();
    if alen != blen {
        assert(a@ != b@) by {
            assert(a@.len() != b@.len());
        }
        return false;
    }
    let mut i: usize = 0;
    while i < alen
        invariant
            i <= alen,
            alen == a@.len(),
            alen == b@.len(),
            forall|j: int| 0 <= j < i ==> a@[j] == b@[j],
        decreases alen - i,
    {
        if a.get_char(i) != b.get_char(i) {
            assert(a@ != b@) by {
                assert(a@[i as int] != b@[i as int]);
            }
            return false;
        }
        i += 1;
    }
    proof {
        assert(a@ =~= b@);
    }
    true
}

} // verus!

verus! {

/// Returns whether a list of strings contains one whose characters equal `s`.
pub fn string_in_list(list: &Vec<String>, s: &str) -> (r: bool)
    ensures
        r == exists|i: int| 0 <= i < list@.len() && (#[trigger] list@[i])@ == s@,
{
    let mut i: usize = 0;
    while i < list.len()
        invariant
            i <= list@.len(),
            forall|j: int| 0 <= j < i ==> (#[trigger] list@[j])@ != s@,
        decreases list@.len() - i,
    {
        if str_eq_str(list[i].as_str(), s) {
            proof {
                assert(list@[i as int]@ == s@);
            }
            return true;
        }
        i += 1;
    }
    false
}

} // verus!

verus! {

/// Whether `pat` occurs in `s` at position `j`.
pub open spec fn occurs_at(s: Seq<char>, pat: Seq<char>, j: int) -> bool {
    0 <= j && j + pat.len() <= s.len() && s.subrange(j, j + pat.len()) == pat
}

/// Splitting a character sequence on a non-empty pattern, scanning left to
/// right; a match contributes a piece boundary, and the pattern itself is
/// dropped.
pub open spec fn split_seq(s: Seq<char>, pat: Seq<char>) -> Seq<Seq<char>>
    decreases s.len(),
{
    if pat.len() <= 0 || s.len() <= 0 {
        seq![s]
    } else if s.len() >= pat.len() && s.subrange(0, pat.len() as int) == pat {
        seq![Seq::<char>::empty()] + split_seq(s.skip(pat.len() as int), pat)
    } else {
        let rest = split_seq(s.skip(1), pat);
        seq![seq![s[0]] + rest[0]] + rest.skip(1)
    }
}

/// A split always yields at least one piece.
pub proof fn lemma_split_seq_len(s: Seq<char>, pat: Seq<char>)
    ensures
        split_seq(s, pat).len() >= 1,
    decreases s.len(),
{
    if pat.len() <= 0 || s.len() <= 0 {
    } else if s.len() >= pat.len() && s.subrange(0, pat.len() as int) == pat {
    } else {
        lemma_split_seq_len(s.skip(1), pat);
    }
}

/// When the pattern occurs nowhere in `s`, the split is `s` alone.
proof fn lemma_split_seq_none(s: Seq<char>, pat: Seq<char>)
    requires
        pat.len() > 0,
        forall|j: int| !occurs_at(s, pat, j),
    ensures
        split_seq(s, pat) =~~= seq![s],
    decreases s.len(),
{
    if s.len() <= 0 {
    } else if s.len() >= pat.len() && s.subrange(0, pat.len() as int) == pat {
        assert(occurs_at(s, pat, 0));
    } else {
        assert forall|j: int| !occurs_at(s.skip(1), pat, j) by {
            if occurs_at(s.skip(1), pat, j) {
                assert(s.skip(1).subrange(j, j + pat.len()) =~= s.subrange(j + 1, j + 1 + pat.len()));
                assert(occurs_at(s, pat, j + 1));
            }
        }
        lemma_split_seq_none(s.skip(1), pat);
        let rest = split_seq(s.skip(1), pat);
        assert(rest[0] == s.skip(1));
        assert(seq![s[0]] + s.skip(1) =~= s);
        assert(rest.skip(1) =~~= Seq::<Seq<char>>::empty());
    }
}

/// When the first occurrence of the pattern is at `k`, the split is the piece
/// before `k` followed by the split of what comes after the pattern.
proof fn lemma_split_seq_step(s: Seq<char>, pat: Seq<char>, k: int)
    requires
        pat.len() > 0,
        occurs_at(s, pat, k),
        forall|j: int| 0 <= j < k ==> !occurs_at(s, pat, j),
    ensures
        split_seq(s, pat) =~~= seq![s.subrange(0, k)] + split_seq(s.skip(k + pat.len()), pat),
    decreases k,
{
    if k == 0 {
        assert(s.subrange(0, pat.len() as int) == pat);
        assert(s.subrange(0, 0) =~= Seq::<char>::empty());
    } else {
        assert(s.len() > 0);
        assert(!(s.len() >= pat.len() && s.subrange(0, pat.len() as int) == pat)) by {
            if s.len() >= pat.len() && s.subrange(0, pat.len() as int) == pat {
                assert(occurs_at(s, pat, 0));
            }
        }
        assert(occurs_at(s.skip(1), pat, k - 1)) by {
            assert(s.skip(1).subrange(k - 1, k - 1 + pat.len()) =~= s.subrange(k, k + pat.len()));
        }
        assert forall|j: int| 0 <= j < k - 1 implies !occurs_at(s.skip(1), pat, j) by {
            if occurs_at(s.skip(1), pat, j) {
                assert(s.skip(1).subrange(j, j + pat.len()) =~= s.subrange(j + 1, j + 1 + pat.len()));
                assert(occurs_at(s, pat, j + 1));
            }
        }
        lemma_split_seq_step(s.skip(1), pat, k - 1);
        let rest = split_seq(s.skip(1), pat);
        let tail = split_seq(s.skip(1).skip(k - 1 + pat.len()), pat);
        assert(rest =~~= seq![s.skip(1).subrange(0, k - 1)] + tail);
        assert(s.skip(1).skip(k - 1 + pat.len()) =~= s.skip(k + pat.len()));
        lemma_split_seq_len(s.skip(k + pat.len()), pat);
        assert(rest[0] == s.skip(1).subrange(0, k - 1));
        assert(seq![s[0]] + s.skip(1).subrange(0, k - 1) =~= s.subrange(0, k));
        assert(rest.skip(1) =~~= tail);
    }
}

/// The views of a list of strings.
pub open spec fn string_views(v: Seq<String>) -> Seq<Seq<char>> {
    v.map_values(|x: String| x@)
}

/// Finds the first occurrence of `pat` in `s` at or after position `from`
/// (positions count characters).
fn find_occurrence(s: &str, from: usize, pat: &str) -> (r: Option<usize>)
    requires
        pat@.len() > 0,
        from <= s@.len(),
    ensures
        match r {
            Some(i) => from <= i && i + pat@.len() <= s@.len() && occurs_at(s@, pat@, i as int)
                && forall|j: int| from <= j < i ==> !occurs_at(s@, pat@, j),
            None => forall|j: int| from <= j ==> !occurs_at(s@, pat@, j),
        },
{
    let slen = s.unicode_len();
    let plen = pat.unicode_len();
    let mut i: usize = from;
    while plen <= slen - i
        invariant
            from <= i,
            plen == pat@.len(),
            slen == s@.len(),
            i <= slen,
            forall|j: int| from <= j < i ==> !occurs_at(s@, pat@, j),
        decreases slen - i,
    {
        let mut k: usize = 0;
        let mut matched = true;
        while k < plen
            invariant
                k <= plen,
                plen == pat@.len(),
                slen == s@.len(),
                i + plen <= slen,
                matched <==> (forall|q: int| 0 <= q < k ==> s@[i + q] == pat@[q]),
            decreases plen - k,
        {
            if s.get_char(i + k) != pat.get_char(k) {
                proof {
                    assert(s@[i + k as int] != pat@[k as int]);
                }
                matched = false;
                k = plen;
            } else {
                k += 1;
            }
        }
        if matched {
            proof {
                assert(s@.subrange(i as int, i + pat@.len()) =~= pat@);
                assert(occurs_at(s@, pat@, i as int));
            }
            return Some(i);
        }
        proof {
            assert(!occurs_at(s@, pat@, i as int)) by {
                if occurs_at(s@, pat@, i as int) {
                    let q = choose|q: int| 0 <= q < pat@.len() && s@[i + q] != pat@[q];
                    assert(s@.subrange(i as int, i + pat@.len())[q] == s@[i + q]);
                }
            }
        }
        i += 1;
    }
    proof {
        assert forall|j: int| from <= j implies !occurs_at(s@, pat@, j) by {
            if occurs_at(s@, pat@, j) {
                assert(j + pat@.len() <= s@.len());
                assert(j < i);
            }
        }
    }
    None
}

/// Splits a string on a non-empty pattern, scanning left to right.
pub fn split_string(s: &str, pat: &str) -> (r: Vec<String>)
    requires
        pat@.len() > 0,
    ensures
        string_views(r@) =~~= split_seq(s@, pat@),
{
    let slen = s.unicode_len();
    let plen = pat.unicode_len();
    let mut out: Vec<String> = Vec::new();
    let mut pos: usize = 0;
    proof {
        assert(s@.skip(0) =~= s@);
        assert(string_views(out@) + split_seq(s@, pat@) =~~= split_seq(s@, pat@));
    }
    loop
        invariant
            pos <= slen,
            slen == s@.len(),
            plen == pat@.len(),
            plen > 0,
            split_seq(s@, pat@) =~~= string_views(out@) + split_seq(s@.skip(pos as int), pat@),
        decreases slen - pos,
    {
        match find_occurrence(s, pos, pat) {
            Some(i) => {
                let ghost pre = out@;
                out.push(s.substring_char(pos, i).to_owned());
                proof {
                    let t = s@.skip(pos as int);
                    assert(occurs_at(t, pat@, i - pos)) by {
                        assert(t.subrange(i - pos, i - pos + pat@.len()) =~= s@.subrange(
                            i as int,
                            i + pat@.len(),
                        ));
                    }
                    assert forall|j: int| 0 <= j < i - pos implies !occurs_at(t, pat@, j) by {
                        if occurs_at(t, pat@, j) {
                            assert(t.subrange(j, j + pat@.len()) =~= s@.subrange(
                                pos + j,
                                pos + j + pat@.len(),
                            ));
                            assert(occurs_at(s@, pat@, pos + j));
                        }
                    }
                    lemma_split_seq_step(t, pat@, i - pos);
                    assert(t.subrange(0, i - pos) =~= s@.subrange(pos as int, i as int));
                    assert(t.skip(i - pos + pat@.len()) =~= s@.skip(i + pat@.len()));
                    assert(string_views(out@) =~~= string_views(pre) + seq![s@.subrange(
                        pos as int,
                        i as int,
                    )]);
                }
                pos = i + plen;
            },
            None => {
                let ghost pre = out@;
                out.push(s.substring_char(pos, slen).to_owned());
                proof {
                    let t = s@.skip(pos as int);
                    assert forall|j: int| !occurs_at(t, pat@, j) by {
                        if occurs_at(t, pat@, j) {
                            assert(t.subrange(j, j + pat@.len()) =~= s@.subrange(
                                pos + j,
                                pos + j + pat@.len(),
                            ));
                            assert(occurs_at(s@, pat@, pos + j));
                        }
                    }
                    lemma_split_seq_none(t, pat@);
                    assert(s@.subrange(pos as int, slen as int) =~= t);
                    assert(string_views(out@) =~~= string_views(pre) + seq![t]);
                }
                return out;
            },
        }
    }
}

/// A whitespace character, as far as trimming is concerned.
pub open spec fn is_space(c: char) -> bool {
    c == ' ' || c == '\t' || c == '\n' || c == '\r'
}

/// Leading whitespace removed.
pub open spec fn trim_front(s: Seq<char>) -> Seq<char>
    decreases s.len(),
{
    if s.len() > 0 && is_space(s[0]) {
        trim_front(s.skip(1))
    } else {
        s
    }
}

/// Trailing whitespace removed.
pub open spec fn trim_back(s: Seq<char>) -> Seq<char>
    decreases s.len(),
{
    if s.len() > 0 && is_space(s[s.len() - 1]) {
        trim_back(s.take(s.len() - 1))
    } else {
        s
    }
}

/// Leading and trailing whitespace removed.
pub open spec fn trim_spec(s: Seq<char>) -> Seq<char> {
    trim_back(trim_front(s))
}

proof fn lemma_trim_front_at(s: Seq<char>, a: int)
    requires
        0 <= a <= s.len(),
        forall|j: int| 0 <= j < a ==> is_space(s[j]),
        a == s.len() || !is_space(s[a]),
    ensures
        trim_front(s) =~= s.skip(a),
    decreases a,
{
    if a == 0 {
    } else {
        assert(is_space(s[0]));
        lemma_trim_front_at(s.skip(1), a - 1);
        assert(s.skip(1).skip(a - 1) =~= s.skip(a));
    }
}

proof fn lemma_trim_back_at(s: Seq<char>, b: int)
    requires
        0 <= b <= s.len(),
        forall|j: int| b <= j < s.len() ==> is_space(s[j]),
        b == 0 || !is_space(s[b - 1]),
    ensures
        trim_back(s) =~= s.take(b),
    decreases s.len() - b,
{
    if b == s.len() {
        assert(s.take(b) =~= s);
    } else {
        assert(is_space(s[s.len() - 1]));
        lemma_trim_back_at(s.take(s.len() - 1), b);
        assert(s.take(s.len() - 1).take(b) =~= s.take(b));
    }
}

/// Whether a character counts as whitespace for trimming.
fn is_space_char(c: char) -> (r: bool)
    ensures
        r == is_space(c),
{
    c == ' ' || c == '\t' || c == '\n' || c == '\r'
}

/// Removes leading and trailing whitespace.
pub fn trim_string(s: &str) -> (r: String)
    ensures
        r@ =~= trim_spec(s@),
{
    let slen = s.unicode_len();
    let mut a: usize = 0;
    while a < slen && is_space_char(s.get_char(a))
        invariant
            a <= slen,
            slen == s@.len(),
            forall|j: int| 0 <= j < a ==> is_space(s@[j]),
        decreases slen - a,
    {
        a += 1;
    }
    if a == slen {
        proof {
            lemma_trim_front_at(s@, a as int);
            assert(s@.skip(a as int).len() == 0);
        }
        return String::new();
    }
    let mut b: usize = slen;
    while b > a && is_space_char(s.get_char(b - 1))
        invariant
            a <= b <= slen,
            slen == s@.len(),
            forall|j: int| b <= j < slen ==> is_space(s@[j]),
        decreases b,
    {
        b -= 1;
    }
    proof {
        lemma_trim_front_at(s@, a as int);
        let t = s@.skip(a as int);
        assert(!is_space(s@[a as int]));
        assert(b > a);
        lemma_trim_back_at(t, b - a);
        assert(t.take(b - a) =~= s@.subrange(a as int, b as int));
    }
    s.substring_char(a, b).to_owned()
}

} // verus!
