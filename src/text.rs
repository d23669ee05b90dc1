use vstd::prelude::*;

verus! {

/// Relies on `String::push`: the character is appended at the end.
#[verifier::external_body]
pub(crate) fn push_char(s: &mut String, c: char)
    ensures
        final(s)@ == old(s)@.push(c),
{
    s.push(c)
}

/// The characters of `s`, one per element.
pub(crate) fn char_vec(s: &str) -> (v: Vec<char>)
    ensures
        v@ == s@,
{
    let n = s.unicode_len();
    let mut v: Vec<char> = Vec::new();
    let mut i: usize = 0;
    while i < n
        invariant
            n == s@.len(),
            i <= n,
            v@ == s@.take(i as int),
        decreases n - i,
    {
        v.push(s.get_char(i));
        i += 1;
        assert(v@ =~= s@.take(i as int));
    }
    assert(s@.take(n as int) =~= s@);
    v
}

/// `pat` occurs in `s` starting at position `i`.
pub open spec fn occurs_at(s: Seq<char>, pat: Seq<char>, i: int) -> bool {
    0 <= i && i + pat.len() <= s.len() && s.subrange(i, i + pat.len()) == pat
}

/// `pat` occurs somewhere in `s`.
pub open spec fn contains_text(s: Seq<char>, pat: Seq<char>) -> bool {
    exists|i: int| occurs_at(s, pat, i)
}

/// `s` with `rep` put before each character and after the last: what
/// replacing the empty pattern gives.
pub open spec fn replace_empty(s: Seq<char>, rep: Seq<char>) -> Seq<char>
    decreases s.len(),
{
    if s.len() == 0 {
        rep
    } else {
        rep + seq![s[0]] + replace_empty(s.skip(1), rep)
    }
}

/// `s` with every occurrence of the non-empty `pat` replaced by `rep`, the
/// occurrences taken from left to right without overlap.
pub open spec fn replace_occurrences(s: Seq<char>, pat: Seq<char>, rep: Seq<char>) -> Seq<char>
    decreases s.len(),
{
    if s.len() == 0 || pat.len() == 0 {
        s
    } else if occurs_at(s, pat, 0) {
        rep + replace_occurrences(s.skip(pat.len() as int), pat, rep)
    } else {
        seq![s[0]] + replace_occurrences(s.skip(1), pat, rep)
    }
}

/// `s` with `pat` replaced by `rep` wherever it occurs.
pub open spec fn replace_text(s: Seq<char>, pat: Seq<char>, rep: Seq<char>) -> Seq<char> {
    if pat.len() == 0 {
        replace_empty(s, rep)
    } else {
        replace_occurrences(s, pat, rep)
    }
}

fn occurs_at_exec(s: &Vec<char>, pat: &Vec<char>, i: usize) -> (r: bool)
    ensures
        r == occurs_at(s@, pat@, i as int),
{
    if i > s.len() || pat.len() > s.len() - i {
        return false;
    }
    let m = pat.len();
    let mut j: usize = 0;
    while j < m
        invariant
            m == pat.len(),
            i + m <= s.len(),
            j <= m,
            forall|k: int| 0 <= k < j ==> s@[i + k] == pat@[k],
        decreases m - j,
    {
        if s[i + j] != pat[j] {
            assert(s@.subrange(i as int, i + m)[j as int] != pat@[j as int]);
            return false;
        }
        j += 1;
    }
    assert(s@.subrange(i as int, i + m) =~= pat@);
    true
}

/// Whether `pat` occurs in `s`.
pub fn contains(s: &str, pat: &str) -> (r: bool)
    ensures
        r == contains_text(s@, pat@),
{
    let sv = char_vec(s);
    let pv = char_vec(pat);
    if pv.len() > sv.len() {
        assert forall|i: int| !occurs_at(s@, pat@, i) by {}
        return false;
    }
    let last = sv.len() - pv.len();
    let mut i: usize = 0;
    while i < last
        invariant
            sv@ == s@,
            pv@ == pat@,
            last == sv.len() - pv.len(),
            i <= last,
            forall|k: int| 0 <= k < i ==> !occurs_at(s@, pat@, k),
        decreases last - i,
    {
        if occurs_at_exec(&sv, &pv, i) {
            return true;
        }
        i += 1;
    }
    let r = occurs_at_exec(&sv, &pv, last);
    if !r {
        assert forall|k: int| !occurs_at(s@, pat@, k) by {
            if k > last {
                assert(!(k + pat@.len() <= s@.len()));
            }
        }
    }
    r
}

/// `s` with every occurrence of `pat` replaced by `rep`, from left to right
/// and without overlap; an empty `pat` matches before every character and at
/// the end.
pub fn replace(s: &str, pat: &str, rep: &str) -> (r: String)
    ensures
        r@ == replace_text(s@, pat@, rep@),
{
    let sv = char_vec(s);
    let pv = char_vec(pat);
    let n = sv.len();
    let mut out = String::new();
    let mut i: usize = 0;
    assert(s@.skip(0) =~= s@);
    assert(out@ + replace_empty(s@, rep@) =~= replace_empty(s@, rep@));
    assert(out@ + replace_occurrences(s@, pat@, rep@) =~= replace_occurrences(s@, pat@, rep@));
    if pv.len() == 0 {
        while i < n
            invariant
                sv@ == s@,
                n == s@.len(),
                i <= n,
                out@ + replace_empty(s@.skip(i as int), rep@) == replace_empty(s@, rep@),
            decreases n - i,
        {
            assert(s@.skip(i as int).skip(1) =~= s@.skip(i + 1));
            out.append(rep);
            push_char(&mut out, sv[i]);
            i += 1;
            assert(out@ + replace_empty(s@.skip(i as int), rep@) =~= replace_empty(s@, rep@));
        }
        assert(s@.skip(n as int) =~= Seq::<char>::empty());
        out.append(rep);
        assert(out@ =~= replace_empty(s@, rep@));
        return out;
    }
    let m = pv.len();
    while i < n
        invariant
            sv@ == s@,
            pv@ == pat@,
            m == pat@.len(),
            m > 0,
            n == s@.len(),
            i <= n,
            out@ + replace_occurrences(s@.skip(i as int), pat@, rep@) == replace_occurrences(s@, pat@, rep@),
        decreases n - i,
    {
        let ghost rest = s@.skip(i as int);
        if occurs_at_exec(&sv, &pv, i) {
            assert(rest.subrange(0, m as int) =~= s@.subrange(i as int, i + m));
            assert(rest.skip(m as int) =~= s@.skip(i + m));
            out.append(rep);
            i += m;
        } else {
            assert(rest.len() >= m ==> rest.subrange(0, m as int) =~= s@.subrange(i as int, i + m));
            assert(rest.skip(1) =~= s@.skip(i + 1));
            push_char(&mut out, sv[i]);
            i += 1;
        }
        assert(out@ + replace_occurrences(s@.skip(i as int), pat@, rep@) =~= replace_occurrences(s@, pat@, rep@));
    }
    assert(s@.skip(n as int) =~= Seq::<char>::empty());
    assert(out@ =~= replace_occurrences(s@, pat@, rep@));
    out
}

} // verus!
