use vstd::prelude::*;

verus! {

/// `s` begins with `prefix`.
pub open spec fn has_prefix(s: Seq<char>, prefix: Seq<char>) -> bool {
    prefix.len() <= s.len() && s.subrange(0, prefix.len() as int) == prefix
}

/// Tests whether `s` begins with `prefix`, one character at a time.
pub fn starts_with(s: &str, prefix: &str) -> (r: bool)
    ensures
        r == has_prefix(s@, prefix@),
{
    let n = s.unicode_len();
    let m = prefix.unicode_len();
    if m > n {
        return false;
    }
    let mut i: usize = 0;
    while i < m
        invariant
            m <= n,
            n == s@.len(),
            m == prefix@.len(),
            i <= m,
            forall|k: int| 0 <= k < i ==> s@[k] == prefix@[k],
        decreases m - i,
    {
        if s.get_char(i) != prefix.get_char(i) {
            assert(s@.subrange(0, m as int)[i as int] != prefix@[i as int]);
            return false;
        }
        i += 1;
    }
    assert(s@.subrange(0, m as int) =~= prefix@);
    true
}

/// Replaces the prefix `from` of `s` by `to`; `s` is returned unchanged when
/// it does not begin with `from`.
pub fn replace_start(s: String, from: &str, to: &str) -> (r: String)
    ensures
        has_prefix(s@, from@) ==> r@ == to@ + s@.subrange(from@.len() as int, s@.len() as int),
        !has_prefix(s@, from@) ==> r@ == s@,
{
    if starts_with(s.as_str(), from) {
        let n = s.as_str().unicode_len();
        let rest = s.as_str().substring_char(from.unicode_len(), n);
        let head = String::from_str(to);
        head.concat(rest)
    } else {
        s
    }
}

/// The groups of `groups` laid end to end.
pub open spec fn joined<T>(groups: Seq<Vec<T>>) -> Seq<T> {
    groups.map_values(|g: Vec<T>| g@).flatten()
}

/// Splits `items` into maximal runs in which `predicate` holds between each
/// item and the one before it; a new run starts wherever it fails.
pub fn group_by<T, F: Fn(&T, &T) -> bool>(items: Vec<T>, predicate: F) -> (r: Vec<Vec<T>>)
    requires
        forall|a: &T, b: &T| #[trigger] predicate.requires((a, b)),
    ensures
        joined(r@) == items@,
        forall|i: int| 0 <= i < r.len() ==> #[trigger] r[i].len() > 0,
        forall|i: int, j: int|
            0 <= i < r.len() && 0 < j < r[i].len() ==> #[trigger] predicate.ensures(
                (&r[i][j - 1], &r[i][j]),
                true,
            ),
        forall|i: int|
            0 < i < r.len() ==> #[trigger] predicate.ensures(
                (&r[i - 1][r[i - 1].len() - 1], &r[i][0]),
                false,
            ),
{
    let mut result: Vec<Vec<T>> = Vec::new();
    let mut current: Vec<T> = Vec::new();
    let ghost all = items@;
    for item in it: items
        invariant
            it.seq() == all,
            forall|a: &T, b: &T| #[trigger] predicate.requires((a, b)),
            joined(result@) + current@ == it.seq().take(it.index() as int),
            forall|i: int| 0 <= i < result.len() ==> #[trigger] result[i].len() > 0,
            forall|i: int, j: int|
                0 <= i < result.len() && 0 < j < result[i].len() ==> #[trigger] predicate.ensures(
                    (&result[i][j - 1], &result[i][j]),
                    true,
                ),
            forall|j: int|
                0 < j < current.len() ==> #[trigger] predicate.ensures((&current[j - 1], &current[j]), true),
            forall|i: int|
                0 < i < result.len() ==> #[trigger] predicate.ensures(
                    (&result[i - 1][result[i - 1].len() - 1], &result[i][0]),
                    false,
                ),
            result.len() > 0 && current.len() > 0 ==> #[trigger] predicate.ensures(
                (&result[result.len() - 1][result[result.len() - 1].len() - 1], &current[0]),
                false,
            ),
            result.len() > 0 ==> current.len() > 0,
    {
        let ghost before = joined(result@) + current@;
        if current.len() == 0 {
            current.push(item);
        } else {
            let joins = predicate(&current[current.len() - 1], &item);
            if joins {
                current.push(item);
            } else {
                let finished = current;
                current = Vec::new();
                proof {
                    lemma_joined_push(result@, finished);
                }
                result.push(finished);
                current.push(item);
            }
        }
        assert(joined(result@) + current@ =~= before.push(item));
        assert(it.seq().take(it.index() + 1) =~= it.seq().take(it.index() as int).push(item));
    }
    if current.len() > 0 {
        proof {
            lemma_joined_push(result@, current);
        }
        result.push(current);
    }
    assert(all =~= all.take(all.len() as int));
    result
}

pub(crate) proof fn lemma_joined_push<T>(groups: Seq<Vec<T>>, g: Vec<T>)
    ensures
        joined(groups.push(g)) == joined(groups) + g@,
{
    assert(groups.push(g).map_values(|g: Vec<T>| g@) =~= groups.map_values(|g: Vec<T>| g@).push(g@));
    groups.map_values(|g: Vec<T>| g@).lemma_flatten_push(g@);
}

} // verus!
