//! Character sequences: copying the characters of a string out, and the
//! searches the request grammar is built from.

use vstd::prelude::*;

verus! {

/// `pat` stands in `s` at index `i`.
pub open spec fn occurs_at(s: Seq<char>, pat: Seq<char>, i: int) -> bool {
    0 <= i && i + pat.len() <= s.len() && s.subrange(i, i + pat.len()) == pat
}

/// `s` begins with `pat`.
pub open spec fn starts_with(s: Seq<char>, pat: Seq<char>) -> bool {
    occurs_at(s, pat, 0)
}

/// `pat` stands in `s` at `i` and nowhere before.
pub open spec fn is_first_occurrence(s: Seq<char>, pat: Seq<char>, i: int) -> bool {
    occurs_at(s, pat, i) && forall|j: int| 0 <= j < i ==> !occurs_at(s, pat, j)
}

/// `pat` stands in `s` at `i` and nowhere after.
pub open spec fn is_last_occurrence(s: Seq<char>, pat: Seq<char>, i: int) -> bool {
    occurs_at(s, pat, i) && forall|j: int| i < j ==> !occurs_at(s, pat, j)
}

/// The least index at which `pat` stands in `s`, if it stands anywhere.
pub open spec fn first_occurrence(s: Seq<char>, pat: Seq<char>) -> Option<int> {
    if exists|i: int| occurs_at(s, pat, i) {
        Some(choose|i: int| is_first_occurrence(s, pat, i))
    } else {
        None
    }
}

/// The greatest index at which `pat` stands in `s`, if it stands anywhere.
pub open spec fn last_occurrence(s: Seq<char>, pat: Seq<char>) -> Option<int> {
    if exists|i: int| occurs_at(s, pat, i) {
        Some(choose|i: int| is_last_occurrence(s, pat, i))
    } else {
        None
    }
}

/// The piece of index `k` when `s` is cut at each occurrence of `pat`, the
/// occurrences taken from the left and not overlapping; `None` when there
/// are fewer than `k + 1` pieces.
pub open spec fn field(s: Seq<char>, pat: Seq<char>, k: nat) -> Option<Seq<char>>
    decreases k,
{
    match first_occurrence(s, pat) {
        None => if k == 0 {
            Some(s)
        } else {
            None
        },
        Some(i) => if k == 0 {
            Some(s.take(i))
        } else {
            field(s.skip(i + pat.len()), pat, (k - 1) as nat)
        },
    }
}

/// An index that is a first occurrence is the first occurrence.
pub proof fn first_occurrence_is(s: Seq<char>, pat: Seq<char>, i: int)
    requires
        is_first_occurrence(s, pat, i),
    ensures
        first_occurrence(s, pat) == Some(i),
{
    let k = choose|k: int| is_first_occurrence(s, pat, k);
    assert(is_first_occurrence(s, pat, k));
    if k < i {
        assert(!occurs_at(s, pat, k));
    }
    if i < k {
        assert(!occurs_at(s, pat, i));
    }
}

/// An index that is a last occurrence is the last occurrence.
pub proof fn last_occurrence_is(s: Seq<char>, pat: Seq<char>, i: int)
    requires
        is_last_occurrence(s, pat, i),
    ensures
        last_occurrence(s, pat) == Some(i),
{
    let k = choose|k: int| is_last_occurrence(s, pat, k);
    assert(is_last_occurrence(s, pat, k));
    if k < i {
        assert(!occurs_at(s, pat, i));
    }
    if i < k {
        assert(!occurs_at(s, pat, k));
    }
}

/// Below any occurrence there is a first one.
pub proof fn least_occurrence_exists(s: Seq<char>, pat: Seq<char>, i: int)
    requires
        occurs_at(s, pat, i),
    ensures
        exists|k: int| 0 <= k <= i && is_first_occurrence(s, pat, k),
    decreases i,
{
    if exists|j: int| 0 <= j < i && occurs_at(s, pat, j) {
        let j = choose|j: int| 0 <= j < i && occurs_at(s, pat, j);
        least_occurrence_exists(s, pat, j);
        let k = choose|k: int| 0 <= k <= j && is_first_occurrence(s, pat, k);
        assert(0 <= k <= i && is_first_occurrence(s, pat, k));
    } else {
        assert(is_first_occurrence(s, pat, i));
    }
}

/// Above any occurrence there is a last one.
pub proof fn greatest_occurrence_exists(s: Seq<char>, pat: Seq<char>, i: int)
    requires
        occurs_at(s, pat, i),
    ensures
        exists|k: int| i <= k && is_last_occurrence(s, pat, k),
    decreases s.len() - i,
{
    if exists|j: int| i < j && occurs_at(s, pat, j) {
        let j = choose|j: int| i < j && occurs_at(s, pat, j);
        greatest_occurrence_exists(s, pat, j);
        let k = choose|k: int| j <= k && is_last_occurrence(s, pat, k);
        assert(i <= k && is_last_occurrence(s, pat, k));
    } else {
        assert(is_last_occurrence(s, pat, i));
    }
}

/// What `first_occurrence` returns: the index of an occurrence with none
/// before it, or nothing when `pat` stands nowhere in `s`.
pub proof fn first_occurrence_meaning(s: Seq<char>, pat: Seq<char>)
    ensures
        first_occurrence(s, pat) matches Some(i) ==> is_first_occurrence(s, pat, i),
        first_occurrence(s, pat) is None ==> forall|j: int| !occurs_at(s, pat, j),
{
    if exists|i: int| occurs_at(s, pat, i) {
        let i = choose|i: int| occurs_at(s, pat, i);
        least_occurrence_exists(s, pat, i);
    }
}

/// What `last_occurrence` returns: the index of an occurrence with none
/// after it, or nothing when `pat` stands nowhere in `s`.
pub proof fn last_occurrence_meaning(s: Seq<char>, pat: Seq<char>)
    ensures
        last_occurrence(s, pat) matches Some(i) ==> is_last_occurrence(s, pat, i),
        last_occurrence(s, pat) is None ==> forall|j: int| !occurs_at(s, pat, j),
{
    if exists|i: int| occurs_at(s, pat, i) {
        let i = choose|i: int| occurs_at(s, pat, i);
        greatest_occurrence_exists(s, pat, i);
    }
}

/// Occurrences in a suffix of `s` are the occurrences in `s` from where the
/// suffix begins.
pub proof fn occurs_at_in_suffix(s: Seq<char>, pat: Seq<char>, from: int, j: int)
    requires
        0 <= from <= s.len(),
        0 <= j,
    ensures
        occurs_at(s.skip(from), pat, j) == occurs_at(s, pat, from + j),
{
    if j + pat.len() <= s.len() - from {
        assert(s.skip(from).subrange(j, j + pat.len()) =~= s.subrange(
            from + j,
            from + j + pat.len(),
        ));
    }
}

/// A pattern stands nowhere in a text that lacks the pattern's first
/// character.
pub proof fn absent_without_first_char(s: Seq<char>, pat: Seq<char>)
    requires
        pat.len() > 0,
        forall|j: int| 0 <= j < s.len() ==> s[j] != pat[0],
    ensures
        first_occurrence(s, pat) is None,
        last_occurrence(s, pat) is None,
{
    assert forall|j: int| !occurs_at(s, pat, j) by {
        if occurs_at(s, pat, j) {
            assert(s.subrange(j, j + pat.len())[0] == pat[0]);
        }
    }
}

/// A pattern that stands at `i`, in a text that lacks the pattern's first
/// character before `i`, stands there first.
pub proof fn first_after_prefix_without_first_char(s: Seq<char>, pat: Seq<char>, i: int)
    requires
        pat.len() > 0,
        occurs_at(s, pat, i),
        forall|j: int| 0 <= j < i ==> s[j] != pat[0],
    ensures
        first_occurrence(s, pat) == Some(i),
{
    assert forall|j: int| 0 <= j < i implies !occurs_at(s, pat, j) by {
        if occurs_at(s, pat, j) {
            assert(s.subrange(j, j + pat.len())[0] == pat[0]);
        }
    }
    first_occurrence_is(s, pat, i);
}

/// The characters of `s`, in order.
pub fn chars_of(s: &str) -> (v: Vec<char>)
    ensures
        v@ == s@,
{
    let mut v: Vec<char> = Vec::new();
    for c in it: s.chars()
        invariant
            it.seq() == s@,
            v@ == s@.take(it.index()),
    {
        v.push(c);
    }
    v
}

/// Whether `pat` stands in `s` at index `i`.
pub fn matches_at(s: &Vec<char>, pat: &Vec<char>, i: usize) -> (r: bool)
    requires
        i + pat.len() <= s.len(),
    ensures
        r == occurs_at(s@, pat@, i as int),
{
    let mut k: usize = 0;
    while k < pat.len()
        invariant
            k <= pat.len(),
            i + pat.len() <= s.len(),
            forall|j: int| 0 <= j < k ==> s@[i + j] == pat@[j],
        decreases pat.len() - k,
    {
        if s[i + k] != pat[k] {
            assert(s@.subrange(i as int, i + pat.len())[k as int] != pat@[k as int]);
            return false;
        }
        k = k + 1;
    }
    assert(s@.subrange(i as int, i + pat.len()) =~= pat@);
    true
}

/// Whether `s` begins with `pat`.
pub fn has_prefix(s: &Vec<char>, pat: &Vec<char>) -> (r: bool)
    ensures
        r == starts_with(s@, pat@),
{
    if pat.len() > s.len() {
        false
    } else {
        matches_at(s, pat, 0)
    }
}

/// The first index from `from` on at which `pat` stands in `s`.
pub fn find_from(s: &Vec<char>, pat: &Vec<char>, from: usize) -> (r: Option<usize>)
    requires
        from <= s.len(),
    ensures
        r matches Some(i) ==> from <= i && i + pat.len() <= s.len() && first_occurrence(
            s@.skip(from as int),
            pat@,
        ) == Some(i - from),
        r is None ==> first_occurrence(s@.skip(from as int), pat@) is None,
{
    let ghost tail = s@.skip(from as int);
    if pat.len() > s.len() - from {
        assert forall|j: int| !occurs_at(tail, pat@, j) by {}
        return None;
    }
    if pat.len() == 0 {
        proof {
            assert(tail.subrange(0, 0) =~= pat@);
            first_occurrence_is(tail, pat@, 0);
        }
        return Some(from);
    }
    let last: usize = s.len() - pat.len();
    let mut i: usize = from;
    while i <= last
        invariant
            from <= i <= last + 1,
            last < s.len(),
            last == s.len() - pat.len(),
            tail == s@.skip(from as int),
            forall|j: int| 0 <= j < i - from ==> !occurs_at(tail, pat@, j),
        decreases last + 1 - i,
    {
        if matches_at(s, pat, i) {
            proof {
                occurs_at_in_suffix(s@, pat@, from as int, i - from);
                first_occurrence_is(tail, pat@, i - from);
            }
            return Some(i);
        }
        proof {
            occurs_at_in_suffix(s@, pat@, from as int, i - from);
        }
        i = i + 1;
    }
    assert forall|j: int| !occurs_at(tail, pat@, j) by {}
    None
}

/// The last index at which `pat` stands in `s`.
pub fn find_last(s: &Vec<char>, pat: &Vec<char>) -> (r: Option<usize>)
    ensures
        r matches Some(i) ==> i + pat.len() <= s.len() && last_occurrence(s@, pat@) == Some(
            i as int,
        ),
        r is None ==> last_occurrence(s@, pat@) is None,
{
    if pat.len() > s.len() {
        assert forall|j: int| !occurs_at(s@, pat@, j) by {}
        return None;
    }
    let mut i: usize = s.len() - pat.len();
    loop
        invariant
            i + pat.len() <= s.len(),
            forall|j: int| i < j ==> !occurs_at(s@, pat@, j),
        decreases i,
    {
        if matches_at(s, pat, i) {
            proof {
                last_occurrence_is(s@, pat@, i as int);
            }
            return Some(i);
        }
        if i == 0 {
            assert forall|j: int| !occurs_at(s@, pat@, j) by {}
            return None;
        }
        i = i - 1;
    }
}

/// Where the piece of index `k` lies when `s` is cut at each occurrence of
/// `pat`: its first index and the index after its last.
pub fn field_bounds(s: &Vec<char>, pat: &Vec<char>, k: usize) -> (r: Option<(usize, usize)>)
    ensures
        r matches Some((a, b)) ==> a <= b <= s.len() && field(s@, pat@, k as nat) == Some(
            s@.subrange(a as int, b as int),
        ),
        r is None ==> field(s@, pat@, k as nat) is None,
{
    let mut start: usize = 0;
    let mut left: usize = k;
    assert(s@.skip(0) =~= s@);
    while left > 0
        invariant
            start <= s.len(),
            field(s@, pat@, k as nat) == field(s@.skip(start as int), pat@, left as nat),
        decreases left,
    {
        match find_from(s, pat, start) {
            None => {
                return None;
            },
            Some(i) => {
                assert(s@.skip(start as int).skip(i - start + pat.len()) =~= s@.skip(
                    i + pat.len(),
                ));
                start = i + pat.len();
                left = left - 1;
            },
        }
    }
    match find_from(s, pat, start) {
        None => {
            assert(s@.skip(start as int) =~= s@.subrange(start as int, s.len() as int));
            Some((start, s.len()))
        },
        Some(i) => {
            assert(s@.skip(start as int).take(i - start) =~= s@.subrange(
                start as int,
                i as int,
            ));
            Some((start, i))
        },
    }
}

} // verus!
