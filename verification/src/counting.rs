//! Counting the characters of a sequence that belong to a class, and how the
//! count behaves when the sequence is extended or reordered.

use vstd::prelude::*;
use vstd::seq_lib::{group_to_multiset_ensures, to_multiset_len};

verus! {

/// The test "`c` occurs in `class`".
pub open spec fn member_of(class: Seq<char>) -> spec_fn(char) -> bool {
    |c: char| class.contains(c)
}

/// How many characters of `chars` occur in `class`, each counted as often as
/// it stands in `chars`.
pub open spec fn count_of(chars: Seq<char>, class: Seq<char>) -> nat {
    chars.filter(member_of(class)).len()
}

/// Whether every character of `chars` occurs in `class`.
pub open spec fn all_from(chars: Seq<char>, class: Seq<char>) -> bool {
    forall|i: int| 0 <= i < chars.len() ==> class.contains(#[trigger] chars[i])
}

/// A filter keeps a sequence whole when every item passes.
pub proof fn lemma_filter_keeps_all<A>(s: Seq<A>, p: spec_fn(A) -> bool)
    requires
        forall|i: int| 0 <= i < s.len() ==> p(#[trigger] s[i]),
    ensures
        s.filter(p) == s,
    decreases s.len(),
{
    reveal(Seq::filter);
    if s.len() > 0 {
        lemma_filter_keeps_all(s.drop_last(), p);
        assert(s.drop_last().push(s.last()) =~= s);
    }
}

/// Taking one item out lowers the number of items that pass by one if that
/// item passes, and leaves it as it is otherwise.
pub proof fn lemma_filter_len_remove<A>(s: Seq<A>, p: spec_fn(A) -> bool, j: int)
    requires
        0 <= j < s.len(),
    ensures
        s.filter(p).len() == s.remove(j).filter(p).len() + if p(s[j]) {
            1int
        } else {
            0int
        },
{
    let front = s.take(j);
    let back = s.skip(j + 1);
    assert(s =~= front.push(s[j]) + back);
    assert(s.remove(j) =~= front + back);
    Seq::filter_distributes_over_add(front.push(s[j]), back, p);
    Seq::filter_distributes_over_add(front, back, p);
    front.lemma_filter_len_push(p, s[j]);
}

/// Two sequences with the same items, each as often in the one as in the
/// other, have the same number of items that pass a filter.
pub proof fn lemma_filter_len_reordered<A>(a: Seq<A>, b: Seq<A>, p: spec_fn(A) -> bool)
    requires
        a.to_multiset() == b.to_multiset(),
    ensures
        a.filter(p).len() == b.filter(p).len(),
    decreases a.len(),
{
    broadcast use group_to_multiset_ensures;

    to_multiset_len(a);
    to_multiset_len(b);
    if a.len() == 0 {
        assert(a =~= b);
    } else {
        let last = a.len() - 1;
        let x = a[last];
        assert(a.contains(x));
        assert(b.to_multiset().count(x) > 0);
        assert(b.contains(x));
        let j = choose|j: int| 0 <= j < b.len() && b[j] == x;
        assert(a.remove(last).to_multiset() == b.remove(j).to_multiset());
        lemma_filter_len_reordered(a.remove(last), b.remove(j), p);
        lemma_filter_len_remove(a, p, last);
        lemma_filter_len_remove(b, p, j);
    }
}

/// A filter that lets more through keeps at least as many items.
pub proof fn lemma_filter_len_weaker<A>(s: Seq<A>, p: spec_fn(A) -> bool, q: spec_fn(A) -> bool)
    requires
        forall|x: A| #[trigger] p(x) ==> q(x),
    ensures
        s.filter(p).len() <= s.filter(q).len(),
    decreases s.len(),
{
    reveal(Seq::filter);
    if s.len() > 0 {
        lemma_filter_len_weaker(s.drop_last(), p, q);
    }
}

/// The count over a sequence made of two parts is the sum of the counts over
/// the parts.
pub proof fn lemma_count_of_concat(front: Seq<char>, back: Seq<char>, class: Seq<char>)
    ensures
        count_of(front + back, class) == count_of(front, class) + count_of(back, class),
{
    Seq::filter_distributes_over_add(front, back, member_of(class));
}

/// A sequence whose characters all occur in `class` counts in full.
pub proof fn lemma_count_of_all_from(chars: Seq<char>, class: Seq<char>)
    requires
        all_from(chars, class),
    ensures
        count_of(chars, class) == chars.len(),
{
    lemma_filter_keeps_all(chars, member_of(class));
}

/// Reordering a sequence changes neither its length, nor the count of any
/// class, nor whether all of its characters occur in a given sequence.
pub proof fn lemma_reordered(a: Seq<char>, b: Seq<char>, class: Seq<char>)
    requires
        a.to_multiset() == b.to_multiset(),
    ensures
        a.len() == b.len(),
        count_of(a, class) == count_of(b, class),
        all_from(a, class) ==> all_from(b, class),
{
    broadcast use group_to_multiset_ensures;

    to_multiset_len(a);
    to_multiset_len(b);
    lemma_filter_len_reordered(a, b, member_of(class));
    if all_from(a, class) {
        assert forall|i: int| 0 <= i < b.len() implies class.contains(#[trigger] b[i]) by {
            assert(b.contains(b[i]));
            assert(a.to_multiset().count(b[i]) > 0);
            assert(a.contains(b[i]));
            let j = choose|j: int| 0 <= j < a.len() && a[j] == b[i];
            assert(class.contains(a[j]));
        }
    }
}

} // verus!
