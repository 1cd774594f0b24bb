//! Sorted lists of texts in which none is there twice.
use vstd::prelude::*;

use crate::text::{chars_of, comes_before, same_text, strictly_sorted, texts};

verus! {

/// Of two different texts one comes before the other.
pub proof fn lemma_order_is_total(a: Seq<char>, b: Seq<char>)
    ensures
        a != b ==> comes_before(a, b) || comes_before(b, a),
    decreases a.len(),
{
    if a.len() > 0 && b.len() > 0 && a[0] == b[0] {
        lemma_order_is_total(a.drop_first(), b.drop_first());
        if a.drop_first() == b.drop_first() {
            assert(a =~= seq![a[0]] + a.drop_first());
            assert(b =~= seq![b[0]] + b.drop_first());
        }
    } else if a.len() == 0 && b.len() == 0 {
        assert(a =~= b);
    }
}

/// What comes before a text comes before all that it comes before.
pub proof fn lemma_order_is_transitive(a: Seq<char>, b: Seq<char>, c: Seq<char>)
    requires
        comes_before(a, b),
        comes_before(b, c),
    ensures
        comes_before(a, c),
    decreases a.len(),
{
    if a.len() > 0 && a[0] == b[0] && b[0] == c[0] {
        lemma_order_is_transitive(a.drop_first(), b.drop_first(), c.drop_first());
    }
}

/// No text comes before itself.
pub proof fn lemma_order_is_strict(a: Seq<char>)
    ensures
        !comes_before(a, a),
    decreases a.len(),
{
    if a.len() > 0 {
        lemma_order_is_strict(a.drop_first());
    }
}

/// A sorted list is determined by what it contains.
pub proof fn lemma_sorted_list_is_unique(a: Seq<Seq<char>>, b: Seq<Seq<char>>)
    requires
        strictly_sorted(a),
        strictly_sorted(b),
        forall|t: Seq<char>| a.contains(t) <==> b.contains(t),
    ensures
        a == b,
    decreases a.len(),
{
    if a.len() == 0 {
        if b.len() > 0 {
            assert(b.contains(b[0]));
        }
        assert(a =~= b);
    } else {
        assert(a.contains(a[0]));
        let j = choose|j: int| 0 <= j < b.len() && b[j] == a[0];
        assert(b.contains(b[0]));
        let i = choose|i: int| 0 <= i < a.len() && a[i] == b[0];
        if j > 0 {
            assert(comes_before(b[0], b[j]));
            if i > 0 {
                assert(comes_before(a[0], a[i]));
                lemma_order_is_transitive(a[0], b[0], a[0]);
            }
            lemma_order_is_strict(a[0]);
        }
        let ra = a.drop_first();
        let rb = b.drop_first();
        assert forall|t: Seq<char>| ra.contains(t) <==> rb.contains(t) by {
            if ra.contains(t) {
                let k = choose|k: int| 0 <= k < ra.len() && ra[k] == t;
                assert(a[k + 1] == t);
                assert(a.contains(t));
                assert(comes_before(a[0], a[k + 1]));
                lemma_order_is_strict(a[0]);
                let m = choose|m: int| 0 <= m < b.len() && b[m] == t;
                assert(rb[m - 1] == t);
            }
            if rb.contains(t) {
                let k = choose|k: int| 0 <= k < rb.len() && rb[k] == t;
                assert(b[k + 1] == t);
                assert(b.contains(t));
                assert(comes_before(b[0], b[k + 1]));
                lemma_order_is_strict(b[0]);
                let m = choose|m: int| 0 <= m < a.len() && a[m] == t;
                assert(ra[m - 1] == t);
            }
        }
        lemma_sorted_list_is_unique(ra, rb);
        assert(a =~= seq![a[0]] + ra);
        assert(b =~= seq![b[0]] + rb);
    }
}

/// Whether `a` comes before `b`.
pub fn precedes(a: &str, b: &str) -> (r: bool)
    ensures
        r == comes_before(a@, b@),
{
    let x = chars_of(a);
    let y = chars_of(b);
    let mut i: usize = 0;
    assert(a@.skip(0) =~= a@);
    assert(b@.skip(0) =~= b@);
    while i < x.len() && i < y.len()
        invariant
            x@ == a@,
            y@ == b@,
            i <= x@.len(),
            i <= y@.len(),
            comes_before(a@, b@) == comes_before(a@.skip(i as int), b@.skip(i as int)),
        decreases x.len() - i,
    {
        assert(a@.skip(i as int).drop_first() =~= a@.skip(i + 1));
        assert(b@.skip(i as int).drop_first() =~= b@.skip(i + 1));
        if x[i] != y[i] {
            return x[i] < y[i];
        }
        i += 1;
    }
    i < y.len()
}

/// Puts `item` into a sorted list, unless it is there already.
fn insert_sorted(list: &mut Vec<String>, item: String)
    requires
        strictly_sorted(texts(old(list)@)),
    ensures
        strictly_sorted(texts(final(list)@)),
        forall|t: Seq<char>|
            texts(final(list)@).contains(t) <==> texts(old(list)@).contains(t) || t == item@,
{
    let mut at: usize = 0;
    while at < list.len() && precedes(list[at].as_str(), item.as_str())
        invariant
            at <= list.len(),
            strictly_sorted(texts(list@)),
            forall|k: int| 0 <= k < at ==> comes_before(texts(list@)[k], item@),
        decreases list.len() - at,
    {
        assert(comes_before(texts(list@)[at as int], item@));
        at += 1;
    }
    let ghost before = texts(list@);
    if at < list.len() {
        assert(!comes_before(before[at as int], item@));
        if same_text(list[at].as_str(), item.as_str()) {
            assert(before[at as int] == item@);
            return;
        }
        proof {
            lemma_order_is_total(before[at as int], item@);
            assert forall|k: int| at <= k < before.len() implies comes_before(item@, before[k]) by {
                if k > at {
                    lemma_order_is_transitive(item@, before[at as int], before[k]);
                }
            }
        }
    }
    let ghost text = item@;
    list.insert(at, item);
    proof {
        let after = texts(list@);
        assert(after =~= before.insert(at as int, text));
        assert forall|t: Seq<char>| after.contains(t) <==> before.contains(t) || t == text by {
            if after.contains(t) {
                let k = choose|k: int| 0 <= k < after.len() && after[k] == t;
                if k < at {
                    assert(before[k] == t);
                } else if k > at {
                    assert(before[k - 1] == t);
                }
            }
            if before.contains(t) {
                let k = choose|k: int| 0 <= k < before.len() && before[k] == t;
                if k < at {
                    assert(after[k] == t);
                } else {
                    assert(after[k + 1] == t);
                }
            }
            assert(after[at as int] == text);
        }
        assert forall|i: int, j: int| 0 <= i < j < after.len() implies comes_before(
            after[i],
            after[j],
        ) by {
            if i < at && j > at {
                assert(comes_before(before[i], before[j - 1]));
            } else if i < at && j == at {
            } else if i == at {
                assert(comes_before(text, before[j - 1]));
            } else if i > at {
                assert(comes_before(before[i - 1], before[j - 1]));
            }
        }
    }
}

/// `sorted` holds the texts of `list` in order, each of them once.
pub open spec fn is_ordering_of(sorted: Seq<Seq<char>>, list: Seq<Seq<char>>) -> bool {
    strictly_sorted(sorted) && forall|t: Seq<char>| sorted.contains(t) <==> list.contains(t)
}

/// The texts of a list in order, each of them once.
pub open spec fn ordered(list: Seq<Seq<char>>) -> Seq<Seq<char>> {
    choose|sorted: Seq<Seq<char>>| is_ordering_of(sorted, list)
}

/// The texts of a list in order, each of them once.
pub fn sorted_unique(list: &Vec<String>) -> (r: Vec<String>)
    ensures
        texts(r@) == ordered(texts(list@)),
        is_ordering_of(texts(r@), texts(list@)),
{
    let mut out: Vec<String> = Vec::new();
    let mut i: usize = 0;
    while i < list.len()
        invariant
            i <= list.len(),
            strictly_sorted(texts(out@)),
            forall|t: Seq<char>|
                texts(out@).contains(t) <==> texts(list@).take(i as int).contains(t),
        decreases list.len() - i,
    {
        let item = list[i].clone();
        let ghost front = texts(list@).take(i as int);
        assert(texts(list@).take(i + 1) =~= front.push(item@));
        proof {
            assert forall|t: Seq<char>| front.push(item@).contains(t) <==> front.contains(t) || t
                == item@ by {
                if front.contains(t) {
                    let k = choose|k: int| 0 <= k < front.len() && front[k] == t;
                    assert(front.push(item@)[k] == t);
                }
                assert(front.push(item@)[front.len() as int] == item@);
                if front.push(item@).contains(t) && t != item@ {
                    let k = choose|k: int|
                        0 <= k < front.push(item@).len() && front.push(item@)[k] == t;
                    assert(front[k] == t);
                }
            }
        }
        insert_sorted(&mut out, item);
        i += 1;
    }
    assert(texts(list@).take(i as int) =~= texts(list@));
    proof {
        assert(is_ordering_of(texts(out@), texts(list@)));
        lemma_sorted_list_is_unique(texts(out@), ordered(texts(list@)));
    }
    out
}

/// Some list holds what a sorted list does, and one text more.
proof fn lemma_one_more(sorted: Seq<Seq<char>>, item: Seq<char>) -> (r: Seq<Seq<char>>)
    requires
        strictly_sorted(sorted),
    ensures
        is_ordering_of(r, sorted.push(item)),
    decreases sorted.len(),
{
    let all = sorted.push(item);
    assert(all[sorted.len() as int] == item);
    assert forall|t: Seq<char>| sorted.contains(t) implies all.contains(t) by {
        let k = choose|k: int| 0 <= k < sorted.len() && sorted[k] == t;
        assert(all[k] == t);
    }
    if sorted.len() == 0 {
        assert(all =~= seq![item]);
        all
    } else if sorted[0] == item {
        assert(sorted.contains(item));
        sorted
    } else if comes_before(item, sorted[0]) {
        let r = seq![item] + sorted;
        assert forall|i: int, j: int| 0 <= i < j < r.len() implies comes_before(r[i], r[j]) by {
            if i == 0 && j > 1 {
                lemma_order_is_transitive(item, sorted[0], sorted[j - 1]);
            }
        }
        assert forall|t: Seq<char>| r.contains(t) <==> all.contains(t) by {
            if sorted.contains(t) {
                let k = choose|k: int| 0 <= k < sorted.len() && sorted[k] == t;
                assert(r[k + 1] == t);
            }
            assert(r[0] == item);
        }
        r
    } else {
        lemma_order_is_total(sorted[0], item);
        let rest = sorted.drop_first();
        let tail = lemma_one_more(rest, item);
        let r = seq![sorted[0]] + tail;
        let more = rest.push(item);
        assert forall|i: int, j: int| 0 <= i < j < r.len() implies comes_before(r[i], r[j]) by {
            if i == 0 {
                assert(tail.contains(tail[j - 1]));
                assert(more.contains(tail[j - 1]));
                let k = choose|k: int| 0 <= k < more.len() && more[k] == tail[j - 1];
                if k < rest.len() {
                    assert(more[k] == sorted[k + 1]);
                }
            }
        }
        assert forall|t: Seq<char>| r.contains(t) <==> all.contains(t) by {
            if r.contains(t) {
                let k = choose|k: int| 0 <= k < r.len() && r[k] == t;
                if k == 0 {
                    assert(all[0] == t);
                } else {
                    assert(tail[k - 1] == t);
                    assert(more.contains(t));
                    let m = choose|m: int| 0 <= m < more.len() && more[m] == t;
                    assert(all[m + 1] == t);
                }
            }
            if all.contains(t) {
                let k = choose|k: int| 0 <= k < all.len() && all[k] == t;
                if k == 0 {
                    assert(r[0] == t);
                } else {
                    assert(more[k - 1] == t);
                    assert(tail.contains(t));
                    let m = choose|m: int| 0 <= m < tail.len() && tail[m] == t;
                    assert(r[m + 1] == t);
                }
            }
        }
        r
    }
}

proof fn lemma_ordering_exists(list: Seq<Seq<char>>) -> (r: Seq<Seq<char>>)
    ensures
        is_ordering_of(r, list),
    decreases list.len(),
{
    if list.len() == 0 {
        list
    } else {
        let front = list.drop_last();
        let sorted = lemma_ordering_exists(front);
        let r = lemma_one_more(sorted, list.last());
        assert(front.push(list.last()) =~= list);
        assert forall|t: Seq<char>| r.contains(t) <==> list.contains(t) by {
            let more = sorted.push(list.last());
            if more.contains(t) {
                let k = choose|k: int| 0 <= k < more.len() && more[k] == t;
                if k < sorted.len() {
                    assert(sorted[k] == t);
                    assert(front.contains(t));
                    let m = choose|m: int| 0 <= m < front.len() && front[m] == t;
                    assert(list[m] == t);
                } else {
                    assert(list[list.len() - 1] == t);
                }
            }
            if list.contains(t) {
                let k = choose|k: int| 0 <= k < list.len() && list[k] == t;
                if k < front.len() {
                    assert(front[k] == t);
                    assert(sorted.contains(t));
                    let m = choose|m: int| 0 <= m < sorted.len() && sorted[m] == t;
                    assert(more[m] == t);
                } else {
                    assert(more[sorted.len() as int] == t);
                }
            }
        }
        r
    }
}

/// Every list can be put in order: what `ordered` gives is sorted, and holds what
/// the list holds, each text once.
pub proof fn lemma_ordered(list: Seq<Seq<char>>)
    ensures
        is_ordering_of(ordered(list), list),
{
    let sorted = lemma_ordering_exists(list);
    assert(is_ordering_of(sorted, list));
}

/// A list in order holds what the list holds, nothing twice, and of each two texts the
/// first where they differ is the smaller in front.
pub proof fn law_lists_are_put_in_order(list: Seq<Seq<char>>, text: Seq<char>, i: int, j: int)
    ensures
        ordered(list).contains(text) <==> list.contains(text),
        0 <= i < j < ordered(list).len() ==> ordered(list)[i] != ordered(list)[j] && comes_before(
            ordered(list)[i],
            ordered(list)[j],
        ) && !comes_before(ordered(list)[j], ordered(list)[i]),
{
    lemma_ordered(list);
    if 0 <= i < j < ordered(list).len() {
        lemma_order_is_strict(ordered(list)[i]);
        if comes_before(ordered(list)[j], ordered(list)[i]) {
            lemma_order_is_transitive(ordered(list)[i], ordered(list)[j], ordered(list)[i]);
        }
    }
}

} // verus!
