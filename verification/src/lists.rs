//! Lists of strings: concatenating them and joining their items into one string.
use vstd::prelude::*;
use vstd::string::StringExecFns;

verus! {

/// The items of `items` one after the other, with `sep` between each two.
pub open spec fn spec_join(items: Seq<Seq<char>>, sep: Seq<char>) -> Seq<char>
    decreases items.len(),
{
    if items.len() == 0 {
        Seq::empty()
    } else if items.len() == 1 {
        items[0]
    } else {
        spec_join(items.drop_last(), sep) + sep + items.last()
    }
}

/// The total length of the items of `items`.
pub open spec fn total_len(items: Seq<Seq<char>>) -> nat
    decreases items.len(),
{
    if items.len() == 0 {
        0
    } else {
        total_len(items.drop_last()) + items.last().len()
    }
}

/// Joining no items gives the empty string.
pub proof fn lemma_join_empty(sep: Seq<char>)
    ensures
        spec_join(Seq::empty(), sep) == Seq::<char>::empty(),
{
}

/// Joining one item gives that item, whatever the separator.
pub proof fn lemma_join_single(item: Seq<char>, sep: Seq<char>)
    ensures
        spec_join(seq![item], sep) == item,
{
}

/// Joining a non-empty list with one more item at its end gives the join of the list,
/// the separator and the item, whatever the item is (an empty one too).
pub proof fn lemma_join_push(items: Seq<Seq<char>>, item: Seq<char>, sep: Seq<char>)
    requires
        items.len() > 0,
    ensures
        spec_join(items.push(item), sep) == spec_join(items, sep) + sep + item,
{
    assert(items.push(item).drop_last() =~= items);
}

/// A join of `n > 0` items is as long as the items together plus `n - 1` separators.
pub proof fn lemma_join_len(items: Seq<Seq<char>>, sep: Seq<char>)
    requires
        items.len() > 0,
    ensures
        spec_join(items, sep).len() == total_len(items) + (items.len() - 1) * sep.len(),
    decreases items.len(),
{
    if items.len() > 1 {
        lemma_join_len(items.drop_last(), sep);
        assert((items.len() - 1) * sep.len() == (items.len() - 2) * sep.len() + sep.len())
            by (nonlinear_arith)
            requires
                items.len() > 1,
        ;
    } else {
        assert(items.drop_last().len() == 0);
        assert(total_len(items.drop_last()) == 0);
        assert((items.len() - 1) * sep.len() == 0);
    }
}

/// Where item `k` starts in a join: after the items before it and one separator each.
pub open spec fn item_offset(items: Seq<Seq<char>>, sep: Seq<char>, k: int) -> int {
    total_len(items.take(k)) + k * sep.len()
}

/// In a join, every item stands at its place, in order, and a separator stands right
/// before every item but the first, empty items included.
pub proof fn lemma_join_items(items: Seq<Seq<char>>, sep: Seq<char>, k: int)
    requires
        0 <= k < items.len(),
    ensures
        spec_join(items, sep).subrange(
            item_offset(items, sep, k),
            item_offset(items, sep, k) + items[k].len(),
        ) == items[k],
        k > 0 ==> spec_join(items, sep).subrange(
            item_offset(items, sep, k) - sep.len(),
            item_offset(items, sep, k),
        ) == sep,
    decreases items.len(),
{
    let n = items.len();
    let rest = items.drop_last();
    if n == 1 {
        assert(items.take(0) =~= Seq::<Seq<char>>::empty());
        assert(total_len(items.take(0)) == 0);
        assert(0 * sep.len() == 0);
    } else {
        lemma_join_len(rest, sep);
        let joined = spec_join(items, sep);
        let prefix = spec_join(rest, sep);
        assert(joined == prefix + sep + items.last());
        if k == n - 1 {
            assert(items.take(k) =~= rest);
            assert(k * sep.len() == (n - 2) * sep.len() + sep.len()) by (nonlinear_arith)
                requires
                    k == n - 1,
            ;
            assert(item_offset(items, sep, k) == prefix.len() + sep.len());
            let start: int = (prefix.len() + sep.len()) as int;
            assert(joined.subrange(start, start + items[k].len()) =~= items[k]);
            assert(joined.subrange(prefix.len() as int, start) =~= sep);
        } else {
            lemma_join_items(rest, sep, k);
            assert(rest.take(k) =~= items.take(k));
            assert(rest[k] == items[k]);
            assert(item_offset(rest, sep, k) == item_offset(items, sep, k));
            let off = item_offset(items, sep, k);
            lemma_offset_bound(rest, sep, k);
            assert(joined.subrange(off, off + items[k].len()) =~= prefix.subrange(
                off,
                off + items[k].len(),
            ));
            if k > 0 {
                assert(k * sep.len() >= sep.len()) by (nonlinear_arith)
                    requires
                        k >= 1,
                ;
                assert(joined.subrange(off - sep.len(), off) =~= prefix.subrange(off - sep.len(), off));
            }
        }
    }
}

/// Item `k` of a join ends inside the join.
proof fn lemma_offset_bound(items: Seq<Seq<char>>, sep: Seq<char>, k: int)
    requires
        0 <= k < items.len(),
    ensures
        0 <= k * sep.len(),
        item_offset(items, sep, k) + items[k].len() <= spec_join(items, sep).len(),
    decreases items.len(),
{
    lemma_join_len(items, sep);
    lemma_total_len_take(items, k);
    assert(0 <= k * sep.len()) by (nonlinear_arith)
        requires
            0 <= k,
    ;
    assert(k * sep.len() <= (items.len() - 1) * sep.len()) by (nonlinear_arith)
        requires
            0 <= k < items.len(),
    ;
}

/// The items up to `k`, and item `k`, are no longer than all the items.
proof fn lemma_total_len_take(items: Seq<Seq<char>>, k: int)
    requires
        0 <= k < items.len(),
    ensures
        total_len(items.take(k)) + items[k].len() <= total_len(items),
    decreases items.len(),
{
    let rest = items.drop_last();
    if k == items.len() - 1 {
        assert(items.take(k) =~= rest);
    } else {
        lemma_total_len_take(rest, k);
        assert(rest.take(k) =~= items.take(k));
    }
}

/// The contents of the strings in `items`.
pub open spec fn views(items: Seq<String>) -> Seq<Seq<char>> {
    items.map_values(|s: String| s@)
}

/// The items of `l1` followed by those of `l2`.
pub fn concat_lists(l1: Vec<String>, l2: Vec<String>) -> (res: Vec<String>)
    ensures
        res@ == l1@ + l2@,
{
    let mut l3 = l1;
    let mut l4 = l2;
    l3.append(&mut l4);
    l3
}

/// The items of `items` one after the other, with `sep` between each two.
pub fn join_strings(items: &Vec<String>, sep: &str) -> (res: String)
    ensures
        res@ == spec_join(views(items@), sep@),
        items.len() == 0 ==> res@.len() == 0,
        items.len() > 0 ==> res@.len() == total_len(views(items@)) + (items.len() - 1) * sep@.len(),
{
    let mut res = String::new();
    let mut i: usize = 0;
    while i < items.len()
        invariant
            i <= items.len(),
            res@ == spec_join(views(items@.take(i as int)), sep@),
        decreases items.len() - i,
    {
        let ghost before = res@;
        if i > 0 {
            res.append(sep);
        }
        res.append(items[i].as_str());
        proof {
            let prefix = views(items@.take(i as int));
            let next = views(items@.take(i + 1));
            assert(next.drop_last() =~= prefix);
            assert(next.last() == items@[i as int]@);
            assert(next.len() == i + 1);
            if i == 0 {
                assert(res@ =~= next[0]);
            } else {
                assert(res@ =~= spec_join(prefix, sep@) + sep@ + next.last());
            }
        }
        i = i + 1;
    }
    proof {
        assert(items@.take(items.len() as int) =~= items@);
        if items.len() > 0 {
            lemma_join_len(views(items@), sep@);
        }
    }
    res
}

} // verus!
