//! Ordering the files of a folder by when they were last changed, the
//! newest first.
use vstd::prelude::*;
use crate::cli::shared::has_extension;
use crate::parse::extension;

verus! {

/// The files of a listing (each with the time it was last changed) whose
/// extension is `ext`, in the order of the listing.
pub open spec fn with_extension(listing: Seq<(Seq<char>, i128)>, ext: Seq<char>) -> Seq<(Seq<char>, i128)>
    decreases listing.len(),
{
    if listing.len() == 0 {
        Seq::empty()
    } else {
        let rest = with_extension(listing.drop_last(), ext);
        if extension(listing.last().0) == Some(ext) {
            rest.push(listing.last())
        } else {
            rest
        }
    }
}

/// A listing of files, each with the time it was last changed, as texts.
pub open spec fn listing_files(listing: Seq<(String, i128)>) -> Seq<(Seq<char>, i128)> {
    listing.map_values(|e: (String, i128)| (e.0@, e.1))
}

/// File `a` of `files` comes before file `b`: it was changed later, or at
/// the same time and is listed first.
pub open spec fn comes_before(files: Seq<(Seq<char>, i128)>, a: int, b: int) -> bool {
    files[a].1 > files[b].1 || (files[a].1 == files[b].1 && a < b)
}

/// `order` lists each position of `files` once, newest first (see
/// [`comes_before`]).
pub open spec fn is_newest_first(files: Seq<(Seq<char>, i128)>, order: Seq<int>) -> bool {
    &&& order.len() == files.len()
    &&& forall|k: int| 0 <= k < order.len() ==> 0 <= #[trigger] order[k] < files.len()
    &&& forall|j: int| 0 <= j < files.len() ==> #[trigger] order.contains(j)
    &&& forall|k: int, l: int| 0 <= k < l < order.len() ==> comes_before(files, #[trigger] order[k], #[trigger] order[l])
}

/// The paths of `files` in the order `order`.
pub open spec fn paths_in(files: Seq<(Seq<char>, i128)>, order: Seq<int>) -> Seq<Seq<char>> {
    Seq::new(order.len(), |k: int| files[order[k]].0)
}

proof fn lemma_sorted_orders_agree(files: Seq<(Seq<char>, i128)>, o1: Seq<int>, o2: Seq<int>)
    requires
        forall|k: int, l: int| 0 <= k < l < o1.len() ==> comes_before(files, #[trigger] o1[k], #[trigger] o1[l]),
        forall|k: int, l: int| 0 <= k < l < o2.len() ==> comes_before(files, #[trigger] o2[k], #[trigger] o2[l]),
        forall|x: int| #![trigger o1.contains(x)] #![trigger o2.contains(x)] o1.contains(x) == o2.contains(x),
    ensures
        o1 == o2,
    decreases o1.len(),
{
    if o1.len() == 0 {
        if o2.len() > 0 {
            assert(o2.contains(o2[0]));
        }
        assert(o1 =~= o2);
    } else {
        assert(o1.contains(o1[0]));
        assert(o2.len() > 0);
        assert(o2.contains(o2[0]));
        let j = choose|j: int| 0 <= j < o2.len() && o2[j] == o1[0];
        let i = choose|i: int| 0 <= i < o1.len() && o1[i] == o2[0];
        if j > 0 {
            assert(comes_before(files, o2[0], o2[j]));
            if i > 0 {
                assert(comes_before(files, o1[0], o1[i]));
            }
        }
        let t1 = o1.drop_first();
        let t2 = o2.drop_first();
        assert forall|k: int, l: int| 0 <= k < l < t1.len() implies comes_before(files, #[trigger] t1[k], #[trigger] t1[l]) by {
            assert(t1[k] == o1[k + 1] && t1[l] == o1[l + 1]);
        }
        assert forall|k: int, l: int| 0 <= k < l < t2.len() implies comes_before(files, #[trigger] t2[k], #[trigger] t2[l]) by {
            assert(t2[k] == o2[k + 1] && t2[l] == o2[l + 1]);
        }
        assert forall|x: int| #![trigger t1.contains(x)] #![trigger t2.contains(x)] t1.contains(x) == t2.contains(x) by {
            if t1.contains(x) {
                let w = choose|w: int| 0 <= w < t1.len() && t1[w] == x;
                assert(o1[w + 1] == x);
                assert(comes_before(files, o1[0], o1[w + 1]));
                assert(o1.contains(x));
                let v = choose|v: int| 0 <= v < o2.len() && o2[v] == x;
                assert(v > 0);
                assert(t2[v - 1] == x);
            }
            if t2.contains(x) {
                let w = choose|w: int| 0 <= w < t2.len() && t2[w] == x;
                assert(o2[w + 1] == x);
                assert(comes_before(files, o2[0], o2[w + 1]));
                assert(o2.contains(x));
                let v = choose|v: int| 0 <= v < o1.len() && o1[v] == x;
                assert(v > 0);
                assert(t1[v - 1] == x);
            }
        }
        lemma_sorted_orders_agree(files, t1, t2);
        assert(o1 =~= o2) by {
            assert forall|k: int| 0 <= k < o1.len() implies o1[k] == o2[k] by {
                if k > 0 {
                    assert(o1[k] == t1[k - 1] && o2[k] == t2[k - 1]);
                }
            }
        }
    }
}

/// Only one order lists the files newest first: the result of
/// [`files_in_modified_order`] is determined by the listing.
pub proof fn lemma_newest_first_is_unique(files: Seq<(Seq<char>, i128)>, o1: Seq<int>, o2: Seq<int>)
    requires
        is_newest_first(files, o1),
        is_newest_first(files, o2),
    ensures
        o1 == o2,
{
    assert forall|x: int| #![trigger o1.contains(x)] #![trigger o2.contains(x)] o1.contains(x) == o2.contains(x) by {
        if o1.contains(x) {
            let w = choose|w: int| 0 <= w < o1.len() && o1[w] == x;
            assert(0 <= o1[w] < files.len());
        }
        if o2.contains(x) {
            let w = choose|w: int| 0 <= w < o2.len() && o2[w] == x;
            assert(0 <= o2[w] < files.len());
        }
    }
    lemma_sorted_orders_agree(files, o1, o2);
}

fn files_with_extension(listing: &Vec<(String, i128)>, ext: &str) -> (r: Vec<(String, i128)>)
    ensures
        listing_files(r@) == with_extension(listing_files(listing@), ext@),
{
    let ghost all = listing_files(listing@);
    let mut r: Vec<(String, i128)> = Vec::new();
    let mut i: usize = 0;
    while i < listing.len()
        invariant
            i <= listing@.len(),
            all == listing_files(listing@),
            listing_files(r@) == with_extension(all.take(i as int), ext@),
        decreases listing.len() - i,
    {
        proof {
            assert(all.take(i + 1).drop_last() =~= all.take(i as int));
            assert(all.take(i + 1).last() == all[i as int]);
        }
        let ghost before = listing_files(r@);
        if has_extension(listing[i].0.as_str(), ext) {
            let entry = (listing[i].0.clone(), listing[i].1);
            r.push(entry);
            assert(listing_files(r@) =~= before.push(all[i as int]));
        }
        i += 1;
    }
    assert(all.take(i as int) =~= all);
    r
}

/// The position at which file `i` goes among the first `i` files of
/// `files` ordered by `order`: the first that it comes before.
fn insertion_point(files: &Vec<(String, i128)>, order: &Vec<usize>, i: usize) -> (r: usize)
    requires
        i < files@.len(),
        order@.len() == i,
        forall|k: int| 0 <= k < order@.len() ==> #[trigger] order@[k] < i,
    ensures
        r <= order@.len(),
        forall|k: int| 0 <= k < r ==> files@[i as int].1 <= files@[#[trigger] order@[k] as int].1,
        r < order@.len() ==> files@[i as int].1 > files@[order@[r as int] as int].1,
{
    let mut k: usize = 0;
    while k < order.len()
        invariant
            k <= order@.len(),
            i < files@.len(),
            forall|m: int| 0 <= m < order@.len() ==> #[trigger] order@[m] < i,
            forall|m: int| 0 <= m < k ==> files@[i as int].1 <= files@[#[trigger] order@[m] as int].1,
        decreases order.len() - k,
    {
        if files[i].1 > files[order[k]].1 {
            return k;
        }
        k += 1;
    }
    k
}

/// The positions of `files`, newest first.
fn newest_first_order(files: &Vec<(String, i128)>) -> (r: Vec<usize>)
    ensures
        is_newest_first(listing_files(files@), r@.map_values(|x: usize| x as int)),
{
    let ghost fs = listing_files(files@);
    let mut order: Vec<usize> = Vec::new();
    let mut i: usize = 0;
    while i < files.len()
        invariant
            i <= files@.len(),
            fs == listing_files(files@),
            order@.len() == i,
            forall|k: int| 0 <= k < order@.len() ==> #[trigger] order@[k] < i,
            forall|j: int| 0 <= j < i ==> #[trigger] order@.contains(j as usize),
            forall|k: int, l: int| 0 <= k < l < order@.len() ==> comes_before(fs, #[trigger] order@[k] as int, #[trigger] order@[l] as int),
        decreases files.len() - i,
    {
        let p = insertion_point(files, &order, i);
        let ghost old_order = order@;
        order.insert(p, i);
        proof {
            assert forall|k: int| 0 <= k < order@.len() implies #[trigger] order@[k] < i + 1 by {
                if k < p {
                    assert(order@[k] == old_order[k]);
                } else if k > p {
                    assert(order@[k] == old_order[k - 1]);
                }
            }
            assert forall|j: int| 0 <= j < i + 1 implies #[trigger] order@.contains(j as usize) by {
                if j == i {
                    assert(order@[p as int] == i);
                } else {
                    assert(old_order.contains(j as usize));
                    let w = choose|w: int| 0 <= w < old_order.len() && old_order[w] == j as usize;
                    if w < p {
                        assert(order@[w] == j as usize);
                    } else {
                        assert(order@[w + 1] == j as usize);
                    }
                }
            }
            assert forall|k: int, l: int| 0 <= k < l < order@.len() implies comes_before(
                fs,
                #[trigger] order@[k] as int,
                #[trigger] order@[l] as int,
            ) by {
                if l < p {
                    assert(order@[k] == old_order[k] && order@[l] == old_order[l]);
                } else if l == p {
                    assert(order@[k] == old_order[k]);
                    assert(fs[i as int].1 <= fs[old_order[k] as int].1);
                } else if k > p {
                    assert(order@[k] == old_order[k - 1] && order@[l] == old_order[l - 1]);
                } else if k == p {
                    assert(order@[l] == old_order[l - 1]);
                    assert(fs[i as int].1 > fs[old_order[p as int] as int].1);
                    if l - 1 > p {
                        assert(comes_before(fs, old_order[p as int] as int, old_order[l - 1] as int));
                    }
                } else {
                    assert(order@[k] == old_order[k] && order@[l] == old_order[l - 1]);
                }
            }
        }
        i += 1;
    }
    proof {
        let o = order@.map_values(|x: usize| x as int);
        assert forall|j: int| 0 <= j < fs.len() implies #[trigger] o.contains(j) by {
            assert(order@.contains(j as usize));
            let w = choose|w: int| 0 <= w < order@.len() && order@[w] == j as usize;
            assert(o[w] == j);
        }
        assert forall|k: int, l: int| 0 <= k < l < o.len() implies comes_before(fs, #[trigger] o[k], #[trigger] o[l]) by {
            assert(o[k] == order@[k] as int && o[l] == order@[l] as int);
        }
        assert forall|k: int| 0 <= k < o.len() implies 0 <= #[trigger] o[k] < fs.len() by {
            assert(o[k] == order@[k] as int);
        }
    }
    order
}

/// The paths of the files of `listing` (each given with the time it was
/// last changed) whose extension is `ext`, the most recently changed first;
/// files changed at the same time keep the order of the listing.
pub fn files_in_modified_order(listing: &Vec<(String, i128)>, ext: &str) -> (r: Vec<String>)
    ensures
        exists|order: Seq<int>| #[trigger] is_newest_first(with_extension(listing_files(listing@), ext@), order)
            && r@.map_values(|p: String| p@) == paths_in(with_extension(listing_files(listing@), ext@), order),
{
    let files = files_with_extension(listing, ext);
    let ghost fs = listing_files(files@);
    let order = newest_first_order(&files);
    let ghost o = order@.map_values(|x: usize| x as int);
    let mut r: Vec<String> = Vec::new();
    let mut k: usize = 0;
    while k < order.len()
        invariant
            k <= order@.len(),
            fs == listing_files(files@),
            o == order@.map_values(|x: usize| x as int),
            is_newest_first(fs, o),
            r@.len() == k,
            r@.map_values(|p: String| p@) == paths_in(fs, o).take(k as int),
        decreases order.len() - k,
    {
        assert(0 <= o[k as int] < fs.len());
        let path = files[order[k]].0.clone();
        assert(path@ == paths_in(fs, o)[k as int]);
        let ghost before = r@;
        r.push(path);
        assert forall|m: int| 0 <= m < k implies r@[m]@ == paths_in(fs, o)[m] by {
            assert(r@[m] == before[m]);
            assert(before.map_values(|p: String| p@)[m] == paths_in(fs, o).take(k as int)[m]);
        }
        assert(r@.map_values(|p: String| p@) =~= paths_in(fs, o).take(k + 1));
        k += 1;
    }
    assert(paths_in(fs, o).take(k as int) =~= paths_in(fs, o));
    assert(is_newest_first(with_extension(listing_files(listing@), ext@), o));
    r
}

} // verus!
