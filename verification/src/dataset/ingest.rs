//! Which files of a workspace are loaded into a store, and in what order.
//!
//! The definition files are those with the wanted extension. They are loaded
//! in the order of a depth-first walk that visits the entries of each
//! directory by name: a later file may rely on what an earlier one declares.

use vstd::prelude::*;
use vstd::relations::{sorted_by, total_ordering};
use vstd::seq_lib::{lemma_sorted_unique, to_multiset_insert};
use crate::text::{chars_of, texts};

verus! {

/// The extension of the definition files of the dataset repository.
pub const DEFINITION_EXTENSION: &'static str = "sql";

/// The place of a character in the walk order: the separator of path
/// components comes before every other character, so that a directory's
/// entries follow the directory at once.
pub open spec fn rank(c: char) -> int {
    if c == '/' {
        0
    } else {
        c as int + 1
    }
}

/// Whether `first` and `second` agree on their `at` leading characters and
/// `first` goes before `second` by what follows.
pub open spec fn parts_at(first: Seq<char>, second: Seq<char>, at: int) -> bool {
    &&& 0 <= at <= first.len()
    &&& at < second.len()
    &&& forall|i: int| 0 <= i < at ==> first[i] == second[i]
    &&& at < first.len() ==> rank(first[at]) < rank(second[at])
}

/// Whether the walk reaches `first` before `second`.
pub open spec fn precedes(first: Seq<char>, second: Seq<char>) -> bool {
    exists|at: int| parts_at(first, second, at)
}

/// Whether the walk reaches `first` no later than `second`.
pub open spec fn in_walk_order(first: Seq<char>, second: Seq<char>) -> bool {
    first == second || precedes(first, second)
}

/// The walk order as a relation.
pub open spec fn walk_order() -> spec_fn(Seq<char>, Seq<char>) -> bool {
    |first: Seq<char>, second: Seq<char>| in_walk_order(first, second)
}

/// Whether the file at `path` has the extension `extension`: its name ends in
/// a dot and the extension, and has something before that dot.
pub open spec fn has_extension(path: Seq<char>, extension: Seq<char>) -> bool {
    let stem = path.len() - extension.len() - 1;
    &&& stem > 0
    &&& path[stem - 1] != '/'
    &&& path[stem] == '.'
    &&& path.subrange(stem + 1, path.len() as int) == extension
    &&& forall|i: int| 0 <= i < extension.len() ==> extension[i] != '.' && extension[i] != '/'
}

/// The definition files among `listing`, in the listing's order.
pub open spec fn definition_files(listing: Seq<Seq<char>>, extension: Seq<char>) -> Seq<
    Seq<char>,
> {
    listing.filter(|path: Seq<char>| has_extension(path, extension))
}

/// The files to load, in the order in which they are loaded.
pub open spec fn plan_of(listing: Seq<Seq<char>>, extension: Seq<char>) -> Seq<Seq<char>> {
    definition_files(listing, extension).sort_by(walk_order())
}

proof fn lemma_rank_tells_apart(c: char, d: char)
    requires
        c != d,
    ensures
        rank(c) != rank(d),
{
    assert(c as u32 as char == c);
    assert(d as u32 as char == d);
}

proof fn lemma_never_both_ways(first: Seq<char>, second: Seq<char>)
    requires
        precedes(first, second),
    ensures
        !in_walk_order(second, first),
{
    let at = choose|at: int| parts_at(first, second, at);
    if first == second {
        assert(false);
    }
    if precedes(second, first) {
        let back = choose|back: int| parts_at(second, first, back);
        if at < back {
            assert(second[at] == first[at]);
        } else if back < at {
            assert(first[back] == second[back]);
        }
        assert(false);
    }
}

proof fn lemma_one_way_from(first: Seq<char>, second: Seq<char>, at: int)
    requires
        0 <= at <= first.len(),
        at <= second.len(),
        forall|i: int| 0 <= i < at ==> first[i] == second[i],
    ensures
        in_walk_order(first, second) || in_walk_order(second, first),
    decreases first.len() - at,
{
    if at == first.len() {
        if at == second.len() {
            assert(first =~= second);
        } else {
            assert(parts_at(first, second, at));
        }
    } else if at == second.len() {
        assert(parts_at(second, first, at));
    } else if first[at] == second[at] {
        lemma_one_way_from(first, second, at + 1);
    } else if rank(first[at]) < rank(second[at]) {
        assert(parts_at(first, second, at));
    } else {
        lemma_rank_tells_apart(first[at], second[at]);
        assert(parts_at(second, first, at));
    }
}

proof fn lemma_order_chains(first: Seq<char>, second: Seq<char>, third: Seq<char>)
    requires
        in_walk_order(first, second),
        in_walk_order(second, third),
    ensures
        in_walk_order(first, third),
{
    if first != second && second != third {
        let a = choose|a: int| parts_at(first, second, a);
        let b = choose|b: int| parts_at(second, third, b);
        if a <= b {
            if a < b {
                assert(second[a] == third[a]);
            }
            assert(parts_at(first, third, a));
        } else {
            assert(first[b] == second[b]);
            assert(parts_at(first, third, b));
        }
    }
}

/// The walk order is a total order on paths: of two different paths exactly
/// one comes first, and the order of three paths follows from that of two
/// pairs.
pub proof fn walk_order_is_total()
    ensures
        total_ordering(walk_order()),
{
    let order = walk_order();
    assert forall|x: Seq<char>, y: Seq<char>| #[trigger] order(x, y) && #[trigger] order(y, x) implies x
        == y by {
        if precedes(x, y) {
            lemma_never_both_ways(x, y);
        }
    }
    assert forall|x: Seq<char>, y: Seq<char>, z: Seq<char>| #[trigger]
        order(x, y) && #[trigger] order(y, z) implies order(x, z) by {
        lemma_order_chains(x, y, z);
    }
    assert forall|x: Seq<char>, y: Seq<char>| #[trigger] order(x, y) || #[trigger] order(y, x) by {
        lemma_one_way_from(x, y, 0);
    }
}

/// The plan holds exactly the definition files of the listing, each as often
/// as the listing names it, and holds them in walk order.
pub proof fn plan_is_sorted_selection(listing: Seq<Seq<char>>, extension: Seq<char>)
    ensures
        sorted_by(plan_of(listing, extension), walk_order()),
        plan_of(listing, extension).to_multiset() == definition_files(
            listing,
            extension,
        ).to_multiset(),
{
    walk_order_is_total();
    definition_files(listing, extension).lemma_sort_by_ensures(walk_order());
}

/// The plan does not depend on the order in which the workspace was listed.
pub proof fn plan_ignores_listing_order(
    first: Seq<Seq<char>>,
    second: Seq<Seq<char>>,
    extension: Seq<char>,
)
    requires
        definition_files(first, extension).to_multiset() == definition_files(
            second,
            extension,
        ).to_multiset(),
    ensures
        plan_of(first, extension) == plan_of(second, extension),
{
    walk_order_is_total();
    plan_is_sorted_selection(first, extension);
    plan_is_sorted_selection(second, extension);
    lemma_sorted_unique(plan_of(first, extension), plan_of(second, extension), walk_order());
}

/// The place of a character in the walk order.
fn rank_of(c: char) -> (out: u32)
    ensures
        out == rank(c),
{
    if c == '/' {
        0
    } else {
        c as u32 + 1
    }
}

/// Whether the walk reaches `first` before `second`.
pub fn path_precedes(first: &str, second: &str) -> (out: bool)
    ensures
        out == precedes(first@, second@),
{
    let a = chars_of(first);
    let b = chars_of(second);
    let mut at: usize = 0;
    while at < a.len() && at < b.len()
        invariant
            a@ == first@,
            b@ == second@,
            at <= a.len(),
            at <= b.len(),
            forall|i: int| 0 <= i < at ==> a@[i] == b@[i],
        decreases a.len() - at,
    {
        if a[at] != b[at] {
            let before = rank_of(a[at]) < rank_of(b[at]);
            proof {
                if before {
                    assert(parts_at(first@, second@, at as int));
                } else {
                    lemma_rank_tells_apart(first@[at as int], second@[at as int]);
                    assert(parts_at(second@, first@, at as int));
                    lemma_never_both_ways(second@, first@);
                }
            }
            return before;
        }
        at = at + 1;
    }
    let before = at < b.len();
    proof {
        if before {
            assert(parts_at(first@, second@, at as int));
        } else if at < a.len() {
            assert(parts_at(second@, first@, at as int));
            lemma_never_both_ways(second@, first@);
        } else {
            assert(first@ =~= second@);
            if precedes(first@, second@) {
                lemma_never_both_ways(first@, second@);
            }
        }
    }
    before
}

/// Whether the file at `path` has the extension `extension`.
pub fn is_definition_file(path: &str, extension: &str) -> (out: bool)
    ensures
        out == has_extension(path@, extension@),
{
    let name = chars_of(path);
    let wanted = chars_of(extension);
    if name.len() < 2 || wanted.len() > name.len() - 2 {
        return false;
    }
    let stem: usize = name.len() - wanted.len() - 1;
    if name[stem - 1] == '/' || name[stem] != '.' {
        return false;
    }
    let mut i: usize = 0;
    while i < wanted.len()
        invariant
            name@ == path@,
            wanted@ == extension@,
            stem + 1 + wanted.len() == name.len(),
            i <= wanted.len(),
            forall|k: int| 0 <= k < i ==> name@[stem + 1 + k] == wanted@[k],
            forall|k: int| 0 <= k < i ==> wanted@[k] != '.' && wanted@[k] != '/',
        decreases wanted.len() - i,
    {
        let c = wanted[i];
        if c == '.' || c == '/' {
            return false;
        }
        if name[stem + 1 + i] != c {
            assert(path@.subrange(stem + 1, path@.len() as int)[i as int] != extension@[i as int]);
            return false;
        }
        i = i + 1;
    }
    assert(path@.subrange(stem + 1, path@.len() as int) =~= extension@);
    true
}

/// The files of `listing` to load, in the order in which they are loaded:
/// the definition files, sorted by the walk order.
pub fn plan_ingestion(listing: &Vec<String>, extension: &str) -> (plan: Vec<String>)
    ensures
        texts(plan@) == plan_of(texts(listing@), extension@),
{
    let ghost wanted = |path: Seq<char>| has_extension(path, extension@);
    let mut plan: Vec<String> = Vec::new();
    let mut i: usize = 0;
    proof {
        assert(texts(listing@).subrange(0, 0) =~= Seq::<Seq<char>>::empty());
        assert(Seq::<Seq<char>>::empty().filter(wanted) =~= Seq::<Seq<char>>::empty()) by {
            Seq::<Seq<char>>::empty().lemma_filter_len(wanted);
        }
        assert(texts(plan@) =~= Seq::<Seq<char>>::empty());
    }
    while i < listing.len()
        invariant
            i <= listing.len(),
            wanted == |path: Seq<char>| has_extension(path, extension@),
            sorted_by(texts(plan@), walk_order()),
            texts(plan@).to_multiset() == texts(listing@).subrange(0, i as int).filter(
                wanted,
            ).to_multiset(),
        decreases listing.len() - i,
    {
        let ghost seen = texts(listing@).subrange(0, i as int);
        let ghost path = listing@[i as int]@;
        proof {
            assert(texts(listing@).subrange(0, i + 1) =~= seen.push(path));
            seen.lemma_filter_push(path, wanted);
        }
        if is_definition_file(listing[i].as_str(), extension) {
            let mut at: usize = plan.len();
            while at > 0 && path_precedes(listing[i].as_str(), plan[at - 1].as_str())
                invariant
                    i < listing.len(),
                    path == listing@[i as int]@,
                    at <= plan.len(),
                    forall|k: int| at <= k < plan.len() ==> precedes(path, #[trigger] plan@[k]@),
                decreases at,
            {
                at = at - 1;
            }
            let ghost before = texts(plan@);
            proof {
                walk_order_is_total();
                assert forall|k: int| 0 <= k < at implies in_walk_order(
                    #[trigger] before[k],
                    path,
                ) by {
                    lemma_one_way_from(before[at - 1], path, 0);
                    if in_walk_order(path, before[at - 1]) && path != before[at - 1] {
                        assert(precedes(path, plan@[at - 1]@));
                    }
                    assert(in_walk_order(before[at - 1], path));
                    if k < at - 1 {
                        assert(walk_order()(before[k], before[at - 1]));
                        lemma_order_chains(before[k], before[at - 1], path);
                    }
                }
            }
            plan.insert(at, listing[i].clone());
            proof {
                let after = texts(plan@);
                assert(after =~= before.insert(at as int, path));
                to_multiset_insert(before, at as int, path);
                vstd::seq_lib::to_multiset_build(seen.filter(wanted), path);
                assert forall|x: int, y: int| 0 <= x < y < after.len() implies #[trigger] walk_order()(
                    after[x],
                    after[y],
                ) by {
                    if y < at {
                        assert(walk_order()(before[x], before[y]));
                    } else if y == at {
                        assert(in_walk_order(before[x], path));
                    } else if x < at {
                        assert(walk_order()(before[x], before[y - 1]));
                    } else if x == at {
                        assert(precedes(path, plan@[y]@));
                        assert(after[y] == before[y - 1]);
                    } else {
                        assert(walk_order()(before[x - 1], before[y - 1]));
                    }
                }
            }
        }
        i = i + 1;
    }
    proof {
        assert(texts(listing@).subrange(0, i as int) =~= texts(listing@));
        walk_order_is_total();
        plan_is_sorted_selection(texts(listing@), extension@);
        lemma_sorted_unique(texts(plan@), plan_of(texts(listing@), extension@), walk_order());
    }
    plan
}

} // verus!
