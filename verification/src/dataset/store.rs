//! Where the cache keeps its stores.
//!
//! A store lies at a path made from the cache directory and the key alone, so
//! that a file at that path is all the cache needs to know. A store that is
//! still being written lies at a staging path, which is never the path of a
//! finished store.

use vstd::prelude::*;
use crate::text::{joined, same_text, texts};
use vstd::string::StringExecFns;

verus! {

/// The cache directory below the application's cache directory.
pub open spec fn cache_dir_of(app_cache_dir: Seq<char>) -> Seq<char> {
    app_cache_dir + "/database"@
}

/// The path of the store that the cache keeps under `key`.
pub open spec fn store_path(cache_dir: Seq<char>, key: Seq<char>) -> Seq<char> {
    cache_dir + "/"@ + key + ".store"@
}

/// The path at which the load tagged `tag` writes the store of `identifier`
/// until the store is complete.
pub open spec fn staging_path_of(cache_dir: Seq<char>, identifier: Seq<char>, tag: Seq<char>) -> Seq<
    char,
> {
    cache_dir + "/"@ + tag + "-"@ + identifier + ".partial"@
}

/// The cache directory below the application's cache directory.
pub fn cache_dir(app_cache_dir: &str) -> (out: String)
    ensures
        out@ == cache_dir_of(app_cache_dir@),
{
    joined(app_cache_dir, "/database")
}

/// The path of the store that the cache keeps under `identifier`.
pub fn path_for(cache_dir: &str, identifier: &str) -> (out: String)
    ensures
        out@ == store_path(cache_dir@, identifier@),
{
    let mut out = joined(cache_dir, "/");
    out.append(identifier);
    out.append(".store");
    out
}

/// The path of the store that the cache keeps under `key`, if it keeps one:
/// `files` are the paths of the files in the cache directory. The key may be
/// a reference as it was given or an identifier; both are looked up alike.
pub fn lookup(cache_dir: &str, files: &Vec<String>, key: &str) -> (out: Option<String>)
    ensures
        match out {
            Some(path) => path@ == store_path(cache_dir@, key@) && texts(files@).contains(path@),
            None => !texts(files@).contains(store_path(cache_dir@, key@)),
        },
{
    let path = path_for(cache_dir, key);
    let mut i: usize = 0;
    while i < files.len()
        invariant
            i <= files.len(),
            path@ == store_path(cache_dir@, key@),
            forall|k: int| 0 <= k < i ==> #[trigger] texts(files@)[k] != path@,
        decreases files.len() - i,
    {
        if same_text(files[i].as_str(), path.as_str()) {
            assert(texts(files@)[i as int] == path@);
            return Some(path);
        }
        i = i + 1;
    }
    None
}

/// The path at which the load tagged `tag` writes the store of `identifier`
/// until the store is complete.
pub fn staging_path(cache_dir: &str, identifier: &str, tag: &str) -> (out: String)
    ensures
        out@ == staging_path_of(cache_dir@, identifier@, tag@),
{
    let mut out = joined(cache_dir, "/");
    out.append(tag);
    out.append("-");
    out.append(identifier);
    out.append(".partial");
    out
}

/// In one cache directory two keys share a store only if they are the same
/// key.
pub proof fn store_paths_are_distinct(cache_dir: Seq<char>, first: Seq<char>, second: Seq<char>)
    ensures
        store_path(cache_dir, first) == store_path(cache_dir, second) <==> first == second,
{
    reveal_strlit("/");
    reveal_strlit(".store");
    if store_path(cache_dir, first) == store_path(cache_dir, second) {
        let left = store_path(cache_dir, first);
        let right = store_path(cache_dir, second);
        let skip = cache_dir.len() + 1;
        assert(left.len() == skip + first.len() + 6);
        assert(right.len() == skip + second.len() + 6);
        assert forall|i: int| 0 <= i < first.len() implies first[i] == second[i] by {
            assert(left[skip + i] == first[i]);
            assert(right[skip + i] == second[i]);
        }
        assert(first =~= second);
    }
}

/// Two loads of one identifier write at different places unless they carry
/// the same tag.
pub proof fn staging_paths_are_distinct(
    cache_dir: Seq<char>,
    identifier: Seq<char>,
    first: Seq<char>,
    second: Seq<char>,
)
    ensures
        staging_path_of(cache_dir, identifier, first) == staging_path_of(
            cache_dir,
            identifier,
            second,
        ) <==> first == second,
{
    reveal_strlit("/");
    reveal_strlit("-");
    reveal_strlit(".partial");
    let left = staging_path_of(cache_dir, identifier, first);
    let right = staging_path_of(cache_dir, identifier, second);
    if left == right {
        let skip = cache_dir.len() + 1;
        assert(left.len() == skip + first.len() + 1 + identifier.len() + 8);
        assert(right.len() == skip + second.len() + 1 + identifier.len() + 8);
        assert forall|i: int| 0 <= i < first.len() implies first[i] == second[i] by {
            assert(left[skip + i] == first[i]);
            assert(right[skip + i] == second[i]);
        }
        assert(first =~= second);
    }
}

/// A staging path is never the path of a store, whatever the keys and the tag:
/// a store that is still being written is not mistaken for a finished one.
pub proof fn staging_is_never_a_store(
    cache_dir: Seq<char>,
    identifier: Seq<char>,
    tag: Seq<char>,
    other_dir: Seq<char>,
    key: Seq<char>,
)
    ensures
        staging_path_of(cache_dir, identifier, tag) != store_path(other_dir, key),
{
    reveal_strlit("/");
    reveal_strlit("-");
    reveal_strlit(".store");
    reveal_strlit(".partial");
    let staging = staging_path_of(cache_dir, identifier, tag);
    let store = store_path(other_dir, key);
    assert(staging.last() == 'l');
    assert(store.last() == 'e');
}

} // verus!
