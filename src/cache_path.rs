//! Where a persisted artifact lives.

use vstd::prelude::*;

verus! {

/// Name of the file that holds the artifact with the given key.
pub open spec fn cache_file_name(key: Seq<char>) -> Seq<char> {
    "cachefile-"@ + key
}

/// A separator is placed between the directory and the file name unless the
/// directory is empty or already ends in `/`.
pub open spec fn needs_separator(dir: Seq<char>) -> bool {
    dir.len() > 0 && dir.last() != '/'
}

/// Full path of the artifact with key `key` in the cache directory `dir`.
pub open spec fn cache_file_path_of(dir: Seq<char>, key: Seq<char>) -> Seq<char> {
    if needs_separator(dir) {
        dir + "/"@ + cache_file_name(key)
    } else {
        dir + cache_file_name(key)
    }
}

/// The path `<dir>/cachefile-<key>`.
pub fn cache_file_path(dir: &str, key: &str) -> (r: String)
    ensures
        r@ == cache_file_path_of(dir@, key@),
{
    let mut r = String::from_str(dir);
    let n = dir.unicode_len();
    if n > 0 && dir.get_char(n - 1) != '/' {
        r.append("/");
    }
    r.append("cachefile-");
    r.append(key);
    r
}

/// The file name is the last part of the path, and the key is its suffix:
/// the key of an artifact can be read back from where it was persisted.
pub proof fn lemma_path_ends_with_key(dir: Seq<char>, key: Seq<char>)
    ensures
        cache_file_path_of(dir, key).len() >= cache_file_name(key).len(),
        cache_file_path_of(dir, key).subrange(
            cache_file_path_of(dir, key).len() - cache_file_name(key).len(),
            cache_file_path_of(dir, key).len() as int,
        ) == cache_file_name(key),
        cache_file_path_of(dir, key).subrange(
            cache_file_path_of(dir, key).len() - key.len(),
            cache_file_path_of(dir, key).len() as int,
        ) == key,
{
    let p = cache_file_path_of(dir, key);
    let pre = if needs_separator(dir) { dir + "/"@ } else { dir };
    assert(p == pre + cache_file_name(key));
    assert(p.subrange(pre.len() as int, p.len() as int) =~= cache_file_name(key));
    assert(p == (pre + "cachefile-"@) + key);
    assert(p.subrange((pre + "cachefile-"@).len() as int, p.len() as int) =~= key);
}

} // verus!
