//! Where the pipeline keeps its files below the renderer's base directory.

use crate::text::{chars_of, decimal, matches_at, occurs_at, push_decimal, string_of};
use vstd::prelude::*;

verus! {

/// The archive of mapset `id`: `{base}/Songs/{id}.osz`.
pub open spec fn mapset_archive(base: Seq<char>, id: u32) -> Seq<char> {
    base + "/Songs/"@ + decimal(id as nat) + ".osz"@
}

/// The directory an archive of mapset `id` is unpacked to:
/// `{base}/Songs/{id}`.
pub open spec fn mapset_dir(base: Seq<char>, id: u32) -> Seq<char> {
    base + "/Songs/"@ + decimal(id as nat)
}

/// The directory of the replays of one beatmap: `{base}/Replays/{hash}`.
pub open spec fn replay_dir(base: Seq<char>, beatmap_hash: Seq<char>) -> Seq<char> {
    base + "/Replays/"@ + beatmap_hash
}

/// The file of one replay: `{base}/Replays/{hash}/{reference}.osr`.
pub open spec fn replay_file(
    base: Seq<char>,
    beatmap_hash: Seq<char>,
    reference: Seq<char>,
) -> Seq<char> {
    replay_dir(base, beatmap_hash) + "/"@ + reference + ".osr"@
}

/// The directory of the skin of one user: `{base}/Skins/{user}`.
pub open spec fn skin_dir(base: Seq<char>, user: u32) -> Seq<char> {
    base + "/Skins/"@ + decimal(user as nat)
}

/// The directory the renderer writes its videos to: `{base}/videos`.
pub open spec fn videos_dir(base: Seq<char>) -> Seq<char> {
    base + "/videos"@
}

/// The index of the last `c` in `s`.
pub open spec fn last_index_of(s: Seq<char>, c: char) -> Option<int>
    decreases s.len(),
{
    if s.len() == 0 {
        None
    } else if s.last() == c {
        Some(s.len() - 1)
    } else {
        last_index_of(s.drop_last(), c)
    }
}

/// What stands before the last slash of `path`; `None` where there is no
/// slash or nothing before it.
pub open spec fn parent(path: Seq<char>) -> Option<Seq<char>> {
    match last_index_of(path, '/') {
        Some(at) => if at > 0 {
            Some(path.subrange(0, at))
        } else {
            None
        },
        None => None,
    }
}

/// The file of the database at `url`: what follows `sqlite://`. `None` for
/// an address that does not start so.
pub open spec fn database_file(url: Seq<char>) -> Option<Seq<char>> {
    let scheme = "sqlite://"@;
    if occurs_at(url, scheme, 0) {
        Some(url.subrange(scheme.len() as int, url.len() as int))
    } else {
        None
    }
}

/// The path of the file of the database at `url`.
pub fn database_file_path(url: &str) -> (path: Option<String>)
    ensures
        match path {
            Some(p) => database_file(url@) == Some(p@),
            None => database_file(url@) is None,
        },
{
    let chars = chars_of(url);
    let scheme = chars_of("sqlite://");
    if matches_at(&chars, &scheme, 0) {
        Some(string_of(&chars, scheme.len(), chars.len()))
    } else {
        None
    }
}

/// The path of the archive of mapset `id`.
pub fn mapset_archive_path(base: &str, id: u32) -> (path: String)
    ensures
        path@ == mapset_archive(base@, id),
{
    let mut path = String::from_str(base);
    path.append("/Songs/");
    push_decimal(&mut path, id as u64);
    path.append(".osz");
    path
}

/// The path of the directory an archive of mapset `id` is unpacked to.
pub fn mapset_dir_path(base: &str, id: u32) -> (path: String)
    ensures
        path@ == mapset_dir(base@, id),
{
    let mut path = String::from_str(base);
    path.append("/Songs/");
    push_decimal(&mut path, id as u64);
    path
}

/// The path of the directory of the replays of one beatmap.
pub fn replay_dir_path(base: &str, beatmap_hash: &str) -> (path: String)
    ensures
        path@ == replay_dir(base@, beatmap_hash@),
{
    let mut path = String::from_str(base);
    path.append("/Replays/");
    path.append(beatmap_hash);
    path
}

/// The path of the file of one replay.
pub fn replay_file_path(base: &str, beatmap_hash: &str, reference: &str) -> (path: String)
    ensures
        path@ == replay_file(base@, beatmap_hash@, reference@),
{
    let mut path = replay_dir_path(base, beatmap_hash);
    path.append("/");
    path.append(reference);
    path.append(".osr");
    path
}

/// The path of the directory of the skin of one user.
pub fn skin_dir_path(base: &str, user: u32) -> (path: String)
    ensures
        path@ == skin_dir(base@, user),
{
    let mut path = String::from_str(base);
    path.append("/Skins/");
    push_decimal(&mut path, user as u64);
    path
}

/// The path of the directory the renderer writes its videos to.
pub fn videos_dir_path(base: &str) -> (path: String)
    ensures
        path@ == videos_dir(base@),
{
    let mut path = String::from_str(base);
    path.append("/videos");
    path
}

/// The directory that holds `path`.
pub fn parent_path(path: &str) -> (dir: Option<String>)
    ensures
        match dir {
            Some(d) => parent(path@) == Some(d@),
            None => parent(path@) is None,
        },
{
    let chars = chars_of(path);
    let mut i: usize = chars.len();
    assert(chars@.subrange(0, i as int) =~= chars@);
    while i > 0 && chars[i - 1] != '/'
        invariant
            i <= chars.len(),
            last_index_of(chars@, '/') == last_index_of(chars@.subrange(0, i as int), '/'),
        decreases i,
    {
        assert(chars@.subrange(0, i as int).drop_last() =~= chars@.subrange(0, i - 1));
        i -= 1;
    }
    if i > 1 {
        Some(string_of(&chars, 0, i - 1))
    } else {
        None
    }
}

} // verus!
