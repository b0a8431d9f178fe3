//! Finding the video a render left behind when it did not say where.
//!
//! The output directory is listed by the caller; this module chooses among
//! the entries. Times are nanoseconds since the Unix epoch.

use crate::text::{chars_of, eq_ignoring_ascii_case, matches_at, occurs_at, tail_eq_ignoring_case};
use vstd::prelude::*;

verus! {

/// One file of the renderer's output directory.
#[derive(Debug, PartialEq, Eq)]
pub struct FileEntry {
    /// Full path of the file.
    pub path: String,
    /// The last component of the path.
    pub name: String,
    /// When the file was last modified.
    pub modified: u64,
    /// Length of the file in bytes.
    pub size: u64,
}

/// What a file must have to count as a finished render.
#[derive(Debug, PartialEq, Eq)]
pub struct LocatorConfig {
    /// How the file's name must start.
    pub prefix: String,
    /// The file's extension, without the dot; case of ASCII letters is
    /// ignored.
    pub extension: String,
    /// How long before the start of the run a file may have been modified.
    pub slack: u64,
    /// The least length in bytes.
    pub min_size: u64,
}

/// Ten seconds.
pub const DEFAULT_SLACK: u64 = 10_000_000_000;

/// One mebibyte.
pub const DEFAULT_MIN_SIZE: u64 = 1_048_576;

impl LocatorConfig {
    /// Names `danser_*.mp4`, at most ten seconds older than the run, of at
    /// least one mebibyte.
    pub fn standard() -> (cfg: LocatorConfig)
        ensures
            cfg.prefix@ == "danser_"@,
            cfg.extension@ == "mp4"@,
            cfg.slack == DEFAULT_SLACK,
            cfg.min_size == DEFAULT_MIN_SIZE,
    {
        LocatorConfig {
            prefix: String::from_str("danser_"),
            extension: String::from_str("mp4"),
            slack: DEFAULT_SLACK,
            min_size: DEFAULT_MIN_SIZE,
        }
    }
}

/// Whether `name` ends in a dot and `extension`, with at least one character
/// before the dot.
pub open spec fn has_extension(name: Seq<char>, extension: Seq<char>) -> bool {
    &&& name.len() > extension.len() + 1
    &&& name[name.len() - extension.len() - 1] == '.'
    &&& eq_ignoring_ascii_case(
        name.subrange(name.len() - extension.len(), name.len() as int),
        extension,
    )
}

/// Whether `file` counts as a finished render of a run started at
/// `started_at`.
pub open spec fn qualifies(file: FileEntry, started_at: u64, cfg: LocatorConfig) -> bool {
    &&& has_extension(file.name@, cfg.extension@)
    &&& occurs_at(file.name@, cfg.prefix@, 0)
    &&& file.modified >= started_at - cfg.slack
    &&& file.size >= cfg.min_size
}

/// Whether `a` is to be preferred to `b`: modified later, or at the same
/// time and larger.
pub open spec fn preferred(a: FileEntry, b: FileEntry) -> bool {
    a.modified > b.modified || (a.modified == b.modified && a.size > b.size)
}

/// Whether entry `i` is the one to choose: it qualifies, no qualifying entry
/// is preferred to it, and it is preferred to every qualifying entry
/// before it.
pub open spec fn is_choice(
    entries: Seq<FileEntry>,
    started_at: u64,
    cfg: LocatorConfig,
    i: int,
) -> bool {
    &&& 0 <= i < entries.len()
    &&& qualifies(entries[i], started_at, cfg)
    &&& forall|j: int|
        0 <= j < entries.len() && qualifies(#[trigger] entries[j], started_at, cfg) ==> (
        !preferred(entries[j], entries[i]) && (j < i ==> preferred(entries[i], entries[j])))
}

/// The index of the entry to choose, if any entry qualifies.
pub open spec fn choice(entries: Seq<FileEntry>, started_at: u64, cfg: LocatorConfig) -> Option<
    int,
> {
    if exists|i: int| is_choice(entries, started_at, cfg, i) {
        Some(choose|i: int| is_choice(entries, started_at, cfg, i))
    } else {
        None
    }
}

/// The path of the entry to choose, if any entry qualifies.
pub open spec fn chosen_path(
    entries: Seq<FileEntry>,
    started_at: u64,
    cfg: LocatorConfig,
) -> Option<Seq<char>> {
    match choice(entries, started_at, cfg) {
        Some(i) => Some(entries[i].path@),
        None => None,
    }
}

/// At most one entry is the one to choose.
pub proof fn lemma_choice_unique(
    entries: Seq<FileEntry>,
    started_at: u64,
    cfg: LocatorConfig,
    i: int,
    k: int,
)
    requires
        is_choice(entries, started_at, cfg, i),
        is_choice(entries, started_at, cfg, k),
    ensures
        i == k,
{
    if i < k {
        assert(preferred(entries[k], entries[i]));
        assert(!preferred(entries[k], entries[i]));
    } else if k < i {
        assert(preferred(entries[i], entries[k]));
        assert(!preferred(entries[i], entries[k]));
    }
}

/// An entry is chosen exactly when some entry qualifies.
pub proof fn lemma_choice_exists(entries: Seq<FileEntry>, started_at: u64, cfg: LocatorConfig)
    ensures
        choice(entries, started_at, cfg) is Some <==> exists|j: int|
            0 <= j < entries.len() && qualifies(#[trigger] entries[j], started_at, cfg),
        choice(entries, started_at, cfg) matches Some(i) ==> is_choice(entries, started_at, cfg, i),
    decreases entries.len(),
{
    if entries.len() > 0 {
        let front = entries.drop_last();
        let last = entries.len() - 1;
        lemma_choice_exists(front, started_at, cfg);
        assert forall|j: int| 0 <= j < front.len() implies front[j] == entries[j] by {}
        match choice(front, started_at, cfg) {
            Some(b) => {
                if qualifies(entries[last], started_at, cfg) && preferred(
                    entries[last],
                    entries[b],
                ) {
                    assert forall|j: int|
                        0 <= j < entries.len() && qualifies(
                            #[trigger] entries[j],
                            started_at,
                            cfg,
                        ) implies (!preferred(entries[j], entries[last]) && (j < last
                        ==> preferred(entries[last], entries[j]))) by {
                        if j < last {
                            assert(qualifies(front[j], started_at, cfg));
                        }
                    }
                    assert(is_choice(entries, started_at, cfg, last));
                } else {
                    assert forall|j: int|
                        0 <= j < entries.len() && qualifies(
                            #[trigger] entries[j],
                            started_at,
                            cfg,
                        ) implies (!preferred(entries[j], entries[b]) && (j < b ==> preferred(
                        entries[b],
                        entries[j],
                    ))) by {
                        if j < last {
                            assert(qualifies(front[j], started_at, cfg));
                        }
                    }
                    assert(is_choice(entries, started_at, cfg, b));
                }
            },
            None => {
                if qualifies(entries[last], started_at, cfg) {
                    assert forall|j: int|
                        0 <= j < entries.len() && qualifies(
                            #[trigger] entries[j],
                            started_at,
                            cfg,
                        ) implies j == last by {
                        if j < last {
                            assert(qualifies(front[j], started_at, cfg));
                        }
                    }
                    assert(is_choice(entries, started_at, cfg, last));
                } else {
                    assert forall|j: int| 0 <= j < entries.len() implies !qualifies(
                        #[trigger] entries[j],
                        started_at,
                        cfg,
                    ) by {
                        if j < last {
                            assert(qualifies(front[j], started_at, cfg) == qualifies(
                                entries[j],
                                started_at,
                                cfg,
                            ));
                        }
                    }
                }
            },
        }
    }
}

/// Whether `name` has the extension `extension`.
pub fn name_has_extension(name: &Vec<char>, extension: &Vec<char>) -> (b: bool)
    ensures
        b == has_extension(name@, extension@),
{
    if name.len() <= extension.len() || name.len() - extension.len() < 2 {
        return false;
    }
    let dot: usize = name.len() - extension.len() - 1;
    if name[dot] != '.' {
        return false;
    }
    tail_eq_ignoring_case(name, dot + 1, extension)
}

/// Whether `file` counts as a finished render of a run started at
/// `started_at`.
pub fn entry_qualifies(file: &FileEntry, started_at: u64, cfg: &LocatorConfig) -> (b: bool)
    ensures
        b == qualifies(*file, started_at, *cfg),
{
    let name = chars_of(file.name.as_str());
    let extension = chars_of(cfg.extension.as_str());
    let prefix = chars_of(cfg.prefix.as_str());
    let fresh = started_at < cfg.slack || file.modified >= started_at - cfg.slack;
    name_has_extension(&name, &extension) && matches_at(&name, &prefix, 0) && fresh && file.size
        >= cfg.min_size
}

/// Chooses, among the files of the output directory, the video of a run
/// started at `started_at`: the qualifying file modified last, the larger
/// one of two modified at the same time, the earlier entry of two that are
/// equal in both. `None` if no file qualifies.
pub fn fallback_latest_rendered_video(
    entries: &Vec<FileEntry>,
    started_at: u64,
    cfg: &LocatorConfig,
) -> (path: Option<String>)
    ensures
        path.is_some() <==> exists|j: int|
            0 <= j < entries.len() && qualifies(#[trigger] entries[j], started_at, *cfg),
        match path {
            Some(p) => chosen_path(entries@, started_at, *cfg) == Some(p@),
            None => chosen_path(entries@, started_at, *cfg) is None,
        },
{
    let mut best: Option<usize> = None;
    let mut i: usize = 0;
    while i < entries.len()
        invariant
            i <= entries.len(),
            match best {
                Some(b) => b < i && is_choice(entries@.subrange(0, i as int), started_at, *cfg, b as int),
                None => forall|j: int|
                    0 <= j < i ==> !qualifies(#[trigger] entries[j], started_at, *cfg),
            },
        decreases entries.len() - i,
    {
        let ghost before = entries@.subrange(0, i as int);
        let ghost after = entries@.subrange(0, i + 1);
        assert forall|j: int| 0 <= j < i implies before[j] == entries[j] && after[j]
            == entries[j] by {}
        assert(after[i as int] == entries[i as int]);
        let file = &entries[i];
        if entry_qualifies(file, started_at, cfg) {
            match best {
                None => {
                    best = Some(i);
                    assert(is_choice(after, started_at, *cfg, i as int));
                },
                Some(b) => {
                    let held = &entries[b];
                    if file.modified > held.modified || (file.modified == held.modified
                        && file.size > held.size) {
                        best = Some(i);
                        assert forall|j: int|
                            0 <= j < after.len() && qualifies(
                                #[trigger] after[j],
                                started_at,
                                *cfg,
                            ) implies (!preferred(after[j], after[i as int]) && (j < i
                            ==> preferred(after[i as int], after[j]))) by {
                            if j < i {
                                assert(qualifies(before[j], started_at, *cfg));
                            }
                        }
                        assert(is_choice(after, started_at, *cfg, i as int));
                    } else {
                        assert forall|j: int|
                            0 <= j < after.len() && qualifies(
                                #[trigger] after[j],
                                started_at,
                                *cfg,
                            ) implies (!preferred(after[j], after[b as int]) && (j < b
                            ==> preferred(after[b as int], after[j]))) by {
                            if j < i {
                                assert(qualifies(before[j], started_at, *cfg));
                            }
                        }
                        assert(is_choice(after, started_at, *cfg, b as int));
                    }
                },
            }
        } else {
            match best {
                None => {},
                Some(b) => {
                    assert forall|j: int|
                        0 <= j < after.len() && qualifies(
                            #[trigger] after[j],
                            started_at,
                            *cfg,
                        ) implies (!preferred(after[j], after[b as int]) && (j < b
                        ==> preferred(after[b as int], after[j]))) by {
                        if j < i {
                            assert(qualifies(before[j], started_at, *cfg));
                        }
                    }
                    assert(is_choice(after, started_at, *cfg, b as int));
                },
            }
        }
        i += 1;
    }
    assert(entries@.subrange(0, i as int) =~= entries@);
    match best {
        Some(b) => {
            proof {
                let c = choose|k: int| is_choice(entries@, started_at, *cfg, k);
                lemma_choice_unique(entries@, started_at, *cfg, b as int, c);
            }
            Some(entries[b].path.clone())
        },
        None => {
            assert forall|k: int| !is_choice(entries@, started_at, *cfg, k) by {}
            None
        },
    }
}

} // verus!
