//! Making the skin of a user available to the renderer.
//!
//! A skin is an archive at a remote address. It is unpacked once into the
//! user's skin directory and used from there afterwards. The caller looks
//! at the disk, performs the request and unpacks; this module says what
//! comes next and whether the render uses the skin.

use crate::http::{is_success, status_is_success, Reply};
use crate::paths::{skin_dir, skin_dir_path};
use vstd::prelude::*;

verus! {

/// Whether `zip::ZipArchive::new` accepts a reader over exactly these bytes
/// as a ZIP container.
pub uninterp spec fn zip_container_opens(bytes: Seq<u8>) -> bool;

/// Calls `zip::ZipArchive::new` on a cursor over `bytes` and says whether it
/// returned an archive. The call reads the end-of-central-directory record
/// and the central directory from the bytes and nothing else, so its result
/// depends on the bytes alone; the contract gives that result its name.
#[verifier::external_body]
fn archive_opens(bytes: &Vec<u8>) -> (opens: bool)
    ensures
        opens == zip_container_opens(bytes@),
{
    zip::ZipArchive::new(std::io::Cursor::new(bytes.as_slice())).is_ok()
}

/// The skin of a user: who the user is and where the archive is.
#[derive(Debug, PartialEq, Eq)]
pub struct SkinReference {
    pub user: u32,
    pub url: String,
}

/// Why a skin could not be made available.
#[derive(Clone, Copy, Debug, PartialEq, Eq, Structural)]
pub enum SkinFailure {
    /// The archive could not be downloaded.
    Download,
    /// What was downloaded is no archive.
    Archive,
}

/// How the attempt to make a skin available ended.
#[derive(Clone, Copy, Debug, PartialEq, Eq, Structural)]
pub enum SkinOutcome {
    /// The user has no skin.
    NoSkin,
    /// The skin directory is there.
    Ready,
    /// The skin cannot be used; the render goes on without it.
    Failed(SkinFailure),
}

/// What the caller does next.
#[derive(Clone, Copy, Debug, PartialEq, Eq, Structural)]
pub enum SkinOp {
    /// Say whether the skin directory exists.
    CheckDirectory,
    /// Remove what may be left of the skin directory.
    RemoveStale,
    /// Request the archive, once.
    Fetch,
    /// Unpack the archive into the skin directory, entry by entry, going on
    /// after an entry that fails.
    Extract,
}

/// Where the attempt stands.
#[derive(Clone, Copy, Debug, PartialEq, Eq, Structural)]
pub enum SkinStage {
    /// The operation is under way; its result is awaited.
    Awaiting(SkinOp),
    /// The attempt is over.
    Finished(SkinOutcome),
}

/// One attempt to make the skin of a user available.
pub struct SkinMaterializer {
    /// The skin, where the user has one.
    pub skin: Option<SkinReference>,
    /// The skin directory of the user, where the user has a skin.
    pub directory: Option<String>,
    /// The archive, once it was downloaded and found to be one.
    pub archive: Option<Vec<u8>>,
    pub stage: SkinStage,
}

/// Whether the renderer is told to use the skin.
pub open spec fn uses_skin(outcome: SkinOutcome) -> bool {
    outcome is Ready
}

/// The stage that follows a download whose archive opens as a container or
/// does not.
pub open spec fn stage_after_check(opens: bool) -> SkinStage {
    if opens {
        SkinStage::Awaiting(SkinOp::Extract)
    } else {
        SkinStage::Finished(SkinOutcome::Failed(SkinFailure::Archive))
    }
}

/// The stage that follows the reply to the request for the archive.
pub open spec fn stage_after_fetch(reply: Reply) -> SkinStage {
    match reply {
        Reply::Response { status, body } => if is_success(status) {
            stage_after_check(zip_container_opens(body@))
        } else {
            SkinStage::Finished(SkinOutcome::Failed(SkinFailure::Download))
        },
        Reply::Transport { .. } => SkinStage::Finished(SkinOutcome::Failed(SkinFailure::Download)),
    }
}

/// Decides what follows the check of a downloaded archive.
pub fn after_archive_check(opens: bool) -> (stage: SkinStage)
    ensures
        stage == stage_after_check(opens),
{
    if opens {
        SkinStage::Awaiting(SkinOp::Extract)
    } else {
        SkinStage::Finished(SkinOutcome::Failed(SkinFailure::Archive))
    }
}

impl SkinMaterializer {
    /// An attempt for `skin` below the base directory `base`. Without a
    /// skin there is nothing to do; with one, the skin directory is looked
    /// for first.
    pub fn new(base: &str, skin: Option<SkinReference>) -> (m: SkinMaterializer)
        ensures
            m.skin == skin,
            m.archive is None,
            match skin {
                Some(s) => {
                    &&& m.stage == SkinStage::Awaiting(SkinOp::CheckDirectory)
                    &&& m.directory matches Some(d) && d@ == skin_dir(base@, s.user)
                },
                None => m.stage == SkinStage::Finished(SkinOutcome::NoSkin) && m.directory is None,
            },
    {
        let (directory, stage) = match &skin {
            Some(s) => (
                Some(skin_dir_path(base, s.user)),
                SkinStage::Awaiting(SkinOp::CheckDirectory),
            ),
            None => (None, SkinStage::Finished(SkinOutcome::NoSkin)),
        };
        SkinMaterializer { skin, directory, archive: None, stage }
    }

    /// The operation to perform now, if the attempt is not over.
    pub fn pending(&self) -> (op: Option<SkinOp>)
        ensures
            match self.stage {
                SkinStage::Awaiting(o) => op == Some(o),
                SkinStage::Finished(_) => op is None,
            },
    {
        match self.stage {
            SkinStage::Awaiting(o) => Some(o),
            SkinStage::Finished(_) => None,
        }
    }

    /// How the attempt ended, if it is over.
    pub fn outcome(&self) -> (outcome: Option<SkinOutcome>)
        ensures
            match self.stage {
                SkinStage::Awaiting(_) => outcome is None,
                SkinStage::Finished(o) => outcome == Some(o),
            },
    {
        match self.stage {
            SkinStage::Awaiting(_) => None,
            SkinStage::Finished(o) => Some(o),
        }
    }

    /// The skin directory exists or does not. Where it exists the skin is
    /// ready and no request is made; otherwise what is left of it is
    /// removed first.
    pub fn on_directory_checked(&mut self, exists: bool)
        ensures
            final(self).skin == old(self).skin,
            final(self).directory == old(self).directory,
            final(self).archive == old(self).archive,
            final(self).stage == if old(self).stage == SkinStage::Awaiting(SkinOp::CheckDirectory) {
                if exists {
                    SkinStage::Finished(SkinOutcome::Ready)
                } else {
                    SkinStage::Awaiting(SkinOp::RemoveStale)
                }
            } else {
                old(self).stage
            },
    {
        match self.stage {
            SkinStage::Awaiting(SkinOp::CheckDirectory) => {
                self.stage = if exists {
                    SkinStage::Finished(SkinOutcome::Ready)
                } else {
                    SkinStage::Awaiting(SkinOp::RemoveStale)
                };
            },
            _ => {},
        }
    }

    /// What was left of the skin directory has been removed, or could not
    /// be: the archive is requested either way.
    pub fn on_stale_removed(&mut self)
        ensures
            final(self).skin == old(self).skin,
            final(self).directory == old(self).directory,
            final(self).archive == old(self).archive,
            final(self).stage == if old(self).stage == SkinStage::Awaiting(SkinOp::RemoveStale) {
                SkinStage::Awaiting(SkinOp::Fetch)
            } else {
                old(self).stage
            },
    {
        match self.stage {
            SkinStage::Awaiting(SkinOp::RemoveStale) => {
                self.stage = SkinStage::Awaiting(SkinOp::Fetch);
            },
            _ => {},
        }
    }

    /// The request for the archive was answered by `reply`. Anything but a
    /// response of success ends the attempt as failed, and so does a body
    /// that does not open as a container; a body that does is kept and is
    /// to be unpacked.
    pub fn on_fetched(&mut self, reply: Reply)
        ensures
            final(self).skin == old(self).skin,
            final(self).directory == old(self).directory,
            old(self).stage == SkinStage::Awaiting(SkinOp::Fetch) ==> {
                &&& final(self).stage == stage_after_fetch(reply)
                &&& match final(self).stage {
                    SkinStage::Awaiting(_) => final(self).archive matches Some(a) && a@
                        == reply->body@,
                    SkinStage::Finished(_) => final(self).archive == old(self).archive,
                }
            },
            old(self).stage != SkinStage::Awaiting(SkinOp::Fetch) ==> {
                &&& final(self).stage == old(self).stage
                &&& final(self).archive == old(self).archive
            },
    {
        match self.stage {
            SkinStage::Awaiting(SkinOp::Fetch) => {},
            _ => {
                return ;
            },
        }
        match reply {
            Reply::Response { status, body } => {
                if status_is_success(status) {
                    let stage = after_archive_check(archive_opens(&body));
                    match stage {
                        SkinStage::Awaiting(_) => {
                            self.archive = Some(body);
                        },
                        SkinStage::Finished(_) => {},
                    }
                    self.stage = stage;
                } else {
                    self.stage = SkinStage::Finished(SkinOutcome::Failed(SkinFailure::Download));
                }
            },
            Reply::Transport { .. } => {
                self.stage = SkinStage::Finished(SkinOutcome::Failed(SkinFailure::Download));
            },
        }
    }

    /// The archive has been unpacked as far as it went: the skin is ready.
    pub fn on_extracted(&mut self)
        ensures
            final(self).skin == old(self).skin,
            final(self).directory == old(self).directory,
            final(self).archive == old(self).archive,
            final(self).stage == if old(self).stage == SkinStage::Awaiting(SkinOp::Extract) {
                SkinStage::Finished(SkinOutcome::Ready)
            } else {
                old(self).stage
            },
    {
        match self.stage {
            SkinStage::Awaiting(SkinOp::Extract) => {
                self.stage = SkinStage::Finished(SkinOutcome::Ready);
            },
            _ => {},
        }
    }
}

} // verus!
