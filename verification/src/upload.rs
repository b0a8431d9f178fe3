//! What an upload is made of, and how long the video file is waited for.

use crate::text::texts;
use vstd::prelude::*;

verus! {

/// How long, in milliseconds, the video file is waited for.
pub const OPEN_TIMEOUT: u64 = 10_000;

/// How long, in milliseconds, to wait between two attempts to open the
/// video file.
pub const OPEN_RETRY_DELAY: u64 = 25;

/// What is sent with a video.
#[derive(Debug, PartialEq, Eq)]
pub struct VideoMetadata {
    pub title: String,
    pub description: String,
    pub tags: Vec<String>,
    pub category_id: String,
    pub privacy_status: String,
    pub made_for_kids: bool,
    /// Whether a thumbnail is set after the upload.
    pub set_thumbnail: bool,
}

/// What follows a failed attempt to open the video file.
#[derive(Clone, Copy, Debug, PartialEq, Eq, Structural)]
pub enum OpenStep {
    /// Wait this many milliseconds and try again.
    RetryAfter(u64),
    /// Report the failure.
    GiveUp,
}

/// The tags every video carries.
pub open spec fn video_tags() -> Seq<Seq<char>> {
    seq!["osu"@, "switzerland"@, "osc"@, "osu!swisscommunity"@, "osuswiss"@]
}

/// Puts together what is sent with a video: the given title and
/// description, the fixed tags, the gaming category, unlisted and not made
/// for kids. A thumbnail is set exactly if thumbnail bytes are given.
pub fn upload(title: String, description: String, thumbnail: &Vec<u8>) -> (metadata: VideoMetadata)
    ensures
        metadata.title == title,
        metadata.description == description,
        texts(metadata.tags@) == video_tags(),
        metadata.category_id@ == "20"@,
        metadata.privacy_status@ == "unlisted"@,
        !metadata.made_for_kids,
        metadata.set_thumbnail == (thumbnail@.len() > 0),
{
    let mut tags: Vec<String> = Vec::new();
    tags.push(String::from_str("osu"));
    tags.push(String::from_str("switzerland"));
    tags.push(String::from_str("osc"));
    tags.push(String::from_str("osu!swisscommunity"));
    tags.push(String::from_str("osuswiss"));
    assert(texts(tags@) =~= video_tags());
    VideoMetadata {
        title,
        description,
        tags,
        category_id: String::from_str("20"),
        privacy_status: String::from_str("unlisted"),
        made_for_kids: false,
        set_thumbnail: thumbnail.len() > 0,
    }
}

/// Decides what follows a failed attempt to open the video file at the
/// time `now`, where the file is waited for until `end`: another attempt
/// while the end is not reached.
pub fn wait_open(now: u64, end: u64) -> (step: OpenStep)
    ensures
        step == if now < end {
            OpenStep::RetryAfter(OPEN_RETRY_DELAY)
        } else {
            OpenStep::GiveUp
        },
{
    if now < end {
        OpenStep::RetryAfter(OPEN_RETRY_DELAY)
    } else {
        OpenStep::GiveUp
    }
}

} // verus!
