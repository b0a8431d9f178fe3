//! One end-to-end run: assets, render, upload, report, cleanup.
//!
//! The coordinator is a state machine. The caller performs each action and
//! hands back what came of it as an event; the coordinator answers with the
//! status to show and the next action.

use crate::materialize::{IoKind, WriteOp, WriteOutcome};
use crate::mirror::CascadeOutcome;
use crate::paths::{mapset_archive, mapset_archive_path, replay_file, replay_file_path};
use crate::progress::{progress_rank, ProgressState, ProgressView};
use crate::skin::{uses_skin, SkinOutcome, SkinReference};
use crate::supervisor::{arguments, render_arguments, RenderOutcome};
use crate::text::{decimal, opt_text, push_decimal, texts};
use vstd::prelude::*;

verus! {

/// The longest title, in characters, that an upload may carry.
pub const TITLE_LIMIT: usize = 100;

/// What one run is to render and upload.
#[derive(Debug, PartialEq, Eq)]
pub struct RenderJob {
    pub mapset_id: u32,
    pub beatmap_hash: String,
    /// What tells this replay from others of the same beatmap.
    pub replay_reference: String,
    pub skin: Option<SkinReference>,
    pub title: String,
    pub description: String,
    pub thumbnail: Vec<u8>,
}

/// A file system or network failure that ends a run.
#[derive(Debug, PartialEq, Eq)]
pub enum IoFault {
    /// A request to a mirror failed below HTTP.
    Transport { detail: String },
    /// The map archive could not be written.
    MapWrite { at: WriteOp, kind: IoKind },
    /// The replay is not on disk.
    ReplayMissing,
}

/// How a run ended.
#[derive(Debug, PartialEq, Eq)]
pub enum Outcome {
    /// The video is uploaded. `title` is the title the video was meant to
    /// have; where `needs_manual_title` is set it was too long, the upload
    /// carries a placeholder, and the title has to be set by hand.
    Uploaded { video_id: String, title: String, needs_manual_title: bool },
    /// No mirror has the map.
    Unavailable,
    /// The render produced no video.
    RenderFailure { message: String },
    /// The upload failed.
    UploadFailure { message: String },
    /// A file system or network failure.
    IoFailure(IoFault),
}

/// Where a run stands.
#[derive(Debug, PartialEq, Eq)]
pub enum Stage {
    Created,
    CheckingMap,
    DownloadingMap,
    WritingMap,
    LoadingReplay,
    ResolvingSkin,
    Rendering,
    Uploading,
    /// The run is decided; what it left on disk is being removed.
    CleaningUp(Outcome),
    Finished,
}

/// What the caller reports back.
#[derive(Debug, PartialEq, Eq)]
pub enum Event {
    /// The run is to begin.
    Start,
    /// Whether the map archive is on disk already.
    MapChecked { cached: bool },
    /// What the mirror cascade came to.
    MapDownloaded(CascadeOutcome),
    /// How writing the map archive ended.
    MapWritten(WriteOutcome),
    /// The bytes of the replay, or `None` if it is not on disk.
    ReplayLoaded(Option<Vec<u8>>),
    /// How making the skin available ended.
    SkinResolved(SkinOutcome),
    /// The renderer reported a progress token.
    RenderProgress(String),
    /// How the render ended.
    Rendered(RenderOutcome),
    /// The identifier of the uploaded video, or why the upload failed.
    Uploaded(Result<String, String>),
    /// The cleanup was attempted.
    CleanedUp,
}

/// What the caller does next.
#[derive(Debug, PartialEq, Eq)]
pub enum Action {
    /// Say whether the file at `path` exists.
    CheckMap { path: String },
    /// Run the mirror cascade for the mapset.
    DownloadMap { mapset_id: u32 },
    /// Write `bytes` to `path`.
    WriteMap { path: String, bytes: Vec<u8> },
    /// Read the replay at `path`.
    LoadReplay { path: String },
    /// Make the skin of `user` available from `url`.
    ResolveSkin { user: u32, url: String },
    /// Run the renderer with these arguments.
    Render { arguments: Vec<String> },
    /// Upload the video at `video_path`.
    Upload { video_path: String, title: String, description: String, thumbnail: Vec<u8> },
    /// Delete the replay and, where there is one, the video; failures are
    /// logged and not reported.
    Cleanup { replay_path: String, rendered: Option<String> },
    /// Nothing; go on with what is under way.
    Wait,
    /// The run is over.
    Stop,
}

/// A status for the caller to show.
#[derive(Debug, PartialEq, Eq)]
pub enum Update {
    /// The run is under way.
    Progress(ProgressState),
    /// The run is over; this replaces the progress display.
    Final(Outcome),
}

/// The answer to one event.
#[derive(Debug, PartialEq, Eq)]
pub struct Effects {
    pub update: Option<Update>,
    pub action: Action,
}

/// The state of one run.
#[derive(Debug, PartialEq, Eq)]
pub struct Coordinator {
    /// The renderer's base directory.
    pub base: String,
    pub job: RenderJob,
    pub stage: Stage,
    /// The bytes of the replay, once they are read.
    pub replay: Option<Vec<u8>>,
    /// The path of the video, once it is rendered.
    pub video: Option<String>,
}

/// An [`IoFault`] as plain values.
pub enum IoFaultView {
    Transport { detail: Seq<char> },
    MapWrite { at: WriteOp, kind: IoKind },
    ReplayMissing,
}

/// An [`Outcome`] as plain values.
pub enum OutcomeView {
    Uploaded { video_id: Seq<char>, title: Seq<char>, needs_manual_title: bool },
    Unavailable,
    RenderFailure { message: Seq<char> },
    UploadFailure { message: Seq<char> },
    IoFailure(IoFaultView),
}

/// A [`Stage`] as plain values.
pub enum StageView {
    Created,
    CheckingMap,
    DownloadingMap,
    WritingMap,
    LoadingReplay,
    ResolvingSkin,
    Rendering,
    Uploading,
    CleaningUp(OutcomeView),
    Finished,
}

/// An [`Action`] as plain values.
pub enum ActionView {
    CheckMap { path: Seq<char> },
    DownloadMap { mapset_id: u32 },
    WriteMap { path: Seq<char>, bytes: Seq<u8> },
    LoadReplay { path: Seq<char> },
    ResolveSkin { user: u32, url: Seq<char> },
    Render { arguments: Seq<Seq<char>> },
    Upload { video_path: Seq<char>, title: Seq<char>, description: Seq<char>, thumbnail: Seq<u8> },
    Cleanup { replay_path: Seq<char>, rendered: Option<Seq<char>> },
    Wait,
    Stop,
}

/// An [`Update`] as plain values.
pub enum UpdateView {
    Progress(ProgressView),
    Final(OutcomeView),
}

/// An [`Effects`] as plain values.
pub struct EffectsView {
    pub update: Option<UpdateView>,
    pub action: ActionView,
}

/// What an event changes and what it is answered with.
pub struct Turn {
    pub stage: StageView,
    pub replay: Option<Seq<u8>>,
    pub video: Option<Seq<char>>,
    pub effects: EffectsView,
}

/// The bytes of a buffer that may be absent.
pub open spec fn opt_bytes(bytes: Option<Vec<u8>>) -> Option<Seq<u8>> {
    match bytes {
        Some(b) => Some(b@),
        None => None,
    }
}

impl View for IoFault {
    type V = IoFaultView;

    open spec fn view(&self) -> IoFaultView {
        match *self {
            IoFault::Transport { detail } => IoFaultView::Transport { detail: detail@ },
            IoFault::MapWrite { at, kind } => IoFaultView::MapWrite { at, kind },
            IoFault::ReplayMissing => IoFaultView::ReplayMissing,
        }
    }
}

impl View for Outcome {
    type V = OutcomeView;

    open spec fn view(&self) -> OutcomeView {
        match *self {
            Outcome::Uploaded { video_id, title, needs_manual_title } => OutcomeView::Uploaded {
                video_id: video_id@,
                title: title@,
                needs_manual_title,
            },
            Outcome::Unavailable => OutcomeView::Unavailable,
            Outcome::RenderFailure { message } => OutcomeView::RenderFailure { message: message@ },
            Outcome::UploadFailure { message } => OutcomeView::UploadFailure { message: message@ },
            Outcome::IoFailure(fault) => OutcomeView::IoFailure(fault@),
        }
    }
}

impl View for Stage {
    type V = StageView;

    open spec fn view(&self) -> StageView {
        match *self {
            Stage::Created => StageView::Created,
            Stage::CheckingMap => StageView::CheckingMap,
            Stage::DownloadingMap => StageView::DownloadingMap,
            Stage::WritingMap => StageView::WritingMap,
            Stage::LoadingReplay => StageView::LoadingReplay,
            Stage::ResolvingSkin => StageView::ResolvingSkin,
            Stage::Rendering => StageView::Rendering,
            Stage::Uploading => StageView::Uploading,
            Stage::CleaningUp(outcome) => StageView::CleaningUp(outcome@),
            Stage::Finished => StageView::Finished,
        }
    }
}

impl View for Action {
    type V = ActionView;

    open spec fn view(&self) -> ActionView {
        match *self {
            Action::CheckMap { path } => ActionView::CheckMap { path: path@ },
            Action::DownloadMap { mapset_id } => ActionView::DownloadMap { mapset_id },
            Action::WriteMap { path, bytes } => ActionView::WriteMap { path: path@, bytes: bytes@ },
            Action::LoadReplay { path } => ActionView::LoadReplay { path: path@ },
            Action::ResolveSkin { user, url } => ActionView::ResolveSkin { user, url: url@ },
            Action::Render { arguments } => ActionView::Render {
                arguments: texts(arguments@),
            },
            Action::Upload { video_path, title, description, thumbnail } => ActionView::Upload {
                video_path: video_path@,
                title: title@,
                description: description@,
                thumbnail: thumbnail@,
            },
            Action::Cleanup { replay_path, rendered } => ActionView::Cleanup {
                replay_path: replay_path@,
                rendered: opt_text(rendered),
            },
            Action::Wait => ActionView::Wait,
            Action::Stop => ActionView::Stop,
        }
    }
}

impl View for Update {
    type V = UpdateView;

    open spec fn view(&self) -> UpdateView {
        match *self {
            Update::Progress(state) => UpdateView::Progress(state@),
            Update::Final(outcome) => UpdateView::Final(outcome@),
        }
    }
}

impl View for Effects {
    type V = EffectsView;

    open spec fn view(&self) -> EffectsView {
        EffectsView {
            update: match self.update {
                Some(u) => Some(u@),
                None => None,
            },
            action: self.action@,
        }
    }
}

/// The place of a stage in the order of a run.
pub open spec fn stage_rank(stage: StageView) -> nat {
    match stage {
        StageView::Created => 0,
        StageView::CheckingMap => 1,
        StageView::DownloadingMap => 2,
        StageView::WritingMap => 3,
        StageView::LoadingReplay => 4,
        StageView::ResolvingSkin => 5,
        StageView::Rendering => 6,
        StageView::Uploading => 7,
        StageView::CleaningUp(_) => 8,
        StageView::Finished => 9,
    }
}

/// The title an upload carries: the title of the job, or a placeholder
/// where that is longer than `TITLE_LIMIT` characters.
pub open spec fn upload_title(title: Seq<char>) -> Seq<char> {
    if title.len() > TITLE_LIMIT {
        "temporary title please replace"@
    } else {
        title
    }
}

/// The path of the replay of a run.
pub open spec fn replay_of(c: Coordinator) -> Seq<char> {
    replay_file(c.base@, c.job.beatmap_hash@, c.job.replay_reference@)
}

/// The turn that moves to `stage` and leaves the rest as it is.
pub open spec fn proceed(
    c: Coordinator,
    stage: StageView,
    update: Option<UpdateView>,
    action: ActionView,
) -> Turn {
    Turn {
        stage,
        replay: opt_bytes(c.replay),
        video: opt_text(c.video),
        effects: EffectsView { update, action },
    }
}

/// The turn that ends the run as `outcome`: nothing is shown yet, and what
/// the run left on disk, the replay and the video where there is one, is
/// to be removed.
pub open spec fn conclude(c: Coordinator, outcome: OutcomeView) -> Turn {
    proceed(
        c,
        StageView::CleaningUp(outcome),
        None,
        ActionView::Cleanup { replay_path: replay_of(c), rendered: opt_text(c.video) },
    )
}

/// The turn that goes on to read the replay.
pub open spec fn to_replay(c: Coordinator) -> Turn {
    proceed(c, StageView::LoadingReplay, None, ActionView::LoadReplay { path: replay_of(c) })
}

/// The turn that starts the renderer, with the skin of `skin_user` where
/// one is given.
pub open spec fn to_render(c: Coordinator, skin_user: Option<u32>) -> ActionView {
    ActionView::Render { arguments: arguments(replay_of(c), skin_user) }
}

/// What the event `e` changes in the run `c`, and what it is answered with.
///
/// An event that the stage of the run does not wait for changes nothing and
/// is answered with `Wait`, or with `Stop` once the run is finished.
pub open spec fn turn(c: Coordinator, e: Event) -> Turn {
    match (c.stage, e) {
        (Stage::Created, Event::Start) => proceed(
            c,
            StageView::CheckingMap,
            Some(UpdateView::Progress(ProgressView::Preparing)),
            ActionView::CheckMap { path: mapset_archive(c.base@, c.job.mapset_id) },
        ),
        (Stage::CheckingMap, Event::MapChecked { cached }) => if cached {
            to_replay(c)
        } else {
            proceed(
                c,
                StageView::DownloadingMap,
                None,
                ActionView::DownloadMap { mapset_id: c.job.mapset_id },
            )
        },
        (Stage::DownloadingMap, Event::MapDownloaded(found)) => match found {
            CascadeOutcome::Found { bytes, .. } => proceed(
                c,
                StageView::WritingMap,
                None,
                ActionView::WriteMap {
                    path: mapset_archive(c.base@, c.job.mapset_id),
                    bytes: bytes@,
                },
            ),
            CascadeOutcome::Unavailable => conclude(c, OutcomeView::Unavailable),
            CascadeOutcome::TransportError { detail, .. } => conclude(
                c,
                OutcomeView::IoFailure(IoFaultView::Transport { detail: detail@ }),
            ),
        },
        (Stage::WritingMap, Event::MapWritten(written)) => match written {
            WriteOutcome::Failed { at, kind } => conclude(
                c,
                OutcomeView::IoFailure(IoFaultView::MapWrite { at, kind }),
            ),
            _ => to_replay(c),
        },
        (Stage::LoadingReplay, Event::ReplayLoaded(loaded)) => match loaded {
            Some(bytes) => Turn {
                stage: if c.job.skin is Some {
                    StageView::ResolvingSkin
                } else {
                    StageView::Rendering
                },
                replay: Some(bytes@),
                video: opt_text(c.video),
                effects: EffectsView {
                    update: Some(UpdateView::Progress(ProgressView::Rendering(None))),
                    action: match c.job.skin {
                        Some(skin) => ActionView::ResolveSkin { user: skin.user, url: skin.url@ },
                        None => to_render(c, None),
                    },
                },
            },
            None => conclude(c, OutcomeView::IoFailure(IoFaultView::ReplayMissing)),
        },
        (Stage::ResolvingSkin, Event::SkinResolved(resolved)) => proceed(
            c,
            StageView::Rendering,
            None,
            to_render(
                c,
                match c.job.skin {
                    Some(skin) => if uses_skin(resolved) {
                        Some(skin.user)
                    } else {
                        None
                    },
                    None => None,
                },
            ),
        ),
        (Stage::Rendering, Event::RenderProgress(token)) => proceed(
            c,
            StageView::Rendering,
            Some(UpdateView::Progress(ProgressView::Rendering(Some(token@)))),
            ActionView::Wait,
        ),
        (Stage::Rendering, Event::Rendered(rendered)) => match rendered {
            RenderOutcome::Rendered { path } => Turn {
                stage: StageView::Uploading,
                replay: opt_bytes(c.replay),
                video: Some(path@),
                effects: EffectsView {
                    update: Some(UpdateView::Progress(ProgressView::Uploading)),
                    action: ActionView::Upload {
                        video_path: path@,
                        title: upload_title(c.job.title@),
                        description: c.job.description@,
                        thumbnail: c.job.thumbnail@,
                    },
                },
            },
            RenderOutcome::Failed { message } => conclude(
                c,
                OutcomeView::RenderFailure { message: message@ },
            ),
        },
        (Stage::Uploading, Event::Uploaded(uploaded)) => match uploaded {
            Ok(video_id) => {
                let done = conclude(
                    c,
                    OutcomeView::Uploaded {
                        video_id: video_id@,
                        title: c.job.title@,
                        needs_manual_title: c.job.title@.len() > TITLE_LIMIT,
                    },
                );
                Turn {
                    effects: EffectsView {
                        update: Some(UpdateView::Progress(ProgressView::Done)),
                        action: done.effects.action,
                    },
                    ..done
                }
            },
            Err(message) => conclude(c, OutcomeView::UploadFailure { message: message@ }),
        },
        (Stage::CleaningUp(outcome), Event::CleanedUp) => proceed(
            c,
            StageView::Finished,
            Some(UpdateView::Final(outcome@)),
            ActionView::Stop,
        ),
        (Stage::Finished, _) => proceed(c, StageView::Finished, None, ActionView::Stop),
        _ => proceed(c, c.stage@, None, ActionView::Wait),
    }
}

/// A run never goes back to an earlier stage.
pub proof fn lemma_stage_never_regresses(c: Coordinator, e: Event)
    ensures
        stage_rank(turn(c, e).stage) >= stage_rank(c.stage@),
{
}

/// The rank of the progress that was shown last when a run has come to
/// `stage` without being cut short.
pub open spec fn shown_rank(stage: StageView) -> nat {
    match stage {
        StageView::ResolvingSkin | StageView::Rendering => 1,
        StageView::Uploading => 2,
        StageView::CleaningUp(_) | StageView::Finished => 3,
        _ => 0,
    }
}

/// The progress that is shown never regresses: a progress state that an
/// event is answered with ranks no lower than what the stage before stands
/// for and no higher than what the stage after stands for, and later stages
/// stand for no less than earlier ones.
pub proof fn lemma_progress_never_regresses(c: Coordinator, e: Event)
    ensures
        turn(c, e).effects.update matches Some(UpdateView::Progress(p)) ==> shown_rank(c.stage@)
            <= progress_rank(p) <= shown_rank(turn(c, e).stage),
        forall|a: StageView, b: StageView|
            stage_rank(a) <= stage_rank(b) ==> shown_rank(a) <= shown_rank(b),
{
}

/// The final status is shown exactly when the cleanup of a decided run has
/// been attempted, and it is the outcome the run was decided with; the run
/// is finished then. A finished run shows nothing more.
pub proof fn lemma_final_status_once(c: Coordinator, e: Event)
    ensures
        turn(c, e).effects.update matches Some(UpdateView::Final(outcome)) <==> (c.stage is CleaningUp
            && e is CleanedUp),
        turn(c, e).effects.update matches Some(UpdateView::Final(outcome)) ==> turn(c, e).stage
            is Finished && c.stage@ == StageView::CleaningUp(outcome),
        c.stage is Finished ==> turn(c, e).effects.update is None && turn(c, e).stage is Finished,
{
}

/// A run is decided together with the order to clean up, and in no other
/// way: it enters the cleanup stage exactly with a `Cleanup` action, which
/// names the replay of the run and the video if one was rendered.
pub proof fn lemma_cleanup_always_attempted(c: Coordinator, e: Event)
    ensures
        (turn(c, e).stage is CleaningUp && !(c.stage is CleaningUp)) <==> turn(c, e).effects.action
            is Cleanup,
        turn(c, e).effects.action is Cleanup ==> turn(c, e).effects.action
            == (ActionView::Cleanup { replay_path: replay_of(c), rendered: opt_text(c.video) }),
{
}

/// An upload is ordered only when a render has ended with a video, and a
/// run that leaves an earlier stage for the cleanup never uploads.
pub proof fn lemma_upload_follows_render(c: Coordinator, e: Event)
    ensures
        turn(c, e).effects.action is Upload <==> (c.stage is Rendering && e matches Event::Rendered(
            RenderOutcome::Rendered { .. },
        )),
        turn(c, e).stage is Uploading && !(c.stage is Uploading) ==> turn(c, e).effects.action
            is Upload,
{
}

/// Why a run could not be set up.
#[derive(Clone, Copy, Debug, PartialEq, Eq, Structural)]
pub enum JobError {
    /// The replay carries no hash of its own.
    MissingReplayHash,
    /// The beatmap carries no checksum.
    MissingChecksum,
}

/// Whether `c` is a run of these values that has not started.
pub open spec fn is_new_run(
    c: Coordinator,
    base: Seq<char>,
    replay_reference: Seq<char>,
    mapset_id: u32,
    map_hash: Seq<char>,
    title: String,
    description: String,
    thumbnail: Vec<u8>,
    skin: Option<SkinReference>,
) -> bool {
    &&& c.base@ == base
    &&& c.stage is Created
    &&& c.replay is None
    &&& c.video is None
    &&& c.job.mapset_id == mapset_id
    &&& c.job.beatmap_hash@ == map_hash
    &&& c.job.replay_reference@ == replay_reference
    &&& c.job.skin == skin
    &&& c.job.title == title
    &&& c.job.description == description
    &&& c.job.thumbnail == thumbnail
}

/// Sets up the run that renders and uploads the replay `replay_reference`
/// of the beatmap `map_hash`.
pub fn render_and_upload(
    base: String,
    replay_reference: String,
    mapset_id: u32,
    map_hash: String,
    title: String,
    description: String,
    thumbnail: Vec<u8>,
    skin: Option<SkinReference>,
) -> (c: Coordinator)
    ensures
        is_new_run(
            c,
            base@,
            replay_reference@,
            mapset_id,
            map_hash@,
            title,
            description,
            thumbnail,
            skin,
        ),
{
    Coordinator::new(
        base,
        RenderJob {
            mapset_id,
            beatmap_hash: map_hash,
            replay_reference,
            skin,
            title,
            description,
            thumbnail,
        },
    )
}

/// Sets up the run for a score: its replay is referred to by the decimal
/// numeral of the score's identifier. The beatmap must carry a checksum.
pub fn render_and_upload_by_score(
    base: String,
    score_id: u64,
    mapset_id: u32,
    checksum: Option<String>,
    title: String,
    description: String,
    thumbnail: Vec<u8>,
    skin: Option<SkinReference>,
) -> (run: Result<Coordinator, JobError>)
    ensures
        match run {
            Ok(c) => checksum matches Some(hash) && is_new_run(
                c,
                base@,
                decimal(score_id as nat),
                mapset_id,
                hash@,
                title,
                description,
                thumbnail,
                skin,
            ),
            Err(e) => checksum is None && e == JobError::MissingChecksum,
        },
{
    match checksum {
        Some(hash) => {
            let mut reference = String::new();
            push_decimal(&mut reference, score_id);
            assert(reference@ =~= decimal(score_id as nat));
            Ok(
                render_and_upload(
                    base,
                    reference,
                    mapset_id,
                    hash,
                    title,
                    description,
                    thumbnail,
                    skin,
                ),
            )
        },
        None => Err(JobError::MissingChecksum),
    }
}

/// Sets up the run for a replay file: its replay is referred to by the
/// hash the replay carries. The replay must carry that hash and the
/// beatmap a checksum; the replay is looked at first.
pub fn render_and_upload_by_replay(
    base: String,
    replay_hash: Option<String>,
    mapset_id: u32,
    checksum: Option<String>,
    title: String,
    description: String,
    thumbnail: Vec<u8>,
    skin: Option<SkinReference>,
) -> (run: Result<Coordinator, JobError>)
    ensures
        match run {
            Ok(c) => replay_hash matches Some(reference) && checksum matches Some(hash)
                && is_new_run(
                c,
                base@,
                reference@,
                mapset_id,
                hash@,
                title,
                description,
                thumbnail,
                skin,
            ),
            Err(e) => if replay_hash is None {
                e == JobError::MissingReplayHash
            } else {
                checksum is None && e == JobError::MissingChecksum
            },
        },
{
    match replay_hash {
        Some(reference) => match checksum {
            Some(hash) => Ok(
                render_and_upload(
                    base,
                    reference,
                    mapset_id,
                    hash,
                    title,
                    description,
                    thumbnail,
                    skin,
                ),
            ),
            None => Err(JobError::MissingChecksum),
        },
        None => Err(JobError::MissingReplayHash),
    }
}

/// Copies a buffer of bytes.
pub fn copy_bytes(bytes: &Vec<u8>) -> (copy: Vec<u8>)
    ensures
        copy@ == bytes@,
{
    let mut copy: Vec<u8> = Vec::new();
    let mut i: usize = 0;
    while i < bytes.len()
        invariant
            i <= bytes.len(),
            copy@ == bytes@.subrange(0, i as int),
        decreases bytes.len() - i,
    {
        copy.push(bytes[i]);
        assert(copy@ =~= bytes@.subrange(0, i + 1));
        i += 1;
    }
    assert(bytes@.subrange(0, i as int) =~= bytes@);
    copy
}

/// Whether a title is too long for an upload.
pub fn title_too_long(title: &str) -> (too_long: bool)
    ensures
        too_long == (title@.len() > TITLE_LIMIT),
{
    title.unicode_len() > TITLE_LIMIT
}

impl Coordinator {
    /// A run of `job` below the base directory `base`, not yet started.
    pub fn new(base: String, job: RenderJob) -> (c: Coordinator)
        ensures
            c.base == base,
            c.job == job,
            c.stage is Created,
            c.replay is None,
            c.video is None,
    {
        Coordinator { base, job, stage: Stage::Created, replay: None, video: None }
    }

    /// Whether the run is over.
    pub fn is_finished(&self) -> (finished: bool)
        ensures
            finished == (self.stage is Finished),
    {
        match self.stage {
            Stage::Finished => true,
            _ => false,
        }
    }

    fn replay_path(&self) -> (path: String)
        ensures
            path@ == replay_of(*self),
    {
        replay_file_path(
            self.base.as_str(),
            self.job.beatmap_hash.as_str(),
            self.job.replay_reference.as_str(),
        )
    }

    fn render_action(&self, skin_user: Option<u32>) -> (action: Action)
        ensures
            action@ == to_render(*self, skin_user),
    {
        let path = self.replay_path();
        Action::Render { arguments: render_arguments(path.as_str(), skin_user) }
    }

    fn cleanup_action(&self) -> (action: Action)
        ensures
            action@ == (ActionView::Cleanup {
                replay_path: replay_of(*self),
                rendered: opt_text(self.video),
            }),
    {
        let rendered = match &self.video {
            Some(v) => Some(v.clone()),
            None => None,
        };
        Action::Cleanup { replay_path: self.replay_path(), rendered }
    }

    /// Takes the event `event` and answers it.
    pub fn step(self, event: Event) -> (out: (Coordinator, Effects))
        ensures
            out.0.base == self.base,
            out.0.job == self.job,
            out.0.stage@ == turn(self, event).stage,
            opt_bytes(out.0.replay) == turn(self, event).replay,
            opt_text(out.0.video) == turn(self, event).video,
            out.1@ == turn(self, event).effects,
    {
        let ghost before = self;
        let replay_path = self.replay_path();
        let cleanup = self.cleanup_action();
        let Coordinator { base, job, stage, replay, video } = self;
        match (stage, event) {
            (Stage::Created, Event::Start) => {
                let path = mapset_archive_path(base.as_str(), job.mapset_id);
                (
                    Coordinator { base, job, stage: Stage::CheckingMap, replay, video },
                    Effects {
                        update: Some(Update::Progress(ProgressState::Preparing)),
                        action: Action::CheckMap { path },
                    },
                )
            },
            (Stage::CheckingMap, Event::MapChecked { cached }) => {
                if cached {
                    (
                        Coordinator { base, job, stage: Stage::LoadingReplay, replay, video },
                        Effects { update: None, action: Action::LoadReplay { path: replay_path } },
                    )
                } else {
                    let mapset_id = job.mapset_id;
                    (
                        Coordinator { base, job, stage: Stage::DownloadingMap, replay, video },
                        Effects { update: None, action: Action::DownloadMap { mapset_id } },
                    )
                }
            },
            (Stage::DownloadingMap, Event::MapDownloaded(found)) => {
                match found {
                    CascadeOutcome::Found { provider: _, bytes } => {
                        let path = mapset_archive_path(base.as_str(), job.mapset_id);
                        (
                            Coordinator { base, job, stage: Stage::WritingMap, replay, video },
                            Effects { update: None, action: Action::WriteMap { path, bytes } },
                        )
                    },
                    CascadeOutcome::Unavailable => (
                        Coordinator {
                            base,
                            job,
                            stage: Stage::CleaningUp(Outcome::Unavailable),
                            replay,
                            video,
                        },
                        Effects { update: None, action: cleanup },
                    ),
                    CascadeOutcome::TransportError { provider: _, detail } => (
                        Coordinator {
                            base,
                            job,
                            stage: Stage::CleaningUp(
                                Outcome::IoFailure(IoFault::Transport { detail }),
                            ),
                            replay,
                            video,
                        },
                        Effects { update: None, action: cleanup },
                    ),
                }
            },
            (Stage::WritingMap, Event::MapWritten(written)) => {
                match written {
                    WriteOutcome::Failed { at, kind } => (
                        Coordinator {
                            base,
                            job,
                            stage: Stage::CleaningUp(
                                Outcome::IoFailure(IoFault::MapWrite { at, kind }),
                            ),
                            replay,
                            video,
                        },
                        Effects { update: None, action: cleanup },
                    ),
                    _ => (
                        Coordinator { base, job, stage: Stage::LoadingReplay, replay, video },
                        Effects { update: None, action: Action::LoadReplay { path: replay_path } },
                    ),
                }
            },
            (Stage::LoadingReplay, Event::ReplayLoaded(loaded)) => {
                match loaded {
                    Some(bytes) => {
                        let update = Some(Update::Progress(ProgressState::Rendering(None)));
                        match &job.skin {
                            Some(skin) => {
                                let action = Action::ResolveSkin {
                                    user: skin.user,
                                    url: skin.url.clone(),
                                };
                                (
                                    Coordinator {
                                        base,
                                        job,
                                        stage: Stage::ResolvingSkin,
                                        replay: Some(bytes),
                                        video,
                                    },
                                    Effects { update, action },
                                )
                            },
                            None => {
                                let action = Action::Render {
                                    arguments: render_arguments(replay_path.as_str(), None),
                                };
                                (
                                    Coordinator {
                                        base,
                                        job,
                                        stage: Stage::Rendering,
                                        replay: Some(bytes),
                                        video,
                                    },
                                    Effects { update, action },
                                )
                            },
                        }
                    },
                    None => (
                        Coordinator {
                            base,
                            job,
                            stage: Stage::CleaningUp(Outcome::IoFailure(IoFault::ReplayMissing)),
                            replay,
                            video,
                        },
                        Effects { update: None, action: cleanup },
                    ),
                }
            },
            (Stage::ResolvingSkin, Event::SkinResolved(resolved)) => {
                let skin_user = match &job.skin {
                    Some(skin) => match resolved {
                        SkinOutcome::Ready => Some(skin.user),
                        _ => None,
                    },
                    None => None,
                };
                let action = Action::Render {
                    arguments: render_arguments(replay_path.as_str(), skin_user),
                };
                (
                    Coordinator { base, job, stage: Stage::Rendering, replay, video },
                    Effects { update: None, action },
                )
            },
            (Stage::Rendering, Event::RenderProgress(token)) => (
                Coordinator { base, job, stage: Stage::Rendering, replay, video },
                Effects {
                    update: Some(Update::Progress(ProgressState::Rendering(Some(token)))),
                    action: Action::Wait,
                },
            ),
            (Stage::Rendering, Event::Rendered(rendered)) => {
                match rendered {
                    RenderOutcome::Rendered { path } => {
                        let title = if title_too_long(job.title.as_str()) {
                            String::from_str("temporary title please replace")
                        } else {
                            job.title.clone()
                        };
                        let action = Action::Upload {
                            video_path: path.clone(),
                            title,
                            description: job.description.clone(),
                            thumbnail: copy_bytes(&job.thumbnail),
                        };
                        (
                            Coordinator {
                                base,
                                job,
                                stage: Stage::Uploading,
                                replay,
                                video: Some(path),
                            },
                            Effects {
                                update: Some(Update::Progress(ProgressState::Uploading)),
                                action,
                            },
                        )
                    },
                    RenderOutcome::Failed { message } => (
                        Coordinator {
                            base,
                            job,
                            stage: Stage::CleaningUp(Outcome::RenderFailure { message }),
                            replay,
                            video,
                        },
                        Effects { update: None, action: cleanup },
                    ),
                }
            },
            (Stage::Uploading, Event::Uploaded(uploaded)) => {
                match uploaded {
                    Ok(video_id) => {
                        let outcome = Outcome::Uploaded {
                            video_id,
                            title: job.title.clone(),
                            needs_manual_title: title_too_long(job.title.as_str()),
                        };
                        (
                            Coordinator {
                                base,
                                job,
                                stage: Stage::CleaningUp(outcome),
                                replay,
                                video,
                            },
                            Effects {
                                update: Some(Update::Progress(ProgressState::Done)),
                                action: cleanup,
                            },
                        )
                    },
                    Err(message) => (
                        Coordinator {
                            base,
                            job,
                            stage: Stage::CleaningUp(Outcome::UploadFailure { message }),
                            replay,
                            video,
                        },
                        Effects { update: None, action: cleanup },
                    ),
                }
            },
            (Stage::CleaningUp(outcome), Event::CleanedUp) => (
                Coordinator { base, job, stage: Stage::Finished, replay, video },
                Effects { update: Some(Update::Final(outcome)), action: Action::Stop },
            ),
            (Stage::Finished, _) => (
                Coordinator { base, job, stage: Stage::Finished, replay, video },
                Effects { update: None, action: Action::Stop },
            ),
            (stage, _) => (
                Coordinator { base, job, stage, replay, video },
                Effects { update: None, action: Action::Wait },
            ),
        }
    }
}

} // verus!
