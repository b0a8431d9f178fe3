//! What the caller is shown while a pipeline run is under way.

use crate::markers::{full_progress, is_full_progress};
use crate::text::opt_text;
use vstd::prelude::*;

verus! {

/// How far a pipeline run has come.
#[derive(Debug, PartialEq, Eq)]
pub enum ProgressState {
    /// The assets are being made ready.
    Preparing,
    /// The renderer runs; the token is the last one it reported, if any.
    Rendering(Option<String>),
    /// The video is being uploaded.
    Uploading,
    /// The video is uploaded.
    Done,
}

/// The three lines of the status display.
#[derive(Debug, PartialEq, Eq)]
pub struct ProgressLines {
    pub prepare: String,
    pub render: String,
    pub upload: String,
}

/// How far a pipeline run has come, as plain values.
pub enum ProgressView {
    Preparing,
    Rendering(Option<Seq<char>>),
    Uploading,
    Done,
}

impl View for ProgressState {
    type V = ProgressView;

    open spec fn view(&self) -> ProgressView {
        match *self {
            ProgressState::Preparing => ProgressView::Preparing,
            ProgressState::Rendering(token) => ProgressView::Rendering(opt_text(token)),
            ProgressState::Uploading => ProgressView::Uploading,
            ProgressState::Done => ProgressView::Done,
        }
    }
}

/// The place of a state in the order of a run.
pub open spec fn progress_rank(state: ProgressView) -> nat {
    match state {
        ProgressView::Preparing => 0,
        ProgressView::Rendering(_) => 1,
        ProgressView::Uploading => 2,
        ProgressView::Done => 3,
    }
}

/// Whether the assets are ready in `state`.
pub open spec fn preparation_finished(state: ProgressState) -> bool {
    !(state is Preparing)
}

/// The progress token that `state` shows for the render, if any: the one
/// reported while rendering, the full one afterwards.
pub open spec fn render_token(state: ProgressState) -> Option<Seq<char>> {
    match state {
        ProgressState::Preparing => None,
        ProgressState::Rendering(Some(token)) => Some(token@),
        ProgressState::Rendering(None) => None,
        ProgressState::Uploading => Some(full_progress()),
        ProgressState::Done => Some(full_progress()),
    }
}

/// Whether the video is uploaded in `state`.
pub open spec fn video_uploaded(state: ProgressState) -> bool {
    state is Done
}

/// Whether a token says that the render is finished.
pub open spec fn render_finished(token: Option<Seq<char>>) -> bool {
    token == Some(full_progress())
}

/// The line on the preparation.
pub open spec fn prepare_line(finished: bool) -> Seq<char> {
    if finished {
        "Finished"@
    } else {
        "Ongoing..."@
    }
}

/// The line on the render: the token, `done` for the full token, and
/// without a token `0%` once the assets are ready and `awaiting` before.
pub open spec fn render_line(prepared: bool, token: Option<Seq<char>>) -> Seq<char> {
    match token {
        Some(t) => if t == full_progress() {
            "done"@
        } else {
            t
        },
        None => if prepared {
            "0%"@
        } else {
            "awaiting"@
        },
    }
}

/// The line on the upload: `awaiting` until the render is finished, then
/// `ongoing`, and `done` once the video is uploaded.
pub open spec fn upload_line(token: Option<Seq<char>>, uploaded: bool) -> Seq<char> {
    if !render_finished(token) {
        "awaiting"@
    } else if uploaded {
        "done"@
    } else {
        "ongoing"@
    }
}

/// Works out the three lines of the status display.
pub fn progress_lines(prepared: bool, token: Option<&str>, uploaded: bool) -> (lines: ProgressLines)
    ensures
        lines.prepare@ == prepare_line(prepared),
        lines.render@ == render_line(
            prepared,
            match token {
                Some(t) => Some(t@),
                None => None,
            },
        ),
        lines.upload@ == upload_line(
            match token {
                Some(t) => Some(t@),
                None => None,
            },
            uploaded,
        ),
{
    let prepare = if prepared {
        String::from_str("Finished")
    } else {
        String::from_str("Ongoing...")
    };
    let mut rendered = false;
    let render = match token {
        Some(t) => {
            if is_full_progress(t) {
                rendered = true;
                String::from_str("done")
            } else {
                String::from_str(t)
            }
        },
        None => if prepared {
            String::from_str("0%")
        } else {
            String::from_str("awaiting")
        },
    };
    let upload = if !rendered {
        String::from_str("awaiting")
    } else if uploaded {
        String::from_str("done")
    } else {
        String::from_str("ongoing")
    };
    ProgressLines { prepare, render, upload }
}

/// The three lines of the status display for `state`.
pub fn lines_of(state: &ProgressState) -> (lines: ProgressLines)
    ensures
        lines.prepare@ == prepare_line(preparation_finished(*state)),
        lines.render@ == render_line(preparation_finished(*state), render_token(*state)),
        lines.upload@ == upload_line(render_token(*state), video_uploaded(*state)),
{
    match state {
        ProgressState::Preparing => progress_lines(false, None, false),
        ProgressState::Rendering(Some(token)) => progress_lines(true, Some(token.as_str()), false),
        ProgressState::Rendering(None) => progress_lines(true, None, false),
        ProgressState::Uploading => progress_lines(true, Some("100%"), false),
        ProgressState::Done => progress_lines(true, Some("100%"), true),
    }
}

} // verus!
