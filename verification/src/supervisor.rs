//! Supervision of one run of the renderer.
//!
//! The caller starts the process and hands over what it observes: each line
//! of output, the end of the output, the exit of the process, and, when
//! asked, a listing of the output directory. The supervisor answers each
//! observation with what to do next.

use crate::locator::{chosen_path, fallback_latest_rendered_video, FileEntry, LocatorConfig};
use crate::logtail::{joined, retained, tagged, LogTail, StreamTag};
use crate::markers::{completion_path, parse_completion, parse_progress, progress_token};
use crate::text::{decimal, push_decimal, push_signed_decimal, signed_decimal, texts};
use vstd::prelude::*;

verus! {

/// How the renderer's process ended.
#[derive(Clone, Copy, Debug, PartialEq, Eq, Structural)]
pub enum ExitReport {
    /// It exited with this code.
    Code(i32),
    /// It ended without an exit code.
    Signal,
    /// Waiting for it failed.
    Unknown,
}

/// Where a run of the renderer stands.
#[derive(Clone, Copy, Debug, PartialEq, Eq, Structural)]
pub enum Phase {
    /// The process was started; nothing was observed yet.
    Spawned,
    /// Output or the exit of the process was observed.
    Running,
    /// The process exited successfully without naming its video; the output
    /// directory is to be searched.
    Locating,
    /// The renderer named its video.
    ExplicitComplete,
    /// The video was found in the output directory.
    FallbackComplete,
    /// No video was produced.
    Failed,
}

/// The result of a run of the renderer.
#[derive(Debug, PartialEq, Eq)]
pub enum RenderOutcome {
    /// The video is at `path`.
    Rendered { path: String },
    /// There is no video; `message` says what is known.
    Failed { message: String },
}

/// What the caller does next.
#[derive(Debug, PartialEq, Eq)]
pub enum Next {
    /// Go on observing the process.
    Continue,
    /// The output has ended: wait for the process and report its exit.
    AwaitExit,
    /// List the output directory and report its files.
    Scan,
    /// The run is over. Where `reap` is set the process has not been
    /// waited for yet and must be, whatever its exit.
    Finish { outcome: RenderOutcome, reap: bool },
    /// The run was over before; there is nothing to do.
    Stop,
}

/// The answer to one observation.
#[derive(Debug, PartialEq, Eq)]
pub struct Reaction {
    /// A progress token to show, if the observation carried one.
    pub progress: Option<String>,
    pub next: Next,
}

/// The state of one run of the renderer.
pub struct Supervisor {
    pub phase: Phase,
    /// The newest lines of output.
    pub tail: LogTail,
    /// Whether the output has ended.
    pub closed: bool,
    /// How the process ended, once that is known.
    pub exit: Option<ExitReport>,
    /// When the run started, in nanoseconds since the Unix epoch.
    pub started_at: u64,
}

/// Whether a run in `phase` is over.
pub open spec fn is_over(phase: Phase) -> bool {
    phase is ExplicitComplete || phase is FallbackComplete || phase is Failed
}

/// Whether a run in `phase` still observes the process.
pub open spec fn observes(phase: Phase) -> bool {
    phase is Spawned || phase is Running
}

/// The position of a phase in the order in which phases are passed through.
pub open spec fn phase_rank(phase: Phase) -> nat {
    match phase {
        Phase::Spawned => 0,
        Phase::Running => 1,
        Phase::Locating => 2,
        _ => 3,
    }
}

/// Whether the process is known to have exited successfully.
pub open spec fn exited_well(exit: Option<ExitReport>) -> bool {
    exit == Some(ExitReport::Code(0))
}

/// How the end of the process is described in a failure message.
pub open spec fn exit_text(exit: Option<ExitReport>) -> Seq<char> {
    match exit {
        Some(ExitReport::Code(code)) => signed_decimal(code as int),
        Some(ExitReport::Signal) => "signal"@,
        _ => "unknown"@,
    }
}

/// The message of a failed run: how the process ended, then every retained
/// line of output on a line of its own.
pub open spec fn failure_message(exit: Option<ExitReport>, tail: Seq<Seq<char>>) -> Seq<char> {
    "Video could not be rendered (danser-cli did not report output path). exit status: "@
        + exit_text(exit) + ". Recent output:\n"@ + joined(tail)
}

/// The arguments of the renderer: the replay to play, the order to record,
/// and the skin of a user where one is to be used.
pub open spec fn arguments(replay_path: Seq<char>, skin_user: Option<u32>) -> Seq<Seq<char>> {
    let base = seq!["-replay"@, replay_path, "-record"@];
    match skin_user {
        Some(user) => base + seq!["-skin"@, decimal(user as nat)],
        None => base,
    }
}

/// Whether `r` ends the run with the video at `path`.
pub open spec fn finishes_with_video(r: Reaction, path: Seq<char>, reap: bool) -> bool {
    r.next matches Next::Finish { outcome: RenderOutcome::Rendered { path: p }, reap: rp } && p@
        == path && rp == reap
}

/// Whether `r` ends the run as failed, with `message`.
pub open spec fn finishes_with_failure(r: Reaction, message: Seq<char>) -> bool {
    r.next matches Next::Finish { outcome: RenderOutcome::Failed { message: m }, reap: rp } && m@
        == message && !rp
}

/// Whether `r` is the answer to an observation that does not apply in
/// `phase`: nothing to show, and the same thing to do as before.
pub open spec fn is_idle(r: Reaction, phase: Phase, closed: bool, exit: Option<ExitReport>) -> bool {
    &&& r.progress is None
    &&& match phase {
        Phase::Spawned | Phase::Running => if closed && exit is None {
            r.next is AwaitExit
        } else {
            r.next is Continue
        },
        Phase::Locating => r.next is Scan,
        _ => r.next is Stop,
    }
}

/// Whether `r` and `phase` are what follows once both the exit of the
/// process and the end of its output are known without a video having been
/// named.
pub open spec fn is_settled(
    r: Reaction,
    phase: Phase,
    exit: Option<ExitReport>,
    tail: Seq<Seq<char>>,
) -> bool {
    &&& r.progress is None
    &&& if exited_well(exit) {
        phase is Locating && r.next is Scan
    } else {
        phase is Failed && finishes_with_failure(r, failure_message(exit, tail))
    }
}

/// Builds the arguments of the renderer.
pub fn render_arguments(replay_path: &str, skin_user: Option<u32>) -> (args: Vec<String>)
    ensures
        texts(args@) == arguments(replay_path@, skin_user),
{
    let mut args: Vec<String> = Vec::new();
    args.push(String::from_str("-replay"));
    args.push(String::from_str(replay_path));
    args.push(String::from_str("-record"));
    match skin_user {
        Some(user) => {
            args.push(String::from_str("-skin"));
            let mut id = String::new();
            push_decimal(&mut id, user as u64);
            assert(id@ =~= decimal(user as nat));
            args.push(id);
        },
        None => {},
    }
    assert(texts(args@) =~= arguments(replay_path@, skin_user));
    args
}

impl Supervisor {
    /// The state of a run started at `started_at`.
    pub fn new(started_at: u64) -> (s: Supervisor)
        ensures
            s.phase is Spawned,
            s.tail@ == Seq::<Seq<char>>::empty(),
            !s.closed,
            s.exit is None,
            s.started_at == started_at,
    {
        Supervisor {
            phase: Phase::Spawned,
            tail: LogTail::new(),
            closed: false,
            exit: None,
            started_at,
        }
    }

    /// Whether the run is over.
    pub fn is_finished(&self) -> (over: bool)
        ensures
            over == is_over(self.phase),
    {
        match self.phase {
            Phase::ExplicitComplete | Phase::FallbackComplete | Phase::Failed => true,
            _ => false,
        }
    }

    /// The message of a failed run.
    pub fn diagnostic(&self) -> (message: String)
        ensures
            message@ == failure_message(self.exit, self.tail@),
    {
        let mut message = String::from_str(
            "Video could not be rendered (danser-cli did not report output path). exit status: ",
        );
        match self.exit {
            Some(ExitReport::Code(code)) => push_signed_decimal(&mut message, code),
            Some(ExitReport::Signal) => message.append("signal"),
            _ => message.append("unknown"),
        }
        message.append(". Recent output:\n");
        self.tail.write_to(&mut message);
        message
    }

    fn idle(&self) -> (r: Reaction)
        ensures
            is_idle(r, self.phase, self.closed, self.exit),
    {
        let next = match self.phase {
            Phase::Spawned | Phase::Running => if self.closed && self.exit.is_none() {
                Next::AwaitExit
            } else {
                Next::Continue
            },
            Phase::Locating => Next::Scan,
            _ => Next::Stop,
        };
        Reaction { progress: None, next }
    }

    fn settle(&mut self) -> (r: Reaction)
        ensures
            is_settled(r, final(self).phase, old(self).exit, old(self).tail@),
            final(self).tail == old(self).tail,
            final(self).closed == old(self).closed,
            final(self).exit == old(self).exit,
            final(self).started_at == old(self).started_at,
    {
        match self.exit {
            Some(ExitReport::Code(0)) => {
                self.phase = Phase::Locating;
                Reaction { progress: None, next: Next::Scan }
            },
            _ => {
                let message = self.diagnostic();
                self.phase = Phase::Failed;
                Reaction {
                    progress: None,
                    next: Next::Finish {
                        outcome: RenderOutcome::Failed { message },
                        reap: false,
                    },
                }
            },
        }
    }

    /// A line of output was read from the stream `tag`.
    ///
    /// While the process is observed, the line is retained, its progress
    /// token is handed back, and a completion marker ends the run with the
    /// path it names. In any other phase nothing changes.
    pub fn on_line(&mut self, tag: StreamTag, line: &str) -> (r: Reaction)
        ensures
            phase_rank(final(self).phase) >= phase_rank(old(self).phase),
            !observes(old(self).phase) ==> *final(self) == *old(self) && is_idle(
                r,
                old(self).phase,
                old(self).closed,
                old(self).exit,
            ),
            observes(old(self).phase) ==> {
                &&& final(self).tail@ == retained(old(self).tail@, tagged(tag, line@))
                &&& final(self).closed == old(self).closed
                &&& final(self).exit == old(self).exit
                &&& final(self).started_at == old(self).started_at
                &&& match r.progress {
                    Some(t) => progress_token(line@) == Some(t@),
                    None => progress_token(line@) is None,
                }
                &&& match completion_path(line@) {
                    Some(p) => final(self).phase is ExplicitComplete && finishes_with_video(
                        r,
                        p,
                        old(self).exit is None,
                    ),
                    None => final(self).phase is Running && r.next is Continue,
                }
            },
    {
        match self.phase {
            Phase::Spawned | Phase::Running => {},
            _ => {
                return self.idle();
            },
        }
        self.tail.record(tag, line);
        let progress = parse_progress(line);
        match parse_completion(line) {
            Some(path) => {
                self.phase = Phase::ExplicitComplete;
                Reaction {
                    progress,
                    next: Next::Finish {
                        outcome: RenderOutcome::Rendered { path },
                        reap: self.exit.is_none(),
                    },
                }
            },
            None => {
                self.phase = Phase::Running;
                Reaction { progress, next: Next::Continue }
            },
        }
    }

    /// The process ended as `report` says.
    ///
    /// The first report is kept. If the output has ended too, the run is
    /// settled: a successful exit leads to a search of the output
    /// directory, any other to failure. Otherwise the rest of the output is
    /// read first. A second report, or one in a phase that does not observe
    /// the process, changes nothing.
    pub fn on_exit(&mut self, report: ExitReport) -> (r: Reaction)
        ensures
            phase_rank(final(self).phase) >= phase_rank(old(self).phase),
            !(observes(old(self).phase) && old(self).exit is None) ==> *final(self) == *old(self)
                && is_idle(r, old(self).phase, old(self).closed, old(self).exit),
            observes(old(self).phase) && old(self).exit is None ==> {
                &&& final(self).tail == old(self).tail
                &&& final(self).closed == old(self).closed
                &&& final(self).exit == Some(report)
                &&& final(self).started_at == old(self).started_at
                &&& if old(self).closed {
                    is_settled(r, final(self).phase, Some(report), old(self).tail@)
                } else {
                    final(self).phase is Running && r.progress is None && r.next is Continue
                }
            },
    {
        match self.phase {
            Phase::Spawned | Phase::Running => {},
            _ => {
                return self.idle();
            },
        }
        if self.exit.is_some() {
            return self.idle();
        }
        self.exit = Some(report);
        if self.closed {
            self.settle()
        } else {
            self.phase = Phase::Running;
            Reaction { progress: None, next: Next::Continue }
        }
    }

    /// Both streams of output have ended.
    ///
    /// If the exit of the process is known, the run is settled as in
    /// [`Supervisor::on_exit`]; otherwise the process is to be waited for.
    /// A second such observation, or one in a phase that does not observe
    /// the process, changes nothing.
    pub fn on_closed(&mut self) -> (r: Reaction)
        ensures
            phase_rank(final(self).phase) >= phase_rank(old(self).phase),
            !(observes(old(self).phase) && !old(self).closed) ==> *final(self) == *old(self)
                && is_idle(r, old(self).phase, old(self).closed, old(self).exit),
            observes(old(self).phase) && !old(self).closed ==> {
                &&& final(self).tail == old(self).tail
                &&& final(self).closed
                &&& final(self).exit == old(self).exit
                &&& final(self).started_at == old(self).started_at
                &&& if old(self).exit is Some {
                    is_settled(r, final(self).phase, old(self).exit, old(self).tail@)
                } else {
                    final(self).phase is Running && r.progress is None && r.next is AwaitExit
                }
            },
    {
        match self.phase {
            Phase::Spawned | Phase::Running => {},
            _ => {
                return self.idle();
            },
        }
        if self.closed {
            return self.idle();
        }
        self.closed = true;
        if self.exit.is_some() {
            self.settle()
        } else {
            self.phase = Phase::Running;
            Reaction { progress: None, next: Next::AwaitExit }
        }
    }

    /// The output directory holds `entries`.
    ///
    /// While the video is searched for, the run ends with the file that
    /// the locator chooses, or fails if it chooses none. In any other phase
    /// nothing changes.
    pub fn on_scan(&mut self, entries: &Vec<FileEntry>, cfg: &LocatorConfig) -> (r: Reaction)
        ensures
            phase_rank(final(self).phase) >= phase_rank(old(self).phase),
            !(old(self).phase is Locating) ==> *final(self) == *old(self) && is_idle(
                r,
                old(self).phase,
                old(self).closed,
                old(self).exit,
            ),
            old(self).phase is Locating ==> {
                &&& final(self).tail == old(self).tail
                &&& final(self).closed == old(self).closed
                &&& final(self).exit == old(self).exit
                &&& final(self).started_at == old(self).started_at
                &&& r.progress is None
                &&& match chosen_path(entries@, old(self).started_at, *cfg) {
                    Some(p) => final(self).phase is FallbackComplete && finishes_with_video(
                        r,
                        p,
                        false,
                    ),
                    None => final(self).phase is Failed && finishes_with_failure(
                        r,
                        failure_message(old(self).exit, old(self).tail@),
                    ),
                }
            },
    {
        match self.phase {
            Phase::Locating => {},
            _ => {
                return self.idle();
            },
        }
        match fallback_latest_rendered_video(entries, self.started_at, cfg) {
            Some(path) => {
                self.phase = Phase::FallbackComplete;
                Reaction {
                    progress: None,
                    next: Next::Finish { outcome: RenderOutcome::Rendered { path }, reap: false },
                }
            },
            None => {
                let message = self.diagnostic();
                self.phase = Phase::Failed;
                Reaction {
                    progress: None,
                    next: Next::Finish {
                        outcome: RenderOutcome::Failed { message },
                        reap: false,
                    },
                }
            },
        }
    }
}

} // verus!
