//! Writing downloaded bytes to their place on disk.
//!
//! The caller performs each file operation and hands back how it went; this
//! module says which operation comes next and how the whole ends.

use crate::paths::{parent, parent_path};
use vstd::prelude::*;

verus! {

/// Why a file operation failed, as far as the decisions depend on it.
#[derive(Clone, Copy, Debug, PartialEq, Eq, Structural)]
pub enum IoKind {
    /// There is nothing at the path.
    NotFound,
    /// There is something at the path already.
    AlreadyExists,
    /// Any other cause.
    Other,
}

/// How a file operation went.
#[derive(Clone, Copy, Debug, PartialEq, Eq, Structural)]
pub enum IoReport {
    Done,
    Failed(IoKind),
}

/// The operations of one write, in their order.
#[derive(Clone, Copy, Debug, PartialEq, Eq, Structural)]
pub enum WriteOp {
    /// Remove whatever stands at the destination.
    Remove,
    /// Create the directories above the destination.
    CreateParents,
    /// Create the file.
    Create,
    /// Write all the bytes.
    Write,
    /// Flush the file.
    Flush,
}

/// How a write ended.
#[derive(Clone, Copy, Debug, PartialEq, Eq, Structural)]
pub enum WriteOutcome {
    /// The bytes are on disk.
    Written,
    /// The file could not be created because its path exists already; the
    /// asset counts as present.
    AlreadyPresent,
    /// The operation `at` failed for the reason `kind`.
    Failed { at: WriteOp, kind: IoKind },
}

/// Where a write stands.
#[derive(Clone, Copy, Debug, PartialEq, Eq, Structural)]
pub enum WriteStage {
    /// The operation is under way; its report is awaited.
    Awaiting(WriteOp),
    /// The write is over.
    Finished(WriteOutcome),
}

/// One write of an asset: the destination, the bytes, and where it stands.
#[derive(Debug, PartialEq, Eq)]
pub struct Materializer {
    pub path: String,
    /// The directory that holds the destination, where it has one.
    pub parent: Option<String>,
    pub bytes: Vec<u8>,
    pub stage: WriteStage,
}

/// Whether a write that is over counts as success.
pub open spec fn is_present(outcome: WriteOutcome) -> bool {
    outcome is Written || outcome is AlreadyPresent
}

/// The stage that follows the report `report` in the stage `stage`, for a
/// destination that has a parent directory or has none.
///
/// A removal that finds nothing is as good as one that removes something.
/// A file that cannot be created because its path exists already ends the
/// write as present. Any other failure ends it as failed.
pub open spec fn next_stage(stage: WriteStage, has_parent: bool, report: IoReport) -> WriteStage {
    match stage {
        WriteStage::Finished(_) => stage,
        WriteStage::Awaiting(op) => match (op, report) {
            (WriteOp::Remove, IoReport::Done) | (WriteOp::Remove, IoReport::Failed(IoKind::NotFound)) => {
                if has_parent {
                    WriteStage::Awaiting(WriteOp::CreateParents)
                } else {
                    WriteStage::Awaiting(WriteOp::Create)
                }
            },
            (WriteOp::CreateParents, IoReport::Done) => WriteStage::Awaiting(WriteOp::Create),
            (WriteOp::Create, IoReport::Done) => WriteStage::Awaiting(WriteOp::Write),
            (WriteOp::Create, IoReport::Failed(IoKind::AlreadyExists)) => WriteStage::Finished(
                WriteOutcome::AlreadyPresent,
            ),
            (WriteOp::Write, IoReport::Done) => WriteStage::Awaiting(WriteOp::Flush),
            (WriteOp::Flush, IoReport::Done) => WriteStage::Finished(WriteOutcome::Written),
            (_, IoReport::Failed(kind)) => WriteStage::Finished(
                WriteOutcome::Failed { at: op, kind },
            ),
        },
    }
}

/// The stage reached from `stage` after the reports `reports`, in order.
pub open spec fn stage_after(stage: WriteStage, has_parent: bool, reports: Seq<IoReport>) -> WriteStage
    decreases reports.len(),
{
    if reports.len() == 0 {
        stage
    } else {
        stage_after(next_stage(stage, has_parent, reports[0]), has_parent, reports.drop_first())
    }
}

/// The first stage of every write.
pub open spec fn first_stage() -> WriteStage {
    WriteStage::Awaiting(WriteOp::Remove)
}

/// A write does the same whether or not something stood at its destination
/// before: after a removal that found nothing and after one that removed
/// something, the same reports lead to the same stage.
pub proof fn lemma_earlier_content_is_irrelevant(has_parent: bool, reports: Seq<IoReport>)
    ensures
        stage_after(first_stage(), has_parent, seq![IoReport::Done] + reports) == stage_after(
            first_stage(),
            has_parent,
            seq![IoReport::Failed(IoKind::NotFound)] + reports,
        ),
{
    let found = seq![IoReport::Done] + reports;
    let absent = seq![IoReport::Failed(IoKind::NotFound)] + reports;
    assert(found.drop_first() =~= reports);
    assert(absent.drop_first() =~= reports);
}

/// A write whose operations all succeed ends with the bytes on disk,
/// whether or not something stood at its destination before.
pub proof fn lemma_rewrite_succeeds(has_parent: bool, removed: IoReport)
    requires
        removed == IoReport::Done || removed == IoReport::Failed(IoKind::NotFound),
    ensures
        has_parent ==> stage_after(
            first_stage(),
            true,
            seq![removed, IoReport::Done, IoReport::Done, IoReport::Done, IoReport::Done],
        ) == WriteStage::Finished(WriteOutcome::Written),
        !has_parent ==> stage_after(
            first_stage(),
            false,
            seq![removed, IoReport::Done, IoReport::Done, IoReport::Done],
        ) == WriteStage::Finished(WriteOutcome::Written),
{
    reveal_with_fuel(stage_after, 6);
    let d = IoReport::Done;
    let five = seq![removed, d, d, d, d];
    assert(five.drop_first() =~= seq![d, d, d, d]);
    assert(seq![d, d, d, d].drop_first() =~= seq![d, d, d]);
    assert(seq![d, d, d].drop_first() =~= seq![d, d]);
    assert(seq![d, d].drop_first() =~= seq![d]);
    assert(seq![d].drop_first() =~= Seq::<IoReport>::empty());
    let four = seq![removed, d, d, d];
    assert(four.drop_first() =~= seq![d, d, d]);
}

/// A write that is over stays as it is, whatever is reported.
pub proof fn lemma_finished_stays(outcome: WriteOutcome, has_parent: bool, reports: Seq<IoReport>)
    ensures
        stage_after(WriteStage::Finished(outcome), has_parent, reports) == WriteStage::Finished(
            outcome,
        ),
    decreases reports.len(),
{
    if reports.len() > 0 {
        lemma_finished_stays(outcome, has_parent, reports.drop_first());
    }
}

impl Materializer {
    /// A write of `bytes` to `path`, which starts by removing what stands
    /// there.
    pub fn new(path: String, bytes: Vec<u8>) -> (m: Materializer)
        ensures
            m.path == path,
            m.bytes == bytes,
            m.stage == first_stage(),
            match m.parent {
                Some(d) => parent(path@) == Some(d@),
                None => parent(path@) is None,
            },
    {
        let parent = parent_path(path.as_str());
        Materializer { path, parent, bytes, stage: WriteStage::Awaiting(WriteOp::Remove) }
    }

    /// The operation to perform now, if the write is not over.
    pub fn pending(&self) -> (op: Option<WriteOp>)
        ensures
            match self.stage {
                WriteStage::Awaiting(o) => op == Some(o),
                WriteStage::Finished(_) => op is None,
            },
    {
        match self.stage {
            WriteStage::Awaiting(o) => Some(o),
            WriteStage::Finished(_) => None,
        }
    }

    /// How the write ended, if it is over.
    pub fn outcome(&self) -> (outcome: Option<WriteOutcome>)
        ensures
            match self.stage {
                WriteStage::Awaiting(_) => outcome is None,
                WriteStage::Finished(o) => outcome == Some(o),
            },
    {
        match self.stage {
            WriteStage::Awaiting(_) => None,
            WriteStage::Finished(o) => Some(o),
        }
    }

    /// The pending operation went as `report` says.
    pub fn on_report(&mut self, report: IoReport)
        ensures
            final(self).stage == next_stage(old(self).stage, old(self).parent is Some, report),
            final(self).path == old(self).path,
            final(self).parent == old(self).parent,
            final(self).bytes == old(self).bytes,
    {
        let has_parent = self.parent.is_some();
        let next = match self.stage {
            WriteStage::Finished(_) => self.stage,
            WriteStage::Awaiting(op) => match report {
                IoReport::Done => match op {
                    WriteOp::Remove => if has_parent {
                        WriteStage::Awaiting(WriteOp::CreateParents)
                    } else {
                        WriteStage::Awaiting(WriteOp::Create)
                    },
                    WriteOp::CreateParents => WriteStage::Awaiting(WriteOp::Create),
                    WriteOp::Create => WriteStage::Awaiting(WriteOp::Write),
                    WriteOp::Write => WriteStage::Awaiting(WriteOp::Flush),
                    WriteOp::Flush => WriteStage::Finished(WriteOutcome::Written),
                },
                IoReport::Failed(kind) => match (op, kind) {
                    (WriteOp::Remove, IoKind::NotFound) => if has_parent {
                        WriteStage::Awaiting(WriteOp::CreateParents)
                    } else {
                        WriteStage::Awaiting(WriteOp::Create)
                    },
                    (WriteOp::Create, IoKind::AlreadyExists) => WriteStage::Finished(
                        WriteOutcome::AlreadyPresent,
                    ),
                    _ => WriteStage::Finished(WriteOutcome::Failed { at: op, kind }),
                },
            },
        };
        self.stage = next;
    }
}

} // verus!
