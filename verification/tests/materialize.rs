use oscbot::materialize::{
    IoKind, IoReport, Materializer, WriteOp, WriteOutcome, WriteStage,
};
use oscbot::paths::{
    mapset_archive_path, mapset_dir_path, parent_path, replay_dir_path, replay_file_path,
    skin_dir_path, videos_dir_path,
};

/// What stands at the destination of a write, in a file system of one path.
#[derive(Debug, Clone, PartialEq)]
enum Slot {
    Absent,
    File(Vec<u8>),
    Directory,
}

fn perform(slot: &mut Slot, op: WriteOp, bytes: &[u8]) -> IoReport {
    match op {
        WriteOp::Remove => match slot {
            Slot::Absent => IoReport::Failed(IoKind::NotFound),
            _ => {
                *slot = Slot::Absent;
                IoReport::Done
            }
        },
        WriteOp::CreateParents => IoReport::Done,
        WriteOp::Create => match slot {
            Slot::Directory => IoReport::Failed(IoKind::AlreadyExists),
            _ => {
                *slot = Slot::File(Vec::new());
                IoReport::Done
            }
        },
        WriteOp::Write => {
            *slot = Slot::File(bytes.to_vec());
            IoReport::Done
        }
        WriteOp::Flush => IoReport::Done,
    }
}

fn materialize(slot: &mut Slot, path: &str, bytes: &[u8]) -> (WriteOutcome, Vec<WriteOp>) {
    let mut m = Materializer::new(path.to_string(), bytes.to_vec());
    let mut ops = Vec::new();
    while let Some(op) = m.pending() {
        ops.push(op);
        let report = perform(slot, op, bytes);
        m.on_report(report);
    }
    (m.outcome().expect("a write without pending operation is over"), ops)
}

#[test]
fn fresh_write_runs_every_operation() {
    let mut slot = Slot::Absent;
    let (outcome, ops) = materialize(&mut slot, "/danser/Songs/12345.osz", b"X");
    assert_eq!(outcome, WriteOutcome::Written);
    assert_eq!(
        ops,
        vec![WriteOp::Remove, WriteOp::CreateParents, WriteOp::Create, WriteOp::Write, WriteOp::Flush]
    );
    assert_eq!(slot, Slot::File(b"X".to_vec()));
}

#[test]
fn materializing_twice_gives_the_same_file_and_no_error() {
    let mut slot = Slot::Absent;
    let (first, first_ops) = materialize(&mut slot, "/danser/Songs/12345.osz", b"archive");
    let after_first = slot.clone();
    let (second, second_ops) = materialize(&mut slot, "/danser/Songs/12345.osz", b"archive");
    assert_eq!(first, WriteOutcome::Written);
    assert_eq!(second, WriteOutcome::Written);
    assert_eq!(first_ops, second_ops);
    assert_eq!(slot, after_first);
    assert_eq!(slot, Slot::File(b"archive".to_vec()));
}

#[test]
fn earlier_content_is_replaced() {
    let mut slot = Slot::File(b"old and longer".to_vec());
    let (outcome, _) = materialize(&mut slot, "/danser/Songs/1.osz", b"new");
    assert_eq!(outcome, WriteOutcome::Written);
    assert_eq!(slot, Slot::File(b"new".to_vec()));
}

#[test]
fn path_without_parent_skips_directory_creation() {
    let mut slot = Slot::Absent;
    let (outcome, ops) = materialize(&mut slot, "file.osz", b"X");
    assert_eq!(outcome, WriteOutcome::Written);
    assert_eq!(ops, vec![WriteOp::Remove, WriteOp::Create, WriteOp::Write, WriteOp::Flush]);
}

#[test]
fn existing_path_at_creation_counts_as_present() {
    let mut m = Materializer::new("/danser/Songs/9.osz".to_string(), vec![1, 2, 3]);
    assert_eq!(m.stage, WriteStage::Awaiting(WriteOp::Remove));
    m.on_report(IoReport::Done);
    m.on_report(IoReport::Done);
    assert_eq!(m.pending(), Some(WriteOp::Create));
    m.on_report(IoReport::Failed(IoKind::AlreadyExists));
    assert_eq!(m.outcome(), Some(WriteOutcome::AlreadyPresent));
    assert_eq!(m.pending(), None);
}

#[test]
fn removal_failure_other_than_not_found_fails() {
    let mut m = Materializer::new("/danser/Songs/9.osz".to_string(), vec![]);
    m.on_report(IoReport::Failed(IoKind::Other));
    assert_eq!(
        m.outcome(),
        Some(WriteOutcome::Failed { at: WriteOp::Remove, kind: IoKind::Other })
    );
}

#[test]
fn each_later_failure_fails_at_its_operation() {
    let steps = [WriteOp::CreateParents, WriteOp::Create, WriteOp::Write, WriteOp::Flush];
    for (n, at) in steps.iter().enumerate() {
        let mut m = Materializer::new("/danser/Songs/9.osz".to_string(), vec![]);
        m.on_report(IoReport::Failed(IoKind::NotFound));
        for _ in 0..n {
            m.on_report(IoReport::Done);
        }
        assert_eq!(m.pending(), Some(*at));
        m.on_report(IoReport::Failed(IoKind::Other));
        assert_eq!(m.outcome(), Some(WriteOutcome::Failed { at: *at, kind: IoKind::Other }));
    }
}

#[test]
fn not_found_is_only_forgiven_at_removal() {
    let mut m = Materializer::new("/danser/Songs/9.osz".to_string(), vec![]);
    m.on_report(IoReport::Done);
    m.on_report(IoReport::Failed(IoKind::NotFound));
    assert_eq!(
        m.outcome(),
        Some(WriteOutcome::Failed { at: WriteOp::CreateParents, kind: IoKind::NotFound })
    );
}

#[test]
fn finished_write_ignores_reports() {
    let mut m = Materializer::new("a/b".to_string(), vec![]);
    m.on_report(IoReport::Failed(IoKind::Other));
    let before = m.stage;
    m.on_report(IoReport::Done);
    m.on_report(IoReport::Failed(IoKind::AlreadyExists));
    assert_eq!(m.stage, before);
}

#[test]
fn materializer_keeps_path_parent_and_bytes() {
    let m = Materializer::new("/danser/Songs/12345.osz".to_string(), b"X".to_vec());
    assert_eq!(m.path, "/danser/Songs/12345.osz");
    assert_eq!(m.parent, Some("/danser/Songs".to_string()));
    assert_eq!(m.bytes, b"X".to_vec());
}

#[test]
fn layout_below_the_base_directory() {
    assert_eq!(mapset_archive_path("/danser", 12345), "/danser/Songs/12345.osz");
    assert_eq!(mapset_dir_path("/danser", 12345), "/danser/Songs/12345");
    assert_eq!(replay_dir_path("/danser", "abc"), "/danser/Replays/abc");
    assert_eq!(replay_file_path("/danser", "abc", "987"), "/danser/Replays/abc/987.osr");
    assert_eq!(skin_dir_path("/danser", 42), "/danser/Skins/42");
    assert_eq!(videos_dir_path("/danser"), "/danser/videos");
    assert_eq!(mapset_archive_path("", 0), "/Songs/0.osz");
}

#[test]
fn parent_is_what_stands_before_the_last_slash() {
    assert_eq!(parent_path("/a/b/c.txt"), Some("/a/b".to_string()));
    assert_eq!(parent_path("a/b"), Some("a".to_string()));
    assert_eq!(parent_path("a/b/"), Some("a/b".to_string()));
    assert_eq!(parent_path("/a"), None);
    assert_eq!(parent_path("a"), None);
    assert_eq!(parent_path(""), None);
    assert_eq!(parent_path("/"), None);
}
