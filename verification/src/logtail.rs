//! The most recent lines of the renderer's output, kept for diagnostics.

use crate::text::texts;
use std::collections::VecDeque;
use vstd::prelude::*;

verus! {

/// How many lines a [`LogTail`] retains.
pub const LOG_TAIL_CAPACITY: usize = 80;

/// The output stream a line was read from.
#[derive(Clone, Copy, Debug, PartialEq, Eq, Structural)]
pub enum StreamTag {
    Stdout,
    Stderr,
}

/// The name of a stream, as it is written in front of its lines.
pub open spec fn tag_name(tag: StreamTag) -> Seq<char> {
    match tag {
        StreamTag::Stdout => "stdout"@,
        StreamTag::Stderr => "stderr"@,
    }
}

/// A line with its origin in front: `[stdout] text`.
pub open spec fn tagged(tag: StreamTag, line: Seq<char>) -> Seq<char> {
    seq!['['] + tag_name(tag) + seq![']', ' '] + line
}

/// What is retained after `entry` arrives: the oldest entry leaves when the
/// buffer is full.
pub open spec fn retained(before: Seq<Seq<char>>, entry: Seq<char>) -> Seq<Seq<char>> {
    if before.len() >= LOG_TAIL_CAPACITY {
        before.subrange(1, before.len() as int).push(entry)
    } else {
        before.push(entry)
    }
}

/// What is retained after all of `entries` arrived in order at an empty
/// buffer.
pub open spec fn retained_all(entries: Seq<Seq<char>>) -> Seq<Seq<char>>
    decreases entries.len(),
{
    if entries.len() == 0 {
        Seq::empty()
    } else {
        retained(retained_all(entries.drop_last()), entries.last())
    }
}

/// The last `LOG_TAIL_CAPACITY` of `entries`, or all of them if there are
/// fewer.
pub open spec fn newest(entries: Seq<Seq<char>>) -> Seq<Seq<char>> {
    if entries.len() > LOG_TAIL_CAPACITY {
        entries.subrange(entries.len() - LOG_TAIL_CAPACITY, entries.len() as int)
    } else {
        entries
    }
}

/// Each entry followed by a line feed, all in one text.
pub open spec fn joined(entries: Seq<Seq<char>>) -> Seq<char>
    decreases entries.len(),
{
    if entries.len() == 0 {
        Seq::empty()
    } else {
        joined(entries.drop_last()) + entries.last() + seq!['\n']
    }
}

/// Whatever arrives, and however much of it, the buffer holds exactly the
/// newest entries in their order of arrival, and never more than
/// `LOG_TAIL_CAPACITY` of them.
pub proof fn lemma_retained_all_is_newest(entries: Seq<Seq<char>>)
    ensures
        retained_all(entries) == newest(entries),
        retained_all(entries).len() <= LOG_TAIL_CAPACITY,
    decreases entries.len(),
{
    if entries.len() > 0 {
        let front = entries.drop_last();
        lemma_retained_all_is_newest(front);
        assert(retained(newest(front), entries.last()) =~= newest(entries));
    } else {
        assert(retained_all(entries) =~= newest(entries));
    }
}

/// A bounded first-in, first-out buffer of output lines.
pub struct LogTail {
    lines: VecDeque<String>,
}

impl View for LogTail {
    type V = Seq<Seq<char>>;

    closed spec fn view(&self) -> Seq<Seq<char>> {
        texts(self.lines@)
    }
}

impl LogTail {
    #[verifier::type_invariant]
    spec fn bounded(self) -> bool {
        self.lines@.len() <= LOG_TAIL_CAPACITY
    }

    /// An empty buffer.
    pub fn new() -> (tail: LogTail)
        ensures
            tail@ == Seq::<Seq<char>>::empty(),
    {
        let tail = LogTail { lines: VecDeque::with_capacity(LOG_TAIL_CAPACITY) };
        assert(tail@ =~= Seq::<Seq<char>>::empty());
        tail
    }

    /// The number of entries held.
    pub fn len(&self) -> (n: usize)
        ensures
            n == self@.len(),
            n <= LOG_TAIL_CAPACITY,
    {
        proof {
            use_type_invariant(self);
        }
        self.lines.len()
    }

    /// Adds `entry` as the newest one; the oldest leaves if the buffer was
    /// full.
    pub fn push(&mut self, entry: String)
        ensures
            final(self)@ == retained(old(self)@, entry@),
            final(self)@.len() <= LOG_TAIL_CAPACITY,
    {
        let mut taken = LogTail { lines: VecDeque::new() };
        std::mem::swap(self, &mut taken);
        proof {
            use_type_invariant(&taken);
        }
        let mut lines = taken.lines;
        if lines.len() >= LOG_TAIL_CAPACITY {
            lines.pop_front();
        }
        lines.push_back(entry);
        *self = LogTail { lines };
        assert(self@ =~= retained(old(self)@, entry@));
    }

    /// Adds `line` with the name of its stream in front.
    pub fn record(&mut self, tag: StreamTag, line: &str)
        ensures
            final(self)@ == retained(old(self)@, tagged(tag, line@)),
            final(self)@.len() <= LOG_TAIL_CAPACITY,
    {
        let mut entry = String::new();
        entry.push('[');
        match tag {
            StreamTag::Stdout => entry.append("stdout"),
            StreamTag::Stderr => entry.append("stderr"),
        }
        entry.push(']');
        entry.push(' ');
        entry.append(line);
        assert(entry@ =~= tagged(tag, line@));
        self.push(entry);
    }

    /// The entries held, oldest first.
    pub fn entries(&self) -> (out: Vec<String>)
        ensures
            texts(out@) == self@,
    {
        let mut out: Vec<String> = Vec::new();
        let mut i: usize = 0;
        while i < self.lines.len()
            invariant
                i <= self.lines@.len(),
                out@.len() == i,
                forall|j: int| 0 <= j < i ==> (#[trigger] out@[j])@ == self.lines@[j]@,
            decreases self.lines@.len() - i,
        {
            out.push(self.lines[i].clone());
            i += 1;
        }
        assert(texts(out@) =~= self@);
        out
    }

    /// Appends every entry, each followed by a line feed, to `out`.
    pub fn write_to(&self, out: &mut String)
        ensures
            final(out)@ == old(out)@ + joined(self@),
    {
        let mut i: usize = 0;
        assert(joined(self@.subrange(0, 0)) =~= Seq::<char>::empty());
        while i < self.lines.len()
            invariant
                i <= self.lines@.len(),
                out@ == old(out)@ + joined(self@.subrange(0, i as int)),
            decreases self.lines@.len() - i,
        {
            out.append(self.lines[i].as_str());
            out.push('\n');
            proof {
                let next = self@.subrange(0, i + 1);
                assert(next.drop_last() =~= self@.subrange(0, i as int));
                assert(next.last() == self.lines@[i as int]@);
            }
            i += 1;
        }
        assert(self@.subrange(0, i as int) =~= self@);
    }
}

} // verus!
