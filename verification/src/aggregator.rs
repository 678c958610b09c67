//! The output aggregator: a per-slot append-only text buffer fed by the
//! background readers of a child's stdout and stderr.
//!
//! A buffer is never truncated or rotated; it persists after the process
//! exits, until the next start in the same slot resets it. Lines from the two
//! streams interleave in arrival order; no ordering across the two streams is
//! promised. The surrounding binary keeps the aggregator behind its own lock,
//! so appends to one buffer are serialized and a snapshot always observes a
//! consistent prefix of what has been appended, never a partial write.

use vstd::prelude::*;
use vstd::hash_map::HashMapWithView;

verus! {

broadcast use vstd::std_specs::hash::group_hash_axioms;

/// What a snapshot of `slot` reads out of the buffers `m`: the accumulated
/// text, or the empty text for a slot with no buffer.
pub open spec fn spec_snapshot(m: Map<usize, Seq<char>>, slot: usize) -> Seq<char> {
    if m.contains_key(slot) {
        m[slot]
    } else {
        Seq::empty()
    }
}

/// The buffers after a reader appends one decoded line to `slot`: the line
/// plus a trailing newline lands at the end of the slot's buffer, and an
/// append to a slot without a buffer (one racing a teardown) is a silent
/// no-op.
pub open spec fn spec_after_append_line(
    m: Map<usize, Seq<char>>,
    slot: usize,
    line: Seq<char>,
) -> Map<usize, Seq<char>> {
    if m.contains_key(slot) {
        m.insert(slot, m[slot] + line + seq!['\n'])
    } else {
        m
    }
}

/// The buffers after `text` is appended to `slot`, creating the buffer if the
/// slot had none: the prior snapshot followed by `text`.
pub open spec fn spec_after_append_text(
    m: Map<usize, Seq<char>>,
    slot: usize,
    text: Seq<char>,
) -> Map<usize, Seq<char>> {
    m.insert(slot, spec_snapshot(m, slot) + text)
}

/// The per-slot output buffers.
pub struct Aggregator {
    buffers: HashMapWithView<usize, String>,
}

impl View for Aggregator {
    type V = Map<usize, Seq<char>>;

    closed spec fn view(&self) -> Map<usize, Seq<char>> {
        Map::new(
            |slot: usize| self.buffers@.contains_key(slot),
            |slot: usize| self.buffers@[slot]@,
        )
    }
}

impl Aggregator {
    /// Creates an aggregator with no buffers.
    pub fn new() -> (r: Self)
        ensures
            r@ == Map::<usize, Seq<char>>::empty(),
    {
        let r = Aggregator { buffers: HashMapWithView::new() };
        proof {
            assert(r@ =~= Map::<usize, Seq<char>>::empty());
        }
        r
    }

    /// Resets the buffer for `slot` to empty, creating it if absent. Used
    /// when a new process is started in the slot.
    pub fn initialize(&mut self, slot: usize)
        ensures
            final(self)@ == old(self)@.insert(slot, Seq::<char>::empty()),
    {
        self.buffers.insert(slot, String::new());
        proof {
            assert(self@ =~= old(self)@.insert(slot, Seq::<char>::empty()));
        }
    }

    /// Appends one decoded line, plus a trailing newline, to the buffer for
    /// `slot`. Called by the background readers; if the slot has no buffer
    /// (the append is racing a teardown), the line is discarded silently.
    pub fn append_line(&mut self, slot: usize, line: &str)
        ensures
            final(self)@ == spec_after_append_line(old(self)@, slot, line@),
    {
        let existing: Option<String> = match self.buffers.get(&slot) {
            Option::Some(buffer) => Option::Some(buffer.clone()),
            Option::None => Option::None,
        };
        match existing {
            Option::Some(mut grown) => {
                grown.append(line);
                grown.append("\n");
                self.buffers.insert(slot, grown);
                proof {
                    reveal_strlit("\n");
                    assert("\n"@ =~= seq!['\n']);
                    assert(self@ =~= spec_after_append_line(old(self)@, slot, line@));
                }
            },
            Option::None => {
                proof {
                    assert(self@ =~= spec_after_append_line(old(self)@, slot, line@));
                }
            },
        }
    }

    /// Appends `text` to the buffer for `slot`, creating the buffer if the
    /// slot had none. Used to add a marker line onto a preserved buffer when
    /// an install runs in the slot.
    pub fn append_text(&mut self, slot: usize, text: &str)
        ensures
            final(self)@ == spec_after_append_text(old(self)@, slot, text@),
    {
        let mut grown: String = match self.buffers.get(&slot) {
            Option::Some(buffer) => buffer.clone(),
            Option::None => String::new(),
        };
        grown.append(text);
        self.buffers.insert(slot, grown);
        proof {
            assert(self@ =~= spec_after_append_text(old(self)@, slot, text@));
        }
    }

    /// Returns the text accumulated so far for `slot`, or the empty text for
    /// a slot with no buffer. A snapshot only reads: it never consumes the
    /// buffer and never waits for the process to produce more.
    pub fn snapshot(&self, slot: usize) -> (r: String)
        ensures
            r@ == spec_snapshot(self@, slot),
    {
        match self.buffers.get(&slot) {
            Option::Some(buffer) => buffer.clone(),
            Option::None => String::new(),
        }
    }

    /// Reports whether `slot` currently has a buffer.
    pub fn contains(&self, slot: usize) -> (r: bool)
        ensures
            r == self@.contains_key(slot),
    {
        self.buffers.contains_key(&slot)
    }
}

} // verus!
