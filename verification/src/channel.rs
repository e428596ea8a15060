//! Bounded line channel between the supervisor and the display.
//!
//! The supervisor is the sole producer and the display layer the sole
//! consumer.  Sends never block: when the channel is full the newest line
//! is dropped, since captioning favors liveness over completeness.

use vstd::prelude::*;
use crate::transcript::{spec_line_for_event, Line, RecognitionEvent};

verus! {

/// Capacity of the channel carrying transcript lines to the display.
pub const LINE_CHANNEL_CAPACITY: usize = 10;

/// Capacity of the channel carrying operator commands to the supervisor.
pub const CONTROL_BUS_CAPACITY: usize = 5;

/// Bounded first-in-first-out buffer of transcript lines.
pub struct LineChannel {
    items: Vec<Line>,
    capacity: usize,
}

impl View for LineChannel {
    type V = Seq<Line>;

    /// The queued lines, oldest first.
    closed spec fn view(&self) -> Seq<Line> {
        self.items@
    }
}

impl LineChannel {
    /// The bound the channel was created with.
    pub closed spec fn spec_capacity(&self) -> usize {
        self.capacity
    }

    /// An empty channel holding at most `capacity` lines.
    pub fn new(capacity: usize) -> (ch: LineChannel)
        ensures
            ch@ == Seq::<Line>::empty(),
            ch.spec_capacity() == capacity,
    {
        LineChannel { items: Vec::new(), capacity }
    }

    /// The bound the channel was created with.
    pub fn capacity(&self) -> (c: usize)
        ensures
            c == self.spec_capacity(),
    {
        self.capacity
    }

    /// How many lines are queued.
    pub fn len(&self) -> (n: usize)
        ensures
            n == self@.len(),
    {
        self.items.len()
    }

    /// Non-blocking send: the line is queued if there is room, and dropped
    /// otherwise, leaving the channel unchanged.
    pub fn try_send(&mut self, line: Line) -> (accepted: bool)
        ensures
            old(self)@.len() < old(self).spec_capacity() ==> accepted && final(self)@ == old(
                self,
            )@.push(line),
            old(self)@.len() >= old(self).spec_capacity() ==> !accepted && final(self)@ == old(
                self,
            )@,
            final(self).spec_capacity() == old(self).spec_capacity(),
    {
        if self.items.len() < self.capacity {
            self.items.push(line);
            true
        } else {
            false
        }
    }

    /// Non-blocking receive of the oldest queued line.
    pub fn try_recv(&mut self) -> (r: Option<Line>)
        ensures
            old(self)@.len() == 0 ==> r is None && final(self)@ == old(self)@,
            old(self)@.len() > 0 ==> r == Some(old(self)@.first()) && final(self)@ == old(
                self,
            )@.drop_first(),
            final(self).spec_capacity() == old(self).spec_capacity(),
    {
        if self.items.len() == 0 {
            None
        } else {
            Some(self.items.remove(0))
        }
    }
}

/// Contents of the channel after one event is forwarded: the line the event
/// stands for is appended when there is room, and otherwise nothing changes.
pub open spec fn spec_forward(contents: Seq<Line>, capacity: usize, ev: RecognitionEvent) -> Seq<
    Line,
> {
    match spec_line_for_event(ev) {
        Some(line) => if contents.len() < capacity {
            contents.push(line)
        } else {
            contents
        },
        None => contents,
    }
}

/// Contents of the channel after a run of events is forwarded in order.
pub open spec fn spec_forward_all(
    contents: Seq<Line>,
    capacity: usize,
    events: Seq<RecognitionEvent>,
) -> Seq<Line>
    decreases events.len(),
{
    if events.len() == 0 {
        contents
    } else {
        spec_forward_all(spec_forward(contents, capacity, events.first()), capacity,
            events.drop_first())
    }
}

/// The transcript lines a run of events stands for, in order.
pub open spec fn spec_lines_for_events(events: Seq<RecognitionEvent>) -> Seq<Line>
    decreases events.len(),
{
    if events.len() == 0 {
        Seq::empty()
    } else {
        match spec_line_for_event(events.first()) {
            Some(line) => seq![line] + spec_lines_for_events(events.drop_first()),
            None => spec_lines_for_events(events.drop_first()),
        }
    }
}

/// Forward one recognition event to the display channel without blocking.
/// Interim and final events append their line when the channel has room;
/// a full channel drops the new line and reports it; error events deliver
/// nothing.
pub fn forward_event(ev: RecognitionEvent, channel: &mut LineChannel) -> (dropped: bool)
    ensures
        final(channel)@ == spec_forward(old(channel)@, old(channel).spec_capacity(), ev),
        dropped <==> spec_line_for_event(ev) is Some && old(channel)@.len() >= old(
            channel,
        ).spec_capacity(),
        final(channel).spec_capacity() == old(channel).spec_capacity(),
{
    match crate::transcript::line_for_event(ev) {
        Some(line) => !channel.try_send(line),
        None => false,
    }
}

/// Ordered, lossless delivery: as long as the channel has room for every
/// line, forwarding a run of events queues exactly the lines those events
/// stand for, in their order, after what was already queued.
pub proof fn lemma_forwarding_preserves_order(
    contents: Seq<Line>,
    capacity: usize,
    events: Seq<RecognitionEvent>,
)
    requires
        contents.len() + spec_lines_for_events(events).len() <= capacity,
    ensures
        spec_forward_all(contents, capacity, events) == contents + spec_lines_for_events(events),
    decreases events.len(),
{
    if events.len() == 0 {
        assert(contents + Seq::<Line>::empty() =~= contents);
    } else {
        let first = events.first();
        let rest = events.drop_first();
        match spec_line_for_event(first) {
            Some(line) => {
                assert(spec_lines_for_events(events) == seq![line] + spec_lines_for_events(rest));
                lemma_forwarding_preserves_order(contents.push(line), capacity, rest);
                assert(contents.push(line) + spec_lines_for_events(rest) =~= contents + (
                seq![line] + spec_lines_for_events(rest)));
            },
            None => {
                lemma_forwarding_preserves_order(contents, capacity, rest);
            },
        }
    }
}

} // verus!
