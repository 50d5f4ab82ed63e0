//! One interface of the bus: what it has received, and what it accepts.
//!
//! [`MockInterface`] is the state that an interface's lock protects. Its
//! functions are ordinary sequential code; the handles of [`crate::bus`] call
//! them while they hold the lock.

use crate::bus::BusHandle;
use crate::filter::{all_well_formed, validate_filters, FilterError, IdMaskFilter};
use crate::frame::{FrameView, MockFrame};
use crate::id::Id;
use crate::sync::{follow, link_target, link_to, share, BusLink};
use std::collections::VecDeque;
use std::sync::{Arc, Condvar};
use vstd::prelude::*;

verus! {

/// The state of one interface.
pub struct MockInterface {
    filters: Vec<IdMaskFilter>,
    bus: Option<BusLink>,
    received_frames: VecDeque<MockFrame>,
    condvar: Arc<Condvar>,
}

/// The state of one interface as a mathematical value.
pub struct InterfaceView {
    /// The acceptance filters, in the order in which they were given.
    pub filters: Seq<IdMaskFilter>,
    /// The frames received and not yet taken out, oldest first.
    pub queue: Seq<FrameView>,
    /// The bus that the interface was attached to, whether that bus still
    /// exists or not; `None` where it was never attached.
    pub bus: Option<BusHandle>,
}

/// The mathematical values of a sequence of frames.
pub open spec fn frame_views(frames: Seq<MockFrame>) -> Seq<FrameView> {
    frames.map_values(|frame: MockFrame| frame@)
}

/// One of the filters accepts the identifier.
pub open spec fn any_accepts(filters: Seq<IdMaskFilter>, id: Id) -> bool {
    exists|i: int| 0 <= i < filters.len() && (#[trigger] filters[i]).accepts(id)
}

impl InterfaceView {
    /// The interface takes frames with this identifier: it has no filter at
    /// all, or one of its filters accepts the identifier.
    pub open spec fn accepts(self, id: Id) -> bool {
        self.filters.len() == 0 || any_accepts(self.filters, id)
    }

    /// The state after `frame` was offered: an accepted frame is the newest of
    /// the queue, a frame that is not accepted leaves no trace.
    pub open spec fn delivered(self, frame: FrameView) -> InterfaceView {
        if self.accepts(frame.id) {
            InterfaceView { queue: self.queue.push(frame), ..self }
        } else {
            self
        }
    }

    /// The oldest frame of the queue, if there is one.
    pub open spec fn front(self) -> Option<FrameView> {
        if self.queue.len() > 0 {
            Some(self.queue[0])
        } else {
            None
        }
    }

    /// The state after the oldest frame, if any, was taken out.
    pub open spec fn popped(self) -> InterfaceView {
        if self.queue.len() > 0 {
            InterfaceView { queue: self.queue.drop_first(), ..self }
        } else {
            self
        }
    }

    /// The state after the interface was attached to `bus`.
    pub open spec fn attached_to(self, bus: BusHandle) -> InterfaceView {
        InterfaceView { bus: Some(bus), ..self }
    }

    /// The state after an attempt to replace the filters by `filters`: all
    /// of them are in place if all are well formed, and none of them
    /// otherwise.
    pub open spec fn replaced(self, filters: Seq<IdMaskFilter>) -> InterfaceView {
        if all_well_formed(filters) {
            InterfaceView { filters, ..self }
        } else {
            self
        }
    }
}

impl View for MockInterface {
    type V = InterfaceView;

    closed spec fn view(&self) -> InterfaceView {
        InterfaceView {
            filters: self.filters@,
            queue: frame_views(self.received_frames@),
            bus: match self.bus {
                Some(link) => Some(BusHandle(link_target(link))),
                None => None,
            },
        }
    }
}

impl MockInterface {
    /// A detached interface with the given filters and nothing received.
    ///
    /// The filters are taken as they are: one whose kinds disagree accepts
    /// nothing.
    pub fn new(filters: Vec<IdMaskFilter>) -> (interface: MockInterface)
        ensures
            interface@ == (InterfaceView {
                filters: filters@,
                queue: Seq::empty(),
                bus: None,
            }),
    {
        let interface = MockInterface {
            filters,
            bus: None,
            received_frames: VecDeque::new(),
            condvar: Arc::new(Condvar::new()),
        };
        assert(frame_views(interface.received_frames@) =~= Seq::empty());
        interface
    }

    /// Whether the interface takes frames with the identifier `id`.
    pub fn accepts(&self, id: Id) -> (accepted: bool)
        ensures
            accepted == self@.accepts(id),
    {
        if self.filters.len() == 0 {
            return true;
        }
        let mut i: usize = 0;
        while i < self.filters.len()
            invariant
                i <= self.filters.len(),
                forall|j: int| 0 <= j < i ==> !(#[trigger] self.filters@[j]).accepts(id),
            decreases self.filters.len() - i,
        {
            if crate::filter::matches(&self.filters[i], id) {
                return true;
            }
            i += 1;
        }
        false
    }

    /// Offers `frame` to the interface. An accepted frame is copied to the end
    /// of the queue, and the threads that wait for a frame are woken.
    pub fn deliver(&mut self, frame: &MockFrame) -> (accepted: bool)
        ensures
            accepted == old(self)@.accepts(frame@.id),
            final(self)@ == old(self)@.delivered(frame@),
    {
        let accepted = self.accepts(frame.id());
        if accepted {
            self.received_frames.push_back(frame.clone());
            self.condvar.notify_all();
            assert(final(self)@.queue =~= old(self)@.queue.push(frame@));
        }
        accepted
    }

    /// Takes the oldest frame out of the queue, if there is one.
    pub fn pop_frame(&mut self) -> (frame: Option<MockFrame>)
        ensures
            frame is Some <==> old(self)@.front() is Some,
            frame matches Some(f) ==> Some(f@) == old(self)@.front(),
            final(self)@ == old(self)@.popped(),
    {
        let frame = self.received_frames.pop_front();
        assert(final(self)@.queue =~= old(self)@.popped().queue);
        frame
    }

    /// Whether the queue holds a frame.
    pub fn has_frames(&self) -> (any: bool)
        ensures
            any == (self@.queue.len() > 0),
    {
        !self.is_idle()
    }

    /// Whether the queue is empty: the condition under which a receiver
    /// waits.
    pub fn is_idle(&self) -> (idle: bool)
        ensures
            idle == (self@.queue.len() == 0),
    {
        self.received_frames.len() == 0
    }

    /// Copies of all queued frames, oldest first. The queue stays as it is.
    pub fn received_frames(&self) -> (frames: Vec<MockFrame>)
        ensures
            frame_views(frames@) == self@.queue,
    {
        let mut frames: Vec<MockFrame> = Vec::new();
        let mut i: usize = 0;
        while i < self.received_frames.len()
            invariant
                i <= self.received_frames.len(),
                frames.len() == i,
                forall|j: int| 0 <= j < i ==> (#[trigger] frames@[j])@ == self.received_frames@[j]@,
            decreases self.received_frames.len() - i,
        {
            frames.push(self.received_frames[i].clone());
            i += 1;
        }
        assert(frame_views(frames@) =~= self@.queue);
        frames
    }

    /// Replaces the filters by `filters` if every one of them is well formed;
    /// otherwise nothing changes.
    pub fn set_filters(&mut self, filters: Vec<IdMaskFilter>) -> (installed: Result<
        (),
        FilterError,
    >)
        ensures
            installed is Ok <==> all_well_formed(filters@),
            installed is Err ==> installed == Err::<(), FilterError>(FilterError::KindMismatch),
            final(self)@ == old(self)@.replaced(filters@),
    {
        match validate_filters(filters.as_slice()) {
            Ok(()) => {
                self.filters = filters;
                Ok(())
            },
            Err(e) => Err(e),
        }
    }

    /// The condition variable of the interface: the one that a delivery
    /// notifies, and on which receivers therefore wait.
    pub closed spec fn arrival(&self) -> Arc<Condvar> {
        self.condvar
    }

    /// The condition variable on which threads wait for a frame to arrive:
    /// one more owner of the interface's own.
    pub(crate) fn condvar(&self) -> (condvar: Arc<Condvar>)
        ensures
            condvar == self.arrival(),
    {
        share(&self.condvar)
    }

    /// The bus that the interface is attached to, if that bus still exists.
    /// An interface that was never attached has none.
    pub fn bus(&self) -> (bus: Option<BusHandle>)
        ensures
            bus is Some ==> bus == self@.bus,
    {
        match &self.bus {
            None => None,
            Some(link) => match follow(link) {
                Some(bus) => Some(BusHandle(bus)),
                None => None,
            },
        }
    }

    /// Records that the interface is now attached to `bus`.
    pub(crate) fn link(&mut self, bus: &BusHandle)
        ensures
            final(self)@ == old(self)@.attached_to(*bus),
    {
        self.bus = Some(link_to(&bus.0));
    }
}

/// First in, first out: two accepted frames stand behind what was queued
/// before them, in the order in which they were offered. On a queue that was
/// empty, the first comes out first, then the second, then nothing.
pub proof fn lemma_first_in_first_out(start: InterfaceView, a: FrameView, b: FrameView)
    requires
        start.accepts(a.id),
        start.accepts(b.id),
    ensures
        start.delivered(a).delivered(b).queue == start.queue.push(a).push(b),
        start.queue.len() == 0 ==> ({
            let full = start.delivered(a).delivered(b);
            &&& full.front() == Some(a)
            &&& full.popped().front() == Some(b)
            &&& full.popped().popped().front() is None
        }),
{
    let full = start.delivered(a).delivered(b);
    if start.queue.len() == 0 {
        assert(full.popped().queue =~= seq![b]);
        assert(full.popped().popped().queue =~= Seq::<FrameView>::empty());
    }
}

/// A list with a filter whose identifier and mask are of different kinds is
/// not well formed, wherever in the list that filter stands.
pub proof fn lemma_mixed_kinds_spoil_the_list(filters: Seq<IdMaskFilter>, i: int)
    requires
        0 <= i < filters.len(),
        filters[i].id.extended() != filters[i].mask.extended(),
    ensures
        !all_well_formed(filters),
{
    assert(!filters[i].well_formed());
}

/// Replacing the filters is all or nothing: a list that is not well formed
/// leaves the interface as it was, so that a frame offered afterwards is
/// taken or refused under the filters that were in place before.
pub proof fn lemma_refused_filters_change_nothing(
    state: InterfaceView,
    filters: Seq<IdMaskFilter>,
    frame: FrameView,
)
    requires
        !all_well_formed(filters),
    ensures
        state.replaced(filters) == state,
        state.replaced(filters).delivered(frame) == state.delivered(frame),
{
}

/// Matching is a union over the filters: two lists that hold the same filters,
/// in whatever order and however often, accept the same identifiers.
pub proof fn lemma_filter_order_is_irrelevant(a: InterfaceView, b: InterfaceView, id: Id)
    requires
        forall|f: IdMaskFilter| a.filters.contains(f) <==> b.filters.contains(f),
    ensures
        a.accepts(id) == b.accepts(id),
{
    if a.filters.len() == 0 {
        if b.filters.len() > 0 {
            assert(b.filters.contains(b.filters[0]));
        }
    } else {
        assert(a.filters.contains(a.filters[0]));
    }
    if any_accepts(a.filters, id) {
        let i = choose|i: int| 0 <= i < a.filters.len() && (#[trigger] a.filters[i]).accepts(id);
        assert(a.filters.contains(a.filters[i]));
        let j = choose|j: int| 0 <= j < b.filters.len() && b.filters[j] == a.filters[i];
        assert(b.filters[j].accepts(id));
    }
    if any_accepts(b.filters, id) {
        let i = choose|i: int| 0 <= i < b.filters.len() && (#[trigger] b.filters[i]).accepts(id);
        assert(b.filters.contains(b.filters[i]));
        let j = choose|j: int| 0 <= j < a.filters.len() && a.filters[j] == b.filters[i];
        assert(a.filters[j].accepts(id));
    }
}

} // verus!
