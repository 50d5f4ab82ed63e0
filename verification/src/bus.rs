//! The shared bus and the handles to it.
//!
//! A [`BusHandle`] owns a shared in-memory bus. Any number of interfaces can
//! be attached to it; each is reached through an [`InterfaceHandle`] and has
//! its own receive queue and acceptance filters.
//!
//! - Transmit is immediate and synchronous.
//! - A frame goes to every attached interface that accepts it, the sender
//!   included.
//! - Receive queues are unbounded.
//!
//! The bus and each interface sit behind a lock of their own, so what a
//! handle finds there depends on the other threads. The contracts of the
//! handles therefore say only what holds whatever the locks held; what happens
//! to the state that a lock holds is stated, exactly, by the functions of
//! [`MockInterface`] that the handles call.
//!
//! Locks are taken in one order: the lock of a bus before the lock of an
//! interface, and never the locks of two interfaces at once. A transmit
//! looks its bus up under the lock of the sending interface, lets that lock
//! go, and only then takes the lock of the bus; the bus then takes the lock of
//! each of its interfaces in turn, the sender's among them.

use crate::filter::{all_well_formed, validate_filters, FilterError, IdMaskFilter};
use crate::frame::{FrameView, MockFrame};
use crate::interface::{InterfaceView, MockInterface};
use crate::sync::{
    acquire, held, held_mut, recover, share, wait_timeout_while_idle, wait_while_idle,
};
use core::time::Duration;
use std::sync::{Arc, Mutex};
use vstd::prelude::*;

verus! {

/// Errors returned when transmitting a frame via an [`InterfaceHandle`].
#[derive(Debug, Clone, Copy, PartialEq, Eq, Structural)]
pub enum TransmitError {
    /// The interface is not attached to any bus.
    BusNotAttached,
}

/// Errors returned by bus / interface attachment operations.
#[derive(Debug, Clone, Copy, PartialEq, Eq, Structural)]
pub enum MockInterfaceError {
    /// The interface was already attached to a bus.
    BusAlreadyAttached,
    /// The interface is not attached to any bus.
    BusNotAttached,
    /// One or more acceptance filters failed validation.
    InvalidFilters,
}

/// The interfaces attached to one bus, in the order of their attachment: the
/// state that the lock of a bus protects.
pub struct MockBus {
    interfaces: Vec<Arc<Mutex<MockInterface>>>,
}

/// Handle to a shared in-memory bus.
///
/// In contracts, two handles are equal when they are handles to the same bus.
pub struct BusHandle(pub(crate) Arc<Mutex<MockBus>>);

/// Handle to a single mock CAN interface (node).
///
/// Each interface has a receive queue of frames delivered by the bus, and a
/// list of filters that decides which frames are queued.
///
/// In contracts, two handles are equal when they are handles to the same
/// interface.
pub struct InterfaceHandle(pub(crate) Arc<Mutex<MockInterface>>);

impl Clone for BusHandle {
    /// One more handle to the same bus.
    fn clone(&self) -> (copy: BusHandle)
        ensures
            copy == *self,
    {
        BusHandle(share(&self.0))
    }
}

impl Clone for InterfaceHandle {
    /// One more handle to the same interface.
    fn clone(&self) -> (copy: InterfaceHandle)
        ensures
            copy == *self,
    {
        InterfaceHandle(share(&self.0))
    }
}

/// What one transmit saw of the interfaces of a bus.
pub struct Broadcast {
    /// The state in which each interface was found when its turn came, in the
    /// order of attachment.
    pub found: Seq<InterfaceView>,
    /// The state in which each interface was left when its turn ended.
    pub left: Seq<InterfaceView>,
}

/// The interfaces after each of them was offered `frame`.
pub open spec fn fan_out(interfaces: Seq<InterfaceView>, frame: FrameView) -> Seq<InterfaceView> {
    interfaces.map_values(|interface: InterfaceView| interface.delivered(frame))
}

impl MockBus {
    /// The attached interfaces, in the order of their attachment.
    pub closed spec fn interfaces(&self) -> Seq<Arc<Mutex<MockInterface>>> {
        self.interfaces@
    }

    /// A bus without interfaces.
    pub fn new() -> (bus: MockBus)
        ensures
            bus.interfaces() == Seq::<Arc<Mutex<MockInterface>>>::empty(),
    {
        MockBus { interfaces: Vec::new() }
    }

    /// Adds `interface` behind the interfaces attached so far.
    pub fn attach(&mut self, interface: Arc<Mutex<MockInterface>>)
        ensures
            final(self).interfaces() == old(self).interfaces().push(interface),
    {
        self.interfaces.push(interface);
    }

    /// The number of attached interfaces.
    pub fn interface_count(&self) -> (count: usize)
        ensures
            count == self.interfaces().len(),
    {
        self.interfaces.len()
    }

    /// Offers `frame` to every attached interface, in the order of
    /// attachment. Each interface is locked for its own turn only, so other
    /// threads may use an interface before and after its turn.
    ///
    /// The result records what the turns saw: every attached interface had
    /// one turn, and was left as [`InterfaceView::delivered`] says of the
    /// state in which it was found.
    pub fn transmit(&self, frame: MockFrame) -> (seen: Ghost<Broadcast>)
        ensures
            seen@.found.len() == self.interfaces().len(),
            seen@.left == fan_out(seen@.found, frame@),
    {
        let ghost mut found: Seq<InterfaceView> = Seq::empty();
        let ghost mut left: Seq<InterfaceView> = Seq::empty();
        let mut i: usize = 0;
        while i < self.interfaces.len()
            invariant
                i <= self.interfaces.len(),
                found.len() == i,
                left == fan_out(found, frame@),
            decreases self.interfaces.len() - i,
        {
            let mut guard = acquire(&self.interfaces[i]);
            let interface = held_mut(&mut guard);
            proof {
                found = found.push(interface@);
            }
            interface.deliver(&frame);
            proof {
                left = left.push(interface@);
            }
            i += 1;
        }
        Ghost(Broadcast { found, left })
    }
}

impl MockInterface {
    /// Attaches the interface, which `me` holds, to `bus`, whose interfaces
    /// are `registry`, unless it is attached to a bus that still exists.
    pub fn attach_to_bus(
        &mut self,
        me: &InterfaceHandle,
        bus: &BusHandle,
        registry: &mut MockBus,
    ) -> (attached: Result<(), MockInterfaceError>)
        ensures
            old(self)@.bus is None ==> attached is Ok,
            attached is Ok ==> final(self)@ == old(self)@.attached_to(*bus),
            attached is Ok ==> final(registry).interfaces() == old(registry).interfaces().push(
                me.interface(),
            ),
            attached is Err ==> attached == Err::<(), MockInterfaceError>(
                MockInterfaceError::BusAlreadyAttached,
            ),
            attached is Err ==> final(self)@ == old(self)@,
            attached is Err ==> final(registry).interfaces() == old(registry).interfaces(),
    {
        let current = self.bus();
        self.attach_unless(current, me, bus, registry)
    }

    /// Attaches the interface, which `me` holds, to `bus`, whose interfaces
    /// are `registry`, unless `current` is a bus: the one that the interface
    /// was found attached to. A refused attempt changes neither the interface
    /// nor the interfaces of `bus`.
    pub fn attach_unless(
        &mut self,
        current: Option<BusHandle>,
        me: &InterfaceHandle,
        bus: &BusHandle,
        registry: &mut MockBus,
    ) -> (attached: Result<(), MockInterfaceError>)
        ensures
            attached is Err <==> current is Some,
            attached is Ok ==> final(self)@ == old(self)@.attached_to(*bus),
            attached is Ok ==> final(registry).interfaces() == old(registry).interfaces().push(
                me.interface(),
            ),
            attached is Err ==> attached == Err::<(), MockInterfaceError>(
                MockInterfaceError::BusAlreadyAttached,
            ),
            attached is Err ==> final(self)@ == old(self)@,
            attached is Err ==> final(registry).interfaces() == old(registry).interfaces(),
    {
        match current {
            Some(_) => Err(MockInterfaceError::BusAlreadyAttached),
            None => {
                registry.attach(share(&me.0));
                self.link(bus);
                Ok(())
            },
        }
    }

    /// Finds the bus of the interface that `me` holds, lets the lock of the
    /// interface go, and transmits `frame` on that bus.
    pub(crate) fn transmit_arc(me: &Arc<Mutex<MockInterface>>, frame: MockFrame) -> (sent: Result<
        (),
        TransmitError,
    >)
        ensures
            sent matches Err(e) ==> e == TransmitError::BusNotAttached,
    {
        let bus = {
            let guard = acquire(me);
            held(&guard).bus()
        };
        transmit_on(bus, frame)
    }
}

/// Transmits `frame` on `bus`, as [`MockBus::transmit`] states; without a bus
/// there is nothing to transmit on.
pub fn transmit_on(bus: Option<BusHandle>, frame: MockFrame) -> (sent: Result<(), TransmitError>)
    ensures
        sent is Ok <==> bus is Some,
        sent is Err ==> sent == Err::<(), TransmitError>(TransmitError::BusNotAttached),
{
    match bus {
        Some(bus) => {
            let registry = acquire(&bus.0);
            let _ = held(&registry).transmit(frame);
            Ok(())
        },
        None => Err(TransmitError::BusNotAttached),
    }
}

impl BusHandle {
    /// Create a new, empty bus: [`MockBus::new`] behind a lock.
    pub fn new() -> BusHandle {
        BusHandle(Arc::new(Mutex::new(MockBus::new())))
    }

    /// Attach a new interface to this bus.
    ///
    /// If `filters` is empty, the interface receives all frames. Otherwise it
    /// only receives frames matching at least one filter. A list with an
    /// invalid filter is refused, and no interface is made.
    ///
    /// The interface is made by [`MockInterface::new`], and it is attached
    /// before any other thread can know of it.
    pub fn add_interface(&self, filters: Vec<IdMaskFilter>) -> (added: Result<
        InterfaceHandle,
        MockInterfaceError,
    >)
        ensures
            added is Ok <==> all_well_formed(filters@),
            added matches Err(e) ==> e == MockInterfaceError::InvalidFilters,
    {
        match validate_filters(filters.as_slice()) {
            Ok(()) => {},
            Err(_) => {
                return Err(MockInterfaceError::InvalidFilters);
            },
        }
        let mut interface = MockInterface::new(filters);
        interface.link(self);
        let handle = InterfaceHandle(Arc::new(Mutex::new(interface)));
        let mut registry = acquire(&self.0);
        held_mut(&mut registry).attach(share(&handle.0));
        Ok(handle)
    }

    /// Number of interfaces currently attached to the bus:
    /// [`MockBus::interface_count`] at the time the bus was locked.
    pub fn interface_count(&self) -> usize {
        let registry = acquire(&self.0);
        held(&registry).interface_count()
    }
}

impl Default for BusHandle {
    fn default() -> BusHandle {
        BusHandle::new()
    }
}

impl InterfaceHandle {
    /// The interface that the handle is a handle to, behind its lock.
    pub closed spec fn interface(&self) -> Arc<Mutex<MockInterface>> {
        self.0
    }

    /// Create a new interface that is not attached to any bus yet:
    /// [`MockInterface::new`] behind a lock.
    ///
    /// Use [`InterfaceHandle::attach_to_bus`] to connect it to a [`BusHandle`].
    pub fn new_unattached(filters: Vec<IdMaskFilter>) -> InterfaceHandle {
        InterfaceHandle(Arc::new(Mutex::new(MockInterface::new(filters))))
    }

    /// Attach this interface to `bus`.
    ///
    /// Returns [`MockInterfaceError::BusAlreadyAttached`] if the interface is
    /// already attached to a bus that still exists. What is decided, and what
    /// then changes, is stated by [`MockInterface::attach_to_bus`].
    pub fn attach_to_bus(&self, bus: &BusHandle) -> (attached: Result<(), MockInterfaceError>)
        ensures
            attached matches Err(e) ==> e == MockInterfaceError::BusAlreadyAttached,
    {
        let mut registry = acquire(&bus.0);
        let mut guard = acquire(&self.0);
        held_mut(&mut guard).attach_to_bus(self, bus, held_mut(&mut registry))
    }

    /// Transmit `frame` onto the bus.
    ///
    /// Frames are broadcast to all attached interfaces (including this
    /// interface) subject to the receivers' acceptance filters. The bus is
    /// found by [`MockInterface::bus`]; the rest is [`transmit_on`].
    pub fn transmit(&self, frame: MockFrame) -> (sent: Result<(), TransmitError>)
        ensures
            sent matches Err(e) ==> e == TransmitError::BusNotAttached,
    {
        MockInterface::transmit_arc(&self.0, frame)
    }

    /// Return a snapshot of all currently queued received frames.
    ///
    /// This does not remove frames from the receive queue; use
    /// [`pop_frame`](Self::pop_frame) to consume frames. The snapshot is
    /// [`MockInterface::received_frames`] at the time the interface was locked.
    pub fn received_frames(&self) -> Vec<MockFrame> {
        let guard = acquire(&self.0);
        held(&guard).received_frames()
    }

    /// Replace this interface's acceptance filter list.
    ///
    /// If `filters` is empty, the interface receives all frames. Otherwise it
    /// only receives frames matching at least one filter. A list with an
    /// invalid filter is refused, and the filters in place stay, as
    /// [`MockInterface::set_filters`] states.
    pub fn set_filters(&self, filters: Vec<IdMaskFilter>) -> (installed: Result<(), FilterError>)
        ensures
            installed is Ok <==> all_well_formed(filters@),
            installed matches Err(e) ==> e == FilterError::KindMismatch,
    {
        let mut guard = acquire(&self.0);
        held_mut(&mut guard).set_filters(filters)
    }

    /// Remove and return the oldest received frame, if any:
    /// [`MockInterface::pop_frame`] at the time the interface was locked.
    pub fn pop_frame(&self) -> Option<MockFrame> {
        let mut guard = acquire(&self.0);
        held_mut(&mut guard).pop_frame()
    }

    /// Returns `true` if any frames are currently queued for receive:
    /// [`MockInterface::has_frames`] at the time the interface was locked.
    pub fn has_frames(&self) -> bool {
        let guard = acquire(&self.0);
        held(&guard).has_frames()
    }

    /// Wait until at least one frame is available to receive.
    ///
    /// - `timeout: None` blocks indefinitely.
    /// - `timeout: Some(d)` waits up to `d` and returns whether a frame became
    ///   available.
    ///
    /// The lock of the interface is given up while the thread sleeps, so that
    /// a transmit can deliver the frame that ends the wait.
    pub fn wait_for_frame(&self, timeout: Option<Duration>) -> (ready: bool)
        ensures
            timeout is None ==> ready,
    {
        let guard = acquire(&self.0);
        let condvar = held(&guard).condvar();
        match timeout {
            Some(timeout) => {
                let (guard, _) = recover(wait_timeout_while_idle(&condvar, guard, timeout));
                held(&guard).has_frames()
            },
            None => {
                let _guard = recover(wait_while_idle(&condvar, guard));
                true
            },
        }
    }
}

/// Delivery, and with it loopback: an interface of the bus that accepts the
/// frame's identifier under its own filters, the sender as much as any other,
/// has the frame as the newest of its queue after its turn.
pub proof fn lemma_accepted_frame_is_queued(
    interfaces: Seq<InterfaceView>,
    frame: FrameView,
    i: int,
)
    requires
        0 <= i < interfaces.len(),
        interfaces[i].accepts(frame.id),
    ensures
        fan_out(interfaces, frame)[i].queue == interfaces[i].queue.push(frame),
        fan_out(interfaces, frame)[i].queue.last() == frame,
{
}

/// An interface that does not accept the frame's identifier is left as it was
/// found.
pub proof fn lemma_refused_frame_leaves_no_trace(
    interfaces: Seq<InterfaceView>,
    frame: FrameView,
    i: int,
)
    requires
        0 <= i < interfaces.len(),
        !interfaces[i].accepts(frame.id),
    ensures
        fan_out(interfaces, frame)[i] == interfaces[i],
{
}

/// Broadcast: where no interface has a filter, each of them gains exactly one
/// entry, the frame, behind what it had queued before; so a bus of `n`
/// interfaces with empty queues ends with `n` entries, one in each queue.
pub proof fn lemma_broadcast_reaches_all(interfaces: Seq<InterfaceView>, frame: FrameView)
    requires
        forall|i: int| 0 <= i < interfaces.len() ==> (#[trigger] interfaces[i]).filters.len() == 0,
    ensures
        fan_out(interfaces, frame).len() == interfaces.len(),
        forall|i: int|
            0 <= i < interfaces.len() ==> (#[trigger] fan_out(interfaces, frame)[i]).queue
                == interfaces[i].queue.push(frame),
        forall|i: int|
            0 <= i < interfaces.len() && interfaces[i].queue.len() == 0
                ==> (#[trigger] fan_out(interfaces, frame)[i]).queue == seq![frame],
{
    assert forall|i: int| 0 <= i < interfaces.len() && interfaces[i].queue.len() == 0 implies (
    #[trigger] fan_out(interfaces, frame)[i]).queue == seq![frame] by {
        assert(interfaces[i].queue.push(frame) =~= seq![frame]);
    }
}

} // verus!
