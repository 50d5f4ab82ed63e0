//! A CAN controller over the mock bus.
//!
//! [`MockCan`] is one interface of a bus with the operations that a driver
//! offers: send, receive, filters. It can be split into a transmit half and a
//! receive half, which share the interface.

use crate::bus::{BusHandle, InterfaceHandle, MockInterfaceError, TransmitError};
use crate::filter::{all_well_formed, FilterError, IdMaskFilter};
use crate::frame::MockFrame;
use core::time::Duration;
use vstd::prelude::*;
use vstd::slice::slice_to_vec;
use vstd::std_specs::convert::FromSpecImpl;

verus! {

/// Error type for the mock backend.
#[derive(Debug, Clone, Copy, PartialEq, Eq, Structural)]
pub enum MockError {
    /// The interface is not attached to any bus.
    BusNotAttached,
    /// The interface was already attached to a bus.
    BusAlreadyAttached,
    /// No frame arrived in the time given.
    Timeout,
    /// No frame is there, and the call does not wait for one.
    WouldBlock,
    /// One or more acceptance filters failed validation.
    InvalidFilters,
}

impl From<TransmitError> for MockError {
    /// The error of the backend for an error of transmit.
    fn from(err: TransmitError) -> (mapped: MockError) {
        match err {
            TransmitError::BusNotAttached => MockError::BusNotAttached,
        }
    }
}

impl FromSpecImpl<TransmitError> for MockError {
    open spec fn obeys_from_spec() -> bool {
        true
    }

    open spec fn from_spec(err: TransmitError) -> MockError {
        MockError::BusNotAttached
    }
}

impl From<FilterError> for MockError {
    /// The error of the backend for a filter that failed validation.
    fn from(_err: FilterError) -> (mapped: MockError) {
        MockError::InvalidFilters
    }
}

impl FromSpecImpl<FilterError> for MockError {
    open spec fn obeys_from_spec() -> bool {
        true
    }

    open spec fn from_spec(err: FilterError) -> MockError {
        MockError::InvalidFilters
    }
}

impl From<MockInterfaceError> for MockError {
    /// The error of the backend for an error of attachment, each under its
    /// own name.
    fn from(err: MockInterfaceError) -> (mapped: MockError) {
        match err {
            MockInterfaceError::BusAlreadyAttached => MockError::BusAlreadyAttached,
            MockInterfaceError::BusNotAttached => MockError::BusNotAttached,
            MockInterfaceError::InvalidFilters => MockError::InvalidFilters,
        }
    }
}

impl FromSpecImpl<MockInterfaceError> for MockError {
    open spec fn obeys_from_spec() -> bool {
        true
    }

    open spec fn from_spec(err: MockInterfaceError) -> MockError {
        match err {
            MockInterfaceError::BusAlreadyAttached => MockError::BusAlreadyAttached,
            MockInterfaceError::BusNotAttached => MockError::BusNotAttached,
            MockInterfaceError::InvalidFilters => MockError::InvalidFilters,
        }
    }
}

/// Combined CAN interface over the mock backend.
pub struct MockCan {
    iface: InterfaceHandle,
    bus: BusHandle,
}

/// Transmit half of the mock backend.
pub struct MockTx {
    iface: InterfaceHandle,
    bus: BusHandle,
}

/// Receive half of the mock backend.
pub struct MockRx {
    iface: InterfaceHandle,
    bus: BusHandle,
}

/// An interface together with the buffers that a caller lends it. The mock
/// sends and receives at once and leaves the buffers as they are.
pub struct MockBuffered<'a, const TX: usize, const RX: usize> {
    iface: InterfaceHandle,
    tx: &'a mut [MockFrame; TX],
    rx: &'a mut [MockFrame; RX],
}

/// Configures a [`MockCan`] before it is made.
pub struct MockBuilder {
    bus: BusHandle,
    filters: Vec<IdMaskFilter>,
}

impl Clone for MockCan {
    /// One more controller on the same interface.
    fn clone(&self) -> (copy: MockCan)
        ensures
            copy == *self,
    {
        MockCan { iface: self.iface.clone(), bus: self.bus.clone() }
    }
}

impl Clone for MockTx {
    /// One more transmit half of the same interface.
    fn clone(&self) -> (copy: MockTx)
        ensures
            copy == *self,
    {
        MockTx { iface: self.iface.clone(), bus: self.bus.clone() }
    }
}

impl Clone for MockRx {
    /// One more receive half of the same interface.
    fn clone(&self) -> (copy: MockRx)
        ensures
            copy == *self,
    {
        MockRx { iface: self.iface.clone(), bus: self.bus.clone() }
    }
}

/// The frame that the queue gave, or the error of a wait that ended without
/// one.
fn or_timeout(frame: Option<MockFrame>) -> (got: Result<MockFrame, MockError>)
    ensures
        got is Ok <==> frame is Some,
        frame matches Some(f) ==> got matches Ok(g) && g@ == f@,
        got matches Err(e) ==> e == MockError::Timeout,
{
    match frame {
        Some(frame) => Ok(frame),
        None => Err(MockError::Timeout),
    }
}

/// The frame that the queue gave, or the error of a queue that is empty.
fn or_would_block(frame: Option<MockFrame>) -> (got: Result<MockFrame, MockError>)
    ensures
        got is Ok <==> frame is Some,
        frame matches Some(f) ==> got matches Ok(g) && g@ == f@,
        got matches Err(e) ==> e == MockError::WouldBlock,
{
    match frame {
        Some(frame) => Ok(frame),
        None => Err(MockError::WouldBlock),
    }
}

/// Transmits a copy of `frame` from `iface`.
fn send_on(iface: &InterfaceHandle, frame: &MockFrame) -> (sent: Result<(), MockError>)
    ensures
        sent matches Err(e) ==> e == MockError::BusNotAttached,
{
    match iface.transmit(frame.clone()) {
        Ok(()) => Ok(()),
        Err(e) => Err(MockError::from(e)),
    }
}

/// Takes the oldest frame of `iface`, after waiting for one if there is none:
/// without end where `timeout` is `None`, else for no longer than `timeout`.
fn recv_on(iface: &InterfaceHandle, timeout: Option<Duration>) -> (got: Result<
    MockFrame,
    MockError,
>)
    ensures
        got matches Err(e) ==> e == MockError::Timeout,
{
    match iface.pop_frame() {
        Some(frame) => Ok(frame),
        None => {
            let has = iface.wait_for_frame(timeout);
            if has {
                or_timeout(iface.pop_frame())
            } else {
                Err(MockError::Timeout)
            }
        },
    }
}

/// Returns once `iface` has a frame, or has had one since the call began.
fn wait_not_empty_on(iface: &InterfaceHandle) -> (done: Result<(), MockError>)
    ensures
        done is Ok,
{
    if iface.has_frames() {
        return Ok(());
    }
    let _ = iface.wait_for_frame(None);
    Ok(())
}

impl MockCan {
    /// The interface that the controller sends and receives on.
    pub closed spec fn interface(&self) -> InterfaceHandle {
        self.iface
    }

    /// The bus that the controller was made on, which it keeps alive.
    pub closed spec fn bus(&self) -> BusHandle {
        self.bus
    }

    /// Attaches a new interface with `filters` to `bus`, unless a filter is
    /// invalid.
    pub fn new_with_bus(bus: &BusHandle, filters: Vec<IdMaskFilter>) -> (made: Result<
        MockCan,
        MockError,
    >)
        ensures
            made is Ok <==> all_well_formed(filters@),
            made matches Ok(can) ==> can.bus() == *bus,
            made matches Err(e) ==> e == MockError::InvalidFilters,
    {
        match bus.add_interface(filters) {
            Ok(iface) => Ok(MockCan { iface, bus: bus.clone() }),
            Err(e) => Err(MockError::from(e)),
        }
    }

    /// Opens an interface on a bus of its own, which accepts every frame.
    /// The name is not used.
    pub fn open(_name: &str) -> (made: Result<MockCan, MockError>)
        ensures
            made is Ok,
    {
        let bus = BusHandle::new();
        MockCan::new_with_bus(&bus, Vec::new())
    }

    /// A builder for an interface on a bus of its own, so far without
    /// filters.
    pub fn builder() -> (builder: MockBuilder)
        ensures
            builder.filters()@ == Seq::<IdMaskFilter>::empty(),
    {
        MockBuilder { bus: BusHandle::new(), filters: Vec::new() }
    }

    /// Sends `frame`; the mock never has to wait for room.
    pub fn send(&mut self, frame: &MockFrame) -> (sent: Result<(), MockError>)
        ensures
            sent matches Err(e) ==> e == MockError::BusNotAttached,
            *final(self) == *old(self),
    {
        send_on(&self.iface, frame)
    }

    /// Sends `frame` without waiting.
    pub fn try_send(&mut self, frame: &MockFrame) -> (sent: Result<(), MockError>)
        ensures
            sent matches Err(e) ==> e == MockError::BusNotAttached,
            *final(self) == *old(self),
    {
        send_on(&self.iface, frame)
    }

    /// Sends `frame`. The mock sends at once, so the timeout is not used.
    pub fn send_timeout(&mut self, frame: &MockFrame, _timeout: Duration) -> (sent: Result<
        (),
        MockError,
    >)
        ensures
            sent matches Err(e) ==> e == MockError::BusNotAttached,
            *final(self) == *old(self),
    {
        self.send(frame)
    }

    /// Receives the oldest frame, waiting until there is one.
    pub fn recv(&mut self) -> (got: Result<MockFrame, MockError>)
        ensures
            got matches Err(e) ==> e == MockError::Timeout,
            *final(self) == *old(self),
    {
        recv_on(&self.iface, None)
    }

    /// Receives the oldest frame if there is one.
    pub fn try_recv(&mut self) -> (got: Result<MockFrame, MockError>)
        ensures
            got matches Err(e) ==> e == MockError::WouldBlock,
            *final(self) == *old(self),
    {
        or_would_block(self.iface.pop_frame())
    }

    /// Receives the oldest frame, waiting up to `timeout` for one.
    pub fn recv_timeout(&mut self, timeout: Duration) -> (got: Result<MockFrame, MockError>)
        ensures
            got matches Err(e) ==> e == MockError::Timeout,
            *final(self) == *old(self),
    {
        recv_on(&self.iface, Some(timeout))
    }

    /// Waits until the receive queue is not empty.
    pub fn wait_not_empty(&mut self) -> (done: Result<(), MockError>)
        ensures
            done is Ok,
            *final(self) == *old(self),
    {
        wait_not_empty_on(&self.iface)
    }

    /// Splits into a transmit half and a receive half of the same interface.
    pub fn split(self) -> (halves: (MockTx, MockRx))
        ensures
            halves.0.interface() == self.interface(),
            halves.0.bus() == self.bus(),
            halves.1.interface() == self.interface(),
            halves.1.bus() == self.bus(),
    {
        (
            MockTx { iface: self.iface.clone(), bus: self.bus.clone() },
            MockRx { iface: self.iface, bus: self.bus },
        )
    }

    /// Replaces the acceptance filters by a copy of `filters`, if every one
    /// of them is well formed.
    pub fn set_filters(&mut self, filters: &[IdMaskFilter]) -> (installed: Result<(), MockError>)
        ensures
            installed is Ok <==> all_well_formed(filters@),
            installed matches Err(e) ==> e == MockError::InvalidFilters,
            *final(self) == *old(self),
    {
        match self.iface.set_filters(slice_to_vec(filters)) {
            Ok(()) => Ok(()),
            Err(e) => Err(MockError::from(e)),
        }
    }

    /// A handle for changing single filters. The mock has none to hand out:
    /// filters are replaced as a whole by [`MockCan::set_filters`].
    pub fn modify_filters(&mut self)
        ensures
            *final(self) == *old(self),
    {
    }

    /// Wraps the interface with the buffers `tx` and `rx`.
    pub fn buffered<'a, const TX: usize, const RX: usize>(
        &'a mut self,
        tx: &'a mut [MockFrame; TX],
        rx: &'a mut [MockFrame; RX],
    ) -> (wrapped: MockBuffered<'a, TX, RX>)
        ensures
            wrapped.interface() == old(self).interface(),
            *final(self) == *old(self),
    {
        MockBuffered { iface: self.iface.clone(), tx, rx }
    }

    /// Whether no frame waits to be sent: always, since the mock sends at
    /// once.
    pub fn is_transmitter_idle(&self) -> (idle: Result<bool, MockError>)
        ensures
            idle == Ok::<bool, MockError>(true),
    {
        Ok(true)
    }

    /// Accepted and without effect: the mock has no blocking mode to change.
    pub fn set_nonblocking(&mut self, _on: bool) -> (set: Result<(), MockError>)
        ensures
            set is Ok,
            *final(self) == *old(self),
    {
        Ok(())
    }
}

impl<'a, const TX: usize, const RX: usize> MockBuffered<'a, TX, RX> {
    /// The interface that was wrapped.
    pub closed spec fn interface(&self) -> InterfaceHandle {
        self.iface
    }
}

impl MockTx {
    /// The interface that the half sends on.
    pub closed spec fn interface(&self) -> InterfaceHandle {
        self.iface
    }

    /// The bus that the half keeps alive.
    pub closed spec fn bus(&self) -> BusHandle {
        self.bus
    }

    /// Sends `frame`; the mock never has to wait for room.
    pub fn send(&mut self, frame: &MockFrame) -> (sent: Result<(), MockError>)
        ensures
            sent matches Err(e) ==> e == MockError::BusNotAttached,
            *final(self) == *old(self),
    {
        send_on(&self.iface, frame)
    }

    /// Sends `frame` without waiting.
    pub fn try_send(&mut self, frame: &MockFrame) -> (sent: Result<(), MockError>)
        ensures
            sent matches Err(e) ==> e == MockError::BusNotAttached,
            *final(self) == *old(self),
    {
        send_on(&self.iface, frame)
    }

    /// Sends `frame`. The mock sends at once, so the timeout is not used.
    pub fn send_timeout(&mut self, frame: &MockFrame, _timeout: Duration) -> (sent: Result<
        (),
        MockError,
    >)
        ensures
            sent matches Err(e) ==> e == MockError::BusNotAttached,
            *final(self) == *old(self),
    {
        self.send(frame)
    }
}

impl MockRx {
    /// The interface that the half receives on.
    pub closed spec fn interface(&self) -> InterfaceHandle {
        self.iface
    }

    /// The bus that the half keeps alive.
    pub closed spec fn bus(&self) -> BusHandle {
        self.bus
    }

    /// Receives the oldest frame, waiting until there is one.
    pub fn recv(&mut self) -> (got: Result<MockFrame, MockError>)
        ensures
            got matches Err(e) ==> e == MockError::Timeout,
            *final(self) == *old(self),
    {
        match self.iface.pop_frame() {
            Some(frame) => Ok(frame),
            None => {
                self.iface.wait_for_frame(None);
                or_timeout(self.iface.pop_frame())
            },
        }
    }

    /// Receives the oldest frame if there is one.
    pub fn try_recv(&mut self) -> (got: Result<MockFrame, MockError>)
        ensures
            got matches Err(e) ==> e == MockError::WouldBlock,
            *final(self) == *old(self),
    {
        or_would_block(self.iface.pop_frame())
    }

    /// Receives the oldest frame, waiting up to `timeout` for one.
    pub fn recv_timeout(&mut self, timeout: Duration) -> (got: Result<MockFrame, MockError>)
        ensures
            got matches Err(e) ==> e == MockError::Timeout,
            *final(self) == *old(self),
    {
        recv_on(&self.iface, Some(timeout))
    }

    /// Waits until the receive queue is not empty.
    pub fn wait_not_empty(&mut self) -> (done: Result<(), MockError>)
        ensures
            done is Ok,
            *final(self) == *old(self),
    {
        wait_not_empty_on(&self.iface)
    }
}

impl MockBuilder {
    /// The filters that the interface will be made with.
    pub closed spec fn filters(&self) -> Vec<IdMaskFilter> {
        self.filters
    }

    /// The bus that the interface will be attached to.
    pub closed spec fn bus(&self) -> BusHandle {
        self.bus
    }

    /// Sets the filters that the interface will be made with. They are checked
    /// when the interface is built.
    pub fn with_filters(self, filters: Vec<IdMaskFilter>) -> (builder: Result<
        MockBuilder,
        MockError,
    >)
        ensures
            builder matches Ok(b) && b.filters() == filters && b.bus() == self.bus(),
    {
        let mut builder = self;
        builder.filters = filters;
        Ok(builder)
    }

    /// Attaches a new interface with the builder's filters to the builder's
    /// bus.
    pub fn build(self) -> (made: Result<MockCan, MockError>)
        ensures
            made is Ok <==> all_well_formed(self.filters()@),
            made matches Ok(can) ==> can.bus() == self.bus(),
            made matches Err(e) ==> e == MockError::InvalidFilters,
    {
        MockCan::new_with_bus(&self.bus, self.filters)
    }
}

} // verus!
