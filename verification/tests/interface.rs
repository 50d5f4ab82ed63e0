use embedded_can_mock::{
    BusHandle, ExtendedId, FilterError, Id, IdMask, IdMaskFilter, InterfaceHandle, MockBus,
    MockFrame, MockInterface, MockInterfaceError, StandardId,
};

fn standard(raw: u16) -> Id {
    Id::Standard(StandardId::new(raw).unwrap())
}

fn extended(raw: u32) -> Id {
    Id::Extended(ExtendedId::new(raw).unwrap())
}

fn frame(id: Id, data: &[u8]) -> MockFrame {
    MockFrame::new(id, data).unwrap()
}

fn only(raw: u16) -> IdMaskFilter {
    IdMaskFilter { id: standard(raw), mask: IdMask::Standard(0x7FF) }
}

#[test]
fn new_interface_is_empty_and_detached() {
    let mut interface = MockInterface::new(vec![]);
    assert!(!interface.has_frames());
    assert!(interface.is_idle());
    assert!(interface.received_frames().is_empty());
    assert_eq!(interface.pop_frame(), None);
    assert!(interface.bus().is_none());
}

#[test]
fn interface_without_filters_accepts_everything() {
    let interface = MockInterface::new(vec![]);
    assert!(interface.accepts(standard(0)));
    assert!(interface.accepts(standard(0x7FF)));
    assert!(interface.accepts(extended(0x1FFF_FFFF)));
}

#[test]
fn interface_accepts_what_any_one_filter_accepts() {
    let wide = IdMaskFilter { id: extended(0x1ABCDE00), mask: IdMask::Extended(0x1FFFFF00) };
    let interface = MockInterface::new(vec![only(0x100), only(0x200), wide]);
    assert!(interface.accepts(standard(0x100)));
    assert!(interface.accepts(standard(0x200)));
    assert!(interface.accepts(extended(0x1ABCDE42)));
    assert!(!interface.accepts(standard(0x300)));
    assert!(!interface.accepts(extended(0x100)));
}

#[test]
fn order_of_filters_does_not_matter() {
    let a = MockInterface::new(vec![only(0x100), only(0x200)]);
    let b = MockInterface::new(vec![only(0x200), only(0x100)]);
    for raw in [0x0FFu16, 0x100, 0x101, 0x200, 0x201] {
        assert_eq!(a.accepts(standard(raw)), b.accepts(standard(raw)));
    }
}

#[test]
fn deliver_queues_an_accepted_frame() {
    let mut interface = MockInterface::new(vec![only(0x123)]);
    let wanted = frame(standard(0x123), &[0xAA]);
    assert!(interface.deliver(&wanted));
    assert!(interface.has_frames());
    assert!(!interface.is_idle());
    assert_eq!(interface.received_frames(), vec![wanted]);
}

#[test]
fn deliver_drops_a_frame_that_is_not_accepted() {
    let mut interface = MockInterface::new(vec![only(0x123)]);
    assert!(!interface.deliver(&frame(standard(0x321), &[0xBB])));
    assert!(!interface.deliver(&frame(extended(0x123), &[0xBB])));
    assert!(!interface.has_frames());
    assert!(interface.received_frames().is_empty());
}

#[test]
fn frames_come_out_in_the_order_they_went_in() {
    let mut interface = MockInterface::new(vec![]);
    let a = frame(standard(0x1), &[1]);
    let b = frame(extended(0x2), &[2, 2]);
    assert!(interface.deliver(&a));
    assert!(interface.deliver(&b));
    assert_eq!(interface.pop_frame(), Some(a));
    assert_eq!(interface.pop_frame(), Some(b));
    assert_eq!(interface.pop_frame(), None);
    assert!(!interface.has_frames());
}

#[test]
fn same_frame_twice_is_queued_twice() {
    let mut interface = MockInterface::new(vec![]);
    let a = frame(standard(0x1), &[1]);
    assert!(interface.deliver(&a));
    assert!(interface.deliver(&a));
    assert_eq!(interface.received_frames().len(), 2);
    assert_eq!(interface.pop_frame(), Some(a.clone()));
    assert_eq!(interface.pop_frame(), Some(a));
    assert_eq!(interface.pop_frame(), None);
}

#[test]
fn received_frames_leaves_the_queue_alone() {
    let mut interface = MockInterface::new(vec![]);
    let a = frame(standard(0x10), &[1]);
    let b = MockFrame::new_remote(standard(0x11), 3).unwrap();
    interface.deliver(&a);
    interface.deliver(&b);
    assert_eq!(interface.received_frames(), vec![a.clone(), b.clone()]);
    assert_eq!(interface.received_frames(), vec![a.clone(), b.clone()]);
    assert_eq!(interface.pop_frame(), Some(a));
    assert_eq!(interface.received_frames(), vec![b]);
}

#[test]
fn set_filters_replaces_the_filters() {
    let mut interface = MockInterface::new(vec![only(0x100)]);
    assert_eq!(interface.set_filters(vec![only(0x200)]), Ok(()));
    assert!(!interface.accepts(standard(0x100)));
    assert!(interface.accepts(standard(0x200)));
    assert_eq!(interface.set_filters(vec![]), Ok(()));
    assert!(interface.accepts(standard(0x100)));
    assert!(interface.accepts(extended(0x300)));
}

#[test]
fn set_filters_keeps_the_queue() {
    let mut interface = MockInterface::new(vec![]);
    let a = frame(standard(0x100), &[1]);
    interface.deliver(&a);
    assert_eq!(interface.set_filters(vec![only(0x200)]), Ok(()));
    assert_eq!(interface.received_frames(), vec![a]);
}

#[test]
fn refused_filters_leave_the_old_ones_in_place() {
    let mut interface = MockInterface::new(vec![only(0x100)]);
    let bad = IdMaskFilter { id: extended(0x1ABCDE0), mask: IdMask::Standard(0x7FF) };
    assert_eq!(interface.set_filters(vec![only(0x200), bad]), Err(FilterError::KindMismatch));
    assert!(interface.accepts(standard(0x100)));
    assert!(!interface.accepts(standard(0x200)));
    let matching = frame(standard(0x100), &[7]);
    assert!(interface.deliver(&matching));
    assert!(!interface.deliver(&frame(standard(0x200), &[8])));
    assert_eq!(interface.received_frames(), vec![matching]);
}

#[test]
fn interface_made_with_only_invalid_filters_accepts_nothing() {
    let bad = IdMaskFilter { id: standard(0x100), mask: IdMask::Extended(0x7FF) };
    let mut interface = MockInterface::new(vec![bad]);
    assert!(!interface.accepts(standard(0x100)));
    assert!(!interface.accepts(extended(0x100)));
    assert!(!interface.deliver(&frame(standard(0x100), &[1])));
    assert!(!interface.has_frames());
}

#[test]
fn detached_interface_is_attached_and_registered() {
    let bus = BusHandle::new();
    let me = InterfaceHandle::new_unattached(vec![]);
    let mut registry = MockBus::new();
    let mut interface = MockInterface::new(vec![]);

    assert_eq!(interface.attach_to_bus(&me, &bus, &mut registry), Ok(()));

    assert_eq!(registry.interface_count(), 1);
    assert!(interface.bus().is_some());
}

#[test]
fn attached_interface_is_refused_and_nothing_changes() {
    let bus = BusHandle::new();
    let other = BusHandle::new();
    let me = InterfaceHandle::new_unattached(vec![]);
    let mut registry = MockBus::new();
    let mut other_registry = MockBus::new();
    let mut interface = MockInterface::new(vec![only(0x100)]);
    interface.deliver(&frame(standard(0x100), &[1]));
    interface.attach_to_bus(&me, &bus, &mut registry).unwrap();

    assert_eq!(
        interface.attach_to_bus(&me, &bus, &mut registry),
        Err(MockInterfaceError::BusAlreadyAttached)
    );
    assert_eq!(
        interface.attach_to_bus(&me, &other, &mut other_registry),
        Err(MockInterfaceError::BusAlreadyAttached)
    );

    assert_eq!(registry.interface_count(), 1);
    assert_eq!(other_registry.interface_count(), 0);
    assert!(interface.accepts(standard(0x100)));
    assert!(!interface.accepts(standard(0x101)));
    assert_eq!(interface.received_frames().len(), 1);
}

#[test]
fn interface_whose_bus_is_gone_can_be_attached_again() {
    let bus = BusHandle::new();
    let me = InterfaceHandle::new_unattached(vec![]);
    let mut registry = MockBus::new();
    let mut interface = MockInterface::new(vec![]);
    interface.attach_to_bus(&me, &bus, &mut registry).unwrap();
    drop(bus);
    assert!(interface.bus().is_none());

    let next = BusHandle::new();
    let mut next_registry = MockBus::new();
    assert_eq!(interface.attach_to_bus(&me, &next, &mut next_registry), Ok(()));

    assert_eq!(next_registry.interface_count(), 1);
    assert!(interface.bus().is_some());
}

#[test]
fn attach_is_decided_by_the_bus_that_was_found() {
    let bus = BusHandle::new();
    let me = InterfaceHandle::new_unattached(vec![]);
    let mut registry = MockBus::new();

    let mut refused = MockInterface::new(vec![]);
    assert_eq!(
        refused.attach_unless(Some(bus.clone()), &me, &bus, &mut registry),
        Err(MockInterfaceError::BusAlreadyAttached)
    );
    assert_eq!(registry.interface_count(), 0);
    assert!(refused.bus().is_none());

    let mut accepted = MockInterface::new(vec![]);
    assert_eq!(accepted.attach_unless(None, &me, &bus, &mut registry), Ok(()));
    assert_eq!(registry.interface_count(), 1);
    assert!(accepted.bus().is_some());
}
