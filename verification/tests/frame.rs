use embedded_can_mock::{ExtendedId, Id, MockFrame, StandardId};

fn standard(raw: u16) -> Id {
    Id::Standard(StandardId::new(raw).unwrap())
}

fn extended(raw: u32) -> Id {
    Id::Extended(ExtendedId::new(raw).unwrap())
}

#[test]
fn data_frame_carries_identifier_and_payload() {
    let frame = MockFrame::new(standard(0x123), &[0xAA, 0xBB]).unwrap();
    assert!(!frame.is_remote_frame());
    assert!(!frame.is_extended());
    assert_eq!(frame.id(), standard(0x123));
    assert_eq!(frame.dlc(), 2);
    assert_eq!(frame.data(), &[0xAA, 0xBB]);
}

#[test]
fn data_frame_may_be_empty() {
    let frame = MockFrame::new(extended(0x1ABCDE01), &[]).unwrap();
    assert!(!frame.is_remote_frame());
    assert!(frame.is_extended());
    assert_eq!(frame.id(), extended(0x1ABCDE01));
    assert_eq!(frame.dlc(), 0);
    assert!(frame.data().is_empty());
}

#[test]
fn data_frame_is_not_limited_to_eight_bytes() {
    let bytes = [1u8, 2, 3, 4, 5, 6, 7, 8, 9, 10, 11, 12];
    let frame = MockFrame::new(standard(0x1), &bytes).unwrap();
    assert_eq!(frame.dlc(), 12);
    assert_eq!(frame.data(), &bytes);
}

#[test]
fn remote_frame_carries_a_length_and_no_bytes() {
    let frame = MockFrame::new_remote(standard(0x321), 5).unwrap();
    assert!(frame.is_remote_frame());
    assert!(!frame.is_extended());
    assert_eq!(frame.id(), standard(0x321));
    assert_eq!(frame.dlc(), 5);
    assert!(frame.data().is_empty());
}

#[test]
fn frames_are_equal_when_identifier_kind_and_payload_are() {
    let frame = MockFrame::new(standard(0x100), &[1, 2, 3]).unwrap();
    assert_eq!(frame, MockFrame::new(standard(0x100), &[1, 2, 3]).unwrap());
    assert_ne!(frame, MockFrame::new(standard(0x101), &[1, 2, 3]).unwrap());
    assert_ne!(frame, MockFrame::new(extended(0x100), &[1, 2, 3]).unwrap());
    assert_ne!(frame, MockFrame::new(standard(0x100), &[1, 2, 4]).unwrap());
    assert_ne!(frame, MockFrame::new(standard(0x100), &[1, 2]).unwrap());
    assert_ne!(frame, MockFrame::new(standard(0x100), &[1, 2, 3, 0]).unwrap());
    assert_ne!(frame, MockFrame::new_remote(standard(0x100), 3).unwrap());
}

#[test]
fn remote_frames_are_equal_when_identifier_and_length_are() {
    let frame = MockFrame::new_remote(extended(0x100), 4).unwrap();
    assert_eq!(frame, MockFrame::new_remote(extended(0x100), 4).unwrap());
    assert_ne!(frame, MockFrame::new_remote(extended(0x100), 5).unwrap());
    assert_ne!(frame, MockFrame::new_remote(extended(0x101), 4).unwrap());
    assert_ne!(frame, MockFrame::new_remote(standard(0x100), 4).unwrap());
    assert_ne!(
        MockFrame::new_remote(standard(0x7), 0).unwrap(),
        MockFrame::new(standard(0x7), &[]).unwrap()
    );
}

#[test]
fn clone_is_equal_to_the_frame_it_was_made_of() {
    let data = MockFrame::new(standard(0x42), &[9, 8, 7]).unwrap();
    let remote = MockFrame::new_remote(extended(0x42), 8).unwrap();
    assert_eq!(data.clone(), data);
    assert_eq!(data.clone().data(), &[9, 8, 7]);
    assert_eq!(remote.clone(), remote);
    assert_eq!(remote.clone().dlc(), 8);
}
