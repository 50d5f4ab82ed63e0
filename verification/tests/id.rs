use embedded_can_mock::{ExtendedId, Id, StandardId};

#[test]
fn standard_id_covers_eleven_bits() {
    assert_eq!(StandardId::new(0).unwrap().as_raw(), 0);
    assert_eq!(StandardId::new(0x123).unwrap().as_raw(), 0x123);
    assert_eq!(StandardId::new(0x7FF).unwrap().as_raw(), 0x7FF);
    assert_eq!(StandardId::new(0x800), None);
    assert_eq!(StandardId::new(0xFFFF), None);
}

#[test]
fn extended_id_covers_twenty_nine_bits() {
    assert_eq!(ExtendedId::new(0).unwrap().as_raw(), 0);
    assert_eq!(ExtendedId::new(0x1ABCDE01).unwrap().as_raw(), 0x1ABCDE01);
    assert_eq!(ExtendedId::new(0x1FFF_FFFF).unwrap().as_raw(), 0x1FFF_FFFF);
    assert_eq!(ExtendedId::new(0x2000_0000), None);
    assert_eq!(ExtendedId::new(0xFFFF_FFFF), None);
}

#[test]
fn identifiers_of_different_kinds_differ() {
    let s = Id::Standard(StandardId::new(0x123).unwrap());
    let e = Id::Extended(ExtendedId::new(0x123).unwrap());
    assert_ne!(s, e);
    assert_eq!(s, Id::Standard(StandardId::new(0x123).unwrap()));
    assert_ne!(s, Id::Standard(StandardId::new(0x124).unwrap()));
    assert_eq!(e, Id::Extended(ExtendedId::new(0x123).unwrap()));
}

#[test]
fn standard_id_range_is_that_of_the_can_traits() {
    for raw in [0u16, 1, 0x123, 0x7FE, 0x7FF, 0x800, 0x801, 0x8000, 0xFFFF] {
        let ours = StandardId::new(raw).map(|id| id.as_raw());
        let theirs = embedded_can::StandardId::new(raw).map(|id| id.as_raw());
        assert_eq!(ours, theirs);
    }
}

#[test]
fn extended_id_range_is_that_of_the_can_traits() {
    for raw in [0u32, 1, 0x7FF, 0x800, 0x1FFF_FFFE, 0x1FFF_FFFF, 0x2000_0000, 0xFFFF_FFFF] {
        let ours = ExtendedId::new(raw).map(|id| id.as_raw());
        let theirs = embedded_can::ExtendedId::new(raw).map(|id| id.as_raw());
        assert_eq!(ours, theirs);
    }
}
