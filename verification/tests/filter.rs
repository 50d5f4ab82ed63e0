use embedded_can_mock::filter::{validate_filter, validate_filters};
use embedded_can_mock::{ExtendedId, FilterError, Id, IdMask, IdMaskFilter, StandardId};

fn standard(raw: u16) -> Id {
    Id::Standard(StandardId::new(raw).unwrap())
}

fn extended(raw: u32) -> Id {
    Id::Extended(ExtendedId::new(raw).unwrap())
}

#[test]
fn standard_filter_matches() {
    let filter = IdMaskFilter {
        id: Id::Standard(StandardId::new(0x123).unwrap()),
        mask: IdMask::Standard(0x7FF),
    };
    let matched = embedded_can_mock::filter::matches(
        &filter,
        Id::Standard(StandardId::new(0x123).unwrap()),
    );
    let rejected = embedded_can_mock::filter::matches(
        &filter,
        Id::Standard(StandardId::new(0x321).unwrap()),
    );
    assert!(matched);
    assert!(!rejected);
}

#[test]
fn extended_filter_matches() {
    let filter = IdMaskFilter {
        id: Id::Extended(ExtendedId::new(0x1ABCDE00).unwrap()),
        mask: IdMask::Extended(0x1FFFFF00),
    };
    let matched = embedded_can_mock::filter::matches(
        &filter,
        Id::Extended(ExtendedId::new(0x1ABCDE01).unwrap()),
    );
    let rejected = embedded_can_mock::filter::matches(
        &filter,
        Id::Extended(ExtendedId::new(0x1ABCDD00).unwrap()),
    );
    assert!(matched);
    assert!(!rejected);
}

#[test]
fn mismatched_kinds_reject() {
    let filter = IdMaskFilter {
        id: Id::Standard(StandardId::new(0x7FF).unwrap()),
        mask: IdMask::Standard(0x7FF),
    };
    assert!(!embedded_can_mock::filter::matches(
        &filter,
        Id::Extended(ExtendedId::new(0x1ABCDE01).unwrap())
    ));
}

#[test]
fn extended_filter_rejects_identifier_outside_the_masked_block() {
    let filter = IdMaskFilter { id: extended(0x1ABCDE00), mask: IdMask::Extended(0x1FFFFF00) };
    assert!(embedded_can_mock::filter::matches(&filter, extended(0x1ABCDE01)));
    assert!(embedded_can_mock::filter::matches(&filter, extended(0x1ABCDEFF)));
    assert!(!embedded_can_mock::filter::matches(&filter, extended(0x1ABCD000)));
}

#[test]
fn extended_filter_never_matches_standard_candidate() {
    let filter = IdMaskFilter { id: extended(0x123), mask: IdMask::Extended(0x7FF) };
    assert!(embedded_can_mock::filter::matches(&filter, extended(0x123)));
    assert!(!embedded_can_mock::filter::matches(&filter, standard(0x123)));
}

#[test]
fn bits_outside_the_mask_are_not_compared() {
    let filter = IdMaskFilter { id: standard(0x120), mask: IdMask::Standard(0x7F0) };
    assert!(embedded_can_mock::filter::matches(&filter, standard(0x120)));
    assert!(embedded_can_mock::filter::matches(&filter, standard(0x12F)));
    assert!(!embedded_can_mock::filter::matches(&filter, standard(0x130)));
}

#[test]
fn zero_mask_accepts_every_identifier_of_its_kind() {
    let filter = IdMaskFilter { id: standard(0x7FF), mask: IdMask::Standard(0) };
    assert!(embedded_can_mock::filter::matches(&filter, standard(0)));
    assert!(embedded_can_mock::filter::matches(&filter, standard(0x555)));
    assert!(!embedded_can_mock::filter::matches(&filter, extended(0x555)));
}

#[test]
fn mask_bits_above_the_identifier_range_are_compared_too() {
    let filter = IdMaskFilter { id: standard(0x123), mask: IdMask::Standard(0xFFFF) };
    assert!(embedded_can_mock::filter::matches(&filter, standard(0x123)));
    assert!(!embedded_can_mock::filter::matches(&filter, standard(0x122)));
}

#[test]
fn invalid_filter_matches_nothing() {
    let standard_id_extended_mask =
        IdMaskFilter { id: standard(0x123), mask: IdMask::Extended(0x7FF) };
    assert!(!embedded_can_mock::filter::matches(&standard_id_extended_mask, standard(0x123)));
    assert!(!embedded_can_mock::filter::matches(&standard_id_extended_mask, extended(0x123)));

    let extended_id_standard_mask =
        IdMaskFilter { id: extended(0x123), mask: IdMask::Standard(0x7FF) };
    assert!(!embedded_can_mock::filter::matches(&extended_id_standard_mask, standard(0x123)));
    assert!(!embedded_can_mock::filter::matches(&extended_id_standard_mask, extended(0x123)));
}

#[test]
fn validate_filter_accepts_equal_kinds() {
    let s = IdMaskFilter { id: standard(0x100), mask: IdMask::Standard(0x7FF) };
    let e = IdMaskFilter { id: extended(0x100), mask: IdMask::Extended(0x1FFFFFFF) };
    assert_eq!(validate_filter(&s), Ok(()));
    assert_eq!(validate_filter(&e), Ok(()));
}

#[test]
fn validate_filter_rejects_mixed_kinds() {
    let a = IdMaskFilter { id: standard(0x100), mask: IdMask::Extended(0x7FF) };
    let b = IdMaskFilter { id: extended(0x1ABCDE0), mask: IdMask::Standard(0x7FF) };
    assert_eq!(validate_filter(&a), Err(FilterError::KindMismatch));
    assert_eq!(validate_filter(&b), Err(FilterError::KindMismatch));
}

#[test]
fn validate_filters_accepts_the_empty_list() {
    assert_eq!(validate_filters(&[]), Ok(()));
}

#[test]
fn validate_filters_rejects_a_list_with_one_invalid_filter() {
    let good = IdMaskFilter { id: standard(0x100), mask: IdMask::Standard(0x7FF) };
    let bad = IdMaskFilter { id: standard(0x100), mask: IdMask::Extended(0x7FF) };
    assert_eq!(validate_filters(&[good, good]), Ok(()));
    assert_eq!(validate_filters(&[bad]), Err(FilterError::KindMismatch));
    assert_eq!(validate_filters(&[good, bad]), Err(FilterError::KindMismatch));
    assert_eq!(validate_filters(&[bad, good]), Err(FilterError::KindMismatch));
    assert_eq!(validate_filters(&[good, good, bad, good]), Err(FilterError::KindMismatch));
}
