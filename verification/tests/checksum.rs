use epcgen::checksum::transform;
use epcgen::{iban, rf};

#[test]
fn iban_transforming_ibans_works() {
    assert_eq!(
        transform("DE68210501700012345678"),
        210501700012345678131468
    );
    assert_eq!(
        transform("GB82WEST12345698765432"),
        3214282912345698765432161182
    )
}

#[test]
fn iban_invalid_ibans_should_fail() {
    assert!(!iban::is_valid(""));
    assert!(!iban::is_valid("DE90830654080004104243"));
    assert!(!iban::is_valid_compact(""));
    assert!(!iban::is_valid_compact("DE90830654080004104243"));
}

#[test]
fn ibanrf_transforming_ibans_works() {
    assert_eq!(
        transform("DE68210501700012345678"),
        210501700012345678131468
    );
    assert_eq!(
        transform("GB82WEST12345698765432"),
        3214282912345698765432161182
    )
}

#[test]
fn transforming_structured_references_works() {
    assert_eq!(transform("RF45G72UUR"), 1672303027271545);
    assert_eq!(transform("RF6518K5"), 18205271565);
    assert_eq!(transform("RF35C4"), 124271535);
    assert_eq!(transform("RF214377"), 4377271521);
}

#[test]
fn ibanrf_invalid_ibans_should_fail() {
    assert!(!iban::is_valid(""));
    assert!(!iban::is_valid("DE90830654080004104243"));
}

#[test]
fn invalid_structured_references_should_fail() {
    assert!(!rf::is_valid(""));
    assert!(!rf::is_valid("RF55G72UUR"));
}
