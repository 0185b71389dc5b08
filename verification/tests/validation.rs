use organization_api::is_country_code_valid;
use organization_api::is_object_id;
use organization_api::is_telephone_valid;

#[test]
fn detect_incorrect_country_codes() {
    assert!(!is_country_code_valid("XX"));
    assert!(!is_country_code_valid("YY"));
}

#[test]
fn detect_correct_country_codes() {
    assert!(is_country_code_valid("ES"));
    assert!(is_country_code_valid("RO"));
    assert!(is_country_code_valid("IT"));
    assert!(is_country_code_valid("DE"));
    assert!(is_country_code_valid("DK"));
}

#[test]
fn phone_validation_works_on_phone_numbers_with_prefix() {
    let valid_phone_with_prefix = "+40753313640";

    match phonenumber::parse(None, valid_phone_with_prefix) {
        Ok(phone_number) => {
            assert_eq!(
                phonenumber::country::RO,
                phone_number.country().id().unwrap()
            );
            assert_eq!("753313640", phone_number.national().to_string());
        }
        Err(e) => panic!("failed to parse valid phone number: {}", e),
    }

    let valid_phone_with_extended_prefix = "0040753313640";

    match phonenumber::parse(Some(phonenumber::country::RO), valid_phone_with_extended_prefix) {
        Ok(phone_number) => {
            assert_eq!(
                phonenumber::country::RO,
                phone_number.country().id().unwrap()
            );
            assert_eq!("753313640", phone_number.national().to_string());
        }
        Err(e) => panic!("failed to parse valid phone number: {}", e),
    }
}

#[test]
fn telephone_requires_explicit_plus_prefix() {
    assert!(is_telephone_valid("+40753313640"));
    assert!(!is_telephone_valid("0040753313640"));
    assert!(!is_telephone_valid(""));
    assert!(!is_telephone_valid("INVALID_PHONE"));
}

#[test]
fn object_id_text_is_twenty_four_hex_digits() {
    assert!(is_object_id("0123456789abcdef01234567"));
    assert!(is_object_id("0123456789ABCDEF01234567"));
    assert!(!is_object_id("0123456789abcdef0123456"));
    assert!(!is_object_id("0123456789abcdef012345678"));
    assert!(!is_object_id("0123456789abcdef0123456z"));
    assert!(!is_object_id(""));
}
