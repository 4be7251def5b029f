use credential_check::decimal::usize_to_decimal;
use credential_check::handler::check_credentials;
use credential_check::handler::ApiError;
use credential_check::handler::CcRequest;
use credential_check::handler::MAX_PREFIX_LEN;
use credential_check::handler::MIN_PREFIX_LEN;

fn request_with_prefix(prefix: &str) -> CcRequest {
    CcRequest {
        prefix: prefix.to_string(),
        credentials: "02a8902230d79486d10ec6eb6".to_string(),
    }
}

#[test]
fn bounds_are_four_and_six() {
    assert_eq!(MIN_PREFIX_LEN, 4);
    assert_eq!(MAX_PREFIX_LEN, 6);
}

#[test]
fn three_character_prefix_is_rejected_as_too_short() {
    let result = check_credentials(&request_with_prefix("abc"));
    match result {
        Err(error) => {
            assert!(matches!(error, ApiError::PrefixTooShort { len: 3 }));
            assert_eq!(error.message(), "Prefix has a length of 3, but the minimum is 4");
            assert_eq!(error.status_code(), 400);
        }
        Ok(_) => panic!("a three-character prefix must be rejected"),
    }
}

#[test]
fn seven_character_prefix_is_rejected_as_too_long() {
    let result = check_credentials(&request_with_prefix("abcdefg"));
    match result {
        Err(error) => {
            assert!(matches!(error, ApiError::PrefixTooLong { len: 7 }));
            assert_eq!(error.message(), "Prefix has a length of 7, but the maximum is 6");
            assert_eq!(error.status_code(), 400);
        }
        Ok(_) => panic!("a seven-character prefix must be rejected"),
    }
}

#[test]
fn four_character_prefix_is_accepted_with_both_fields() {
    let result = check_credentials(&request_with_prefix("cri4"));
    match result {
        Ok(response) => {
            assert_eq!(response.credentials, "placeholder");
            assert_eq!(response.matches, vec!["placeholder".to_string()]);
        }
        Err(_) => panic!("a four-character prefix must not be rejected"),
    }
}

#[test]
fn accepted_length_does_not_depend_on_credentials() {
    let request = CcRequest {
        prefix: "cri4".to_string(),
        credentials: String::new(),
    };
    assert!(check_credentials(&request).is_ok());
    let request = CcRequest {
        prefix: "cri4".to_string(),
        credentials: "zzzzzzzzzzzzzzzzzzzzzzzzzzzzzzzzzzzzzzzz".to_string(),
    };
    assert!(check_credentials(&request).is_ok());
}

#[test]
fn five_and_six_character_prefixes_are_accepted() {
    assert!(check_credentials(&request_with_prefix("abcde")).is_ok());
    assert!(check_credentials(&request_with_prefix("abcdef")).is_ok());
}

#[test]
fn empty_prefix_reports_length_zero() {
    let result = check_credentials(&request_with_prefix(""));
    match result {
        Err(error) => {
            assert!(matches!(error, ApiError::PrefixTooShort { len: 0 }));
            assert_eq!(error.message(), "Prefix has a length of 0, but the minimum is 4");
        }
        Ok(_) => panic!("an empty prefix must be rejected"),
    }
}

#[test]
fn long_prefix_reports_its_own_length() {
    let result = check_credentials(&request_with_prefix("aaaaaaaaaaaaaaaaaaaa"));
    match result {
        Err(error) => {
            assert!(matches!(error, ApiError::PrefixTooLong { len: 20 }));
            assert_eq!(error.message(), "Prefix has a length of 20, but the maximum is 6");
        }
        Ok(_) => panic!("a twenty-character prefix must be rejected"),
    }
}

#[test]
fn prefix_length_counts_characters_not_bytes() {
    // Four characters, eight bytes: inside the bounds.
    assert!(check_credentials(&request_with_prefix("αβγδ")).is_ok());
    // Seven characters, fourteen bytes: too long, reported as seven.
    let result = check_credentials(&request_with_prefix("αβγδεζη"));
    match result {
        Err(error) => {
            assert!(matches!(error, ApiError::PrefixTooLong { len: 7 }));
        }
        Ok(_) => panic!("a seven-character prefix must be rejected"),
    }
}

#[test]
fn lookup_unavailable_is_a_server_error() {
    let error = ApiError::LookupUnavailable;
    assert_eq!(error.status_code(), 503);
    assert_eq!(error.message(), "The breach lookup service is unavailable");
}

#[test]
fn decimal_rendering_matches_expected_numerals() {
    assert_eq!(usize_to_decimal(0), "0");
    assert_eq!(usize_to_decimal(7), "7");
    assert_eq!(usize_to_decimal(10), "10");
    assert_eq!(usize_to_decimal(42), "42");
    assert_eq!(usize_to_decimal(1234567), "1234567");
}
