use rover::{parse_speed, RoverError, Side};

#[test]
fn plain_numbers_parse() {
    assert_eq!(parse_speed(b"0").unwrap(), 0);
    assert_eq!(parse_speed(b"42").unwrap(), 42);
    assert_eq!(parse_speed(b"100").unwrap(), 100);
    assert_eq!(parse_speed(b"127").unwrap(), 127);
}

#[test]
fn signed_numbers_parse() {
    assert_eq!(parse_speed(b"-100").unwrap(), -100);
    assert_eq!(parse_speed(b"-128").unwrap(), -128);
    assert_eq!(parse_speed(b"+57").unwrap(), 57);
    assert_eq!(parse_speed(b"+0").unwrap(), 0);
    assert_eq!(parse_speed(b"-0").unwrap(), 0);
}

#[test]
fn leading_zeros_parse() {
    assert_eq!(parse_speed(b"007").unwrap(), 7);
    assert_eq!(parse_speed(b"0000").unwrap(), 0);
    assert_eq!(parse_speed(b"-00128").unwrap(), -128);
}

#[test]
fn out_of_range_numbers_are_invalid() {
    assert!(matches!(parse_speed(b"128"), Err(RoverError::InvalidInput)));
    assert!(matches!(parse_speed(b"-129"), Err(RoverError::InvalidInput)));
    assert!(matches!(parse_speed(b"300"), Err(RoverError::InvalidInput)));
    assert!(matches!(
        parse_speed(b"99999999999999999999"),
        Err(RoverError::InvalidInput)
    ));
}

#[test]
fn malformed_strings_are_invalid() {
    assert!(matches!(parse_speed(b""), Err(RoverError::InvalidInput)));
    assert!(matches!(parse_speed(b"+"), Err(RoverError::InvalidInput)));
    assert!(matches!(parse_speed(b"-"), Err(RoverError::InvalidInput)));
    assert!(matches!(parse_speed(b"12a"), Err(RoverError::InvalidInput)));
    assert!(matches!(parse_speed(b"a12"), Err(RoverError::InvalidInput)));
    assert!(matches!(parse_speed(b" 5"), Err(RoverError::InvalidInput)));
    assert!(matches!(parse_speed(b"5 "), Err(RoverError::InvalidInput)));
    assert!(matches!(parse_speed(b"--5"), Err(RoverError::InvalidInput)));
    assert!(matches!(parse_speed(b"+-5"), Err(RoverError::InvalidInput)));
    assert!(matches!(parse_speed(b"1.5"), Err(RoverError::InvalidInput)));
}

#[test]
fn sides_compare_by_variant() {
    assert_eq!(Side::Left, Side::Left);
    assert_ne!(Side::Left, Side::Right);
}

#[test]
fn errors_carry_side_and_cause() {
    let e = RoverError::HardwareWriteFailed(Side::Right, String::from("write failed"));
    match e {
        RoverError::HardwareWriteFailed(side, cause) => {
            assert_eq!(side, Side::Right);
            assert_eq!(cause, "write failed");
        }
        _ => panic!("wrong variant"),
    }
    assert!(matches!(
        RoverError::ChannelUnavailable(Side::Left, String::new()),
        RoverError::ChannelUnavailable(Side::Left, _)
    ));
    assert!(matches!(
        RoverError::ConfigurationFailed(Side::Right, String::new()),
        RoverError::ConfigurationFailed(Side::Right, _)
    ));
}
