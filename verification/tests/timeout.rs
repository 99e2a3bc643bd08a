use gwasm_api::error::Error;
use gwasm_api::timeout::Timeout;

#[test]
fn valid_input() {
    assert_eq!(
        Timeout::from_str("00:00:10").unwrap(),
        Timeout::from_hms(0, 0, 10).unwrap()
    );
    assert_eq!(
        Timeout::from_str("00:10:00").unwrap(),
        Timeout::from_hms(0, 10, 0).unwrap()
    );
    assert_eq!(
        Timeout::from_str("10:00:00").unwrap(),
        Timeout::from_hms(10, 0, 0).unwrap()
    );
    assert_eq!(
        Timeout::from_str("23:59:59").unwrap(),
        Timeout::from_hms(23, 59, 59).unwrap()
    );
}

#[test]
fn invalid_input() {
    assert!(Timeout::from_str("10").is_err());
    assert!(Timeout::from_str("10:00").is_err());
    assert!(Timeout::from_str("").is_err());
    assert!(Timeout::from_str("24:00:00").is_err());
    assert!(Timeout::from_str("00:00:00").is_err());
}

#[test]
fn zero_timeout_is_its_own_condition() {
    assert_eq!(Timeout::from_str("00:00:00"), Err(Error::ZeroTimeoutError));
    assert_eq!(Timeout::from_hms(0, 0, 0), Err(Error::ZeroTimeoutError));
    assert_eq!(Timeout::from_str("24:00:00"), Err(Error::TimeoutParseError));
    assert_eq!(Timeout::from_str("10"), Err(Error::TimeoutParseError));
    assert_eq!(Timeout::from_str(""), Err(Error::TimeoutParseError));
    assert_eq!(Timeout::from_str("0:00:10"), Err(Error::TimeoutParseError));
    assert_eq!(Timeout::from_str("00:60:00"), Err(Error::TimeoutParseError));
    assert_eq!(Timeout::from_hms(24, 0, 0), Err(Error::TimeoutParseError));
}

#[test]
fn text_round_trip() {
    for text in ["00:00:01", "00:10:00", "23:59:59", "07:08:09", "10:00:00"] {
        let t = Timeout::from_str(text).unwrap();
        assert_eq!(t.text(), text);
        assert_eq!(Timeout::from_str(&t.text()).unwrap(), t);
    }
    let t = Timeout::from_hms(1, 2, 3).unwrap();
    assert_eq!(t.text(), "01:02:03");
    assert_eq!(Timeout::from_str(&t.text()).unwrap(), t);
}
