use ftd2xx::{status_to_result, FTError, FT_DEVICE_NOT_OPENED, FT_INVALID_HANDLE, FT_OK};

#[test]
fn from_raw_gives_no_error_for_ok() {
    assert_eq!(FTError::from_raw(FT_OK), None);
    assert_eq!(FTError::from_raw(0), None);
}

#[test]
fn from_raw_keeps_the_status_of_a_failure() {
    assert_eq!(FTError::from_raw(1), Some(FTError { status: 1 }));
    assert_eq!(FTError::from_raw(19), Some(FTError { status: 19 }));
    assert_eq!(
        FTError::from_raw(u32::MAX),
        Some(FTError { status: u32::MAX })
    );
}

#[test]
fn raw_gives_the_status_back() {
    assert_eq!(FTError::from_raw(4).unwrap().raw(), 4);
    assert_eq!(FTError { status: 18 }.raw(), 18);
    assert_eq!(FTError { status: u32::MAX }.raw(), 4_294_967_295);
}

#[test]
fn status_to_result_is_ok_only_for_ok() {
    assert_eq!(status_to_result(FT_OK), Ok(()));
    assert_eq!(status_to_result(2), Err(FTError { status: 2 }));
    assert_eq!(
        status_to_result(FT_INVALID_HANDLE),
        Err(FTError { status: 1 })
    );
    assert_eq!(
        status_to_result(FT_DEVICE_NOT_OPENED),
        Err(FTError { status: 3 })
    );
}

#[test]
fn every_small_status_but_zero_is_a_failure() {
    for status in 1..=64u32 {
        let r = status_to_result(status);
        assert_eq!(r, Err(FTError { status }));
        assert_eq!(r.unwrap_err().raw(), status);
    }
}

#[test]
fn to_string_shows_the_status_in_decimal() {
    assert_eq!(FTError { status: 1 }.to_string(), "STATUS: 1");
    assert_eq!(FTError { status: 3 }.to_string(), "STATUS: 3");
    assert_eq!(FTError { status: 9 }.to_string(), "STATUS: 9");
    assert_eq!(FTError { status: 10 }.to_string(), "STATUS: 10");
    assert_eq!(FTError { status: 18 }.to_string(), "STATUS: 18");
    assert_eq!(FTError { status: 120 }.to_string(), "STATUS: 120");
    assert_eq!(FTError { status: 1005 }.to_string(), "STATUS: 1005");
}

#[test]
fn to_string_at_the_ends_of_the_range() {
    assert_eq!(FTError { status: 0 }.to_string(), "STATUS: 0");
    assert_eq!(
        FTError { status: u32::MAX }.to_string(),
        "STATUS: 4294967295"
    );
    assert_eq!(
        FTError { status: 1_000_000_000 }.to_string(),
        "STATUS: 1000000000"
    );
}

#[test]
fn to_string_agrees_with_the_standard_formatter() {
    let mut status: u32 = 1;
    for _ in 0..40 {
        assert_eq!(
            FTError { status }.to_string(),
            format!("STATUS: {}", status)
        );
        status = status.wrapping_mul(7).wrapping_add(13);
    }
}

#[test]
fn status_constants_are_the_driver_codes() {
    assert_eq!(FT_OK, 0);
    assert_eq!(FT_INVALID_HANDLE, 1);
    assert_eq!(FT_DEVICE_NOT_OPENED, 3);
}
