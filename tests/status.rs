use libmpv2::{
    c_text_ok, check_client_api, mpv_err, Error, Format, MPV_CLIENT_API_VERSION,
    MPV_ERROR_GENERIC, MPV_ERROR_INVALID_PARAMETER, MPV_ERROR_SUCCESS, MPV_ERROR_UNSUPPORTED,
};

#[test]
fn mpv_err_zero_is_ok() {
    assert_eq!(mpv_err(42u8, MPV_ERROR_SUCCESS), Ok(42u8));
}

#[test]
fn mpv_err_nonzero_is_raw() {
    assert_eq!(mpv_err((), MPV_ERROR_GENERIC), Err(Error::Raw(-20)));
    assert_eq!(mpv_err("x", 7), Err(Error::Raw(7)));
}

#[test]
fn status_codes_match_the_client_api() {
    assert_eq!(MPV_ERROR_SUCCESS, 0);
    assert_eq!(MPV_ERROR_INVALID_PARAMETER, -4);
    assert_eq!(MPV_ERROR_UNSUPPORTED, -18);
    assert_eq!(MPV_ERROR_GENERIC, -20);
    assert_eq!(MPV_CLIENT_API_VERSION, (2 << 16) | 5);
}

#[test]
fn client_api_same_major_is_accepted() {
    assert_eq!(check_client_api(MPV_CLIENT_API_VERSION), Ok(()));
    assert_eq!(check_client_api((2 << 16) | 0), Ok(()));
    assert_eq!(check_client_api((2 << 16) | 0xffff), Ok(()));
}

#[test]
fn client_api_other_major_is_a_mismatch() {
    assert_eq!(
        check_client_api((1 << 16) | 109),
        Err(Error::VersionMismatch { linked: MPV_CLIENT_API_VERSION, loaded: (1 << 16) | 109 })
    );
    assert_eq!(
        check_client_api(3 << 16),
        Err(Error::VersionMismatch { linked: MPV_CLIENT_API_VERSION, loaded: 3 << 16 })
    );
}

#[test]
fn c_text_rejects_nul() {
    assert!(c_text_ok("filereader"));
    assert!(c_text_ok(""));
    assert!(c_text_ok("ünïcode"));
    assert!(!c_text_ok("file\0reader"));
    assert!(!c_text_ok("\0"));
}

#[test]
fn format_codes() {
    assert_eq!(Format::String.as_mpv_format(), 1);
    assert_eq!(Format::Flag.as_mpv_format(), 3);
    assert_eq!(Format::Int64.as_mpv_format(), 4);
    assert_eq!(Format::Double.as_mpv_format(), 5);
    assert_eq!(Format::Node.as_mpv_format(), 6);
}
