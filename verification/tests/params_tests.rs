use rustvncserver_android::params::{
    checked_dimension, client_key, connection_reply, dimension_reply, java_long, listen_port,
    low_i16, low_u16, nonempty_text, outbound_port, validate_copy_rect, validate_crop,
    validate_dimensions, validate_start_request, CopyRect, CropRegion, FramebufferSize,
    RequestError, StartConfig,
};

#[test]
fn dimension_bounds_are_inclusive() {
    assert_eq!(checked_dimension(1), Some(1));
    assert_eq!(checked_dimension(8192), Some(8192));
    assert_eq!(checked_dimension(0), None);
    assert_eq!(checked_dimension(8193), None);
    assert_eq!(checked_dimension(-1), None);
    assert_eq!(checked_dimension(70000), None);
}

#[test]
fn width_is_checked_before_height() {
    assert_eq!(validate_dimensions(0, 0), Err(RequestError::InvalidWidth(0)));
    assert_eq!(validate_dimensions(800, 9000), Err(RequestError::InvalidHeight(9000)));
    assert_eq!(
        validate_dimensions(1080, 2400),
        Ok(FramebufferSize { width: 1080, height: 2400 })
    );
}

#[test]
fn listen_port_values() {
    assert_eq!(listen_port(-1), Ok(None));
    assert_eq!(listen_port(5900), Ok(Some(5900)));
    assert_eq!(listen_port(1), Ok(Some(1)));
    assert_eq!(listen_port(65535), Ok(Some(65535)));
    assert_eq!(listen_port(0), Err(RequestError::InvalidPort(0)));
    assert_eq!(listen_port(65536), Err(RequestError::InvalidPort(65536)));
    assert_eq!(listen_port(-2), Err(RequestError::InvalidPort(-2)));
}

#[test]
fn empty_optional_text_means_none() {
    assert_eq!(nonempty_text(None), None);
    assert_eq!(nonempty_text(Some(String::new())), None);
    assert_eq!(nonempty_text(Some("secret".to_string())), Some("secret".to_string()));
}

#[test]
fn start_request_accepted() {
    let r = validate_start_request(
        1080,
        1920,
        5900,
        Some("Android".to_string()),
        Some("pw".to_string()),
    );
    assert_eq!(
        r,
        Ok(StartConfig {
            width: 1080,
            height: 1920,
            port: Some(5900),
            desktop_name: "Android".to_string(),
            password: Some("pw".to_string()),
        })
    );
}

#[test]
fn start_request_outbound_only_without_password() {
    let r = validate_start_request(640, 480, -1, Some("d".to_string()), Some(String::new()));
    assert_eq!(
        r,
        Ok(StartConfig {
            width: 640,
            height: 480,
            port: None,
            desktop_name: "d".to_string(),
            password: None,
        })
    );
}

#[test]
fn start_request_errors_in_order() {
    assert_eq!(
        validate_start_request(0, 0, 0, None, None),
        Err(RequestError::InvalidWidth(0))
    );
    assert_eq!(
        validate_start_request(10, 8193, 0, None, None),
        Err(RequestError::InvalidHeight(8193))
    );
    assert_eq!(
        validate_start_request(10, 10, 0, None, None),
        Err(RequestError::InvalidPort(0))
    );
    assert_eq!(
        validate_start_request(10, 10, 5900, None, None),
        Err(RequestError::DesktopNameUnavailable)
    );
}

#[test]
fn crop_region_accepted() {
    assert_eq!(
        validate_crop(100 * 50 * 4, 10, 20, 100, 50),
        Ok(CropRegion { x: 10, y: 20, width: 100, height: 50 })
    );
    assert_eq!(
        validate_crop(8192 * 8192 * 4, 0, 0, 8192, 8192),
        Ok(CropRegion { x: 0, y: 0, width: 8192, height: 8192 })
    );
}

#[test]
fn crop_origin_keeps_low_bits() {
    assert_eq!(
        validate_crop(4, 70000, 65536, 1, 1),
        Ok(CropRegion { x: 4464, y: 0, width: 1, height: 1 })
    );
}

#[test]
fn crop_errors() {
    assert_eq!(validate_crop(4, -1, 0, 1, 1), Err(RequestError::InvalidCrop));
    assert_eq!(validate_crop(4, 0, -1, 1, 1), Err(RequestError::InvalidCrop));
    assert_eq!(validate_crop(4, 0, 0, 0, 1), Err(RequestError::InvalidCrop));
    assert_eq!(validate_crop(4, 0, 0, 1, -3), Err(RequestError::InvalidCrop));
    assert_eq!(validate_crop(4, 0, 0, 8193, 1), Err(RequestError::CropTooLarge));
    assert_eq!(validate_crop(4, 0, 0, 1, 8193), Err(RequestError::CropTooLarge));
    assert_eq!(
        validate_crop(399, 0, 0, 10, 10),
        Err(RequestError::BufferSizeMismatch { expected: 400, actual: 399 })
    );
}

#[test]
fn copy_rect_accepted_with_signed_offsets() {
    assert_eq!(
        validate_copy_rect(0, 10, 100, 200, -5, 7),
        Ok(CopyRect { x: 0, y: 10, width: 100, height: 200, dx: -5, dy: 7 })
    );
}

#[test]
fn copy_rect_values_keep_low_bits() {
    assert_eq!(
        validate_copy_rect(65537, 2, 65536, 65541, 40000, -40000),
        Ok(CopyRect { x: 1, y: 2, width: 0, height: 5, dx: -25536, dy: 25536 })
    );
}

#[test]
fn copy_rect_errors() {
    assert_eq!(validate_copy_rect(-1, 0, 1, 1, 0, 0), Err(RequestError::InvalidCopyRect));
    assert_eq!(validate_copy_rect(0, -1, 1, 1, 0, 0), Err(RequestError::InvalidCopyRect));
    assert_eq!(validate_copy_rect(0, 0, 0, 1, 0, 0), Err(RequestError::InvalidCopyRect));
    assert_eq!(validate_copy_rect(0, 0, 1, 0, 0, 0), Err(RequestError::InvalidCopyRect));
}

#[test]
fn truncations_match_formulas() {
    assert_eq!(low_u16(-1), 65535);
    assert_eq!(low_u16(70000), 4464);
    assert_eq!(low_i16(32768), -32768);
    assert_eq!(low_i16(-32769), 32767);
    assert_eq!(outbound_port(5500), 5500);
    assert_eq!(outbound_port(-1), 65535);
    assert_eq!(outbound_port(65536 + 5900), 5900);
}

#[test]
fn client_id_conversions() {
    assert_eq!(java_long(7), 7);
    assert_eq!(java_long(u64::MAX), -1);
    assert_eq!(java_long(1u64 << 63), i64::MIN);
    assert_eq!(client_key(-1), u64::MAX);
    assert_eq!(client_key(42), 42);
    assert_eq!(connection_reply(None), 0);
    assert_eq!(connection_reply(Some(12)), 12);
    assert_eq!(connection_reply(Some(u64::MAX)), -1);
}

#[test]
fn dimension_replies() {
    assert_eq!(dimension_reply(Some(1080)), 1080);
    assert_eq!(dimension_reply(Some(65535)), 65535);
    assert_eq!(dimension_reply(None), -1);
}
