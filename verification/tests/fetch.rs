use miniblog::remote_file::{evaluate_fetch, FetchError};

const PNG_SIG: [u8; 8] = [0x89, 0x50, 0x4e, 0x47, 0x0d, 0x0a, 0x1a, 0x0a];

#[test]
fn non_success_status_is_an_http_status_error() {
    assert_eq!(evaluate_fetch(404, &PNG_SIG), Err(FetchError::HttpStatus));
    assert_eq!(evaluate_fetch(301, &PNG_SIG), Err(FetchError::HttpStatus));
    assert_eq!(evaluate_fetch(199, &PNG_SIG), Err(FetchError::HttpStatus));
    assert_eq!(evaluate_fetch(500, &PNG_SIG), Err(FetchError::HttpStatus));
}

#[test]
fn success_status_with_non_png_body_is_invalid_image() {
    assert_eq!(evaluate_fetch(200, b"<html></html>"), Err(FetchError::InvalidImage));
    assert_eq!(evaluate_fetch(200, &[]), Err(FetchError::InvalidImage));
}

#[test]
fn success_status_with_png_body_is_accepted() {
    assert_eq!(evaluate_fetch(200, &PNG_SIG), Ok(()));
    let mut body = PNG_SIG.to_vec();
    body.extend_from_slice(&[9, 9, 9]);
    assert_eq!(evaluate_fetch(204, &body), Ok(()));
    assert_eq!(evaluate_fetch(299, &body), Ok(()));
}
