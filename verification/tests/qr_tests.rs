use gtk_qq::login::{captcha_response, ResponseAction};
use gtk_qq::qr::captcha_qr_code;

const PNG_SIGNATURE: [u8; 8] = [0x89, b'P', b'N', b'G', 0x0d, 0x0a, 0x1a, 0x0a];

#[test]
fn captcha_picture_is_a_png() {
    let picture = captcha_qr_code("https://ssl.captcha.qq.com/template/wireless_mqq_captcha.html?aid=1").unwrap();
    assert_eq!(&picture[..8], &PNG_SIGNATURE);
    // The picture is square: width and height in the IHDR chunk are equal.
    assert_eq!(&picture[16..20], &picture[20..24]);
}

#[test]
fn captcha_picture_depends_on_the_link_only() {
    let a = captcha_qr_code("https://example.com/a").unwrap();
    let b = captcha_qr_code("https://example.com/a").unwrap();
    let c = captcha_qr_code("https://example.com/b").unwrap();
    assert_eq!(a, b);
    assert_ne!(a, c);
}

#[test]
fn captcha_picture_of_an_oversized_link_fails() {
    let link = "x".repeat(4000);
    let err = captcha_qr_code(&link).unwrap_err();
    assert!(err.starts_with("Data length = "), "{}", err);
}

#[test]
fn captcha_response_shows_the_picture_or_the_error() {
    assert_eq!(
        captcha_response("u".to_string(), Ok(vec![1, 2, 3])),
        ResponseAction::ShowCaptcha { verify_url: "u".to_string(), picture: vec![1, 2, 3] }
    );
    assert_eq!(captcha_response("u".to_string(), Err("bad".to_string())), ResponseAction::Fail("bad".to_string()));
}
