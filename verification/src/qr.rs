//! QR-code pictures of links, drawn by the `qrcode-png` crate.

use vstd::prelude::*;

verus! {

/// How much of a QR code may be damaged and still be read.
#[derive(Debug, Clone, Copy, PartialEq, Eq)]
pub enum QrErrorCorrection {
    Low,
    Medium,
    Quartile,
    High,
}

/// The PNG picture, or the error message, that `qrcode-png` gives for the
/// QR code of `content` at error correction `ecc`, drawn with `zoom` pixels
/// per module, a quiet zone of `margin` pixels, dark modules in grey level
/// `dark` on a background of grey level `light`.
pub uninterp spec fn spec_qr_png(
    content: Seq<char>,
    ecc: QrErrorCorrection,
    margin: u32,
    zoom: u32,
    dark: u8,
    light: u8,
) -> Result<Seq<u8>, Seq<char>>;

/// The view of a picture or an error message.
pub open spec fn picture_view(r: Result<Vec<u8>, String>) -> Result<Seq<u8>, Seq<char>> {
    match r {
        Ok(png) => Ok(png@),
        Err(e) => Err(e@),
    }
}

/// Draws the QR code of `content` as a grayscale PNG with
/// `qrcode_png::QrCode::new`, `margin`, `zoom` and `generate`
/// (`Color::Grayscale(dark, light)`); an error is given as its message.
/// The contract claims only that the outcome is a function of the
/// arguments. `zoom` must not be zero (`zoom` asserts it), and the side of
/// the picture is kept small enough that its size arithmetic cannot
/// overflow and its pixels fit in memory.
#[verifier::external_body]
fn qr_png(content: &str, ecc: QrErrorCorrection, margin: u32, zoom: u32, dark: u8, light: u8) -> (r: Result<Vec<u8>, String>)
    requires
        zoom > 0,
        177 * zoom + 2 * margin <= 8192,
    ensures
        picture_view(r) == spec_qr_png(content@, ecc, margin, zoom, dark, light),
{
    let level = match ecc {
        QrErrorCorrection::Low => qrcode_png::QrCodeEcc::Low,
        QrErrorCorrection::Medium => qrcode_png::QrCodeEcc::Medium,
        QrErrorCorrection::Quartile => qrcode_png::QrCodeEcc::Quartile,
        QrErrorCorrection::High => qrcode_png::QrCodeEcc::High,
    };
    let mut code = match qrcode_png::QrCode::new(content, level) {
        Ok(code) => code,
        Err(err) => return Err(err.to_string()),
    };
    code.margin(margin).zoom(zoom);
    match code.generate(qrcode_png::Color::Grayscale(dark, light)) {
        Ok(png) => Ok(png),
        Err(err) => Err(err.to_string()),
    }
}

/// The picture of a captcha link: low error correction, a margin of ten
/// pixels, five pixels per module, black on white.
pub open spec fn captcha_picture(verify_url: Seq<char>) -> Result<Seq<u8>, Seq<char>> {
    spec_qr_png(verify_url, QrErrorCorrection::Low, 10, 5, 0, 255)
}

/// Law: the captcha picture is the QR code of the verification link exactly
/// as given, whatever characters it holds: low error correction, a margin
/// of ten pixels, five pixels per module, black on white.
pub proof fn law_captcha_picture_encodes_link(verify_url: Seq<char>)
    ensures
        captcha_picture(verify_url) == spec_qr_png(verify_url, QrErrorCorrection::Low, 10, 5, 0, 255),
{
}

/// Draws the QR code that lets the user open a captcha link on a phone.
pub fn captcha_qr_code(verify_url: &str) -> (r: Result<Vec<u8>, String>)
    ensures
        picture_view(r) == captcha_picture(verify_url@),
{
    qr_png(verify_url, QrErrorCorrection::Low, 10, 5, 0, 255)
}

} // verus!
