use barcode_bible::batch::{prepare_products, PipelineError};
use barcode_bible::code::{ClassificationError, Code};
use barcode_bible::product::ConfigProduct;
use barcode_bible::render::{image_file_name, render, RenderError, RenderStyle};
use barcoders::sym::code128::Code128;
use barcoders::sym::ean13::EAN13;
use barcoders::sym::ean8::EAN8;

fn item(barcode: &str, name: &str) -> ConfigProduct {
    ConfigProduct { barcode: barcode.to_string(), name: name.to_string() }
}

#[test]
fn ean8_encodes_first_seven_digits() {
    let code = Code::EAN8(String::from("00045933"));
    let expected = EAN8::new("0004593").unwrap().encode();
    let got = code.encode().unwrap();
    assert_eq!(got, expected);
    assert_eq!(got.len(), 67);
}

#[test]
fn ean13_encodes_first_twelve_digits() {
    let code = Code::EAN13(String::from("2000926398005"));
    let expected = EAN13::new("200092639800").unwrap().encode();
    let got = code.encode().unwrap();
    assert_eq!(got, expected);
    assert_eq!(got.len(), 95);
}

#[test]
fn code128_encodes_after_start_character() {
    let code = Code::CODE128(String::from("ABCDEFGHIJ0123456789XY"));
    let expected = Code128::new("\u{00C0}ABCDEFGHIJ0123456789XY").unwrap().encode();
    assert_eq!(code.encode().unwrap(), expected);
}

#[test]
fn ean8_with_letters_fails_to_encode() {
    let code = Code::EAN8(String::from("0004x933"));
    assert!(code.encode().is_err());
    assert_eq!(render(&code, &RenderStyle::catalogue()), Err(RenderError::EncodingFailed));
}

#[test]
fn render_gives_jpeg_bytes() {
    let code = Code::EAN8(String::from("00045933"));
    let bytes = render(&code, &RenderStyle::catalogue()).unwrap();
    assert!(bytes.len() > 4);
    assert_eq!(&bytes[..2], &[0xFF, 0xD8]);
}

#[test]
fn image_file_name_uses_display_text() {
    let code = Code::CODE128(String::from("ABCDEFGHIJ0123456789XY"));
    assert_eq!(image_file_name(&code), "CODE128_ABCDEFGHIJ0123456789XY.jpeg");
}

#[test]
fn prepare_products_renders_all_in_order() {
    let items = vec![item("00045933", "Widget"), item("2000926398005", "Gadget")];
    let out = prepare_products(&items, &RenderStyle::catalogue()).unwrap();
    assert_eq!(out.len(), 2);
    assert_eq!(out[0].product.name, "Widget");
    assert_eq!(out[0].file_name, "EAN8_00045933.jpeg");
    assert_eq!(out[1].product.name, "Gadget");
    assert_eq!(out[1].file_name, "EAN13_2000926398005.jpeg");
    assert!(!out[1].image.is_empty());
}

#[test]
fn prepare_products_stops_at_unclassifiable_code() {
    let items = vec![item("00045933", "Widget"), item("12345", "Odd"), item("0004x933", "Bad")];
    match prepare_products(&items, &RenderStyle::catalogue()) {
        Err(PipelineError::Classification(ClassificationError::UnsupportedLength(s, n))) => {
            assert_eq!(s, "12345");
            assert_eq!(n, 5);
        }
        other => panic!("unexpected {:?}", other),
    }
}

#[test]
fn prepare_products_stops_at_unrenderable_code() {
    let items = vec![item("0004x933", "Bad"), item("12345", "Odd")];
    match prepare_products(&items, &RenderStyle::catalogue()) {
        Err(PipelineError::Render(Code::EAN8(s), RenderError::EncodingFailed)) => {
            assert_eq!(s, "0004x933")
        }
        other => panic!("unexpected {:?}", other),
    }
}

#[test]
fn prepare_products_of_nothing_is_empty() {
    let out = prepare_products(&Vec::new(), &RenderStyle::catalogue()).unwrap();
    assert!(out.is_empty());
}

#[test]
fn ean_codes_with_wrong_check_digit_still_encode() {
    let ean8 = Code::EAN8(String::from("00045930")).encode().unwrap();
    assert_eq!(ean8, EAN8::new("0004593").unwrap().encode());
    assert_eq!(ean8.len(), 67);
    let ean13 = Code::EAN13(String::from("2000926398000")).encode().unwrap();
    assert_eq!(ean13, EAN13::new("200092639800").unwrap().encode());
    assert_eq!(ean13.len(), 95);
}
