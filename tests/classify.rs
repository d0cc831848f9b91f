use barcode_bible::code::{classify, ClassificationError, Code};
use barcode_bible::product::Product;

fn digits(n: usize) -> String {
    (0..n).map(|i| char::from(b'0' + (i % 10) as u8)).collect()
}

#[test]
fn classify_by_length_over_representative_lengths() {
    for n in [0usize, 1, 7, 8, 9, 12, 13, 14, 21, 22, 23] {
        let s = digits(n);
        match (n, classify(s.clone())) {
            (8, Ok(Code::EAN8(t))) => assert_eq!(t, s),
            (13, Ok(Code::EAN13(t))) => assert_eq!(t, s),
            (22, Ok(Code::CODE128(t))) => assert_eq!(t, s),
            (_, Err(ClassificationError::UnsupportedLength(t, l))) => {
                assert!(n != 8 && n != 13 && n != 22);
                assert_eq!(t, s);
                assert_eq!(l, n);
            }
            (n, other) => panic!("length {} classified as {:?}", n, other),
        }
    }
}

#[test]
fn classify_counts_characters() {
    let s = String::from("ÀBCDEFGH");
    assert!(matches!(classify(s), Ok(Code::EAN8(_))));
}

#[test]
fn display_round_trip() {
    let ean8 = classify(String::from("00045933")).unwrap();
    assert_eq!(ean8.display(), "EAN8_00045933");
    let ean13 = classify(String::from("2000926398005")).unwrap();
    assert_eq!(ean13.display(), "EAN13_2000926398005");
    let code128 = classify(String::from("ABCDEFGHIJ0123456789XY")).unwrap();
    assert_eq!(code128.display(), "CODE128_ABCDEFGHIJ0123456789XY");
}

#[test]
fn product_new_keeps_code_and_name() {
    let p = Product::new(String::from("2000926398005"), String::from("Gadget"));
    assert!(matches!(p.barcode, Code::EAN13(ref s) if s == "2000926398005"));
    assert_eq!(p.name, "Gadget");
}
