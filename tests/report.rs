use ecc_keygen::{format_report, key_report, to_hex, CurveId, KeyPair, KeygenError};

#[test]
fn hex_of_bytes() {
    assert_eq!(to_hex(&[0x01, 0x23, 0x45, 0x67, 0x89, 0xab, 0xcd, 0xef]).unwrap(), "0123456789abcdef");
    assert_eq!(to_hex(&[0x00, 0xff, 0x10]).unwrap(), "00ff10");
    assert_eq!(to_hex(&[]).unwrap(), "");
}

#[test]
fn report_layout() {
    assert_eq!(format_report("0a", "0b", "0c"), "pub.x = 0a\npub.y = 0b\npriv  = 0c\n");
    assert_eq!(format_report("", "", ""), "pub.x = \npub.y = \npriv  = \n");
}

#[test]
fn report_of_key_pair() {
    let kp = KeyPair::from_parts(CurveId::NistP224, &[0xab], &[0x01, 0x02], &[0xff]).unwrap();
    let zeros = |n: usize| "0".repeat(n);
    let expected = format!(
        "pub.x = {}ab\npub.y = {}0102\npriv  = {}ff\n",
        zeros(54),
        zeros(52),
        zeros(54)
    );
    let r: Result<String, KeygenError> = key_report(&kp);
    assert_eq!(r.unwrap(), expected);
}
