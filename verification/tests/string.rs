use core::cmp::Ordering;
use nt_hive::case_table::utf16_code_unit_to_uppercase;
use nt_hive::lookup::hash_name;
use nt_hive::units::{str_units, u16_from_le_bytes, CodeUnitIter, CodeUnitSource};
use nt_hive::NtHiveNameString;

#[test]
fn test_eq() {
    assert_eq!(NtHiveNameString::Latin1(b"Hello"), "Hello");
    assert_eq!(
        NtHiveNameString::Utf16LE(&[b'H', 0, b'e', 0, b'l', 0, b'l', 0, b'o', 0]),
        "Hello"
    );
    assert_eq!(NtHiveNameString::Latin1(b"Hello"), "hello");
    assert_eq!(
        NtHiveNameString::Utf16LE(&[b'H', 0, b'e', 0, b'l', 0, b'l', 0, b'o', 0]),
        "hello"
    );
    assert_eq!(NtHiveNameString::Latin1(b"Hell\xD6"), "hellö");
    assert_ne!(NtHiveNameString::Latin1(b"Hello"), "Hell");
    assert_ne!(
        NtHiveNameString::Utf16LE(&[b'H', 0, b'e', 0, b'l', 0, b'l', 0, b'o', 0]),
        "Hell"
    );

    // Characters in the Basic Multilingual Plane are compared case-insensitively,
    // others are not.
    let full_width_upper_a = "\u{FF21}"
        .encode_utf16()
        .flat_map(|utf16_code_point| utf16_code_point.to_le_bytes().to_vec())
        .collect::<Vec<u8>>();
    let full_width_lower_a = "\u{FF41}"
        .encode_utf16()
        .flat_map(|utf16_code_point| utf16_code_point.to_le_bytes().to_vec())
        .collect::<Vec<u8>>();
    assert_eq!(
        NtHiveNameString::Utf16LE(&full_width_upper_a),
        NtHiveNameString::Utf16LE(&full_width_lower_a)
    );

    let deseret_upper_h = "\u{10410}"
        .encode_utf16()
        .flat_map(|utf16_code_point| utf16_code_point.to_le_bytes().to_vec())
        .collect::<Vec<u8>>();
    let deseret_lower_h = "\u{10438}"
        .encode_utf16()
        .flat_map(|utf16_code_point| utf16_code_point.to_le_bytes().to_vec())
        .collect::<Vec<u8>>();
    assert_ne!(
        NtHiveNameString::Utf16LE(&deseret_upper_h),
        NtHiveNameString::Utf16LE(&deseret_lower_h)
    );
}

#[test]
fn test_is_empty() {
    assert!(NtHiveNameString::Latin1(b"").is_empty());
    assert!(NtHiveNameString::Utf16LE(&[]).is_empty());
    assert!(!NtHiveNameString::Latin1(b"Hello").is_empty());
    assert!(
        !NtHiveNameString::Utf16LE(&[b'H', 0, b'e', 0, b'l', 0, b'l', 0, b'o', 0]).is_empty()
    );
}

#[test]
fn test_len() {
    assert_eq!(NtHiveNameString::Latin1(b"Hello").len(), 5);
    assert_eq!(
        NtHiveNameString::Utf16LE(&[b'H', 0, b'e', 0, b'l', 0, b'l', 0, b'o', 0]).len(),
        10
    );
}

#[test]
fn test_ord() {
    assert!(NtHiveNameString::Latin1(b"a") < "b");
    assert!("b" > NtHiveNameString::Latin1(b"a"));

    assert!(NtHiveNameString::Latin1(b"a") == NtHiveNameString::Latin1(b"a"));
    assert!(NtHiveNameString::Latin1(b"a") < NtHiveNameString::Latin1(b"aa"));
    assert!(NtHiveNameString::Latin1(b"aa") > NtHiveNameString::Latin1(b"a"));
    assert!(NtHiveNameString::Latin1(b"a") < NtHiveNameString::Latin1(b"b"));

    // Even though Unicode character 0x10331 (Gothic Letter Bairkan) has a higher
    // code point than Unicode character 0xFF21 (Full-Width Latin Capital Letter A), Windows
    // hives order name strings by their UTF-16 representation.
    // Hence, 0x10331 is encoded as 0xD800 0xDF31 and comes before 0xFF21
    // (which is the same in UTF-16).
    let full_width_a = "\u{FF21}"
        .encode_utf16()
        .flat_map(|utf16_code_point| utf16_code_point.to_le_bytes().to_vec())
        .collect::<Vec<u8>>();
    let gothic_bairkan = "\u{10331}"
        .encode_utf16()
        .flat_map(|utf16_code_point| utf16_code_point.to_le_bytes().to_vec())
        .collect::<Vec<u8>>();
    assert!(
        NtHiveNameString::Utf16LE(&gothic_bairkan) < NtHiveNameString::Utf16LE(&full_width_a)
    );
}

#[test]
fn test_uppercase_table() {
    assert_eq!(utf16_code_unit_to_uppercase(0x61), 0x41);
    assert_eq!(utf16_code_unit_to_uppercase(0x7a), 0x5a);
    assert_eq!(utf16_code_unit_to_uppercase(0x41), 0x41);
    assert_eq!(utf16_code_unit_to_uppercase(0x60), 0x60);
    assert_eq!(utf16_code_unit_to_uppercase(0x7b), 0x7b);
    assert_eq!(utf16_code_unit_to_uppercase(0xb5), 0x39c);
    assert_eq!(utf16_code_unit_to_uppercase(0xf6), 0xd6);
    assert_eq!(utf16_code_unit_to_uppercase(0xff), 0x178);
    // No mapping to more than one character: the sharp s stays as it is.
    assert_eq!(utf16_code_unit_to_uppercase(0xdf), 0xdf);
    assert_eq!(utf16_code_unit_to_uppercase(0xff41), 0xff21);
    assert_eq!(utf16_code_unit_to_uppercase(0xff5a), 0xff3a);
    assert_eq!(utf16_code_unit_to_uppercase(0xff5b), 0xff5b);
    assert_eq!(utf16_code_unit_to_uppercase(0xffff), 0xffff);
    assert_eq!(utf16_code_unit_to_uppercase(0), 0);
    // Surrogates are passed through.
    assert_eq!(utf16_code_unit_to_uppercase(0xd801), 0xd801);
    assert_eq!(utf16_code_unit_to_uppercase(0xdc38), 0xdc38);
    // Folding twice changes nothing.
    for unit in 0..=u16::MAX {
        let upper = utf16_code_unit_to_uppercase(unit);
        assert_eq!(utf16_code_unit_to_uppercase(upper), upper);
    }
}

#[test]
fn test_ordering_corner_case() {
    let full_width_a = NtHiveNameString::Utf16LE(&[0x21, 0xff]);
    let gothic_bairkan = NtHiveNameString::Utf16LE(&[0x00, 0xd8, 0x31, 0xdf]);
    assert_eq!(gothic_bairkan.cmp(&full_width_a), Ordering::Less);
    assert_eq!(full_width_a.cmp(&gothic_bairkan), Ordering::Greater);
    assert_eq!(NtHiveNameString::cmp_self_and_str(&gothic_bairkan, "\u{FF21}"), Ordering::Less);
    assert_eq!(NtHiveNameString::cmp_str_and_self("\u{10331}", &full_width_a), Ordering::Less);
    assert_eq!(NtHiveNameString::cmp_str_and_self("\u{10331}", &gothic_bairkan), Ordering::Equal);
}

#[test]
fn test_astral_case_sensitivity() {
    let deseret_upper_h = NtHiveNameString::Utf16LE(&[0x01, 0xd8, 0x10, 0xdc]);
    let deseret_lower_h = NtHiveNameString::Utf16LE(&[0x01, 0xd8, 0x38, 0xdc]);
    assert_ne!(deseret_upper_h, deseret_lower_h);
    assert!(deseret_upper_h < deseret_lower_h);
    assert_eq!(deseret_upper_h, "\u{10410}");
    assert_ne!(deseret_upper_h, "\u{10438}");
    assert_eq!(deseret_upper_h.to_string_checked().unwrap(), "\u{10410}");
}

#[test]
fn test_equality_across_encodings() {
    let latin1 = NtHiveNameString::Latin1(b"Hello");
    let utf16le = NtHiveNameString::Utf16LE(&[b'h', 0, b'e', 0, b'l', 0, b'l', 0, b'o', 0]);
    let host = "HELLO";
    assert!(latin1 == utf16le);
    assert!(utf16le == latin1);
    assert!(latin1 == host);
    assert!(host == latin1);
    assert!(utf16le == host);
    assert!(host == utf16le);
    assert!(latin1 == *host);
    assert!(*host == latin1);

    // Two that are equal, and a third that is equal to neither.
    let other = "Help";
    assert!(latin1 != other);
    assert!(utf16le != other);
    assert!(other != latin1);
}

#[test]
fn test_order_laws() {
    let macro_bytes: Vec<u8> = "MACRO".encode_utf16().flat_map(|unit| unit.to_le_bytes()).collect();
    let names = [
        NtHiveNameString::Latin1(b""),
        NtHiveNameString::Latin1(b"a"),
        NtHiveNameString::Latin1(b"A"),
        NtHiveNameString::Latin1(b"ab"),
        NtHiveNameString::Latin1(b"b"),
        NtHiveNameString::Latin1(b"macro"),
        NtHiveNameString::Utf16LE(&macro_bytes),
        NtHiveNameString::Latin1(b"\xb5"),
        NtHiveNameString::Utf16LE(&[0x9c, 0x03]),
        NtHiveNameString::Utf16LE(&[0x00, 0xd8]),
        NtHiveNameString::Utf16LE(&[0x41]),
    ];
    for first in &names {
        assert_eq!(first.cmp(first), Ordering::Equal);
        for second in &names {
            assert_eq!(first.cmp(second), second.cmp(first).reverse());
            assert_eq!(first == second, first.cmp(second) == Ordering::Equal);
            assert_eq!(first.partial_cmp(second), Some(first.cmp(second)));
            for third in &names {
                if first.cmp(second) != Ordering::Greater && second.cmp(third) != Ordering::Greater
                {
                    assert_ne!(first.cmp(third), Ordering::Greater);
                }
                if first == second && second == third {
                    assert!(first == third);
                }
            }
        }
    }
    // The micro sign folds to the Greek capital letter Mu.
    assert!(names[7] == names[8]);
    // A byte that is left over belongs to no code unit.
    assert!(names[10] == names[0]);
    assert_eq!(names[10].len(), 1);
    assert!(!names[10].is_empty());
}

#[test]
fn test_name_hash() {
    assert_eq!(hash_name(&[]), 0);
    assert_eq!(hash_name(&[0x41]), 65);
    assert_eq!(hash_name(&[0x61]), 65);
    assert_eq!(hash_name(&[0x61, 0x62]), 65 * 37 + 66);
    let units: Vec<u16> = "data-test".encode_utf16().collect();
    let mut expected: u32 = 0;
    for byte in "DATA-TEST".bytes() {
        expected = expected.wrapping_mul(37).wrapping_add(byte as u32);
    }
    assert_eq!(hash_name(&units), expected);
    // The hash wraps around at 32 bits.
    let long: Vec<u16> = "zzzzzzzzzzzzzzzz".encode_utf16().collect();
    let mut expected: u32 = 0;
    for _ in 0..16 {
        expected = expected.wrapping_mul(37).wrapping_add(0x5a);
    }
    assert_eq!(hash_name(&long), expected);
}

#[test]
fn test_code_units() {
    assert_eq!(str_units("a\u{FF21}\u{10331}"), [0x61, 0xff21, 0xd800, 0xdf31]);
    assert_eq!(str_units(""), []);
    assert_eq!(u16_from_le_bytes(0x21, 0xff), 0xff21);

    let mut iter = CodeUnitIter::new(CodeUnitSource::Utf16LE(&[0x21, 0xff, 0x00, 0xd8, 0x31]));
    assert_eq!(iter.peek(), Some(0xff21));
    assert_eq!(iter.next(), Some(0xff21));
    assert_eq!(iter.next(), Some(0xd800));
    assert_eq!(iter.next(), None);
    assert_eq!(iter.next(), None);

    let mut iter = CodeUnitIter::new(CodeUnitSource::Latin1(b"\xe9"));
    assert_eq!(iter.next_char(), Some(Some('\u{e9}')));
    assert_eq!(iter.next_char(), None);

    let mut iter = CodeUnitIter::new(CodeUnitSource::Native(&[0xd83d, 0xde00, 0xde00, 0xd83d, 0x41]));
    assert_eq!(iter.next_char(), Some(Some('\u{1F600}')));
    assert_eq!(iter.next_char(), Some(None));
    assert_eq!(iter.next_char(), Some(None));
    assert_eq!(iter.next_char(), Some(Some('A')));
    assert_eq!(iter.next_char(), None);
}

#[test]
fn test_to_string() {
    let latin1 = NtHiveNameString::Latin1(b"Gr\xfc\xdfe");
    assert_eq!(latin1.to_string_checked(), Some("Grüße".to_owned()));
    assert_eq!(latin1.to_string_lossy(), "Grüße");
    assert_eq!(NtHiveNameString::Latin1(b"").to_string_lossy(), "");
    assert_eq!(NtHiveNameString::Utf16LE(&[]).to_string_checked(), Some(String::new()));
    let lone_low = NtHiveNameString::Utf16LE(&[b'a', 0, 0x00, 0xdc, b'b', 0]);
    assert_eq!(lone_low.to_string_checked(), None);
    assert_eq!(lone_low.to_string_lossy(), "a\u{FFFD}b");
    let high_at_end = NtHiveNameString::Utf16LE(&[b'a', 0, 0x00, 0xd8]);
    assert_eq!(high_at_end.to_string_checked(), None);
    assert_eq!(high_at_end.to_string_lossy(), "a\u{FFFD}");
}
