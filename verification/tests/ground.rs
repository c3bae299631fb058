use mumbleacre::audio_snapshot::AcreAudioSnapshotBuilder;
use mumbleacre::base64::decode;
use mumbleacre::binary32::{is_equal, is_finite, is_in_unit_interval, is_same, is_zero, read_finite};
use mumbleacre::decimal::{
    decimal_text, push_decimal, push_hexadecimal_bytes, push_hexadecimal_digits, push_wide_decimal,
    read_i32, read_u32, read_usize, signed_text,
};
use mumbleacre::order::ascending_keys;
use mumbleacre::plugin::{api_version, plugin_version, PLUGIN_FEATURES, PLUGIN_NAME};
use mumbleacre::ptt::AcrePttError;
use mumbleacre::text::{begins_with, same_bytes, same_text};
use mumbleacre::transmission::SpeakingKind;
use std::collections::HashMap;

#[test]
fn base64_groups_become_bytes() {
    assert_eq!(decode(b""), Some(Vec::new()));
    assert_eq!(decode(b"QQ=="), Some(b"A".to_vec()));
    assert_eq!(decode(b"QUI="), Some(b"AB".to_vec()));
    assert_eq!(decode(b"QUJD"), Some(b"ABC".to_vec()));
    assert_eq!(decode(b"+/+/"), Some(vec![0xfb, 0xff, 0xbf]));
    for refused in ["Q", "QQ=", "====", "QQ==QUJD", "Q=JD", "QU*D"] {
        assert_eq!(decode(refused.as_bytes()), None, "{refused}");
    }
    let letters = vec![b'A'; 400];
    assert_eq!(decode(&letters).unwrap().len(), 300);
}

#[test]
fn written_numbers_read_back() {
    for number in [0, 1, 9, 10, 4_294_967_295u64] {
        assert_eq!(read_u32(&decimal_text(number)).map(u64::from), Some(number));
    }
    for number in [i32::MIN, -1, 0, 7, i32::MAX] {
        assert_eq!(read_i32(&signed_text(number)), Some(number));
        assert_eq!(signed_text(number), number.to_string());
    }
    assert_eq!(decimal_text(u64::MAX), u64::MAX.to_string());
    let mut text = "n=".to_owned();
    push_wide_decimal(&mut text, u128::MAX);
    assert_eq!(text, format!("n={}", u128::MAX));
}

#[test]
fn numbers_are_read_as_std_reads_them() {
    for text in ["", "+", "-", "+7", "-7", "007", "4294967295", "4294967296", "1 ", "0x1", "١"] {
        assert_eq!(read_u32(text), text.parse::<u32>().ok(), "{text}");
        assert_eq!(read_i32(text), text.parse::<i32>().ok(), "{text}");
        assert_eq!(read_usize(text), text.parse::<usize>().ok(), "{text}");
    }
    for text in ["2147483647", "2147483648", "-2147483648", "-2147483649", "--1"] {
        assert_eq!(read_i32(text), text.parse::<i32>().ok(), "{text}");
    }
}

#[test]
fn hexadecimal_digits_have_a_fixed_width() {
    let mut text = String::new();
    push_hexadecimal_digits(&mut text, 0xabc, 16);
    assert_eq!(text, format!("{:016x}", 0xabc));
    push_hexadecimal_bytes(&mut text, &[0x0f, 0xa0, 0xff], 2);
    assert!(text.ends_with("0fa0"));
    push_decimal(&mut text, 5);
    assert!(text.ends_with("0fa05"));
}

#[test]
fn patterns_are_judged_as_numbers() {
    for value in [0.0f32, -0.0, 1.0, 0.5, -0.5, 1.000_000_1, f32::MAX, f32::MIN_POSITIVE] {
        assert!(is_finite(value.to_bits()));
        assert_eq!(is_zero(value.to_bits()), value == 0.0);
        assert_eq!(
            is_in_unit_interval(value.to_bits()),
            (0.0..=1.0).contains(&value),
            "{value}"
        );
    }
    for value in [f32::NAN, f32::INFINITY, f32::NEG_INFINITY] {
        assert!(!is_finite(value.to_bits()));
        assert!(!is_in_unit_interval(value.to_bits()));
    }
    assert!(is_same(0.0f32.to_bits(), (-0.0f32).to_bits()));
    assert!(!is_same(0.5f32.to_bits(), (-0.5f32).to_bits()));
    let readings = [Some(1.0f32.to_bits()), None, Some(f32::NAN.to_bits())];
    assert_eq!(read_finite(&readings, 0), Some(1.0f32.to_bits()));
    assert_eq!(read_finite(&readings, 1), None);
    assert_eq!(read_finite(&readings, 2), None);
    assert_eq!(read_finite(&readings, 3), None);
}

#[test]
fn keys_come_in_ascending_order() {
    let table: HashMap<u32, &str> = HashMap::from([(9, "a"), (u32::MAX, "b"), (0, "c")]);
    assert_eq!(ascending_keys(&table), [0, 9, u32::MAX]);
    assert!(ascending_keys(&HashMap::<u32, u8>::new()).is_empty());
}

#[test]
fn texts_and_bytes_are_told_apart() {
    assert!(same_text("ñ", "ñ") && !same_text("a", "b") && !same_text("a", "ab"));
    assert!(same_bytes(b"ab", b"ab") && !same_bytes(b"ab", b"ac"));
    assert!(begins_with("Acre_GenericClickOn", "Acre_GenericClick"));
    assert!(!begins_with("Acre_Generic", "Acre_GenericClick"));
}

#[test]
fn the_plugin_introduces_itself() {
    assert_eq!(PLUGIN_NAME, "MumbleACRE");
    assert_eq!(PLUGIN_FEATURES, 2);
    assert_eq!((api_version().major, api_version().minor), (1, 0));
    assert_eq!(plugin_version().minor, 1);
}

#[test]
fn refusals_are_put_into_words() {
    assert_eq!(
        AcrePttError::NonRadioWithRadioId(SpeakingKind::God).to_string(),
        "ACRE local God PTT must not carry a radio ID"
    );
    assert_eq!(
        AcrePttError::ExpectedDirect(SpeakingKind::Radio).to_string(),
        "expected local direct speech, received Radio"
    );
    assert_eq!(
        AcreAudioSnapshotBuilder::with_max_speakers(0).unwrap_err().to_string(),
        "ACRE audio snapshot capacity must be non-zero"
    );
}

/// The standard padded encoding.
fn encoded(bytes: &[u8]) -> Vec<u8> {
    let alphabet = b"ABCDEFGHIJKLMNOPQRSTUVWXYZabcdefghijklmnopqrstuvwxyz0123456789+/";
    let mut letters = Vec::new();
    for block in bytes.chunks(3) {
        let mut n = 0usize;
        for place in 0..3 {
            n = n * 256 + block.get(place).copied().unwrap_or(0) as usize;
        }
        letters.push(alphabet[n >> 18]);
        letters.push(alphabet[n >> 12 & 63]);
        letters.push(if block.len() > 1 { alphabet[n >> 6 & 63] } else { b'=' });
        letters.push(if block.len() > 2 { alphabet[n & 63] } else { b'=' });
    }
    letters
}

#[test]
fn decoding_undoes_the_standard_encoding() {
    let bytes: Vec<u8> = (0u32..700).map(|n| (n * 37 % 251) as u8).collect();
    for length in 0..bytes.len() {
        let letters = encoded(&bytes[..length]);
        assert_eq!(letters.len(), (length + 2) / 3 * 4);
        assert_eq!(decode(&letters), Some(bytes[..length].to_vec()));
    }
}

#[test]
fn only_the_last_letters_may_be_padding() {
    for (letters, length) in [("QUJD", 3), ("QUI=", 2), ("QQ==", 1), ("QUJDQUI=", 5)] {
        assert_eq!(decode(letters.as_bytes()).map(|bytes| bytes.len()), Some(length));
    }
    for refused in ["Q===", "QUI=QUJD", "Q=I=", "QU=D", "QUJDQ"] {
        assert_eq!(decode(refused.as_bytes()), None, "{refused}");
    }
}

#[test]
fn patterns_are_equal_as_numbers() {
    let values = [0.0f32, -0.0, 1.0, -1.0, f32::INFINITY, f32::NEG_INFINITY, f32::NAN, 1e-40];
    for a in values {
        for b in values {
            assert_eq!(is_equal(a.to_bits(), b.to_bits()), a == b, "{a} {b}");
        }
    }
}
