use mumbleacre::codec::{AcreCodecError, AcreMessage, ACRE_MAX_MESSAGE_BYTES};

#[test]
fn parses_the_forms_emitted_by_acre2_arma_and_the_stock_plugin() {
    let without_nul = AcreMessage::parse(b"getClientID:2:1234,").unwrap();
    assert_eq!(without_nul.procedure(), "getClientID");
    assert_eq!(without_nul.parameters(), ["2:1234"]);
    assert!(without_nul.trailing_comma());

    let with_nul = AcreMessage::parse(b"handleGetPluginVersion:2.14.0.1064\0").unwrap();
    assert_eq!(with_nul.procedure(), "handleGetPluginVersion");
    assert_eq!(with_nul.parameters(), ["2.14.0.1064"]);
    assert!(!with_nul.trailing_comma());
}

#[test]
fn preserves_empty_interior_parameters_and_a_final_comma() {
    let message = AcreMessage::parse(b"setSetting:radio,,value,").unwrap();
    assert_eq!(message.parameters(), ["radio", "", "value"]);
    assert!(message.trailing_comma());
    assert_eq!(message.encode_text(), "setSetting:radio,,value,");
}

#[test]
fn serializes_a_stock_plugin_style_reply() {
    let message = AcreMessage::with_trailing_comma(
        "handleGetClientID",
        vec!["42".to_owned(), "2:1234".to_owned()],
        true,
    )
    .unwrap();
    assert_eq!(
        message.encode_nul_terminated(),
        b"handleGetClientID:42,2:1234,\0"
    );
}

#[test]
fn rejects_partial_or_oversized_messages() {
    assert_eq!(
        AcreMessage::parse(b"ping:\0ignored").unwrap_err(),
        AcreCodecError::DataAfterNul
    );
    assert!(matches!(
        AcreMessage::parse(&[b'x'; ACRE_MAX_MESSAGE_BYTES + 1]),
        Err(AcreCodecError::MessageTooLong { .. })
    ));
    assert!(matches!(
        AcreMessage::parse(b"ping:\xff"),
        Err(AcreCodecError::NonAscii { .. })
    ));
}

#[test]
fn formatted_error_is_useful_without_leaking_payloads() {
    let error = AcreMessage::new("x", Vec::new()).unwrap_err();
    let rendered = error.to_string();
    assert!(rendered.contains("at least two"));
}

#[test]
fn every_codec_error_has_an_input_and_words() {
    assert_eq!(
        AcreMessage::parse(b"").unwrap_err().to_string(),
        "ACRE RPC message is empty"
    );
    assert_eq!(
        AcreMessage::parse(b"\0\0").unwrap_err(),
        AcreCodecError::EmptyMessage
    );
    assert_eq!(
        AcreMessage::parse(&[b'x'; 4097]).unwrap_err().to_string(),
        "ACRE RPC message is 4097 bytes; limit is 4096"
    );
    assert_eq!(
        AcreMessage::parse(b"ping:\xff").unwrap_err().to_string(),
        "ACRE RPC message contains non-ASCII byte 0xff at offset 5"
    );
    assert_eq!(
        AcreMessage::parse(b"ping:\0x").unwrap_err().to_string(),
        "ACRE RPC message has non-NUL bytes after its terminator"
    );
    assert_eq!(
        AcreMessage::parse(b"ping").unwrap_err().to_string(),
        "ACRE RPC message has no procedure delimiter"
    );
    assert_eq!(
        AcreMessage::parse(b"p:").unwrap_err(),
        AcreCodecError::ProcedureTooShort
    );
    assert_eq!(
        AcreMessage::parse(b"pi ng:").unwrap_err().to_string(),
        "ACRE RPC procedure contains unsupported characters"
    );
    assert_eq!(
        AcreMessage::new("ping", vec![String::new(); 1025])
            .unwrap_err()
            .to_string(),
        "ACRE RPC message has 1025 parameters; limit is 1024"
    );
    assert_eq!(
        AcreMessage::new("ping", vec!["a".to_owned(), "b\tc".to_owned()])
            .unwrap_err()
            .to_string(),
        "ACRE RPC parameter 1 contains unsupported byte 0x9"
    );
    assert_eq!(
        AcreMessage::new("ping", vec!["\u{e9}".to_owned()]).unwrap_err(),
        AcreCodecError::InvalidParameter {
            index: 0,
            byte: 0xc3
        }
    );
    assert_eq!(
        AcreMessage::new("ping", vec!["x".repeat(4091)]).unwrap_err(),
        AcreCodecError::MessageTooLong {
            length: 4097,
            limit: 4096
        }
    );
}

#[test]
fn the_longest_message_fits_exactly() {
    let message = AcreMessage::new("ping", vec!["x".repeat(4090)]).unwrap();
    assert_eq!(message.encoded_len_without_nul(), 4095);
    assert_eq!(message.encode_nul_terminated().len(), 4096);
    let mut wire = b"ping:".to_vec();
    wire.extend(vec![b'x'; 4091]);
    assert_eq!(AcreMessage::parse(&wire).unwrap().encoded_len_without_nul(), 4096);
}

#[test]
fn encoding_and_parsing_restore_each_other() {
    for text in [
        "ping:", "ping:,", "ping:,,", "ping:a", "ping:a,", "ping:a,,", "ping:,a", "a_1:b:c,d",
    ] {
        let message = AcreMessage::parse(text.as_bytes()).unwrap();
        assert_eq!(message.encode_text(), text);
        assert_eq!(
            AcreMessage::parse(&message.encode_nul_terminated()).unwrap(),
            message
        );
    }
    let single_empty = AcreMessage::new("ping", vec![String::new()]).unwrap();
    assert_eq!(
        AcreMessage::parse(single_empty.encode_text().as_bytes())
            .unwrap()
            .parameters()
            .len(),
        0
    );
    assert_eq!(single_empty.clone(), single_empty);
}
