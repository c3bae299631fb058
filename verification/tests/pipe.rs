use mumbleacre::adapter_worker::WriteOutcome;
use mumbleacre::codec::AcreCodecError;
use mumbleacre::pipe::{
    parse_read, wide_nul, write_outcome, AcrePipeError, PipeEnd, ReadStep, ACRE_FROM_TS_PIPE,
    ACRE_TO_TS_PIPE,
};

#[test]
fn uses_the_pipe_names_hard_coded_by_acre2_arma() {
    assert_eq!(ACRE_FROM_TS_PIPE, r"\\.\pipe\acre_comm_pipe_fromTS");
    assert_eq!(ACRE_TO_TS_PIPE, r"\\.\pipe\acre_comm_pipe_toTS");
    assert_eq!(wide_nul(ACRE_FROM_TS_PIPE).last(), Some(&0));
}

#[test]
fn wide_texts_are_utf_16() {
    for text in ["", "pipe", "añb", "🎧 x"] {
        let expected: Vec<u16> = text.encode_utf16().chain(std::iter::once(0)).collect();
        assert_eq!(wide_nul(text), expected);
    }
}

#[test]
fn connecting_has_three_outcomes() {
    let mut end = PipeEnd::new(ACRE_TO_TS_PIPE);
    assert_eq!(end.check_connected(), Err(AcrePipeError::NotConnected { pipe: ACRE_TO_TS_PIPE }));
    assert_eq!(end.see_connect(false, 536), Ok(false));
    assert!(!end.connected);
    assert_eq!(
        end.see_connect(false, 5).unwrap_err().to_string(),
        r"ConnectNamedPipe failed for ACRE pipe \\.\pipe\acre_comm_pipe_toTS (Win32 error 5)"
    );
    assert_eq!(end.see_connect(false, 535), Ok(true));
    assert!(end.connected && end.check_connected().is_ok());
    end.disconnected();
    assert!(!end.connected);
    assert_eq!(end.see_connect(true, 0), Ok(true));
}

#[test]
fn reads_yield_messages_nothing_or_a_failure() {
    let end = PipeEnd::new("p");
    let buffer = b"ping:xxxx";
    assert_eq!(end.see_read(true, buffer, 5, 0), ReadStep::Message(b"ping:".to_vec()));
    assert_eq!(end.see_read(true, buffer, 0, 0), ReadStep::Nothing);
    assert_eq!(end.see_read(false, buffer, 0, 232), ReadStep::Nothing);
    assert!(matches!(end.see_read(false, buffer, 0, 109), ReadStep::Disconnect(error) if error.is_broken()));
    assert!(matches!(
        end.see_read(false, buffer, 0, 234),
        ReadStep::Drain(AcrePipeError::MessageTooLong { .. })
    ));
    assert!(matches!(
        end.see_read(false, buffer, 0, 6),
        ReadStep::Failed(AcrePipeError::System { code: 6, .. })
    ));
    assert!(PipeEnd::drains_on(63, false, 234));
    assert!(!PipeEnd::drains_on(64, false, 234));
    assert!(!PipeEnd::drains_on(1, true, 0));
}

#[test]
fn writes_say_why_they_fell_short() {
    let end = PipeEnd::new("p");
    assert_eq!(write_outcome(end.see_write(true, 4, 4, 0)), WriteOutcome::Written);
    assert_eq!(write_outcome(end.see_write(false, 4, 0, 232)), WriteOutcome::WouldBlock);
    assert_eq!(write_outcome(end.see_write(false, 4, 0, 109)), WriteOutcome::Broken);
    assert_eq!(
        write_outcome(end.see_write(true, 4, 3, 0)),
        WriteOutcome::Failed("ACRE pipe p wrote 3 of 4 bytes".to_owned())
    );
    assert_eq!(
        write_outcome(end.see_write(false, 4, 0, 6)),
        WriteOutcome::Failed("WriteFile failed for ACRE pipe p (Win32 error 6)".to_owned())
    );
    assert_eq!(end.win32_byte_count(4096), Ok(4096));
    assert_eq!(
        end.win32_byte_count(4097).unwrap_err().to_string(),
        "ACRE pipe p sent a message larger than 4096 bytes"
    );
}

#[test]
fn what_was_read_is_parsed() {
    let message = parse_read(Ok(Some(b"ping:".to_vec()))).unwrap().unwrap();
    assert_eq!(message.procedure(), "ping");
    assert_eq!(parse_read(Ok(None)), Ok(None));
    assert_eq!(
        parse_read(Ok(Some(b"ping".to_vec()))),
        Err(AcrePipeError::Codec(AcreCodecError::MissingDelimiter))
    );
    let gone = AcrePipeError::Disconnected { pipe: "p" };
    assert_eq!(gone.to_string(), "ACRE pipe p was disconnected");
    assert_eq!(parse_read(Err(gone)), Err(AcrePipeError::Disconnected { pipe: "p" }));
    assert_eq!(
        AcrePipeError::WouldBlock { pipe: "p" }.to_string(),
        "ACRE pipe p has backpressure"
    );
}
