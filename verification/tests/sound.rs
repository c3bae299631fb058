use mumbleacre::codec::AcreMessage;
use mumbleacre::sound::{
    parse_load_sound, parse_play_loaded_sound, AcreSoundAssembler, AcreSoundError,
    AcreSoundLoadChunk, AcreSoundPlayback, ACRE_SOUND_LOAD_TIMEOUT,
};
use mumbleacre::speaking::AcreSpeakerVector;

fn message(text: &str) -> AcreMessage {
    AcreMessage::parse(text.as_bytes()).unwrap()
}

fn chunk(text: &str) -> Result<AcreSoundLoadChunk, AcreSoundError> {
    parse_load_sound(&message(text))
}

fn playback(text: &str) -> Result<AcreSoundPlayback, AcreSoundError> {
    let message = message(text);
    let readings: Vec<Option<u32>> = message
        .parameters()
        .iter()
        .map(|parameter| parameter.parse::<f32>().ok().map(f32::to_bits))
        .collect();
    parse_play_loaded_sound(&message, &readings)
}

fn vector(x: f32, z: f32, y: f32) -> AcreSpeakerVector {
    AcreSpeakerVector {
        x: x.to_bits(),
        z: z.to_bits(),
        y: y.to_bits(),
    }
}

#[test]
fn parses_the_v214_load_and_play_wire_shapes() {
    let chunk = chunk("loadSound:ACRE_Click,1,2,QUJD,").unwrap();
    assert_eq!(chunk.id(), "ACRE_Click");
    assert_eq!(chunk.index(), 1);
    assert_eq!(chunk.total(), 2);
    assert_eq!(chunk.base64(), "QUJD");

    let playback = playback("playLoadedSound:ACRE_Click,1,2,3,4,5,6,0.5,1,").unwrap();
    assert_eq!(playback.id(), "ACRE_Click");
    assert_eq!(playback.position(), vector(1.0, 2.0, 3.0));
    assert_eq!(playback.direction(), vector(4.0, 5.0, 6.0));
    assert!((f32::from_bits(playback.volume()) - 0.5).abs() < f32::EPSILON);
    assert!(playback.is_world());
}

#[test]
fn assembles_one_based_chunks_with_the_stock_terminal_empty_chunk() {
    let now = 1_000;
    let mut assembler = AcreSoundAssembler::default();
    assert_eq!(
        assembler
            .accept(chunk("loadSound:ACRE_Click,1,3,QUJD,").unwrap(), now)
            .unwrap(),
        None
    );
    assert_eq!(
        assembler
            .accept(chunk("loadSound:ACRE_Click,2,3,REVG,").unwrap(), now)
            .unwrap(),
        None
    );
    let loaded = assembler
        .accept(chunk("loadSound:ACRE_Click,3,3,,").unwrap(), now)
        .unwrap()
        .expect("final stock chunk completes the transfer");
    assert_eq!(loaded.id(), "ACRE_Click");
    assert_eq!(loaded.bytes(), b"ABCDEF");
    assert_eq!(loaded.sha256().len(), 32);
    assert_eq!(assembler.pending_count(), 0);
    assert_eq!(assembler.pending_encoded_bytes(), 0);
}

#[test]
fn accepts_the_legacy_zero_based_fixture_shape() {
    let mut assembler = AcreSoundAssembler::default();
    let loaded = assembler
        .accept(chunk("loadSound:fixture,0,1,QUJD,").unwrap(), 5)
        .unwrap()
        .expect("one zero-based chunk completes the fixture transfer");
    assert_eq!(loaded.bytes(), b"ABC");
}

#[test]
fn conflicting_or_expired_transfers_are_discarded() {
    let now = 1_000;
    let mut assembler = AcreSoundAssembler::default();
    let first = chunk("loadSound:ACRE_Click,1,3,QUJD,").unwrap();
    assert!(assembler.accept(first.clone(), now).unwrap().is_none());
    let conflict = chunk("loadSound:ACRE_Click,1,3,REVG,").unwrap();
    assert!(matches!(
        assembler.accept(conflict, now),
        Err(AcreSoundError::ConflictingChunk { .. })
    ));
    assert_eq!(assembler.pending_count(), 0);

    assert!(assembler.accept(first, now).unwrap().is_none());
    assert_eq!(
        assembler.expire(now + ACRE_SOUND_LOAD_TIMEOUT + 1_000_000),
        vec!["ACRE_Click"]
    );
    assert_eq!(assembler.pending_count(), 0);
}

#[test]
fn rejects_unsafe_ids_invalid_base64_and_out_of_range_playback() {
    assert!(matches!(
        chunk("loadSound:../escape,1,1,QUJD,"),
        Err(AcreSoundError::InvalidSoundId)
    ));
    assert!(matches!(
        chunk("loadSound:ACRE_Click,1,1,###,"),
        Err(AcreSoundError::InvalidBase64)
    ));
    assert!(matches!(
        playback("playLoadedSound:ACRE_Click,0,0,0,0,0,0,1.1,0,"),
        Err(AcreSoundError::InvalidVolume { .. })
    ));
    assert!(matches!(
        playback("playLoadedSound:ACRE_Click,0,0,0,0,0,0,0.5,2,"),
        Err(AcreSoundError::InvalidWorldFlag(_))
    ));
}

#[test]
fn the_digest_is_that_of_the_decoded_bytes() {
    let mut assembler = AcreSoundAssembler::default();
    let loaded = assembler
        .accept(chunk("loadSound:abc,0,1,YWJj,").unwrap(), 5)
        .unwrap()
        .unwrap();
    assert_eq!(loaded.bytes(), b"abc");
    assert_eq!(
        loaded.sha256(),
        &[
            0xba, 0x78, 0x16, 0xbf, 0x8f, 0x01, 0xcf, 0xea, 0x41, 0x41, 0x40, 0xde, 0x5d, 0xae,
            0x22, 0x23, 0xb0, 0x03, 0x61, 0xa3, 0x96, 0x17, 0x7a, 0x9c, 0xb4, 0x10, 0xff, 0x61,
            0xf2, 0x00, 0x15, 0xad,
        ]
    );
}

#[test]
fn chunks_may_arrive_out_of_order_and_twice() {
    let mut assembler = AcreSoundAssembler::default();
    assert!(assembler.accept(chunk("loadSound:s,2,3,REVG,").unwrap(), 1).unwrap().is_none());
    assert!(assembler.accept(chunk("loadSound:s,2,3,REVG,").unwrap(), 2).unwrap().is_none());
    assert_eq!(assembler.pending_encoded_bytes(), 4);
    assert!(assembler.accept(chunk("loadSound:s,3,3,,").unwrap(), 3).unwrap().is_none());
    let loaded = assembler.accept(chunk("loadSound:s,1,3,QUJD,").unwrap(), 4).unwrap().unwrap();
    assert_eq!(loaded.bytes(), b"ABCDEF");
}

#[test]
fn every_sound_error_has_an_input() {
    assert!(matches!(chunk("ping:"), Err(AcreSoundError::UnexpectedProcedure(_))));
    assert!(matches!(
        chunk("loadSound:a,1,1,"),
        Err(AcreSoundError::WrongArity { expected: 4, actual: 3, .. })
    ));
    assert_eq!(chunk("loadSound:,1,1,QUJD,"), Err(AcreSoundError::EmptySoundId));
    assert_eq!(
        chunk(&format!("loadSound:{},1,1,QUJD,", "a".repeat(129))),
        Err(AcreSoundError::SoundIdTooLong { length: 129, limit: 128 })
    );
    assert!(matches!(
        chunk("loadSound:a,x,1,QUJD,"),
        Err(AcreSoundError::InvalidInteger { index: 1, .. })
    ));
    assert!(matches!(
        playback("playLoadedSound:a,x,0,0,0,0,0,1,0,"),
        Err(AcreSoundError::InvalidFloat { index: 1, .. })
    ));
    assert_eq!(
        chunk("loadSound:a,1,129,QUJD,"),
        Err(AcreSoundError::InvalidChunkTotal { total: 129 })
    );
    assert_eq!(
        chunk("loadSound:a,3,2,QUJD,"),
        Err(AcreSoundError::InvalidChunkIndex { index: 3, total: 2 })
    );
    assert_eq!(
        chunk(&format!("loadSound:a,1,2,{},", "A".repeat(3073))),
        Err(AcreSoundError::ChunkTooLong { length: 3073, limit: 3072 })
    );
    let mut assembler = AcreSoundAssembler::default();
    assert!(matches!(
        assembler.accept(chunk("loadSound:a,1,3,,").unwrap(), 1),
        Err(AcreSoundError::EmptyNonFinalChunk { .. })
    ));
    assembler.accept(chunk("loadSound:a,1,3,QUJD,").unwrap(), 1).unwrap();
    assert!(matches!(
        assembler.accept(chunk("loadSound:a,1,2,QUJD,").unwrap(), 1),
        Err(AcreSoundError::ConflictingChunkLayout { .. })
    ));
    assert_eq!(
        assembler.accept(chunk("loadSound:b,0,1,,").unwrap(), 1),
        Err(AcreSoundError::EmptySoundPayload)
    );
    for index in 0..32 {
        let begun = chunk(&format!("loadSound:s{index},1,3,QUJD,")).unwrap();
        assert_eq!(assembler.accept(begun, 2), Ok(None));
    }
    assert_eq!(
        assembler.accept(chunk("loadSound:late,1,3,QUJD,").unwrap(), 2),
        Err(AcreSoundError::TooManyPendingSounds { limit: 32 })
    );
    assert_eq!(
        AcreSoundError::InvalidChunkTotal { total: 129 }.to_string(""),
        "ACRE sound transfer declares 129 chunks; limit is 128"
    );
    assembler.clear();
    assert_eq!(assembler.pending_count(), 0);
}

#[test]
fn zero_based_transfers_keep_their_counter() {
    let mut assembler = AcreSoundAssembler::default();
    assert_eq!(assembler.accept(chunk("loadSound:fixture,0,2,QUJD,").unwrap(), 5), Ok(None));
    let loaded = assembler
        .accept(chunk("loadSound:fixture,1,2,REVG,").unwrap(), 6)
        .unwrap()
        .unwrap();
    assert_eq!(loaded.id(), "fixture");
    assert_eq!(loaded.bytes(), b"ABCDEF");
    assert_eq!(assembler.pending_count(), 0);

    assert_eq!(assembler.accept(chunk("loadSound:fixture,0,3,QUJD,").unwrap(), 7), Ok(None));
    assert_eq!(assembler.accept(chunk("loadSound:fixture,2,3,,").unwrap(), 7), Ok(None));
    let loaded = assembler
        .accept(chunk("loadSound:fixture,1,3,REVG,").unwrap(), 7)
        .unwrap()
        .unwrap();
    assert_eq!(loaded.bytes(), b"ABCDEF");
}

#[test]
fn a_transfer_does_not_change_its_counter() {
    let mut assembler = AcreSoundAssembler::default();
    assert_eq!(assembler.accept(chunk("loadSound:fixture,0,2,QUJD,").unwrap(), 5), Ok(None));
    assert_eq!(
        assembler.accept(chunk("loadSound:fixture,2,2,REVG,").unwrap(), 5),
        Err(AcreSoundError::InvalidChunkIndex { index: 2, total: 2 })
    );
    assert_eq!(assembler.pending_count(), 0);

    assert_eq!(assembler.accept(chunk("loadSound:fixture,1,2,QUJD,").unwrap(), 5), Ok(None));
    assert_eq!(
        assembler.accept(chunk("loadSound:fixture,0,2,REVG,").unwrap(), 5),
        Err(AcreSoundError::ConflictingChunkLayout { id: "fixture".to_owned() })
    );
    assert_eq!(assembler.pending_count(), 0);
}

#[test]
fn transfers_of_several_sounds_run_side_by_side() {
    let mut assembler = AcreSoundAssembler::default();
    assert_eq!(assembler.accept(chunk("loadSound:a,2,2,REVG,").unwrap(), 1), Ok(None));
    assert_eq!(assembler.accept(chunk("loadSound:b,0,2,R0hJ,").unwrap(), 2), Ok(None));
    assert_eq!(assembler.accept(chunk("loadSound:c,1,3,QUJD,").unwrap(), 3), Ok(None));
    assert!(assembler.accept(chunk("loadSound:c,1,3,REVG,").unwrap(), 4).is_err());
    let first = assembler.accept(chunk("loadSound:a,1,2,QUJD,").unwrap(), 5).unwrap().unwrap();
    assert_eq!(first.id(), "a");
    assert_eq!(first.bytes(), b"ABCDEF");
    let second = assembler
        .accept(chunk("loadSound:b,1,2,SktM,").unwrap(), 6)
        .unwrap()
        .unwrap();
    assert_eq!(second.id(), "b");
    assert_eq!(second.bytes(), b"GHIJKL");
    assert_eq!(assembler.pending_count(), 0);
    assert_eq!(assembler.pending_encoded_bytes(), 0);
}
