use hound::{SampleFormat, WavSpec, WavWriter};
use mumbleacre::codec::AcreMessage;
use mumbleacre::sound::{
    parse_load_sound, parse_play_loaded_sound, AcreLoadedSound, AcreSoundAssembler,
    AcreSoundPlayback,
};
use mumbleacre::sound_cache::{
    check_wav, is_supported_local_sample, parse_acre_wav, short_hash, AcreSoundWorkerResult,
    PlaybackFiles, SoundCache, WavHeader, ACRE_SAMPLE_RATE, MAX_SOUND_DURATION, PIP_SAMPLES,
    PLAYBACK_FILE_GRACE,
};
use std::io::Cursor;

const SECOND: u64 = 1_000_000_000;

fn pcm_wav(sample_rate: u32, channels: u16, samples: &[i16]) -> Vec<u8> {
    let mut cursor = Cursor::new(Vec::new());
    let spec = WavSpec {
        channels,
        sample_rate,
        bits_per_sample: 16,
        sample_format: SampleFormat::Int,
    };
    {
        let mut writer = WavWriter::new(&mut cursor, spec).unwrap();
        for sample in samples {
            writer.write_sample(*sample).unwrap();
        }
        writer.finalize().unwrap();
    }
    cursor.into_inner()
}

fn encode_base64(bytes: &[u8]) -> String {
    const ALPHABET: &[u8; 64] = b"ABCDEFGHIJKLMNOPQRSTUVWXYZabcdefghijklmnopqrstuvwxyz0123456789+/";
    let mut encoded = String::new();
    for chunk in bytes.chunks(3) {
        let first = chunk[0];
        let second = *chunk.get(1).unwrap_or(&0);
        let third = *chunk.get(2).unwrap_or(&0);
        encoded.push(char::from(ALPHABET[usize::from(first >> 2)]));
        encoded.push(char::from(
            ALPHABET[usize::from(((first & 0x03) << 4) | (second >> 4))],
        ));
        encoded.push(if chunk.len() > 1 {
            char::from(ALPHABET[usize::from(((second & 0x0f) << 2) | (third >> 6))])
        } else {
            '='
        });
        encoded.push(if chunk.len() > 2 {
            char::from(ALPHABET[usize::from(third & 0x3f)])
        } else {
            '='
        });
    }
    encoded
}

fn named_sound(id: &str, bytes: &[u8]) -> AcreLoadedSound {
    let encoded = encode_base64(bytes);
    let text = format!("loadSound:{id},0,1,{encoded},");
    let chunk = parse_load_sound(&AcreMessage::parse(text.as_bytes()).unwrap()).unwrap();
    AcreSoundAssembler::default().accept(chunk, 1).unwrap().unwrap()
}

fn loaded_sound(bytes: &[u8]) -> AcreLoadedSound {
    named_sound("ACRE_Test", bytes)
}

fn playback(text: &str) -> AcreSoundPlayback {
    let message = AcreMessage::parse(text.as_bytes()).unwrap();
    let readings: Vec<Option<u32>> = message
        .parameters()
        .iter()
        .map(|parameter| parameter.parse::<f32>().ok().map(f32::to_bits))
        .collect();
    parse_play_loaded_sound(&message, &readings).unwrap()
}

fn header(channels: u16, sample_rate: u32) -> Result<WavHeader, String> {
    Ok(WavHeader {
        channels,
        sample_rate,
        bits_per_sample: 16,
        integer_samples: true,
    })
}

#[test]
fn parses_only_the_wav_shape_generated_by_acre_v214() {
    let valid = pcm_wav(48_000, 1, &[0, 1_000, -1_000]);
    let parsed = parse_acre_wav(&valid).unwrap();
    assert_eq!(parsed.samples, [0, 1_000, -1_000]);
    assert_eq!(ACRE_SAMPLE_RATE, 48_000);
    assert!(parse_acre_wav(&pcm_wav(22_050, 1, &[0])).is_err());
    assert!(parse_acre_wav(&pcm_wav(48_000, 2, &[0, 0])).is_err());
}

#[test]
fn prepared_sound_cache_rejects_non_wav_payloads_without_exposing_bytes() {
    let sound = loaded_sound(b"not-a-wav");
    let mut cache = SoundCache::default();
    assert!(matches!(
        cache.prepare_loaded_sound(0, 0, &sound),
        AcreSoundWorkerResult::LoadFailed { .. }
    ));
    assert_eq!(cache.len(), 0);
}

#[test]
fn rejects_world_or_positioned_requests_instead_of_losing_spatial_meaning() {
    let centred = playback("playLoadedSound:ACRE_Click,0,0,0,0,0,0,1,0,");
    assert!(is_supported_local_sample(&centred));

    let world = playback("playLoadedSound:ACRE_Click,0,0,0,0,0,0,1,1,");
    assert!(!is_supported_local_sample(&world));

    let positioned = playback("playLoadedSound:ACRE_Click,1,0,0,0,0,0,1,0,");
    assert!(!is_supported_local_sample(&positioned));
}

#[test]
fn prepares_a_centred_local_sample_and_lets_its_file_go_in_time() {
    let sound = loaded_sound(&pcm_wav(48_000, 1, &[20_000, -20_000]));
    let mut cache = SoundCache::default();
    match cache.prepare_loaded_sound(7, 0, &sound) {
        AcreSoundWorkerResult::Loaded {
            generation,
            id,
            sample_count,
        } => {
            assert_eq!(generation, 7);
            assert_eq!(id.as_str(), "ACRE_Test");
            assert_eq!(sample_count, 2);
        }
        other => panic!("expected a loaded sound, got {other:?}"),
    }
    assert_eq!(cache.sample_bytes(), 4);

    let request = playback("playLoadedSound:ACRE_Test,0,0,0,0,0,0,0.5,0,");
    let mut files = PlaybackFiles::default();
    let (gone, source) = files.prepare(&cache, 7, 0, &request, SECOND);
    assert!(gone.is_empty());
    let source = source.unwrap();
    assert_eq!(source.samples(), [20_000, -20_000]);
    let first = files.next_file(&source);
    let report = files.finish(7, &request, first.clone(), &source, Ok(()), SECOND);
    assert!(matches!(
        &report,
        AcreSoundWorkerResult::PlaybackReady { generation: 7, id, file }
            if id.as_str() == "ACRE_Test" && *file == first
    ));
    let second = files.next_file(&source);
    files.finish(7, &request, second.clone(), &source, Ok(()), SECOND);
    let failed = files.finish(
        7,
        &request,
        "c.wav".to_owned(),
        &source,
        Err("no room".to_owned()),
        SECOND,
    );
    assert!(matches!(
        failed,
        AcreSoundWorkerResult::PlaybackFailed { generation: 7, reason, .. } if reason == "no room"
    ));
    assert_ne!(first, second);
    assert_eq!(
        first,
        format!("{}-0000000000000001.wav", short_hash(sound.sha256()))
    );
    assert_eq!(files.len(), 2);

    assert!(files.cleanup_expired(SECOND + PLAYBACK_FILE_GRACE).is_empty());
    assert_eq!(
        files.cleanup_expired(SECOND + MAX_SOUND_DURATION + PLAYBACK_FILE_GRACE),
        [first, second]
    );
    assert_eq!(files.len(), 0);
}

#[test]
fn every_wav_refusal_has_an_input() {
    let reason = |parsed: Result<_, String>| parsed.unwrap_err();
    assert_eq!(
        reason(check_wav(Err("no chunk".to_owned()), Ok(vec![1]))),
        "ACRE sound is not a readable WAV: no chunk"
    );
    assert_eq!(
        reason(check_wav(header(2, 48_000), Ok(vec![1]))),
        "ACRE sound must be mono PCM16 at 48 kHz"
    );
    assert_eq!(
        reason(check_wav(header(1, 48_000), Err("cut".to_owned()))),
        "ACRE WAV sample decode failed: cut"
    );
    assert_eq!(
        reason(parse_acre_wav(&pcm_wav(48_000, 1, &[]))),
        "ACRE sound has no PCM samples"
    );
    let long = check_wav(header(1, 48_000), Ok(vec![0; 1_440_001])).unwrap_err();
    assert!(long == "ACRE sound has too many PCM samples" || long.contains("30 second"));
    let longest = check_wav(header(1, 48_000), Ok(vec![0; 1_048_576])).unwrap();
    assert_eq!(longest.duration, 1_048_576 * SECOND / 48_000);
}

#[test]
fn unreadable_bytes_are_refused_with_the_readers_words() {
    let reason = parse_acre_wav(b"not-a-wav").unwrap_err();
    assert!(reason.starts_with("ACRE sound is not a readable WAV: "));
    let mut cut = pcm_wav(48_000, 1, &[1, 2, 3, 4]);
    cut.truncate(cut.len() - 3);
    assert!(parse_acre_wav(&cut).is_err());
}

#[test]
fn the_cache_is_bounded_and_replaces_sounds_of_one_name() {
    let mut cache = SoundCache::default();
    for index in 0..32 {
        let sound = named_sound(&format!("s{index}"), &pcm_wav(48_000, 1, &[index]));
        assert!(matches!(
            cache.prepare_loaded_sound(1, 0, &sound),
            AcreSoundWorkerResult::Loaded { .. }
        ));
    }
    let late = named_sound("late", &pcm_wav(48_000, 1, &[1]));
    assert!(matches!(
        cache.prepare_loaded_sound(1, 0, &late),
        AcreSoundWorkerResult::LoadFailed { reason, .. }
            if reason == "ACRE prepared-sound cache is full"
    ));
    let again = named_sound("s3", &pcm_wav(48_000, 1, &[7, 8]));
    assert!(matches!(
        cache.prepare_loaded_sound(1, 0, &again),
        AcreSoundWorkerResult::Loaded { sample_count: 2, .. }
    ));
    assert_eq!(cache.len(), 32);
    assert_eq!(cache.sample_bytes(), 66);
    assert_eq!(cache.source(&again.sound_id(), 0).unwrap().samples(), [7, 8]);
}

#[test]
fn generic_sounds_have_a_pip_and_others_must_be_loaded() {
    let cache = SoundCache::default();
    let mut files = PlaybackFiles::default();
    for id in ["Acre_GenericBeep", "Acre_GenericClick", "Acre_GenericClickOn"] {
        let request = playback(&format!("playLoadedSound:{id},0,0,0,0,0,0,1,0,"));
        let (_, source) = files.prepare(&cache, 1, 0, &request, 0);
        let source = source.unwrap();
        assert_eq!(source.samples().len(), PIP_SAMPLES);
        assert_eq!(source.samples()[12], 6_000);
        assert_eq!(source.samples()[36], -6_000);
        assert_eq!(source.samples()[48], 0);
    }
    let request = playback("playLoadedSound:ACRE_Other,0,0,0,0,0,0,1,0,");
    let (_, source) = files.prepare(&cache, 1, 0, &request, 0);
    assert!(matches!(
        source,
        Err(AcreSoundWorkerResult::PlaybackFailed { generation: 1, reason, .. })
            if reason == "ACRE sound was not prepared"
    ));
    let world = playback("playLoadedSound:Acre_GenericBeep,0,0,0,0,0,0,1,1,");
    assert!(matches!(
        files.prepare(&cache, 1, 0, &world, 0).1,
        Err(AcreSoundWorkerResult::PlaybackFailed { reason, .. })
            if reason == "Mumble API v1.0 only supports centred local ACRE sounds"
    ));
}

#[test]
fn active_samples_are_bounded() {
    let cache = SoundCache::default();
    let mut files = PlaybackFiles::default();
    let request = playback("playLoadedSound:Acre_GenericBeep,0,0,0,0,0,0,1,0,");
    for _ in 0..64 {
        let source = files.prepare(&cache, 1, 0, &request, 0).1.unwrap();
        let file = files.next_file(&source);
        files.finish(1, &request, file, &source, Ok(()), 0);
    }
    assert!(matches!(
        files.prepare(&cache, 1, 0, &request, 0).1,
        Err(AcreSoundWorkerResult::PlaybackFailed { reason, .. })
            if reason == "too many active ACRE sound samples"
    ));
    let (gone, source) = files.prepare(&cache, 1, 0, &request, 60 * SECOND);
    assert_eq!(gone.len(), 64);
    assert!(source.is_ok());
}

#[test]
fn sounds_do_not_outlive_a_reset_by_the_game() {
    let mut cache = SoundCache::default();
    let mut files = PlaybackFiles::default();
    let wav = pcm_wav(48_000, 1, &[5, 6]);
    let sound = named_sound("ACRE_Click", &wav);
    let beep = named_sound("Acre_GenericBeep", &wav);
    assert!(matches!(
        cache.prepare_loaded_sound(3, 1, &sound),
        AcreSoundWorkerResult::Loaded { generation: 3, .. }
    ));
    cache.prepare_loaded_sound(3, 1, &beep);
    let request = playback("playLoadedSound:ACRE_Click,0,0,0,0,0,0,1,0,");
    let generic = playback("playLoadedSound:Acre_GenericBeep,0,0,0,0,0,0,1,0,");
    assert_eq!(files.prepare(&cache, 4, 1, &request, 0).1.unwrap().samples(), [5, 6]);
    assert_eq!(files.prepare(&cache, 4, 1, &generic, 0).1.unwrap().samples(), [5, 6]);
    assert!(matches!(
        files.prepare(&cache, 5, 2, &request, 0).1,
        Err(AcreSoundWorkerResult::PlaybackFailed { generation: 5, reason, .. })
            if reason == "ACRE sound belongs to a previous control generation"
    ));
    assert_eq!(
        files.prepare(&cache, 5, 2, &generic, 0).1.unwrap().samples().len(),
        PIP_SAMPLES
    );
    cache.clear();
    assert_eq!(cache.len(), 0);
    assert_eq!(cache.sample_bytes(), 0);
    assert!(matches!(
        files.prepare(&cache, 5, 1, &request, 0).1,
        Err(AcreSoundWorkerResult::PlaybackFailed { reason, .. })
            if reason == "ACRE sound was not prepared"
    ));
}
