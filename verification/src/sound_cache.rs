//! Prepared sounds: WAV files checked and kept for playback, and the short
//! life of the files that playback needs.
//!
//! Times and durations are nanoseconds of one monotonic clock.

use crate::binary32::{self, is_zero};
use crate::decimal::{self, push_hexadecimal_bytes, push_hexadecimal_digits};
use crate::model;
use crate::sound::{self, sha256, AcreLoadedSound, AcreSoundPlayback, LoadedView, PlaybackView,
    SoundId};
use crate::text::{self, begins_with, same_text};
use hound::{SampleFormat, WavReader};
use std::io::Cursor;
use vstd::prelude::*;
use vstd::utf8::encode_utf8;

verus! {

/// The most sounds kept ready.
pub const MAX_CACHED_SOUNDS: usize = 32;

/// The most bytes of samples kept ready.
pub const MAX_CACHED_SAMPLE_BYTES: usize = 2_097_152;

/// The sample rate of every sound.
pub const ACRE_SAMPLE_RATE: u32 = 48_000;

/// The most playback files at one time.
pub const MAX_ACTIVE_PLAYBACK_FILES: usize = 64;

/// The longest sound.
pub const MAX_SOUND_DURATION: u64 = 30_000_000_000;

/// The most samples of the longest sound.
pub const MAX_SOUND_SAMPLES: usize = 1_440_000;

/// How long a playback file outlives its sound.
pub const PLAYBACK_FILE_GRACE: u64 = 5_000_000_000;

/// What the header of a WAV file says.
#[derive(Clone, Copy, Debug, PartialEq, Eq, Structural)]
pub struct WavHeader {
    pub channels: u16,
    pub sample_rate: u32,
    pub bits_per_sample: u16,
    pub integer_samples: bool,
}

/// A WAV file of ACRE's shape: its samples and how long they last.
#[derive(Debug, PartialEq, Eq)]
pub struct ParsedWav {
    pub samples: Vec<i16>,
    pub duration: u64,
}

/// The model of a WAV file.
#[verifier::ext_equal]
pub struct WavView {
    pub samples: Seq<i16>,
    pub duration: u64,
}

impl View for WavHeader {
    type V = WavHeader;

    open spec fn view(&self) -> WavHeader {
        *self
    }
}

impl View for ParsedWav {
    type V = WavView;

    open spec fn view(&self) -> WavView {
        WavView { samples: self.samples@, duration: self.duration }
    }
}

/// What `hound` reads from the header of a WAV file held in memory, or its
/// words of refusal.
pub uninterp spec fn wav_header_of(bytes: Seq<u8>) -> Result<WavHeader, Seq<char>>;

/// What `hound` reads as the 16-bit samples of a WAV file held in memory, or
/// its words of refusal.
pub uninterp spec fn wav_samples_of(bytes: Seq<u8>) -> Result<Seq<i16>, Seq<char>>;

/// `hound::WavReader::new` and `spec` on bytes in memory: the header, or the
/// error in words, is determined by the bytes alone and is what
/// `wav_header_of` names.
#[verifier::external_body]
fn wav_header(bytes: &[u8]) -> (header: Result<WavHeader, String>)
    ensures
        model::outcome(header) == wav_header_of(bytes@),
{
    match WavReader::new(Cursor::new(bytes)) {
        Ok(reader) => Ok(WavHeader {
            channels: reader.spec().channels,
            sample_rate: reader.spec().sample_rate,
            bits_per_sample: reader.spec().bits_per_sample,
            integer_samples: matches!(reader.spec().sample_format, SampleFormat::Int),
        }),
        Err(error) => Err(error.to_string()),
    }
}

/// `hound::WavReader::samples` on bytes in memory whose header is readable:
/// the samples, or the first error in words, are determined by the bytes alone
/// and are what `wav_samples_of` names.
#[verifier::external_body]
fn wav_samples(bytes: &[u8]) -> (samples: Result<Vec<i16>, String>)
    requires
        wav_header_of(bytes@) is Ok,
    ensures
        model::outcome(samples) == wav_samples_of(bytes@),
{
    match WavReader::new(Cursor::new(bytes)) {
        Ok(mut reader) => reader
            .samples::<i16>()
            .collect::<Result<Vec<i16>, hound::Error>>()
            .map_err(|error| error.to_string()),
        Err(error) => Err(error.to_string()),
    }
}

/// How long a number of samples at 48 kHz lasts, to the nearest nanosecond.
pub open spec fn duration_of(samples: nat) -> nat {
    (samples * 62_500 + 1) / 3
}

/// Whether the header is the one that ACRE generates.
pub open spec fn is_acre_header(header: WavHeader) -> bool {
    header.channels == 1 && header.integer_samples && header.bits_per_sample == 16
        && header.sample_rate == ACRE_SAMPLE_RATE
}

/// The sound that a WAV file amounts to, or the words that refuse it, given
/// what its header and its samples were read as.
pub open spec fn parsed_wav(
    header: Result<WavHeader, Seq<char>>,
    samples: Result<Seq<i16>, Seq<char>>,
) -> Result<WavView, Seq<char>> {
    match header {
        Err(words) => Err("ACRE sound is not a readable WAV: "@ + words),
        Ok(header) => if !is_acre_header(header) {
            Err("ACRE sound must be mono PCM16 at 48 kHz"@)
        } else {
            match samples {
                Err(words) => Err("ACRE WAV sample decode failed: "@ + words),
                Ok(samples) => if samples.len() == 0 {
                    Err("ACRE sound has no PCM samples"@)
                } else if samples.len() > u32::MAX {
                    Err("ACRE sound has too many PCM samples"@)
                } else if samples.len() > MAX_SOUND_SAMPLES {
                    Err("ACRE sound exceeds the 30 second duration limit"@)
                } else {
                    Ok(WavView { samples, duration: duration_of(samples.len()) as u64 })
                },
            }
        },
    }
}

/// The sound limit in samples is the limit in time: one sample more lasts
/// longer than the longest sound, and no fewer do.
pub proof fn law_the_sample_limit_is_the_duration_limit(samples: nat)
    ensures
        samples <= MAX_SOUND_SAMPLES <==> duration_of(samples) <= MAX_SOUND_DURATION,
{
}

/// Checks what was read of a WAV file's header and samples.
pub fn check_wav(header: Result<WavHeader, String>, samples: Result<Vec<i16>, String>) -> (parsed:
    Result<ParsedWav, String>)
    ensures
        model::outcome(parsed) == parsed_wav(model::outcome(header), model::outcome(samples)),
{
    let header: WavHeader = match header {
        Ok(header) => header,
        Err(words) => {
            let mut reason: String = "ACRE sound is not a readable WAV: ".to_owned();
            reason.append(words.as_str());
            return Err(reason);
        },
    };
    if header.channels != 1 || !header.integer_samples || header.bits_per_sample != 16
        || header.sample_rate != ACRE_SAMPLE_RATE {
        return Err("ACRE sound must be mono PCM16 at 48 kHz".to_owned());
    }
    let samples: Vec<i16> = match samples {
        Ok(samples) => samples,
        Err(words) => {
            let mut reason: String = "ACRE WAV sample decode failed: ".to_owned();
            reason.append(words.as_str());
            return Err(reason);
        },
    };
    if samples.len() == 0 {
        return Err("ACRE sound has no PCM samples".to_owned());
    }
    if samples.len() as u64 > u32::MAX as u64 {
        return Err("ACRE sound has too many PCM samples".to_owned());
    }
    if samples.len() > MAX_SOUND_SAMPLES {
        return Err("ACRE sound exceeds the 30 second duration limit".to_owned());
    }
    let duration: u64 = (samples.len() as u64 * 62_500 + 1) / 3;
    Ok(ParsedWav { samples, duration })
}

/// Reads a WAV file of ACRE's shape: mono 16-bit PCM at 48 kHz, not empty and
/// not longer than the longest sound.
pub fn parse_acre_wav(bytes: &[u8]) -> (parsed: Result<ParsedWav, String>)
    ensures
        model::outcome(parsed) == parsed_wav(wav_header_of(bytes@), wav_samples_of(bytes@)),
{
    match wav_header(bytes) {
        Ok(header) => check_wav(Ok(header), wav_samples(bytes)),
        Err(words) => check_wav(Err(words), Ok(Vec::new())),
    }
}

/// What the sound worker reports.
#[derive(Debug, PartialEq, Eq)]
pub enum AcreSoundWorkerResult {
    Loaded { generation: u64, id: SoundId, sample_count: usize },
    LoadFailed { generation: u64, id: SoundId, reason: String },
    PlaybackReady { generation: u64, id: SoundId, file: String },
    PlaybackFailed { generation: u64, id: SoundId, reason: String },
}

/// The model of a report.
#[verifier::ext_equal]
pub enum ReportView {
    Loaded { generation: u64, id: Seq<char>, sample_count: usize },
    LoadFailed { generation: u64, id: Seq<char>, reason: Seq<char> },
    PlaybackReady { generation: u64, id: Seq<char>, file: Seq<char> },
    PlaybackFailed { generation: u64, id: Seq<char>, reason: Seq<char> },
}

impl View for AcreSoundWorkerResult {
    type V = ReportView;

    open spec fn view(&self) -> ReportView {
        match *self {
            AcreSoundWorkerResult::Loaded { generation, id, sample_count } => ReportView::Loaded {
                generation,
                id: id@,
                sample_count,
            },
            AcreSoundWorkerResult::LoadFailed { generation, id, reason } =>
                ReportView::LoadFailed { generation, id: id@, reason: reason@ },
            AcreSoundWorkerResult::PlaybackReady { generation, id, file } =>
                ReportView::PlaybackReady { generation, id: id@, file: file@ },
            AcreSoundWorkerResult::PlaybackFailed { generation, id, reason } =>
                ReportView::PlaybackFailed { generation, id: id@, reason: reason@ },
        }
    }
}

/// A sound kept ready.
#[derive(Debug)]
struct CachedSound {
    id: SoundId,
    epoch: u64,
    sha256: [u8; 32],
    samples: Vec<i16>,
    duration: u64,
}

/// The model of a sound kept ready.
#[verifier::ext_equal]
pub struct CachedView {
    pub id: Seq<char>,
    pub epoch: u64,
    pub sha256: Seq<u8>,
    pub samples: Seq<i16>,
    pub duration: u64,
}

/// The sounds kept ready. They stay over a reconnection: ACRE may remember a
/// load for as long as the game runs. They do not outlive a reset by the game,
/// which begins another epoch.
#[derive(Debug)]
pub struct SoundCache {
    sounds: Vec<CachedSound>,
    sample_bytes: usize,
}

impl View for CachedSound {
    type V = CachedView;

    closed spec fn view(&self) -> CachedView {
        CachedView {
            id: self.id@,
            epoch: self.epoch,
            sha256: self.sha256@,
            samples: self.samples@,
            duration: self.duration,
        }
    }
}

impl View for SoundCache {
    type V = Seq<CachedView>;

    closed spec fn view(&self) -> Seq<CachedView> {
        model::views(self.sounds@)
    }
}

/// How many bytes the samples of the sounds take.
pub open spec fn held_sample_bytes(sounds: Seq<CachedView>) -> nat
    decreases sounds.len(),
{
    if sounds.len() == 0 {
        0
    } else {
        held_sample_bytes(sounds.drop_last()) + sounds.last().samples.len() * 2
    }
}

/// Where the sound with the ID stands.
pub open spec fn sound_of(sounds: Seq<CachedView>, id: Seq<char>) -> Option<int>
    decreases sounds.len(),
{
    if sounds.len() == 0 {
        None
    } else if sounds.last().id == id {
        Some(sounds.len() - 1)
    } else {
        sound_of(sounds.drop_last(), id)
    }
}

/// Whether no two sounds share an ID.
pub open spec fn distinct_sounds(sounds: Seq<CachedView>) -> bool {
    forall|i: int, j: int|
        0 <= i < j < sounds.len() ==> (#[trigger] sounds[i]).id != (#[trigger] sounds[j]).id
}

/// Whether the sounds are distinct and within all bounds.
pub open spec fn bounded_sounds(sounds: Seq<CachedView>) -> bool {
    &&& distinct_sounds(sounds)
    &&& sounds.len() <= MAX_CACHED_SOUNDS
    &&& held_sample_bytes(sounds) <= MAX_CACHED_SAMPLE_BYTES
}

/// The sounds once another one is kept, in the place of the one with its ID.
pub open spec fn with_sound(sounds: Seq<CachedView>, next: CachedView) -> Seq<CachedView> {
    match sound_of(sounds, next.id) {
        Some(at) => sounds.update(at, next),
        None => sounds.push(next),
    }
}

/// The sounds kept ready after a load, and the report. `parsed` is what the
/// sound's bytes were read as.
pub open spec fn stored(
    sounds: Seq<CachedView>,
    generation: u64,
    epoch: u64,
    loaded: LoadedView,
    parsed: Result<WavView, Seq<char>>,
) -> (Seq<CachedView>, ReportView) {
    match parsed {
        Err(reason) => (
            sounds,
            ReportView::LoadFailed { generation, id: loaded.id, reason },
        ),
        Ok(wav) => {
            let next = CachedView {
                id: loaded.id,
                epoch,
                sha256: loaded.sha256,
                samples: wav.samples,
                duration: wav.duration,
            };
            let after = with_sound(sounds, next);
            if after.len() > MAX_CACHED_SOUNDS || held_sample_bytes(after)
                > MAX_CACHED_SAMPLE_BYTES {
                (
                    sounds,
                    ReportView::LoadFailed {
                        generation,
                        id: loaded.id,
                        reason: "ACRE prepared-sound cache is full"@,
                    },
                )
            } else {
                (
                    after,
                    ReportView::Loaded {
                        generation,
                        id: loaded.id,
                        sample_count: wav.samples.len() as usize,
                    },
                )
            }
        },
    }
}

proof fn lemma_sound_of(sounds: Seq<CachedView>, id: Seq<char>)
    ensures
        match sound_of(sounds, id) {
            Some(at) => 0 <= at < sounds.len() && sounds[at].id == id,
            None => forall|i: int| 0 <= i < sounds.len() ==> (#[trigger] sounds[i]).id != id,
        },
    decreases sounds.len(),
{
    if sounds.len() > 0 && sounds.last().id != id {
        let head = sounds.drop_last();
        lemma_sound_of(head, id);
        assert forall|i: int| 0 <= i < head.len() implies head[i] == #[trigger] sounds[i] by {}
    }
}

proof fn lemma_held_update(sounds: Seq<CachedView>, at: int, next: CachedView)
    requires
        0 <= at < sounds.len(),
    ensures
        held_sample_bytes(sounds.update(at, next)) + sounds[at].samples.len() * 2
            == held_sample_bytes(sounds) + next.samples.len() * 2,
    decreases sounds.len(),
{
    if at == sounds.len() - 1 {
        assert(sounds.update(at, next).drop_last() =~= sounds.drop_last());
    } else {
        assert(sounds.update(at, next).drop_last() =~= sounds.drop_last().update(at, next));
        assert(sounds.update(at, next).last() == sounds.last());
        lemma_held_update(sounds.drop_last(), at, next);
    }
}

proof fn lemma_distinct_with(sounds: Seq<CachedView>, next: CachedView)
    requires
        distinct_sounds(sounds),
    ensures
        distinct_sounds(with_sound(sounds, next)),
{
    lemma_sound_of(sounds, next.id);
    let after = with_sound(sounds, next);
    assert forall|i: int, j: int| 0 <= i < j < after.len() implies (#[trigger] after[i]).id != (
    #[trigger] after[j]).id by {
        match sound_of(sounds, next.id) {
            Some(at) => {
                assert(after[i].id == sounds[i].id);
                assert(after[j].id == sounds[j].id);
            },
            None => {
                assert(after[i] == sounds[i]);
                if j < sounds.len() {
                    assert(after[j] == sounds[j]);
                }
            },
        }
    }
}

/// Finds the sound with the ID.
fn find_sound(sounds: &Vec<CachedSound>, id: &str) -> (found: Option<usize>)
    ensures
        match found {
            Some(at) => at < sounds@.len() && sound_of(model::views(sounds@), id@) == Some(
                at as int,
            ),
            None => sound_of(model::views(sounds@), id@) is None,
        },
{
    let ghost all = model::views(sounds@);
    let mut i: usize = sounds.len();
    assert(all.take(i as int) =~= all);
    while i > 0
        invariant
            i <= sounds@.len(),
            all == model::views(sounds@),
            sound_of(all, id@) == sound_of(all.take(i as int), id@),
        decreases i,
    {
        assert(all.take(i as int).last() == sounds@[i - 1]@);
        assert(all.take(i as int).drop_last() =~= all.take(i - 1));
        if same_text(sounds[i - 1].id.as_str(), id) {
            return Some(i - 1);
        }
        i -= 1;
    }
    None
}

impl Default for SoundCache {
    fn default() -> (cache: Self)
        ensures
            cache@ == Seq::<CachedView>::empty(),
    {
        let cache = SoundCache { sounds: Vec::new(), sample_bytes: 0 };
        assert(cache@ =~= Seq::<CachedView>::empty());
        cache
    }
}

impl SoundCache {
    /// The sounds are distinct and within their bounds, and their bytes are
    /// counted.
    #[verifier::type_invariant]
    pub closed spec fn inv(self) -> bool {
        bounded_sounds(self@) && self.sample_bytes == held_sample_bytes(self@)
    }

    /// Prepares a loaded sound for playback.
    pub fn prepare_loaded_sound(
        &mut self,
        generation: u64,
        epoch: u64,
        loaded: &AcreLoadedSound,
    ) -> (report: AcreSoundWorkerResult)
        ensures
            (final(self)@, report@) == stored(
                old(self)@,
                generation,
                epoch,
                loaded@,
                parsed_wav(wav_header_of(loaded@.bytes), wav_samples_of(loaded@.bytes)),
            ),
            bounded_sounds(final(self)@),
    {
        self.store(generation, epoch, loaded, parse_acre_wav(loaded.bytes()))
    }

    /// Keeps a sound ready whose bytes were read as `parsed`, if the bounds
    /// allow it. A sound with the same ID gives way to it.
    pub fn store(
        &mut self,
        generation: u64,
        epoch: u64,
        loaded: &AcreLoadedSound,
        parsed: Result<ParsedWav, String>,
    ) -> (report: AcreSoundWorkerResult)
        ensures
            (final(self)@, report@) == stored(
                old(self)@,
                generation,
                epoch,
                loaded@,
                model::outcome(parsed),
            ),
            bounded_sounds(final(self)@),
    {
        proof {
            use_type_invariant(&*self);
        }
        let id: SoundId = loaded.sound_id();
        let wav: ParsedWav = match parsed {
            Ok(wav) => wav,
            Err(reason) => {
                return AcreSoundWorkerResult::LoadFailed { generation, id, reason };
            },
        };
        let ghost before = self@;
        let sample_count: usize = wav.samples.len();
        let sample_bytes: usize = if sample_count > MAX_CACHED_SAMPLE_BYTES {
            MAX_CACHED_SAMPLE_BYTES + 1
        } else {
            sample_count * 2
        };
        let found: Option<usize> = find_sound(&self.sounds, id.as_str());
        let replacing: usize = match found {
            Some(at) => {
                proof {
                    assert(before[at as int] == self.sounds@[at as int]@);
                    lemma_held_remove_bound(before, at as int);
                }
                self.sounds[at].samples.len() * 2
            },
            None => 0,
        };
        let next_total: usize = (self.sample_bytes - replacing).saturating_add(sample_bytes);
        let full: bool = found.is_none() && self.sounds.len() >= MAX_CACHED_SOUNDS;
        let next = CachedSound {
            id: id.clone(),
            epoch,
            sha256: *loaded.sha256(),
            samples: wav.samples,
            duration: wav.duration,
        };
        proof {
            lemma_sound_of(before, next@.id);
            lemma_distinct_with(before, next@);
            match sound_of(before, next@.id) {
                Some(at) => {
                    lemma_held_update(before, at, next@);
                },
                None => {
                    assert(before.push(next@).drop_last() =~= before);
                },
            }
        }
        if full || next_total > MAX_CACHED_SAMPLE_BYTES {
            return AcreSoundWorkerResult::LoadFailed {
                generation,
                id,
                reason: "ACRE prepared-sound cache is full".to_owned(),
            };
        }
        let mut work = SoundCache::default();
        std::mem::swap(&mut work, self);
        let mut sounds: Vec<CachedSound> = work.sounds;
        let ghost earlier = sounds@;
        match found {
            Some(at) => {
                sounds.set(at, next);
                proof {
                    model::lemma_views_update(earlier, at as int, next);
                }
            },
            None => {
                sounds.push(next);
                proof {
                    model::lemma_views_push(earlier, next);
                }
            },
        }
        *self = SoundCache { sounds, sample_bytes: next_total };
        AcreSoundWorkerResult::Loaded { generation, id, sample_count }
    }

    /// Forgets every sound.
    pub fn clear(&mut self)
        ensures
            final(self)@ == Seq::<CachedView>::empty(),
    {
        *self = SoundCache::default();
    }

    /// How many sounds are kept ready.
    pub fn len(&self) -> (count: usize)
        ensures
            count == self@.len(),
            bounded_sounds(self@),
    {
        proof {
            use_type_invariant(self);
        }
        self.sounds.len()
    }

    /// How many bytes their samples take.
    pub fn sample_bytes(&self) -> (bytes: usize)
        ensures
            bytes == held_sample_bytes(self@),
            bytes <= MAX_CACHED_SAMPLE_BYTES,
    {
        proof {
            use_type_invariant(self);
        }
        self.sample_bytes
    }
}

proof fn lemma_held_remove_bound(sounds: Seq<CachedView>, at: int)
    requires
        0 <= at < sounds.len(),
    ensures
        sounds[at].samples.len() * 2 <= held_sample_bytes(sounds),
    decreases sounds.len(),
{
    if at < sounds.len() - 1 {
        lemma_held_remove_bound(sounds.drop_last(), at);
    }
}

/// What one playback is made from.
#[derive(Debug, PartialEq, Eq)]
pub struct PlaybackSource {
    sha256: [u8; 32],
    samples: Vec<i16>,
    duration: u64,
}

/// The model of what a playback is made from.
#[verifier::ext_equal]
pub struct SourceView {
    pub sha256: Seq<u8>,
    pub samples: Seq<i16>,
    pub duration: u64,
}

impl View for PlaybackSource {
    type V = SourceView;

    closed spec fn view(&self) -> SourceView {
        SourceView { sha256: self.sha256@, samples: self.samples@, duration: self.duration }
    }
}

impl PlaybackSource {
    /// The samples before any gain.
    pub fn samples(&self) -> (samples: &[i16])
        ensures
            samples@ == self@.samples,
    {
        self.samples.as_slice()
    }
}

/// How many samples the generated pip has: 60 ms.
pub const PIP_SAMPLES: usize = 2_880;

/// The pip at a sample: a triangle wave of 1 kHz.
pub open spec fn pip_sample(at: int) -> int {
    let phase = at % 48;
    if phase < 12 {
        phase * 500
    } else if phase < 36 {
        (24 - phase) * 500
    } else {
        (phase - 48) * 500
    }
}

/// The generated pip.
pub open spec fn pip() -> Seq<i16> {
    Seq::new(PIP_SAMPLES as nat, |at: int| pip_sample(at) as i16)
}

/// Generates the pip.
fn generated_pip() -> (samples: Vec<i16>)
    ensures
        samples@ == pip(),
{
    let mut samples: Vec<i16> = Vec::new();
    let mut at: usize = 0;
    while at < PIP_SAMPLES
        invariant
            at <= PIP_SAMPLES,
            samples@ =~= pip().take(at as int),
        decreases PIP_SAMPLES - at,
    {
        let phase: i16 = (at % 48) as i16;
        let sample: i16 = if phase < 12 {
            phase * 500
        } else if phase < 36 {
            (24 - phase) * 500
        } else {
            (phase - 48) * 500
        };
        samples.push(sample);
        at += 1;
    }
    assert(pip().take(PIP_SAMPLES as int) =~= pip());
    samples
}

/// Whether ACRE may ask for the sound without ever loading it again: the
/// generic beep and the generic clicks.
pub open spec fn generic_sound(id: Seq<char>) -> bool {
    id == "Acre_GenericBeep"@ || "Acre_GenericClick"@.is_prefix_of(id)
}

/// Where the sound with the ID stands, if it was loaded in the epoch.
pub open spec fn current_sound(sounds: Seq<CachedView>, id: Seq<char>, epoch: u64) -> Option<int> {
    match sound_of(sounds, id) {
        Some(at) => if sounds[at].epoch == epoch {
            Some(at)
        } else {
            None
        },
        None => None,
    }
}

/// What a playback of the sound is made from: the sound that was loaded in the
/// epoch, or the pip for a generic sound that was not.
pub open spec fn source_of(sounds: Seq<CachedView>, id: Seq<char>, epoch: u64) -> Option<
    SourceView,
> {
    match current_sound(sounds, id, epoch) {
        Some(at) => Some(
            SourceView {
                sha256: sounds[at].sha256,
                samples: sounds[at].samples,
                duration: sounds[at].duration,
            },
        ),
        None => if generic_sound(id) {
            Some(
                SourceView {
                    sha256: sound::sha256_of(encode_utf8(id)),
                    samples: pip(),
                    duration: duration_of(PIP_SAMPLES as nat) as u64,
                },
            )
        } else {
            None
        },
    }
}

/// Whether the request is for a centred local sound.
pub open spec fn centred(request: PlaybackView) -> bool {
    &&& !request.is_world
    &&& binary32::zero(request.position.x)
    &&& binary32::zero(request.position.z)
    &&& binary32::zero(request.position.y)
    &&& binary32::zero(request.direction.x)
    &&& binary32::zero(request.direction.z)
    &&& binary32::zero(request.direction.y)
}

/// Whether the request is for a centred local sound, the only sort that can be
/// played without losing its place.
pub fn is_supported_local_sample(request: &AcreSoundPlayback) -> (answer: bool)
    ensures
        answer == centred(request@),
{
    let position = request.position();
    let direction = request.direction();
    !request.is_world() && is_zero(position.x) && is_zero(position.z) && is_zero(position.y)
        && is_zero(direction.x) && is_zero(direction.z) && is_zero(direction.y)
}

impl SoundCache {
    /// Finds the sound with the ID, if it was loaded in the epoch.
    fn find_current(&self, id: &SoundId, epoch: u64) -> (found: Option<usize>)
        ensures
            match found {
                Some(at) => at < self.sounds@.len() && current_sound(self@, id@, epoch) == Some(
                    at as int,
                ),
                None => current_sound(self@, id@, epoch) is None,
            },
    {
        match find_sound(&self.sounds, id.as_str()) {
            Some(at) => {
                assert(self@[at as int] == self.sounds@[at as int]@);
                if self.sounds[at].epoch == epoch {
                    Some(at)
                } else {
                    None
                }
            },
            None => None,
        }
    }

    /// Whether a sound with the ID is kept, of whichever epoch.
    fn holds(&self, id: &SoundId) -> (answer: bool)
        ensures
            answer == (sound_of(self@, id@) is Some),
    {
        find_sound(&self.sounds, id.as_str()).is_some()
    }

    /// Copies what a playback of the sound is made from.
    pub fn source(&self, id: &SoundId, epoch: u64) -> (source: Option<PlaybackSource>)
        ensures
            model::optional(source) == source_of(self@, id@, epoch),
    {
        match self.find_current(id, epoch) {
            Some(at) => {
                let sound: &CachedSound = &self.sounds[at];
                assert(self@[at as int] == sound@);
                Some(
                    PlaybackSource {
                        sha256: sound.sha256,
                        samples: sound.samples.clone(),
                        duration: sound.duration,
                    },
                )
            },
            None => if same_text(id.as_str(), "Acre_GenericBeep") || begins_with(
                id.as_str(),
                "Acre_GenericClick",
            ) {
                Some(
                    PlaybackSource {
                        sha256: sha256(id.as_str().as_bytes()),
                        samples: generated_pip(),
                        duration: 60_000_000,
                    },
                )
            } else {
                None
            },
        }
    }
}

/// A file that a playback reads.
#[derive(Debug)]
struct PlaybackFile {
    file: String,
    expires_at: u64,
}

/// The model of a file that a playback reads.
#[verifier::ext_equal]
pub struct FileView {
    pub file: Seq<char>,
    pub expires_at: u64,
}

impl View for PlaybackFile {
    type V = FileView;

    closed spec fn view(&self) -> FileView {
        FileView { file: self.file@, expires_at: self.expires_at }
    }
}

/// The files that playbacks read, oldest first, and the number of the last one.
#[derive(Debug)]
pub struct PlaybackFiles {
    files: Vec<PlaybackFile>,
    nonce: u64,
}

/// The model of the playback files.
#[verifier::ext_equal]
pub struct FilesView {
    pub files: Seq<FileView>,
    pub nonce: u64,
}

impl View for PlaybackFiles {
    type V = FilesView;

    closed spec fn view(&self) -> FilesView {
        FilesView { files: model::views(self.files@), nonce: self.nonce }
    }
}

/// How many files from the oldest one on have expired.
pub open spec fn expired_files(files: Seq<FileView>, now: u64) -> nat
    decreases files.len(),
{
    if files.len() > 0 && now >= files[0].expires_at {
        1 + expired_files(files.skip(1), now)
    } else {
        0
    }
}

/// The names of the files.
pub open spec fn file_names(files: Seq<FileView>) -> Seq<Seq<char>> {
    files.map_values(|file: FileView| file.file)
}

/// The files without those that have expired, and the names of the latter.
pub open spec fn cleaned_up(files: FilesView, now: u64) -> (FilesView, Seq<Seq<char>>) {
    let gone = expired_files(files.files, now) as int;
    (
        FilesView { files: files.files.skip(gone), nonce: files.nonce },
        file_names(files.files.take(gone)),
    )
}

/// The answer to a playback request: the files that stay, the names of those
/// that go, and what the playback is made from or why there is none.
pub open spec fn playback_answer(
    files: FilesView,
    sounds: Seq<CachedView>,
    generation: u64,
    epoch: u64,
    request: PlaybackView,
    now: u64,
) -> (FilesView, Seq<Seq<char>>, Result<SourceView, ReportView>) {
    let failed = |reason: Seq<char>|
        Err::<SourceView, ReportView>(
            ReportView::PlaybackFailed { generation, id: request.id, reason },
        );
    let nothing = Seq::<Seq<char>>::empty();
    if !centred(request) {
        (files, nothing, failed("Mumble API v1.0 only supports centred local ACRE sounds"@))
    } else {
        match source_of(sounds, request.id, epoch) {
            None => (
                files,
                nothing,
                failed(
                    if sound_of(sounds, request.id) is Some {
                        "ACRE sound belongs to a previous control generation"@
                    } else {
                        "ACRE sound was not prepared"@
                    },
                ),
            ),
            Some(source) => {
                let (after, gone) = cleaned_up(files, now);
                if after.files.len() >= MAX_ACTIVE_PLAYBACK_FILES {
                    (after, gone, failed("too many active ACRE sound samples"@))
                } else {
                    (after, gone, Ok(source))
                }
            },
        }
    }
}

/// The number of the file after the one with number `nonce`.
pub open spec fn next_nonce(nonce: u64) -> u64 {
    if nonce == u64::MAX {
        0
    } else {
        (nonce + 1) as u64
    }
}

/// The name of a playback file: the head of the sound's digest and the file's
/// number.
pub open spec fn file_name(source: SourceView, nonce: u64) -> Seq<char> {
    decimal::hexadecimal_bytes(source.sha256.take(8)) + "-"@ + decimal::hexadecimal_digits(
        nonce as nat,
        16,
    ) + ".wav"@
}

/// When a file that was written at `now` may go.
pub open spec fn file_expiry(source: SourceView, now: u64) -> u64 {
    let end = now + source.duration + PLAYBACK_FILE_GRACE;
    if end > u64::MAX {
        u64::MAX
    } else {
        end as u64
    }
}

/// The files once a playback's file was written or not, and the report: a file
/// that was written is kept for as long as its playback may need it.
pub open spec fn file_finished(
    files: FilesView,
    generation: u64,
    id: Seq<char>,
    file: Seq<char>,
    source: SourceView,
    written: Result<(), Seq<char>>,
    now: u64,
) -> (FilesView, ReportView) {
    match written {
        Ok(_) => (
            FilesView {
                files: files.files.push(FileView { file, expires_at: file_expiry(source, now) }),
                ..files
            },
            ReportView::PlaybackReady { generation, id, file },
        ),
        Err(reason) => (files, ReportView::PlaybackFailed { generation, id, reason }),
    }
}

proof fn lemma_expired_step(files: Seq<FileView>, from: int, now: u64)
    requires
        0 <= from < files.len(),
        now >= files[from].expires_at,
    ensures
        expired_files(files.skip(from), now) == 1 + expired_files(files.skip(from + 1), now),
{
    assert(files.skip(from)[0] == files[from]);
    assert(files.skip(from).skip(1) =~= files.skip(from + 1));
}

impl Default for PlaybackFiles {
    fn default() -> (files: Self)
        ensures
            files@ == (FilesView { files: Seq::empty(), nonce: 0 }),
    {
        let files = PlaybackFiles { files: Vec::new(), nonce: 0 };
        assert(files@.files =~= Seq::empty());
        files
    }
}

impl PlaybackFiles {
    /// Forgets the files that have expired, oldest first up to the first that
    /// has not, and hands out their names.
    pub fn cleanup_expired(&mut self, now: u64) -> (gone: Vec<String>)
        ensures
            (final(self)@, text::texts(gone@)) == cleaned_up(old(self)@, now),
    {
        broadcast use model::group_views;

        let ghost before = self@;
        let mut gone: Vec<String> = Vec::new();
        assert(before.files.skip(0) =~= before.files);
        while self.files.len() > 0 && now >= self.files[0].expires_at
            invariant
                gone@.len() <= before.files.len(),
                self@.files == before.files.skip(gone@.len() as int),
                self@.nonce == before.nonce,
                expired_files(before.files, now) == gone@.len() + expired_files(self@.files, now),
                text::texts(gone@) == file_names(before.files.take(gone@.len() as int)),
            decreases self.files@.len(),
        {
            broadcast use model::group_views;

            proof {
                lemma_expired_step(before.files, gone@.len() as int, now);
                assert(self@.files[0] == self.files@[0]@);
            }
            let ghost earlier = gone@;
            let oldest: PlaybackFile = self.files.remove(0);
            gone.push(oldest.file);
            proof {
                let taken = before.files.take(gone@.len() as int);
                assert(self@.files =~= before.files.skip(gone@.len() as int));
                assert(text::texts(gone@) =~= text::texts(earlier).push(oldest.file@));
                assert(file_names(taken) =~= file_names(
                    before.files.take(earlier.len() as int),
                ).push(oldest.file@));
            }
        }
        proof {
            if self.files@.len() > 0 {
                assert(self@.files[0] == self.files@[0]@);
            }
        }
        gone
    }

    /// Decides a playback request. Beside the answer it hands out the names of
    /// the files that have expired.
    pub fn prepare(
        &mut self,
        cache: &SoundCache,
        generation: u64,
        epoch: u64,
        request: &AcreSoundPlayback,
        now: u64,
    ) -> (answer: (Vec<String>, Result<PlaybackSource, AcreSoundWorkerResult>))
        ensures
            (final(self)@, text::texts(answer.0@), model::outcome(answer.1)) == playback_answer(
                old(self)@,
                cache@,
                generation,
                epoch,
                request@,
                now,
            ),
            answer.1 is Ok ==> final(self)@.files.len() < MAX_ACTIVE_PLAYBACK_FILES,
    {
        let id: SoundId = request.sound_id();
        let nothing: Vec<String> = Vec::new();
        assert(text::texts(nothing@) =~= Seq::empty());
        if !is_supported_local_sample(request) {
            return (
                nothing,
                Err(
                    AcreSoundWorkerResult::PlaybackFailed {
                        generation,
                        id,
                        reason: "Mumble API v1.0 only supports centred local ACRE sounds".to_owned(),
                    },
                ),
            );
        }
        let source: PlaybackSource = match cache.source(&id, epoch) {
            Some(source) => source,
            None => {
                let reason: &str = if cache.holds(&id) {
                    "ACRE sound belongs to a previous control generation"
                } else {
                    "ACRE sound was not prepared"
                };
                return (
                    nothing,
                    Err(
                        AcreSoundWorkerResult::PlaybackFailed {
                            generation,
                            id,
                            reason: reason.to_owned(),
                        },
                    ),
                );
            },
        };
        let gone: Vec<String> = self.cleanup_expired(now);
        if self.files.len() >= MAX_ACTIVE_PLAYBACK_FILES {
            return (
                gone,
                Err(
                    AcreSoundWorkerResult::PlaybackFailed {
                        generation,
                        id,
                        reason: "too many active ACRE sound samples".to_owned(),
                    },
                ),
            );
        }
        (gone, Ok(source))
    }

    /// Names the next file, for a playback made from `source`.
    pub fn next_file(&mut self, source: &PlaybackSource) -> (file: String)
        ensures
            final(self)@ == (FilesView { nonce: next_nonce(old(self)@.nonce), ..old(self)@ }),
            file@ == file_name(source@, final(self)@.nonce),
    {
        self.nonce = self.nonce.wrapping_add(1);
        let mut file: String = short_hash(&source.sha256);
        file.append("-");
        push_hexadecimal_digits(&mut file, self.nonce, 16);
        file.append(".wav");
        file
    }

    /// Takes note of whether the playback's file could be written, and if not,
    /// of the words that say why.
    pub fn finish(
        &mut self,
        generation: u64,
        request: &AcreSoundPlayback,
        file: String,
        source: &PlaybackSource,
        written: Result<(), String>,
        now: u64,
    ) -> (report: AcreSoundWorkerResult)
        requires
            old(self)@.files.len() < MAX_ACTIVE_PLAYBACK_FILES,
        ensures
            (final(self)@, report@) == file_finished(
                old(self)@,
                generation,
                request@.id,
                file@,
                source@,
                match written {
                    Ok(_) => Ok(()),
                    Err(reason) => Err(reason@),
                },
                now,
            ),
    {
        broadcast use model::group_views;

        let id: SoundId = request.sound_id();
        match written {
            Ok(_) => {
                let expires_at: u64 = now.saturating_add(source.duration).saturating_add(
                    PLAYBACK_FILE_GRACE,
                );
                self.files.push(PlaybackFile { file: file.clone(), expires_at });
                AcreSoundWorkerResult::PlaybackReady { generation, id, file }
            },
            Err(reason) => AcreSoundWorkerResult::PlaybackFailed { generation, id, reason },
        }
    }

    /// How many files are kept.
    pub fn len(&self) -> (count: usize)
        ensures
            count == self@.files.len(),
    {
        self.files.len()
    }
}

/// The head of a digest in hexadecimal digits.
pub fn short_hash(hash: &[u8; 32]) -> (head: String)
    ensures
        head@ == decimal::hexadecimal_bytes(hash@.take(8)),
{
    let mut head: String = String::new();
    push_hexadecimal_bytes(&mut head, hash.as_slice(), 8);
    assert(Seq::<char>::empty() + decimal::hexadecimal_bytes(hash@.take(8))
        =~= decimal::hexadecimal_bytes(hash@.take(8)));
    head
}

/// Two different numbers with as many digits are written differently.
proof fn lemma_hexadecimal_digits_differ(a: nat, b: nat, width: nat)
    requires
        decimal::hexadecimal_digits(a, width) == decimal::hexadecimal_digits(b, width),
        a < vstd::arithmetic::power::pow(16, width),
        b < vstd::arithmetic::power::pow(16, width),
    ensures
        a == b,
    decreases width,
{
    if width == 0 {
        vstd::arithmetic::power::lemma_pow0(16);
    } else {
        let shorter = (width - 1) as nat;
        reveal_with_fuel(vstd::arithmetic::power::pow, 2);
        let left = decimal::hexadecimal_digits(a / 16, shorter);
        let right = decimal::hexadecimal_digits(b / 16, shorter);
        let x = decimal::hexadecimal_digit((a % 16) as int);
        let y = decimal::hexadecimal_digit((b % 16) as int);
        assert(left.push(x).drop_last() =~= left);
        assert(right.push(y).drop_last() =~= right);
        assert(left.push(x).last() == right.push(y).last());
        lemma_hexadecimal_digits_differ(a / 16, b / 16, shorter);
    }
}

proof fn lemma_digits_length(n: nat, width: nat)
    ensures
        decimal::hexadecimal_digits(n, width).len() == width,
    decreases width,
{
    if width > 0 {
        lemma_digits_length(n / 16, (width - 1) as nat);
    }
}

/// A sound that was loaded is what a later playback of its ID in the same epoch
/// is made from, in place of whatever stood for the ID before.
pub proof fn law_loaded_sounds_play_back(
    sounds: Seq<CachedView>,
    generation: u64,
    epoch: u64,
    loaded: LoadedView,
    wav: WavView,
)
    requires
        distinct_sounds(sounds),
        stored(sounds, generation, epoch, loaded, Ok(wav)).1 is Loaded,
    ensures
        source_of(stored(sounds, generation, epoch, loaded, Ok(wav)).0, loaded.id, epoch) == Some(
            SourceView {
                sha256: loaded.sha256,
                samples: wav.samples,
                duration: wav.duration,
            },
        ),
{
    let after = stored(sounds, generation, epoch, loaded, Ok(wav)).0;
    lemma_sound_of(sounds, loaded.id);
    lemma_sound_of(after, loaded.id);
    match sound_of(sounds, loaded.id) {
        Some(at) => {
            assert(after[at].id == loaded.id);
            let found = sound_of(after, loaded.id)->0;
            if found != at {
                assert(after[found] == sounds[found]);
                assert(sounds[found].id != sounds[at].id);
            }
        },
        None => {
            assert(after.last().id == loaded.id);
        },
    }
}

/// Loading one sound changes no other: what a playback of another ID is made
/// from stays, and a refused load changes nothing at all.
pub proof fn law_loads_leave_other_sounds(
    sounds: Seq<CachedView>,
    generation: u64,
    epoch: u64,
    loaded: LoadedView,
    parsed: Result<WavView, Seq<char>>,
    other: Seq<char>,
    asked: u64,
)
    requires
        distinct_sounds(sounds),
    ensures
        other != loaded.id ==> source_of(
            stored(sounds, generation, epoch, loaded, parsed).0,
            other,
            asked,
        ) == source_of(sounds, other, asked),
        !(stored(sounds, generation, epoch, loaded, parsed).1 is Loaded) ==> stored(
            sounds,
            generation,
            epoch,
            loaded,
            parsed,
        ).0 == sounds,
{
    let after = stored(sounds, generation, epoch, loaded, parsed).0;
    if other != loaded.id && after != sounds {
        lemma_sound_of(sounds, loaded.id);
        lemma_sound_of(sounds, other);
        lemma_sound_of(after, other);
        match sound_of(sounds, loaded.id) {
            Some(at) => {
                assert forall|i: int| 0 <= i < sounds.len() implies (#[trigger] after[i]).id
                    == sounds[i].id by {}
                match sound_of(after, other) {
                    Some(found) => {
                        assert(after[found] == sounds[found]);
                        let earlier = sound_of(sounds, other)->0;
                        assert(sounds[found].id == other);
                        assert(earlier == found) by {
                            if earlier != found {
                                assert(sounds[earlier].id != sounds[found].id);
                            }
                        }
                    },
                    None => {
                        if sound_of(sounds, other) is Some {
                            let earlier = sound_of(sounds, other)->0;
                            assert(after[earlier].id == other);
                        }
                    },
                }
            },
            None => {
                assert(after.drop_last() =~= sounds);
            },
        }
    }
}

/// No sound is played that was not loaded in the epoch of the request: with no
/// load since, only a generic sound has anything to play, and that is the pip.
pub proof fn law_sounds_of_other_epochs_are_not_played(
    sounds: Seq<CachedView>,
    id: Seq<char>,
    epoch: u64,
)
    requires
        forall|i: int| 0 <= i < sounds.len() ==> (#[trigger] sounds[i]).epoch != epoch,
    ensures
        source_of(sounds, id, epoch) == source_of(Seq::empty(), id, epoch),
        !generic_sound(id) ==> source_of(sounds, id, epoch) is None,
{
    lemma_sound_of(sounds, id);
}

/// Every load keeps the sounds distinct and within their bounds.
pub proof fn law_sounds_stay_bounded(
    sounds: Seq<CachedView>,
    generation: u64,
    epoch: u64,
    loaded: LoadedView,
    parsed: Result<WavView, Seq<char>>,
)
    requires
        bounded_sounds(sounds),
    ensures
        bounded_sounds(stored(sounds, generation, epoch, loaded, parsed).0),
{
    match parsed {
        Ok(wav) => {
            lemma_distinct_with(
                sounds,
                CachedView {
                    id: loaded.id,
                    epoch,
                    sha256: loaded.sha256,
                    samples: wav.samples,
                    duration: wav.duration,
                },
            );
        },
        Err(_) => {},
    }
}

/// Two files of one sound never share a name unless they share a number.
pub proof fn law_playback_files_are_told_apart(source: SourceView, first: u64, second: u64)
    requires
        file_name(source, first) == file_name(source, second),
    ensures
        first == second,
{
    let head = decimal::hexadecimal_bytes(source.sha256.take(8)) + "-"@;
    let x = decimal::hexadecimal_digits(first as nat, 16);
    let y = decimal::hexadecimal_digits(second as nat, 16);
    lemma_digits_length(first as nat, 16);
    lemma_digits_length(second as nat, 16);
    let from = head.len() as int;
    assert(file_name(source, first).subrange(from, from + 16) =~= x);
    assert(file_name(source, second).subrange(from, from + 16) =~= y);
    assert(vstd::arithmetic::power::pow(16, 16) == 0x1_0000_0000_0000_0000) by {
        reveal_with_fuel(vstd::arithmetic::power::pow, 17);
    }
    lemma_hexadecimal_digits_differ(first as nat, second as nat, 16);
}

} // verus!
