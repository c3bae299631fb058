//! Which sounds are kept ready, and what is played of them.

use crate::sound::{LoadedView, PlaybackView};
use crate::sound_cache::{
    self, centred, cleaned_up, duration_of, file_finished, generic_sound, held_sample_bytes,
    next_nonce, parsed_wav, pip, playback_answer, sound_of, source_of, stored, CachedView, FileView,
    FilesView, ReportView, SourceView, WavHeader, WavView,
};
use vstd::prelude::*;

verus! {

/// A WAV file is taken exactly if it is mono 16-bit PCM at 48 kHz and has
/// between one sample and 30 seconds of them, and then as it was read.
pub proof fn law_only_acre_wavs_are_taken(header: WavHeader, samples: Seq<i16>, words: Seq<char>)
    ensures
        ({
            let shaped = header.channels == 1 && header.sample_rate == 48_000
                && header.bits_per_sample == 16 && header.integer_samples;
            let parsed = parsed_wav(Ok(header), Ok(samples));
            &&& parsed is Ok <==> shaped && 1 <= samples.len() <= 30 * 48_000
            &&& parsed matches Ok(wav) ==> wav.samples == samples && wav.duration == duration_of(
                samples.len(),
            )
            &&& parsed_wav(Err(words), Ok(samples)) is Err
            &&& parsed_wav(Ok(header), Err(words)) is Err
        }),
{
}

/// Samples last as long as they take at 48 kHz, to the nearest nanosecond: of
/// the whole nanoseconds none is closer.
pub proof fn law_samples_last_as_long_as_they_take(samples: nat)
    ensures
        ({
            let off = duration_of(samples) * 48_000 - samples * 1_000_000_000;
            -24_000 <= off <= 24_000
        }),
{
}

/// A sound is kept exactly if it could be read and there is room for it: 32
/// sounds and 2097152 bytes of samples, two for each, in all. What is kept is
/// what was read of it, of the epoch of its load, and the report says which
/// load it was.
pub proof fn law_sounds_are_kept_while_there_is_room(
    sounds: Seq<CachedView>,
    generation: u64,
    epoch: u64,
    loaded: LoadedView,
    wav: WavView,
    reason: Seq<char>,
)
    requires
        sound_of(sounds, loaded.id) is None,
        wav.samples.len() <= usize::MAX,
    ensures
        ({
            let (after, report) = stored(sounds, generation, epoch, loaded, Ok(wav));
            let room = sounds.len() < 32 && held_sample_bytes(sounds) + 2 * wav.samples.len()
                <= 2_097_152;
            &&& room ==> after == sounds.push(
                CachedView {
                    id: loaded.id,
                    epoch,
                    sha256: loaded.sha256,
                    samples: wav.samples,
                    duration: wav.duration,
                },
            )
            &&& room ==> report == (ReportView::Loaded {
                generation,
                id: loaded.id,
                sample_count: wav.samples.len() as usize,
            })
            &&& !room ==> after == sounds && report is LoadFailed
                && report->LoadFailed_generation == generation && report->LoadFailed_id
                == loaded.id
        }),
        stored(sounds, generation, epoch, loaded, Err(reason)) == (
            sounds,
            ReportView::LoadFailed { generation, id: loaded.id, reason },
        ),
{
    let next = CachedView {
        id: loaded.id,
        epoch,
        sha256: loaded.sha256,
        samples: wav.samples,
        duration: wav.duration,
    };
    assert(sounds.push(next).drop_last() =~= sounds);
}

/// The pip is a triangle of 1 kHz for 60 milliseconds: it starts at zero, goes
/// up or down by 500 from each sample to the next, turns at 6000 and -6000, and
/// comes around every 48 samples.
pub proof fn law_the_pip_is_a_triangle(at: int)
    ensures
        pip().len() == 2880,
        pip()[0] == 0,
        0 <= at < 2880 ==> -6000 <= pip()[at] <= 6000,
        0 <= at < 2879 ==> pip()[at + 1] - pip()[at] == 500 || pip()[at + 1] - pip()[at] == -500,
        0 <= at < 2880 - 48 ==> pip()[at + 48] == pip()[at],
        0 <= at < 2880 - 24 ==> pip()[at + 24] == -pip()[at],
        0 <= at < 12 ==> pip()[at] == 500 * at,
        pip()[12] == 6000,
{
}

/// Only the beep and the clicks of ACRE itself are played without having been
/// loaded.
pub proof fn law_only_generic_sounds_need_no_load(id: Seq<char>, behind: Seq<char>)
    ensures
        generic_sound("Acre_GenericBeep"@),
        generic_sound("Acre_GenericClick"@ + behind),
        generic_sound(id) && id != "Acre_GenericBeep"@ ==> id.len() >= 17 && id.take(17)
            == "Acre_GenericClick"@,
{
    reveal_strlit("Acre_GenericClick");
    let long = "Acre_GenericClick"@ + behind;
    assert("Acre_GenericClick"@.is_prefix_of(long)) by {
        assert(long.subrange(0, 17) =~= "Acre_GenericClick"@);
    }
    if generic_sound(id) && id != "Acre_GenericBeep"@ {
        assert(id.take(17) =~= id.subrange(0, 17));
    }
}

/// Whether the bits are zero, of either sign.
pub open spec fn is_nought(bits: u32) -> bool {
    bits == 0 || bits == 0x8000_0000
}

/// A sound is played exactly if it stands nowhere in the world, at the centre
/// and without a direction, has something to play, and fewer than 64 files are
/// in use; it is then made from what was loaded.
pub proof fn law_centred_sounds_are_played(
    files: FilesView,
    sounds: Seq<CachedView>,
    generation: u64,
    epoch: u64,
    request: PlaybackView,
    now: u64,
)
    ensures
        ({
            let (after, gone, answer) = playback_answer(
                files,
                sounds,
                generation,
                epoch,
                request,
                now,
            );
            let here = {
                &&& !request.is_world
                &&& is_nought(request.position.x) && is_nought(request.position.y)
                &&& is_nought(request.position.z)
                &&& is_nought(request.direction.x) && is_nought(request.direction.y)
                &&& is_nought(request.direction.z)
            };
            let source = source_of(sounds, request.id, epoch);
            &&& centred(request) <==> here
            &&& answer is Ok <==> here && source is Some && cleaned_up(files, now).0.files.len()
                < 64
            &&& answer is Ok ==> answer->Ok_0 == source->0
            &&& answer is Err ==> answer->Err_0 is PlaybackFailed
                && answer->Err_0->PlaybackFailed_generation == generation
                && answer->Err_0->PlaybackFailed_id == request.id
            &&& here && source is Some ==> (after, gone) == cleaned_up(files, now)
            &&& !here || source is None ==> after == files && gone.len() == 0
        }),
{
}

/// A sound of the epoch is made from exactly what is kept of it.
pub proof fn law_kept_sounds_are_played_as_they_are(
    sounds: Seq<CachedView>,
    at: int,
    epoch: u64,
)
    requires
        0 <= at < sounds.len(),
        sounds[at].epoch == epoch,
        sound_cache::distinct_sounds(sounds),
    ensures
        source_of(sounds, sounds[at].id, epoch) == Some(
            SourceView {
                sha256: sounds[at].sha256,
                samples: sounds[at].samples,
                duration: sounds[at].duration,
            },
        ),
{
    lemma_found(sounds, at);
}

proof fn lemma_found(sounds: Seq<CachedView>, at: int)
    requires
        0 <= at < sounds.len(),
        sound_cache::distinct_sounds(sounds),
    ensures
        sound_of(sounds, sounds[at].id) == Some(at),
    decreases sounds.len(),
{
    let head = sounds.drop_last();
    if at < head.len() {
        assert(sounds[at].id != sounds[sounds.len() - 1].id);
        assert forall|i: int, j: int| 0 <= i < j < head.len() implies (#[trigger] head[i]).id != (
        #[trigger] head[j]).id by {
            assert(head[i] == sounds[i] && head[j] == sounds[j]);
        }
        lemma_found(head, at);
        assert(head[at] == sounds[at]);
    }
}

/// The oldest files go as long as they have expired: their names are handed
/// out in order, the rest stays, and its first file has not expired.
pub proof fn law_expired_files_go_first(files: FilesView, now: u64)
    ensures
        ({
            let (after, gone) = cleaned_up(files, now);
            let count = gone.len() as int;
            &&& count <= files.files.len()
            &&& after.nonce == files.nonce
            &&& after.files == files.files.skip(count)
            &&& forall|i: int|
                0 <= i < count ==> now >= (#[trigger] files.files[i]).expires_at && gone[i]
                    == files.files[i].file
            &&& after.files.len() > 0 ==> now < after.files[0].expires_at
        }),
{
    lemma_expired(files.files, now);
    let gone = sound_cache::expired_files(files.files, now) as int;
    if gone < files.files.len() {
        assert(files.files.skip(gone)[0] == files.files[gone]);
    }
}

proof fn lemma_expired(files: Seq<FileView>, now: u64)
    ensures
        ({
            let gone = sound_cache::expired_files(files, now) as int;
            &&& gone <= files.len()
            &&& forall|i: int| 0 <= i < gone ==> now >= (#[trigger] files[i]).expires_at
            &&& gone < files.len() ==> now < files[gone].expires_at
        }),
    decreases files.len(),
{
    if files.len() > 0 && now >= files[0].expires_at {
        let rest = files.skip(1);
        lemma_expired(rest, now);
        let gone = sound_cache::expired_files(files, now) as int;
        assert forall|i: int| 0 <= i < gone implies now >= (#[trigger] files[i]).expires_at by {
            if i > 0 {
                assert(files[i] == rest[i - 1]);
            }
        }
        if gone < files.len() {
            assert(files[gone] == rest[gone - 1]);
        }
    }
}

/// A file that was written is kept for as long as it plays and five seconds
/// more, behind the others, and reported under its name; one that was not is
/// reported as failed.
pub proof fn law_written_files_are_kept_while_they_play(
    files: FilesView,
    generation: u64,
    id: Seq<char>,
    file: Seq<char>,
    source: SourceView,
    reason: Seq<char>,
    now: u64,
)
    requires
        now + source.duration + 5_000_000_000 <= u64::MAX,
    ensures
        file_finished(files, generation, id, file, source, Ok(()), now) == (
            FilesView {
                files: files.files.push(
                    FileView {
                        file,
                        expires_at: (now + source.duration + 5_000_000_000) as u64,
                    },
                ),
                nonce: files.nonce,
            },
            ReportView::PlaybackReady { generation, id, file },
        ),
        file_finished(files, generation, id, file, source, Err(reason), now) == (
            files,
            ReportView::PlaybackFailed { generation, id, reason },
        ),
        files.nonce < u64::MAX ==> next_nonce(files.nonce) == files.nonce + 1,
{
}

} // verus!
