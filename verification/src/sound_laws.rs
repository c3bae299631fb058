//! What chunks and playback requests say, and when transfers end.

use crate::codec::MessageView;
use crate::decimal;
use crate::session_laws::one_number;
use crate::sound::{
    self, accepted, carried_chunk, carried_playback, decoded_payload, expired_ids, extended,
    same_playback, sound_id_fault, transfer_of, unexpired, ChunkView, PendingView, PlaybackView,
    SoundFault,
};
use crate::speaking_laws::{has_value, vector_written_at, written_at};
use vstd::prelude::*;
use vstd::utf8::encode_utf8;

verus! {

/// Whether the text names a sound: up to 128 letters, digits, underscores,
/// hyphens and full stops, and at least one.
pub open spec fn is_sound_name(id: Seq<char>) -> bool {
    let bytes = encode_utf8(id);
    &&& id.len() > 0
    &&& bytes.len() <= 128
    &&& forall|i: int| 0 <= i < bytes.len() ==> {
        let byte = #[trigger] bytes[i] as char;
        ||| '0' <= byte <= '9'
        ||| 'A' <= byte <= 'Z'
        ||| 'a' <= byte <= 'z'
        ||| byte == '_'
        ||| byte == '-'
        ||| byte == '.'
    }
}

/// Whether the text is made of the letters of base64 and its padding.
pub open spec fn is_base64_text(text: Seq<char>) -> bool {
    let bytes = encode_utf8(text);
    forall|i: int| 0 <= i < bytes.len() ==> {
        let byte = #[trigger] bytes[i] as char;
        ||| '0' <= byte <= '9'
        ||| 'A' <= byte <= 'Z'
        ||| 'a' <= byte <= 'z'
        ||| byte == '+'
        ||| byte == '/'
        ||| byte == '='
    }
}

/// Whether the message writes the chunk.
pub open spec fn chunk_written(m: MessageView, chunk: ChunkView) -> bool {
    &&& m.procedure == "loadSound"@
    &&& m.parameters.len() == 4
    &&& m.parameters[0] == chunk.id && is_sound_name(chunk.id)
    &&& decimal::unsigned_value(m.parameters[1], usize::MAX as nat) == Some(chunk.index as nat)
    &&& decimal::unsigned_value(m.parameters[2], usize::MAX as nat) == Some(chunk.total as nat)
    &&& 1 <= chunk.total <= 128
    &&& chunk.index <= chunk.total
    &&& m.parameters[3] == chunk.base64 && is_base64_text(chunk.base64)
    &&& encode_utf8(chunk.base64).len() <= 3072
}

/// Whether the message writes the request to play a sound.
pub open spec fn playback_written(
    m: MessageView,
    r: Seq<Option<u32>>,
    playback: PlaybackView,
) -> bool {
    &&& m.procedure == "playLoadedSound"@
    &&& m.parameters.len() == 9
    &&& m.parameters[0] == playback.id && is_sound_name(playback.id)
    &&& vector_written_at(r, 1, playback.position)
    &&& vector_written_at(r, 4, playback.direction)
    &&& written_at(r, 7, playback.volume)
    &&& playback.volume <= 0x3f80_0000 || playback.volume == 0x8000_0000
    &&& m.parameters[8] == if playback.is_world {
        "1"@
    } else {
        "0"@
    }
}

/// Exactly the names of sounds pass as such.
pub proof fn law_sound_names_are_plain(id: Seq<char>)
    ensures
        sound_id_fault(id) is None <==> is_sound_name(id),
{
}

/// A chunk is read exactly as it was written: its sound, its place, how many
/// there are, and its text.
pub proof fn law_chunks_are_read_as_written(m: MessageView, chunk: ChunkView)
    ensures
        carried_chunk(m) == Ok::<ChunkView, SoundFault>(chunk) <==> chunk_written(m, chunk),
{
}

/// A request to play a sound is read exactly as it was written: its sound, its
/// position, then its direction, its volume between zero and one, and whether
/// it stands in the world.
pub proof fn law_playbacks_are_read_as_written(
    m: MessageView,
    r: Seq<Option<u32>>,
    playback: PlaybackView,
)
    ensures
        carried_playback(m, r) == Ok::<PlaybackView, SoundFault>(playback) <==> playback_written(
            m,
            r,
            playback,
        ),
{
    reveal_strlit("0");
    reveal_strlit("1");
    assert("0"@[0] != "1"@[0]);
}

/// A refused chunk is refused for something that is wrong with it.
pub proof fn law_refused_chunks_name_their_fault(m: MessageView)
    requires
        carried_chunk(m) is Err,
        m.parameters.len() <= usize::MAX,
    ensures
        match carried_chunk(m)->Err_0 {
            SoundFault::UnexpectedProcedure(name) => name == m.procedure && name
                != "loadSound"@,
            SoundFault::WrongArity { expected, actual, .. } => expected == 4 && actual
                == m.parameters.len() && actual != 4,
            SoundFault::EmptySoundId => m.parameters[0].len() == 0,
            SoundFault::SoundIdTooLong { limit, .. } => limit == 128 && encode_utf8(
                m.parameters[0],
            ).len() > 128,
            SoundFault::InvalidSoundId => !is_sound_name(m.parameters[0]),
            SoundFault::InvalidInteger { index, .. } => 1 <= index <= 2
                && decimal::unsigned_value(m.parameters[index as int], usize::MAX as nat) is None,
            SoundFault::InvalidChunkTotal { total } => (total == 0 || total > 128)
                && decimal::unsigned_value(m.parameters[2], usize::MAX as nat) == Some(
                total as nat,
            ),
            SoundFault::InvalidChunkIndex { index, total } => index > total,
            SoundFault::ChunkTooLong { limit, .. } => limit == 3072 && encode_utf8(
                m.parameters[3],
            ).len() > 3072,
            SoundFault::InvalidBase64 => !is_base64_text(m.parameters[3]),
            _ => false,
        },
{
}

/// A refused request is refused for something that is wrong with it.
pub proof fn law_refused_playbacks_name_their_fault(m: MessageView, r: Seq<Option<u32>>)
    requires
        carried_playback(m, r) is Err,
        m.parameters.len() <= usize::MAX,
    ensures
        match carried_playback(m, r)->Err_0 {
            SoundFault::UnexpectedProcedure(name) => name == m.procedure && name
                != "playLoadedSound"@,
            SoundFault::WrongArity { expected, actual, .. } => expected == 9 && actual
                == m.parameters.len() && actual != 9,
            SoundFault::EmptySoundId => m.parameters[0].len() == 0,
            SoundFault::SoundIdTooLong { limit, .. } => limit == 128 && encode_utf8(
                m.parameters[0],
            ).len() > 128,
            SoundFault::InvalidSoundId => !is_sound_name(m.parameters[0]),
            SoundFault::InvalidFloat { index, .. } => 1 <= index <= 7 && !(index < r.len()
                && r[index as int] is Some && has_value(r[index as int]->0)),
            SoundFault::InvalidVolume { volume } => written_at(r, 7, volume) && volume
                > 0x3f80_0000 && volume != 0x8000_0000,
            SoundFault::InvalidWorldFlag(flag) => flag == m.parameters[8] && flag != "0"@ && flag
                != "1"@,
            _ => false,
        },
{
}

/// Two requests are equal exactly if they say the same in every field, their
/// numbers as numbers.
pub proof fn law_equal_playbacks_say_the_same(a: PlaybackView, b: PlaybackView)
    requires
        has_value(a.volume) && has_value(a.position.x) && has_value(a.position.y)
            && has_value(a.position.z),
        has_value(a.direction.x) && has_value(a.direction.y) && has_value(a.direction.z),
    ensures
        same_playback(a, b) <==> {
            &&& a.id == b.id
            &&& one_number(a.position.x, b.position.x)
            &&& one_number(a.position.y, b.position.y)
            &&& one_number(a.position.z, b.position.z)
            &&& one_number(a.direction.x, b.direction.x)
            &&& one_number(a.direction.y, b.direction.y)
            &&& one_number(a.direction.z, b.direction.z)
            &&& one_number(a.volume, b.volume)
            &&& a.is_world == b.is_world
        },
{
}

/// Whether the transfer has rested for ten seconds.
pub open spec fn has_rested(transfer: PendingView, now: u64) -> bool {
    now - transfer.last_update >= 10_000_000_000
}

/// A transfer that has rested for ten seconds is gone and told by its ID; every
/// other one stays as it is, in its order.
pub proof fn law_transfers_rest_ten_seconds_at_most(
    pending: Seq<PendingView>,
    now: u64,
    transfer: PendingView,
    id: Seq<char>,
)
    ensures
        unexpired(pending, now).contains(transfer) <==> pending.contains(transfer) && !has_rested(
            transfer,
            now,
        ),
        expired_ids(pending, now).contains(id) <==> exists|i: int|
            0 <= i < pending.len() && (#[trigger] pending[i]).id == id && has_rested(
                pending[i],
                now,
            ),
        unexpired(pending, now).len() + expired_ids(pending, now).len() == pending.len(),
    decreases pending.len(),
{
    if pending.len() > 0 {
        let head = pending.drop_last();
        law_transfers_rest_ten_seconds_at_most(head, now, transfer, id);
        let kept = unexpired(pending, now);
        let before = unexpired(head, now);
        let gone = expired_ids(pending, now);
        let earlier = expired_ids(head, now);
        assert(pending[pending.len() - 1] == pending.last());
        assert(forall|i: int| 0 <= i < head.len() ==> #[trigger] head[i] == pending[i]);
        if pending.contains(transfer) && pending.last() != transfer {
            let k = choose|k: int| 0 <= k < pending.len() && pending[k] == transfer;
            assert(head[k] == transfer);
        }
        if head.contains(transfer) {
            let k = choose|k: int| 0 <= k < head.len() && head[k] == transfer;
            assert(pending[k] == transfer);
        }
        if before.contains(transfer) {
            let k = choose|k: int| 0 <= k < before.len() && before[k] == transfer;
            assert(kept[k] == transfer);
        }
        if kept.contains(transfer) {
            let k = choose|k: int| 0 <= k < kept.len() && kept[k] == transfer;
            if k < before.len() {
                assert(before[k] == transfer);
            }
        }
        if !has_rested(pending.last(), now) {
            assert(kept[kept.len() - 1] == pending.last());
        } else {
            assert(gone[gone.len() - 1] == pending.last().id);
        }
        if earlier.contains(id) {
            let k = choose|k: int| 0 <= k < earlier.len() && earlier[k] == id;
            assert(gone[k] == id);
            let i = choose|i: int|
                0 <= i < head.len() && (#[trigger] head[i]).id == id && has_rested(head[i], now);
            assert(pending[i].id == id && has_rested(pending[i], now));
        }
        if gone.contains(id) {
            let k = choose|k: int| 0 <= k < gone.len() && gone[k] == id;
            if k < earlier.len() {
                assert(earlier[k] == id);
                assert(earlier.contains(id));
            } else {
                assert(pending[pending.len() - 1].id == id && has_rested(
                    pending[pending.len() - 1],
                    now,
                ));
            }
        }
        if exists|i: int|
            0 <= i < pending.len() && (#[trigger] pending[i]).id == id && has_rested(
                pending[i],
                now,
            ) {
            let i = choose|i: int|
                0 <= i < pending.len() && (#[trigger] pending[i]).id == id && has_rested(
                    pending[i],
                    now,
                );
            if i < head.len() {
                assert(head[i].id == id && has_rested(head[i], now));
            }
        }
    }
}

/// A chunk is put in its place, and only there, or discards its transfer: if it
/// declares another number of chunks or counts otherwise, names no place, is
/// empty before the last one, differs from what stands in its place, or takes
/// its sound beyond 262144 encoded bytes or all sounds beyond 8388608.
pub proof fn law_chunks_are_put_in_their_place(
    transfer: PendingView,
    chunk: ChunkView,
    now: u64,
    held: nat,
)
    requires
        transfer.chunks.len() <= 128,
        chunk.index <= chunk.total,
    ensures
        ({
            let first = if transfer.zero_based {
                0int
            } else {
                1
            };
            let place = chunk.index - first;
            let length = encode_utf8(chunk.base64).len();
            let fits = {
                &&& transfer.chunks.len() == chunk.total
                &&& 0 <= place < chunk.total
                &&& chunk.base64.len() > 0 || place == chunk.total - 1
            };
            let repeated = fits && transfer.chunks[place] == Some(chunk.base64);
            let fills = {
                &&& fits
                &&& transfer.chunks[place] is None
                &&& sound::arrived_bytes(transfer.chunks) + length <= 262144
                &&& held + length <= 8388608
            };
            &&& extended(transfer, chunk, now, held) is Ok <==> repeated || fills
            &&& repeated ==> extended(transfer, chunk, now, held)->Ok_0 == (PendingView {
                last_update: now,
                ..transfer
            })
            &&& fills ==> extended(transfer, chunk, now, held)->Ok_0 == (PendingView {
                last_update: now,
                chunks: transfer.chunks.update(place, Some(chunk.base64)),
                ..transfer
            })
        }),
{
}

/// At most 32 sounds are transferred at once: the first chunk of another one is
/// refused.
pub proof fn law_few_sounds_are_transferred_at_once(
    pending: Seq<PendingView>,
    chunk: ChunkView,
    now: u64,
)
    requires
        unexpired(pending, now).len() >= 32,
        transfer_of(unexpired(pending, now), chunk.id) is None,
    ensures
        accepted(pending, chunk, now).0 == unexpired(pending, now),
        accepted(pending, chunk, now).1 matches Err(SoundFault::TooManyPendingSounds { limit })
            && limit == 32,
{
}

/// A sound's payload is refused if it is empty, not a number of whole groups of
/// four letters, or could be longer than 196608 bytes; what is accepted is
/// shorter than its letters.
pub proof fn law_payloads_are_bounded(encoded: Seq<char>)
    ensures
        ({
            let letters = encode_utf8(encoded).len();
            &&& encoded.len() == 0 ==> decoded_payload(encoded) is Err
            &&& letters % 4 != 0 ==> decoded_payload(encoded) is Err
            &&& letters / 4 * 3 > 196608 ==> decoded_payload(encoded) is Err
            &&& decoded_payload(encoded) matches Ok(bytes) ==> crate::base64::encoded_bytes(
                encode_utf8(encoded),
            ) == Some(bytes)
        }),
{
}

} // verus!
