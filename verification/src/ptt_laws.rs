//! Whose voice goes out, and when the microphone is forced open.

use crate::ptt::{
    self, acre_fault, acre_start, acre_stop, announced, direct_fault, direct_start, direct_stop,
    is_the, native_stop, reset_step, settled, AcrePttError, PttActionView, PttView,
};
use crate::session_laws::agree;
use crate::transmission::{SpeakingKind, TransmissionView};
use vstd::prelude::*;

verus! {

/// Whether ACRE may control the transmission: it names a radio exactly if it
/// goes over one.
pub open spec fn is_controlled(t: TransmissionView) -> bool {
    match t.speaking_kind {
        SpeakingKind::Radio => t.radio_id.len() > 0,
        SpeakingKind::Intercom => t.radio_id.len() == 0,
        SpeakingKind::God => t.radio_id.len() == 0,
        SpeakingKind::Zeus => t.radio_id.len() == 0,
        _ => false,
    }
}

/// Exactly the transmissions that ACRE may control are accepted as such, and
/// only direct speech over no radio as native; the refusal says why.
pub proof fn law_transmissions_are_accepted_by_their_mode(t: TransmissionView)
    ensures
        acre_fault(t) is None <==> is_controlled(t),
        acre_fault(t) matches Some(fault) ==> match fault {
            AcrePttError::RadioWithoutRadioId => t.speaking_kind == SpeakingKind::Radio
                && t.radio_id.len() == 0,
            AcrePttError::NonRadioWithRadioId(kind) => kind == t.speaking_kind && kind
                != SpeakingKind::Radio && t.radio_id.len() > 0,
            AcrePttError::UnsupportedAcreSpeakingKind(kind) => kind == t.speaking_kind && (kind
                == SpeakingKind::Direct || kind == SpeakingKind::Unknown || kind
                == SpeakingKind::Spectate),
            _ => false,
        },
        direct_fault(t) is None <==> t.speaking_kind == SpeakingKind::Direct && t.radio_id.len()
            == 0,
        direct_fault(t) matches Some(fault) ==> match fault {
            AcrePttError::ExpectedDirect(kind) => kind == t.speaking_kind && kind
                != SpeakingKind::Direct,
            AcrePttError::DirectWithRadioId => t.radio_id.len() > 0,
            _ => false,
        },
{
}

/// A transmission is the held one exactly if they agree in every field.
pub proof fn law_the_held_transmission_agrees_in_every_field(
    held: Option<TransmissionView>,
    t: TransmissionView,
)
    ensures
        is_the(held, t) <==> held is Some && agree(held->0, t),
{
}

/// What ACRE starts is announced, whatever was before, and forces the
/// microphone open before the peers are told.
pub proof fn law_acre_transmissions_are_announced(p: PttView, t: TransmissionView)
    requires
        settled(p),
    ensures
        ({
            let (after, actions) = acre_start(p, t);
            &&& announced(after) is Some && agree(announced(after)->0, t)
            &&& after.microphone_overwrite
            &&& p.active_acre is Some && agree(p.active_acre->0, t) ==> after == p
                && actions.len() == 0
            &&& !(p.active_acre is Some && agree(p.active_acre->0, t)) ==> {
                &&& actions.len() > 0 && actions.last() == PttActionView::PeerStarted(t)
                &&& announced(p) matches Some(before) ==> actions[0]
                    == PttActionView::PeerStopped(before)
                &&& !p.microphone_overwrite ==> actions.len() > 1 && actions[actions.len() - 2]
                    == PttActionView::SetMicrophoneActivationOverwrite(true)
                &&& p.microphone_overwrite ==> !actions.contains(
                    PttActionView::SetMicrophoneActivationOverwrite(true),
                )
            }
        }),
{
}

/// What ACRE stops is no longer announced: the peers are told first, then the
/// microphone is released, and then speech that waited is announced. A stop of
/// anything else changes nothing.
pub proof fn law_acre_transmissions_are_ended(p: PttView, t: TransmissionView)
    requires
        settled(p),
    ensures
        ({
            let (after, actions) = acre_stop(p, t);
            let held = p.active_acre is Some && agree(p.active_acre->0, t);
            &&& !held ==> after == p && actions.len() == 0
            &&& held ==> {
                &&& after.active_acre is None
                &&& !after.microphone_overwrite
                &&& announced(after) == p.suspended_direct
                &&& actions.len() >= 2
                &&& actions[0] == PttActionView::PeerStopped(p.active_acre->0)
                &&& actions[1] == PttActionView::SetMicrophoneActivationOverwrite(false)
                &&& p.suspended_direct matches Some(direct) ==> actions.last()
                    == PttActionView::PeerStarted(direct)
            }
        }),
{
}

/// Direct speech is announced at once, or if ACRE transmits, remembered in
/// silence until ACRE is done; the microphone stays as it is.
pub proof fn law_direct_speech_waits_for_acre(p: PttView, t: TransmissionView)
    requires
        settled(p),
    ensures
        ({
            let (after, actions) = direct_start(p, t);
            &&& after.microphone_overwrite == p.microphone_overwrite
            &&& after.active_acre == p.active_acre
            &&& p.active_acre is None ==> announced(after) is Some && agree(
                announced(after)->0,
                t,
            )
            &&& p.active_acre matches Some(held) ==> {
                &&& actions.len() == 0
                &&& announced(after) == announced(p)
                &&& announced(acre_stop(after, held).0) == Some(t)
            }
        }),
{
}

/// Direct speech ends where it was announced or remembered, and nowhere else;
/// once there is no native speech, none is announced or remembered.
pub proof fn law_direct_speech_ends(p: PttView, t: TransmissionView)
    requires
        settled(p),
    ensures
        ({
            let (after, actions) = direct_stop(p, t);
            let speaking = p.active_direct is Some && agree(p.active_direct->0, t);
            let waiting = p.suspended_direct is Some && agree(p.suspended_direct->0, t);
            &&& after.active_acre == p.active_acre
            &&& speaking ==> announced(after) is None && actions == seq![
                PttActionView::PeerStopped(p.active_direct->0),
            ]
            &&& waiting ==> after.suspended_direct is None && actions.len() == 0
            &&& !speaking && !waiting ==> after == p && actions.len() == 0
        }),
        ({
            let (after, actions) = native_stop(p);
            &&& after.active_direct is None
            &&& after.suspended_direct is None
            &&& after.active_acre == p.active_acre
            &&& after.microphone_overwrite == p.microphone_overwrite
        }),
{
}

/// A reset ends what is announced, and then releases the microphone.
pub proof fn law_resets_end_what_is_announced(p: PttView)
    requires
        settled(p),
    ensures
        ({
            let (after, actions) = reset_step(p);
            &&& after == ptt::at_rest()
            &&& announced(after) is None
            &&& announced(p) matches Some(t) ==> actions.len() > 0 && actions[0]
                == PttActionView::PeerStopped(t)
            &&& p.microphone_overwrite ==> actions.len() > 0 && actions.last()
                == PttActionView::SetMicrophoneActivationOverwrite(false)
            &&& announced(p) is None ==> actions.len() == 0
        }),
{
}

} // verus!
