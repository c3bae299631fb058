//! The procedures that ACRE2 2.14 and its voice plugin send each other.

use crate::text::same_text;
use vstd::prelude::*;

verus! {

/// Every procedure on the wire of the pinned ACRE2 release.
pub const ACRE2_V214_WIRE_PROCEDURES: [&'static str; 44] = [
    "ext_handleGetClientID",
    "ext_remoteStartSpeaking",
    "ext_remoteStopSpeaking",
    "ext_reset",
    "getClientID",
    "getPluginVersion",
    "getVOIPChannelName",
    "getVOIPChannelUID",
    "getVOIPServerName",
    "getVOIPServerUID",
    "handleGetClientID",
    "handleGetPluginVersion",
    "handleGetVOIPChannelName",
    "handleGetVOIPChannelUID",
    "handleGetVOIPServerName",
    "handleGetVOIPServerUID",
    "handleLoadedSound",
    "handleSoundError",
    "loadSound",
    "localMute",
    "localStartSpeaking",
    "localStopSpeaking",
    "ping",
    "playLoadedSound",
    "pong",
    "remoteStartSpeaking",
    "remoteStopSpeaking",
    "setMuted",
    "setPTTKeys",
    "setSelectableVoiceCurve",
    "setSetting",
    "setSoundSystemMasterOverride",
    "setTs3ChannelDetails",
    "setVoiceCurveModel",
    "startGodModeSpeaking",
    "startIntercomSpeaking",
    "startRadioSpeaking",
    "startZeusSpeaking",
    "stopGodModeSpeaking",
    "stopIntercomSpeaking",
    "stopRadioSpeaking",
    "stopZeusSpeaking",
    "updateSelf",
    "updateSpeakingData",
];

/// Whether the inventory lists the name.
pub open spec fn known(procedure: Seq<char>) -> bool {
    exists|i: int| 0 <= i < 44 && (#[trigger] ACRE2_V214_WIRE_PROCEDURES@[i])@ == procedure
}

/// Every name that the inventory lists is known.
pub(crate) proof fn lemma_inventory()
    ensures
        known("ext_handleGetClientID"@),
        known("ext_remoteStartSpeaking"@),
        known("ext_remoteStopSpeaking"@),
        known("ext_reset"@),
        known("getClientID"@),
        known("getPluginVersion"@),
        known("getVOIPChannelName"@),
        known("getVOIPChannelUID"@),
        known("getVOIPServerName"@),
        known("getVOIPServerUID"@),
        known("handleGetClientID"@),
        known("handleGetPluginVersion"@),
        known("handleGetVOIPChannelName"@),
        known("handleGetVOIPChannelUID"@),
        known("handleGetVOIPServerName"@),
        known("handleGetVOIPServerUID"@),
        known("handleLoadedSound"@),
        known("handleSoundError"@),
        known("loadSound"@),
        known("localMute"@),
        known("localStartSpeaking"@),
        known("localStopSpeaking"@),
        known("ping"@),
        known("playLoadedSound"@),
        known("pong"@),
        known("remoteStartSpeaking"@),
        known("remoteStopSpeaking"@),
        known("setMuted"@),
        known("setPTTKeys"@),
        known("setSelectableVoiceCurve"@),
        known("setSetting"@),
        known("setSoundSystemMasterOverride"@),
        known("setTs3ChannelDetails"@),
        known("setVoiceCurveModel"@),
        known("startGodModeSpeaking"@),
        known("startIntercomSpeaking"@),
        known("startRadioSpeaking"@),
        known("startZeusSpeaking"@),
        known("stopGodModeSpeaking"@),
        known("stopIntercomSpeaking"@),
        known("stopRadioSpeaking"@),
        known("stopZeusSpeaking"@),
        known("updateSelf"@),
        known("updateSpeakingData"@),
{
    let all = ACRE2_V214_WIRE_PROCEDURES@;
    assert(all[0]@ == "ext_handleGetClientID"@);
    assert(all[1]@ == "ext_remoteStartSpeaking"@);
    assert(all[2]@ == "ext_remoteStopSpeaking"@);
    assert(all[3]@ == "ext_reset"@);
    assert(all[4]@ == "getClientID"@);
    assert(all[5]@ == "getPluginVersion"@);
    assert(all[6]@ == "getVOIPChannelName"@);
    assert(all[7]@ == "getVOIPChannelUID"@);
    assert(all[8]@ == "getVOIPServerName"@);
    assert(all[9]@ == "getVOIPServerUID"@);
    assert(all[10]@ == "handleGetClientID"@);
    assert(all[11]@ == "handleGetPluginVersion"@);
    assert(all[12]@ == "handleGetVOIPChannelName"@);
    assert(all[13]@ == "handleGetVOIPChannelUID"@);
    assert(all[14]@ == "handleGetVOIPServerName"@);
    assert(all[15]@ == "handleGetVOIPServerUID"@);
    assert(all[16]@ == "handleLoadedSound"@);
    assert(all[17]@ == "handleSoundError"@);
    assert(all[18]@ == "loadSound"@);
    assert(all[19]@ == "localMute"@);
    assert(all[20]@ == "localStartSpeaking"@);
    assert(all[21]@ == "localStopSpeaking"@);
    assert(all[22]@ == "ping"@);
    assert(all[23]@ == "playLoadedSound"@);
    assert(all[24]@ == "pong"@);
    assert(all[25]@ == "remoteStartSpeaking"@);
    assert(all[26]@ == "remoteStopSpeaking"@);
    assert(all[27]@ == "setMuted"@);
    assert(all[28]@ == "setPTTKeys"@);
    assert(all[29]@ == "setSelectableVoiceCurve"@);
    assert(all[30]@ == "setSetting"@);
    assert(all[31]@ == "setSoundSystemMasterOverride"@);
    assert(all[32]@ == "setTs3ChannelDetails"@);
    assert(all[33]@ == "setVoiceCurveModel"@);
    assert(all[34]@ == "startGodModeSpeaking"@);
    assert(all[35]@ == "startIntercomSpeaking"@);
    assert(all[36]@ == "startRadioSpeaking"@);
    assert(all[37]@ == "startZeusSpeaking"@);
    assert(all[38]@ == "stopGodModeSpeaking"@);
    assert(all[39]@ == "stopIntercomSpeaking"@);
    assert(all[40]@ == "stopRadioSpeaking"@);
    assert(all[41]@ == "stopZeusSpeaking"@);
    assert(all[42]@ == "updateSelf"@);
    assert(all[43]@ == "updateSpeakingData"@);
}

/// Whether `procedure` belongs to the pinned ACRE2 inventory.
pub fn is_known_v214_procedure(procedure: &str) -> (answer: bool)
    ensures
        answer == known(procedure@),
{
    let inventory: [&'static str; 44] = ACRE2_V214_WIRE_PROCEDURES;
    let mut i: usize = 0;
    while i < 44
        invariant
            i <= 44,
            inventory == ACRE2_V214_WIRE_PROCEDURES,
            forall|k: int|
                0 <= k < i ==> (#[trigger] ACRE2_V214_WIRE_PROCEDURES@[k])@ != procedure@,
        decreases 44 - i,
    {
        if same_text(inventory[i], procedure) {
            assert(ACRE2_V214_WIRE_PROCEDURES@[i as int]@ == procedure@);
            return true;
        }
        i += 1;
    }
    false
}

} // verus!
