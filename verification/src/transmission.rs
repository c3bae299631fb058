//! Who speaks, in which mode, and over which radio.

use crate::binary32::{self, is_finite, is_same};
use crate::text::same_text;
use vstd::prelude::*;
use vstd::std_specs::cmp::PartialEqSpecImpl;

verus! {

/// ACRE's speaking modes.
#[derive(Clone, Copy, Debug, PartialEq, Eq, Structural)]
pub enum SpeakingKind {
    Direct,
    Radio,
    Unknown,
    Intercom,
    Spectate,
    God,
    Zeus,
}

/// The metadata of one local or remote transmission. The curve scale is the
/// bit pattern of a finite single-precision number.
#[derive(Debug)]
pub struct Transmission {
    voice_client_id: u32,
    language_id: i32,
    net_id: String,
    speaking_kind: SpeakingKind,
    radio_id: String,
    curve_scale: u32,
}

/// A transmission announced by another adapter.
pub type RemoteTransmission = Transmission;

/// The model of a transmission.
#[verifier::ext_equal]
pub struct TransmissionView {
    pub voice_client_id: u32,
    pub language_id: i32,
    pub net_id: Seq<char>,
    pub speaking_kind: SpeakingKind,
    pub radio_id: Seq<char>,
    pub curve_scale: u32,
}

/// The number that ACRE's wire format has for a mode.
pub open spec fn kind_number(kind: SpeakingKind) -> u8 {
    match kind {
        SpeakingKind::Direct => 0,
        SpeakingKind::Radio => 1,
        SpeakingKind::Unknown => 2,
        SpeakingKind::Intercom => 3,
        SpeakingKind::Spectate => 4,
        SpeakingKind::God => 5,
        SpeakingKind::Zeus => 6,
    }
}

/// A speaking mode's name.
pub open spec fn kind_name(kind: SpeakingKind) -> Seq<char> {
    match kind {
        SpeakingKind::Direct => "Direct"@,
        SpeakingKind::Radio => "Radio"@,
        SpeakingKind::Unknown => "Unknown"@,
        SpeakingKind::Intercom => "Intercom"@,
        SpeakingKind::Spectate => "Spectate"@,
        SpeakingKind::God => "God"@,
        SpeakingKind::Zeus => "Zeus"@,
    }
}

/// Whether two transmissions say the same. Zero has two bit patterns.
pub open spec fn same_transmission(a: TransmissionView, b: TransmissionView) -> bool {
    &&& a.voice_client_id == b.voice_client_id
    &&& a.language_id == b.language_id
    &&& a.net_id == b.net_id
    &&& a.speaking_kind == b.speaking_kind
    &&& a.radio_id == b.radio_id
    &&& binary32::same(a.curve_scale, b.curve_scale)
}

impl SpeakingKind {
    /// The number that ACRE's wire format has for the mode.
    pub fn wire_value(self) -> (number: u8)
        ensures
            number == kind_number(self),
    {
        match self {
            SpeakingKind::Direct => 0,
            SpeakingKind::Radio => 1,
            SpeakingKind::Unknown => 2,
            SpeakingKind::Intercom => 3,
            SpeakingKind::Spectate => 4,
            SpeakingKind::God => 5,
            SpeakingKind::Zeus => 6,
        }
    }

    /// The mode's name.
    pub fn name(self) -> (name: &'static str)
        ensures
            name@ == kind_name(self),
    {
        match self {
            SpeakingKind::Direct => "Direct",
            SpeakingKind::Radio => "Radio",
            SpeakingKind::Unknown => "Unknown",
            SpeakingKind::Intercom => "Intercom",
            SpeakingKind::Spectate => "Spectate",
            SpeakingKind::God => "God",
            SpeakingKind::Zeus => "Zeus",
        }
    }
}

impl View for Transmission {
    type V = TransmissionView;

    closed spec fn view(&self) -> TransmissionView {
        TransmissionView {
            voice_client_id: self.voice_client_id,
            language_id: self.language_id,
            net_id: self.net_id@,
            speaking_kind: self.speaking_kind,
            radio_id: self.radio_id@,
            curve_scale: self.curve_scale,
        }
    }
}

impl Clone for Transmission {
    fn clone(&self) -> (copy: Self)
        ensures
            copy@ == self@,
    {
        proof {
            use_type_invariant(self);
        }
        Transmission {
            voice_client_id: self.voice_client_id,
            language_id: self.language_id,
            net_id: self.net_id.clone(),
            speaking_kind: self.speaking_kind,
            radio_id: self.radio_id.clone(),
            curve_scale: self.curve_scale,
        }
    }
}

impl PartialEq for Transmission {
    fn eq(&self, other: &Self) -> (same: bool) {
        self.same_as(other)
    }
}

impl PartialEqSpecImpl for Transmission {
    open spec fn obeys_eq_spec() -> bool {
        true
    }

    open spec fn eq_spec(&self, other: &Self) -> bool {
        same_transmission(self@, other@)
    }
}

impl Transmission {
    /// The curve scale of every transmission is finite.
    #[verifier::type_invariant]
    pub closed spec fn inv(self) -> bool {
        binary32::finite(self@.curve_scale)
    }

    /// Builds a transmission; a curve scale that is not finite yields none.
    pub(crate) fn build(
        voice_client_id: u32,
        language_id: i32,
        net_id: &str,
        speaking_kind: SpeakingKind,
        radio_id: &str,
        curve_scale: u32,
    ) -> (built: Option<Self>)
        ensures
            match built {
                Some(transmission) => binary32::finite(curve_scale) && transmission@ == (
                TransmissionView {
                    voice_client_id,
                    language_id,
                    net_id: net_id@,
                    speaking_kind,
                    radio_id: radio_id@,
                    curve_scale,
                }),
                None => !binary32::finite(curve_scale),
            },
    {
        if !is_finite(curve_scale) {
            return None;
        }
        Some(
            Transmission {
                voice_client_id,
                language_id,
                net_id: net_id.to_owned(),
                speaking_kind,
                radio_id: radio_id.to_owned(),
                curve_scale,
            },
        )
    }

    /// Whether the other transmission says the same.
    pub fn same_as(&self, other: &Transmission) -> (same: bool)
        ensures
            same == same_transmission(self@, other@),
    {
        self.voice_client_id == other.voice_client_id && self.language_id == other.language_id
            && same_text(self.net_id.as_str(), other.net_id.as_str()) && self.speaking_kind
            == other.speaking_kind && same_text(self.radio_id.as_str(), other.radio_id.as_str())
            && is_same(self.curve_scale, other.curve_scale)
    }

    pub fn voice_client_id(&self) -> (id: u32)
        ensures
            id == self@.voice_client_id,
    {
        self.voice_client_id
    }

    pub fn language_id(&self) -> (id: i32)
        ensures
            id == self@.language_id,
    {
        self.language_id
    }

    pub fn net_id(&self) -> (id: &str)
        ensures
            id@ == self@.net_id,
    {
        self.net_id.as_str()
    }

    pub fn speaking_kind(&self) -> (kind: SpeakingKind)
        ensures
            kind == self@.speaking_kind,
    {
        self.speaking_kind
    }

    pub fn radio_id(&self) -> (id: &str)
        ensures
            id@ == self@.radio_id,
    {
        self.radio_id.as_str()
    }

    pub fn curve_scale(&self) -> (scale: u32)
        ensures
            scale == self@.curve_scale,
            binary32::finite(scale),
    {
        proof {
            use_type_invariant(self);
        }
        self.curve_scale
    }
}

} // verus!
