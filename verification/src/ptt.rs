//! Local push-to-talk: ACRE's transmissions and Mumble's own direct speech,
//! brought into one order.

use crate::model;
use crate::transmission::{self, SpeakingKind, Transmission, TransmissionView};
use vstd::prelude::*;

verus! {

/// What a push-to-talk event asks the adapter to do.
#[derive(Debug, PartialEq)]
pub enum PttAction {
    PeerStarted(Transmission),
    PeerStopped(Transmission),
    SetMicrophoneActivationOverwrite(bool),
}

/// The model of an action.
#[verifier::ext_equal]
pub enum PttActionView {
    PeerStarted(TransmissionView),
    PeerStopped(TransmissionView),
    SetMicrophoneActivationOverwrite(bool),
}

/// Why a local transmission was refused.
#[derive(Clone, Copy, Debug, PartialEq, Eq, Structural)]
pub enum AcrePttError {
    UnsupportedAcreSpeakingKind(SpeakingKind),
    RadioWithoutRadioId,
    NonRadioWithRadioId(SpeakingKind),
    ExpectedDirect(SpeakingKind),
    DirectWithRadioId,
}

/// Announces at most one mode at a time. Direct speech that begins under an
/// ACRE transmission is remembered and announced once that transmission ends.
#[derive(Debug)]
pub struct AcrePttStateMachine {
    active_acre: Option<Transmission>,
    active_direct: Option<Transmission>,
    suspended_direct: Option<Transmission>,
    microphone_overwrite: bool,
}

/// The model of the machine.
#[verifier::ext_equal]
pub struct PttView {
    pub active_acre: Option<TransmissionView>,
    pub active_direct: Option<TransmissionView>,
    pub suspended_direct: Option<TransmissionView>,
    pub microphone_overwrite: bool,
}

/// The machine after an event, and the actions that the event calls for.
pub type PttStep = (PttView, Seq<PttActionView>);

impl View for PttAction {
    type V = PttActionView;

    open spec fn view(&self) -> PttActionView {
        match *self {
            PttAction::PeerStarted(started) => PttActionView::PeerStarted(started@),
            PttAction::PeerStopped(stopped) => PttActionView::PeerStopped(stopped@),
            PttAction::SetMicrophoneActivationOverwrite(active) =>
                PttActionView::SetMicrophoneActivationOverwrite(active),
        }
    }
}

impl View for AcrePttError {
    type V = AcrePttError;

    open spec fn view(&self) -> AcrePttError {
        *self
    }
}

impl View for AcrePttStateMachine {
    type V = PttView;

    closed spec fn view(&self) -> PttView {
        PttView {
            active_acre: model::optional(self.active_acre),
            active_direct: model::optional(self.active_direct),
            suspended_direct: model::optional(self.suspended_direct),
            microphone_overwrite: self.microphone_overwrite,
        }
    }
}

/// Whether an optional transmission is the given one.
pub open spec fn is_the(held: Option<TransmissionView>, t: TransmissionView) -> bool {
    held is Some && transmission::same_transmission(held->0, t)
}

/// What is wrong with a transmission that ACRE controls.
pub open spec fn acre_fault(t: TransmissionView) -> Option<AcrePttError> {
    match t.speaking_kind {
        SpeakingKind::Radio => if t.radio_id.len() == 0 {
            Some(AcrePttError::RadioWithoutRadioId)
        } else {
            None
        },
        SpeakingKind::Intercom | SpeakingKind::God | SpeakingKind::Zeus => if t.radio_id.len()
            > 0 {
            Some(AcrePttError::NonRadioWithRadioId(t.speaking_kind))
        } else {
            None
        },
        _ => Some(AcrePttError::UnsupportedAcreSpeakingKind(t.speaking_kind)),
    }
}

/// What is wrong with direct speech.
pub open spec fn direct_fault(t: TransmissionView) -> Option<AcrePttError> {
    if t.speaking_kind != SpeakingKind::Direct {
        Some(AcrePttError::ExpectedDirect(t.speaking_kind))
    } else if t.radio_id.len() > 0 {
        Some(AcrePttError::DirectWithRadioId)
    } else {
        None
    }
}

pub open spec fn started(t: TransmissionView) -> Seq<PttActionView> {
    seq![PttActionView::PeerStarted(t)]
}

/// The end of an optional transmission.
pub open spec fn stopped(held: Option<TransmissionView>) -> Seq<PttActionView> {
    match held {
        Some(t) => seq![PttActionView::PeerStopped(t)],
        None => Seq::empty(),
    }
}

/// The switch of the microphone override, where it is not yet as wanted.
pub open spec fn switched(now: bool, wanted: bool) -> Seq<PttActionView> {
    if now == wanted {
        Seq::empty()
    } else {
        seq![PttActionView::SetMicrophoneActivationOverwrite(wanted)]
    }
}

/// A valid start of an ACRE transmission.
pub open spec fn acre_start(p: PttView, t: TransmissionView) -> PttStep {
    let over = if p.active_acre is Some {
        p.active_acre
    } else {
        p.active_direct
    };
    if is_the(p.active_acre, t) {
        (p, Seq::empty())
    } else {
        (
            PttView {
                active_acre: Some(t),
                active_direct: if p.active_acre is Some {
                    p.active_direct
                } else {
                    None
                },
                suspended_direct: if p.active_acre is None && p.active_direct is Some {
                    p.active_direct
                } else {
                    p.suspended_direct
                },
                microphone_overwrite: true,
            },
            stopped(over) + switched(p.microphone_overwrite, true) + started(t),
        )
    }
}

/// A stop of an ACRE transmission; one of another transmission is stale.
pub open spec fn acre_stop(p: PttView, t: TransmissionView) -> PttStep {
    if !is_the(p.active_acre, t) {
        (p, Seq::empty())
    } else {
        (
            PttView {
                active_acre: None,
                active_direct: if p.suspended_direct is Some {
                    p.suspended_direct
                } else {
                    p.active_direct
                },
                suspended_direct: None,
                microphone_overwrite: false,
            },
            stopped(p.active_acre) + switched(p.microphone_overwrite, false) + match
                p.suspended_direct {
                Some(direct) => started(direct),
                None => Seq::empty(),
            },
        )
    }
}

/// A valid start of direct speech.
pub open spec fn direct_start(p: PttView, t: TransmissionView) -> PttStep {
    if p.active_acre is Some {
        (PttView { suspended_direct: Some(t), ..p }, Seq::empty())
    } else if is_the(p.active_direct, t) {
        (p, Seq::empty())
    } else {
        (PttView { active_direct: Some(t), ..p }, stopped(p.active_direct) + started(t))
    }
}

/// A stop of direct speech; one of other speech is stale.
pub open spec fn direct_stop(p: PttView, t: TransmissionView) -> PttStep {
    if p.active_acre is Some {
        (
            if is_the(p.suspended_direct, t) {
                PttView { suspended_direct: None, ..p }
            } else {
                p
            },
            Seq::empty(),
        )
    } else if is_the(p.active_direct, t) {
        (PttView { active_direct: None, ..p }, stopped(p.active_direct))
    } else {
        (p, Seq::empty())
    }
}

/// A stop of whatever direct speech there is.
pub open spec fn native_stop(p: PttView) -> PttStep {
    match (p.suspended_direct, p.active_direct) {
        (Some(direct), _) => direct_stop(p, direct),
        (None, Some(direct)) => direct_stop(p, direct),
        (None, None) => (p, Seq::empty()),
    }
}

/// A machine at rest.
pub open spec fn at_rest() -> PttView {
    PttView {
        active_acre: None,
        active_direct: None,
        suspended_direct: None,
        microphone_overwrite: false,
    }
}

/// The end of everything: peers are told before the microphone is released.
pub open spec fn reset_step(p: PttView) -> PttStep {
    (
        at_rest(),
        stopped(p.active_acre) + stopped(p.active_direct) + switched(p.microphone_overwrite, false),
    )
}

fn validate_acre_transmission(t: &Transmission) -> (verdict: Result<(), AcrePttError>)
    ensures
        match acre_fault(t@) {
            Some(fault) => verdict == Err::<(), AcrePttError>(fault),
            None => verdict == Ok::<(), AcrePttError>(()),
        },
{
    let kind: SpeakingKind = t.speaking_kind();
    let unnamed: bool = t.radio_id().is_empty();
    match kind {
        SpeakingKind::Radio => if unnamed {
            Err(AcrePttError::RadioWithoutRadioId)
        } else {
            Ok(())
        },
        SpeakingKind::Intercom | SpeakingKind::God | SpeakingKind::Zeus => if !unnamed {
            Err(AcrePttError::NonRadioWithRadioId(kind))
        } else {
            Ok(())
        },
        _ => Err(AcrePttError::UnsupportedAcreSpeakingKind(kind)),
    }
}

fn validate_direct_transmission(t: &Transmission) -> (verdict: Result<(), AcrePttError>)
    ensures
        match direct_fault(t@) {
            Some(fault) => verdict == Err::<(), AcrePttError>(fault),
            None => verdict == Ok::<(), AcrePttError>(()),
        },
{
    if t.speaking_kind() != SpeakingKind::Direct {
        return Err(AcrePttError::ExpectedDirect(t.speaking_kind()));
    }
    if !t.radio_id().is_empty() {
        return Err(AcrePttError::DirectWithRadioId);
    }
    Ok(())
}

/// Whether an optional transmission is the given one.
fn holds(held: &Option<Transmission>, t: &Transmission) -> (answer: bool)
    ensures
        answer == is_the(model::optional(*held), t@),
{
    match held {
        Some(held) => held.same_as(t),
        None => false,
    }
}

impl Default for AcrePttStateMachine {
    fn default() -> (machine: Self)
        ensures
            machine@ == at_rest(),
    {
        AcrePttStateMachine {
            active_acre: None,
            active_direct: None,
            suspended_direct: None,
            microphone_overwrite: false,
        }
    }
}

impl AcrePttStateMachine {
    /// ACRE began a radio, intercom, God or Zeus transmission.
    pub fn acre_started(&mut self, transmission: Transmission) -> (answer: Result<
        Vec<PttAction>,
        AcrePttError,
    >)
        ensures
            match acre_fault(transmission@) {
                Some(fault) => answer == Err::<Vec<PttAction>, AcrePttError>(fault) && final(self)@
                    == old(self)@,
                None => answer matches Ok(actions) && (final(self)@, model::views(actions@))
                    == acre_start(old(self)@, transmission@),
            },
    {
        broadcast use model::group_views;

        match validate_acre_transmission(&transmission) {
            Ok(_) => {},
            Err(error) => {
                return Err(error);
            },
        }
        let mut actions: Vec<PttAction> = Vec::new();
        if holds(&self.active_acre, &transmission) {
            return Ok(actions);
        }
        match self.active_acre.take() {
            Some(previous) => {
                actions.push(PttAction::PeerStopped(previous));
            },
            None => {
                match self.active_direct.take() {
                    Some(direct) => {
                        self.suspended_direct = Some(direct.clone());
                        actions.push(PttAction::PeerStopped(direct));
                    },
                    None => {},
                }
            },
        }
        if !self.microphone_overwrite {
            self.microphone_overwrite = true;
            actions.push(PttAction::SetMicrophoneActivationOverwrite(true));
        }
        self.active_acre = Some(transmission.clone());
        actions.push(PttAction::PeerStarted(transmission));
        assert(model::views(actions@) =~= acre_start(old(self)@, transmission@).1);
        Ok(actions)
    }

    /// ACRE ended a transmission. A stop that came late changes nothing.
    pub fn acre_stopped(&mut self, transmission: &Transmission) -> (actions: Vec<PttAction>)
        ensures
            (final(self)@, model::views(actions@)) == acre_stop(old(self)@, transmission@),
    {
        broadcast use model::group_views;

        let mut actions: Vec<PttAction> = Vec::new();
        if !holds(&self.active_acre, transmission) {
            return actions;
        }
        match self.active_acre.take() {
            Some(previous) => {
                actions.push(PttAction::PeerStopped(previous));
            },
            None => {},
        }
        if self.microphone_overwrite {
            self.microphone_overwrite = false;
            actions.push(PttAction::SetMicrophoneActivationOverwrite(false));
        }
        match self.suspended_direct.take() {
            Some(direct) => {
                self.active_direct = Some(direct.clone());
                actions.push(PttAction::PeerStarted(direct));
            },
            None => {},
        }
        assert(model::views(actions@) =~= acre_stop(old(self)@, transmission@).1);
        actions
    }

    /// Mumble's direct speech began.
    pub fn direct_started(&mut self, transmission: Transmission) -> (answer: Result<
        Vec<PttAction>,
        AcrePttError,
    >)
        ensures
            match direct_fault(transmission@) {
                Some(fault) => answer == Err::<Vec<PttAction>, AcrePttError>(fault) && final(self)@
                    == old(self)@,
                None => answer matches Ok(actions) && (final(self)@, model::views(actions@))
                    == direct_start(old(self)@, transmission@),
            },
    {
        broadcast use model::group_views;

        match validate_direct_transmission(&transmission) {
            Ok(_) => {},
            Err(error) => {
                return Err(error);
            },
        }
        let mut actions: Vec<PttAction> = Vec::new();
        if self.active_acre.is_some() {
            self.suspended_direct = Some(transmission);
            return Ok(actions);
        }
        if holds(&self.active_direct, &transmission) {
            return Ok(actions);
        }
        match self.active_direct.take() {
            Some(previous) => {
                actions.push(PttAction::PeerStopped(previous));
            },
            None => {},
        }
        self.active_direct = Some(transmission.clone());
        actions.push(PttAction::PeerStarted(transmission));
        assert(model::views(actions@) =~= direct_start(old(self)@, transmission@).1);
        Ok(actions)
    }

    /// Mumble's direct speech ended. A stop that came late changes nothing.
    pub fn direct_stopped(&mut self, transmission: &Transmission) -> (actions: Vec<PttAction>)
        ensures
            (final(self)@, model::views(actions@)) == direct_stop(old(self)@, transmission@),
    {
        broadcast use model::group_views;

        let mut actions: Vec<PttAction> = Vec::new();
        if self.active_acre.is_some() {
            if holds(&self.suspended_direct, transmission) {
                self.suspended_direct = None;
            }
            return actions;
        }
        if !holds(&self.active_direct, transmission) {
            return actions;
        }
        match self.active_direct.take() {
            Some(previous) => {
                actions.push(PttAction::PeerStopped(previous));
            },
            None => {},
        }
        assert(model::views(actions@) =~= direct_stop(old(self)@, transmission@).1);
        actions
    }

    /// The host observed that there is no direct speech now, whatever metadata
    /// it began with.
    pub fn native_stopped(&mut self) -> (actions: Vec<PttAction>)
        ensures
            (final(self)@, model::views(actions@)) == native_stop(old(self)@),
    {
        broadcast use model::group_views;

        let current: Option<Transmission> = match (&self.suspended_direct, &self.active_direct) {
            (Some(direct), _) => Some(direct.clone()),
            (None, Some(direct)) => Some(direct.clone()),
            (None, None) => None,
        };
        match current {
            Some(direct) => self.direct_stopped(&direct),
            None => Vec::new(),
        }
    }

    /// Ends everything that was announced, then releases the microphone.
    pub fn reset(&mut self) -> (actions: Vec<PttAction>)
        ensures
            (final(self)@, model::views(actions@)) == reset_step(old(self)@),
    {
        broadcast use model::group_views;

        let mut actions: Vec<PttAction> = Vec::new();
        match self.active_acre.take() {
            Some(previous) => {
                actions.push(PttAction::PeerStopped(previous));
            },
            None => {},
        }
        match self.active_direct.take() {
            Some(previous) => {
                actions.push(PttAction::PeerStopped(previous));
            },
            None => {},
        }
        self.suspended_direct = None;
        if self.microphone_overwrite {
            self.microphone_overwrite = false;
            actions.push(PttAction::SetMicrophoneActivationOverwrite(false));
        }
        assert(model::views(actions@) =~= reset_step(old(self)@).1);
        actions
    }

    /// ACRE's transmission, if there is one.
    pub fn active_acre(&self) -> (active: Option<&Transmission>)
        ensures
            match active {
                Some(t) => self@.active_acre == Some(t@),
                None => self@.active_acre is None,
            },
    {
        self.active_acre.as_ref()
    }

    /// Whether the microphone is forced open.
    pub fn microphone_overwrite_active(&self) -> (active: bool)
        ensures
            active == self@.microphone_overwrite,
    {
        self.microphone_overwrite
    }
}

/// What holds of the machine between events: the microphone is forced open
/// exactly while ACRE transmits, direct speech is announced only otherwise,
/// and it is suspended only meanwhile.
pub open spec fn settled(p: PttView) -> bool {
    &&& p.microphone_overwrite == (p.active_acre is Some)
    &&& p.active_acre is Some ==> p.active_direct is None
    &&& p.active_acre is None ==> p.suspended_direct is None
}

/// The one transmission that peers know of.
pub open spec fn announced(p: PttView) -> Option<TransmissionView> {
    if p.active_acre is Some {
        p.active_acre
    } else {
        p.active_direct
    }
}

/// What peers know of after following the actions, where each start finds
/// nothing announced and each stop ends just what is announced; `None` where
/// that fails.
pub open spec fn followed(
    known: Option<TransmissionView>,
    actions: Seq<PttActionView>,
) -> Option<Option<TransmissionView>>
    decreases actions.len(),
{
    if actions.len() == 0 {
        Some(known)
    } else {
        match followed(known, actions.drop_last()) {
            None => None,
            Some(now) => match actions.last() {
                PttActionView::PeerStarted(t) => if now is None {
                    Some(Some(t))
                } else {
                    None
                },
                PttActionView::PeerStopped(t) => if now == Some(t) {
                    Some(None)
                } else {
                    None
                },
                PttActionView::SetMicrophoneActivationOverwrite(_) => Some(now),
            },
        }
    }
}

proof fn lemma_followed_two(
    known: Option<TransmissionView>,
    first: Seq<PttActionView>,
    second: Seq<PttActionView>,
)
    ensures
        followed(known, first + second) == match followed(known, first) {
            None => None,
            Some(between) => followed(between, second),
        },
    decreases second.len(),
{
    if second.len() == 0 {
        assert(first + second =~= first);
    } else {
        assert((first + second).drop_last() =~= first + second.drop_last());
        lemma_followed_two(known, first, second.drop_last());
    }
}

proof fn lemma_followed_one(known: Option<TransmissionView>, action: PttActionView)
    ensures
        followed(known, Seq::empty()) == Some(known),
        followed(known, seq![action]) == match action {
            PttActionView::PeerStarted(t) => if known is None {
                Some(Some(t))
            } else {
                None
            },
            PttActionView::PeerStopped(t) => if known == Some(t) {
                Some(None)
            } else {
                None
            },
            PttActionView::SetMicrophoneActivationOverwrite(_) => Some(known),
        },
{
    assert(seq![action].drop_last() =~= Seq::<PttActionView>::empty());
}

proof fn lemma_followed_three(
    known: Option<TransmissionView>,
    held: Option<TransmissionView>,
    now: bool,
    wanted: bool,
    next: Option<TransmissionView>,
)
    requires
        known == held,
    ensures
        followed(
            known,
            stopped(held) + switched(now, wanted) + match next {
                Some(t) => started(t),
                None => Seq::empty(),
            },
        ) == Some(next),
{
    let last = match next {
        Some(t) => started(t),
        None => Seq::<PttActionView>::empty(),
    };
    lemma_followed_two(known, stopped(held) + switched(now, wanted), last);
    lemma_followed_two(known, stopped(held), switched(now, wanted));
    if held is Some {
        lemma_followed_one(known, PttActionView::PeerStopped(held->0));
    }
    lemma_followed_one(None, PttActionView::SetMicrophoneActivationOverwrite(wanted));
    if next is Some {
        lemma_followed_one(None, PttActionView::PeerStarted(next->0));
    }
}

/// The machine is settled at rest, and every event leaves a settled machine
/// settled: whatever callbacks arrive in whatever order, the microphone is
/// forced open exactly while ACRE transmits, and at most one mode is announced.
pub proof fn law_every_event_keeps_the_machine_settled(p: PttView, t: TransmissionView)
    requires
        settled(p),
    ensures
        settled(at_rest()),
        settled(acre_start(p, t).0),
        settled(acre_stop(p, t).0),
        settled(direct_start(p, t).0),
        settled(direct_stop(p, t).0),
        settled(native_stop(p).0),
        settled(reset_step(p).0),
{
}

/// Peers that follow the actions of any event know exactly what the machine
/// announces: every start finds nothing announced, and every stop ends just
/// what was announced, once.
pub proof fn law_peers_follow_the_machine(p: PttView, t: TransmissionView)
    requires
        settled(p),
    ensures
        followed(announced(p), acre_start(p, t).1) == Some(announced(acre_start(p, t).0)),
        followed(announced(p), acre_stop(p, t).1) == Some(announced(acre_stop(p, t).0)),
        followed(announced(p), direct_start(p, t).1) == Some(announced(direct_start(p, t).0)),
        followed(announced(p), direct_stop(p, t).1) == Some(announced(direct_stop(p, t).0)),
        followed(announced(p), native_stop(p).1) == Some(announced(native_stop(p).0)),
        followed(announced(p), reset_step(p).1) == Some(announced(reset_step(p).0)),
{
    let known = announced(p);
    lemma_followed_three(known, known, p.microphone_overwrite, true, Some(t));
    lemma_followed_three(known, known, p.microphone_overwrite, false, p.suspended_direct);
    lemma_followed_three(known, known, p.microphone_overwrite, false, None);
    assert(followed(known, Seq::empty()) == Some(known));
    assert(stopped(known) + Seq::<PttActionView>::empty() =~= stopped(known));
    lemma_followed_three(known, known, false, false, Some(t));
    lemma_followed_three(known, known, false, false, None);
    assert(stopped(known) + switched(false, false) + started(t) =~= stopped(known) + started(t));
    assert(stopped(known) + switched(false, false) + Seq::<PttActionView>::empty() =~= stopped(
        known,
    ));
    assert(stopped(p.active_acre) + stopped(p.active_direct) =~= stopped(known));
    assert(stopped(known) + switched(p.microphone_overwrite, false) + Seq::<
        PttActionView,
    >::empty() =~= stopped(known) + switched(p.microphone_overwrite, false));
}

/// Repeated and stale events do nothing: a transmission that is active is not
/// started again, one that is not active is not stopped, and a reset machine
/// has nothing left to end.
pub proof fn law_repeated_and_stale_events_do_nothing(p: PttView, t: TransmissionView)
    requires
        settled(p),
    ensures
        acre_start(acre_start(p, t).0, t) == (acre_start(p, t).0, Seq::<PttActionView>::empty()),
        acre_stop(acre_stop(p, t).0, t) == (acre_stop(p, t).0, Seq::<PttActionView>::empty()),
        direct_start(direct_start(p, t).0, t) == (
            direct_start(p, t).0,
            Seq::<PttActionView>::empty(),
        ),
        direct_stop(direct_stop(p, t).0, t) == (direct_stop(p, t).0, Seq::<PttActionView>::empty()),
        reset_step(reset_step(p).0) == (at_rest(), Seq::<PttActionView>::empty()),
{
}

/// Direct speech survives an ACRE transmission: what was announced before the
/// transmission is announced again after it.
pub proof fn law_direct_speech_is_restored(p: PttView, t: TransmissionView)
    requires
        settled(p),
        p.active_acre is None,
    ensures
        acre_stop(acre_start(p, t).0, t).0 == p,
{
}

} // verus!
