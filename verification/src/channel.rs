//! The automatic move to the game's channel and back.
//!
//! When ACRE connects, the local user is moved once to the channel with the
//! agreed name; as soon as ACRE's pipe is lost, a user who was moved returns.
//! Times are nanoseconds of one monotonic clock.

use crate::context::{Context, ContextView};
use crate::model;
use crate::text::same_text;
use vstd::prelude::*;

verus! {

/// The exact name of the game's channel.
pub const ACRE_CHANNEL_NAME: &'static str = "ACRE";

/// How long a connection that the plugin itself gave up may stay away before it
/// counts as lost. A change of channel makes the plugin connect anew.
pub const RETURN_DELAY: u64 = 5_000_000_000;

/// A connection, the user on it, and the server.
#[derive(Debug)]
struct Place {
    connection: i32,
    local: u32,
    server: String,
}

/// The model of a place.
#[verifier::ext_equal]
pub struct PlaceView {
    pub connection: i32,
    pub local: u32,
    pub server: Seq<char>,
}

/// Where a moved user came from and went to.
#[derive(Debug)]
struct Origin {
    place: Place,
    from: i32,
    to: i32,
}

/// The model of an origin.
#[verifier::ext_equal]
pub struct OriginView {
    pub place: PlaceView,
    pub from: i32,
    pub to: i32,
}

/// Where a move was tried last, where the user came from, whether ACRE's pipe
/// was lost, since when ACRE is away, and which channel the user was last told
/// to leave.
#[derive(Debug)]
pub struct ChannelMover {
    attempted: Option<Place>,
    origin: Option<Origin>,
    lost: bool,
    away_since: Option<u64>,
    leaving: Option<i32>,
}

/// The model of a mover.
#[verifier::ext_equal]
pub struct MoverView {
    pub attempted: Option<PlaceView>,
    pub origin: Option<OriginView>,
    pub lost: bool,
    pub away_since: Option<u64>,
    pub leaving: Option<i32>,
}

/// What to do about the channel.
#[derive(Clone, Copy, Debug, PartialEq, Eq, Structural)]
pub enum MoveStep {
    Nothing,
    FindChannel,
    Return { channel: i32 },
}

/// What to do once the channel was looked up.
#[derive(Clone, Copy, Debug, PartialEq, Eq, Structural)]
pub enum FoundStep {
    ChannelMissing,
    AlreadyThere,
    Move { channel: i32 },
}

impl View for Place {
    type V = PlaceView;

    closed spec fn view(&self) -> PlaceView {
        PlaceView { connection: self.connection, local: self.local, server: self.server@ }
    }
}

impl View for Origin {
    type V = OriginView;

    closed spec fn view(&self) -> OriginView {
        OriginView { place: self.place@, from: self.from, to: self.to }
    }
}

impl View for ChannelMover {
    type V = MoverView;

    closed spec fn view(&self) -> MoverView {
        MoverView {
            attempted: model::optional(self.attempted),
            origin: model::optional(self.origin),
            lost: self.lost,
            away_since: self.away_since,
            leaving: self.leaving,
        }
    }
}

/// The place of a context.
pub open spec fn place_of(context: ContextView) -> PlaceView {
    PlaceView {
        connection: context.connection,
        local: context.local,
        server: context.server,
    }
}

/// A mover that never tried.
pub open spec fn untried() -> MoverView {
    MoverView { attempted: None, origin: None, lost: false, away_since: None, leaving: None }
}

/// Whether the user is still where they were moved, or where they came from
/// because the move is under way.
pub open spec fn is_moved(origin: OriginView, context: ContextView) -> bool {
    origin.place == place_of(context) && (origin.to == context.channel || origin.from
        == context.channel)
}

/// The channel to return to, for a user who was moved and did not go on.
pub open spec fn way_back(m: MoverView, context: ContextView) -> MoveStep {
    match m.origin {
        Some(origin) => if is_moved(origin, context) {
            MoveStep::Return { channel: origin.from }
        } else {
            MoveStep::Nothing
        },
        None => MoveStep::Nothing,
    }
}

/// The mover once the user was told to return, or had no way back. No attempt
/// is made while the user is still in the channel that they were told to leave.
pub open spec fn returned(m: MoverView, context: ContextView) -> (MoverView, MoveStep) {
    let step = way_back(m, context);
    (
        MoverView {
            leaving: if step is Return {
                Some(m.origin->0.to)
            } else {
                None
            },
            ..untried()
        },
        step,
    )
}

/// The mover once it saw whether ACRE is connected, whether its pipe was lost
/// since the last look, and where the user is, and what to do.
pub open spec fn observed(
    m: MoverView,
    acre: bool,
    lost: bool,
    context: Option<ContextView>,
    now: u64,
) -> (MoverView, MoveStep) {
    let m = MoverView { lost: m.attempted is Some && (m.lost || lost), ..m };
    match context {
        None => (m, MoveStep::Nothing),
        Some(context) => if m.lost {
            returned(m, context)
        } else if acre {
            if m.attempted == Some(place_of(context)) || m.leaving == Some(context.channel) {
                (MoverView { away_since: None, ..m }, MoveStep::Nothing)
            } else {
                (
                    MoverView { attempted: Some(place_of(context)), ..untried() },
                    MoveStep::FindChannel,
                )
            }
        } else if m.attempted is None {
            (m, MoveStep::Nothing)
        } else {
            match m.away_since {
                None => (MoverView { away_since: Some(now), ..m }, MoveStep::Nothing),
                Some(since) => if now < since + RETURN_DELAY {
                    (m, MoveStep::Nothing)
                } else {
                    returned(m, context)
                },
            }
        },
    }
}

/// What to do once the channel was looked up.
pub open spec fn after_search(context: ContextView, channel: Option<i32>) -> FoundStep {
    match channel {
        None => FoundStep::ChannelMissing,
        Some(channel) => if channel == context.channel {
            FoundStep::AlreadyThere
        } else {
            FoundStep::Move { channel }
        },
    }
}

/// The mover once the user was moved to `channel`.
pub open spec fn after_move(m: MoverView, context: ContextView, channel: i32) -> MoverView {
    MoverView {
        origin: Some(
            OriginView { place: place_of(context), from: context.channel, to: channel },
        ),
        ..m
    }
}

impl Place {
    fn of(context: &Context) -> (place: Self)
        ensures
            place@ == place_of(context@),
    {
        Place {
            connection: context.connection,
            local: context.local,
            server: context.server.clone(),
        }
    }

    fn is_of(&self, context: &Context) -> (answer: bool)
        ensures
            answer == (self@ == place_of(context@)),
    {
        self.connection == context.connection && self.local == context.local && same_text(
            self.server.as_str(),
            context.server.as_str(),
        )
    }
}

impl Default for ChannelMover {
    fn default() -> (mover: Self)
        ensures
            mover@ == untried(),
    {
        ChannelMover {
            attempted: None,
            origin: None,
            lost: false,
            away_since: None,
            leaving: None,
        }
    }
}

impl ChannelMover {
    /// Tells the user to return, if they have a way back.
    fn send_back(&mut self, context: &Context) -> (step: MoveStep)
        ensures
            (final(self)@, step) == returned(old(self)@, context@),
    {
        let (step, leaving): (MoveStep, Option<i32>) = match &self.origin {
            Some(origin) => if origin.place.is_of(context) && (origin.to == context.channel
                || origin.from == context.channel) {
                (MoveStep::Return { channel: origin.from }, Some(origin.to))
            } else {
                (MoveStep::Nothing, None)
            },
            None => (MoveStep::Nothing, None),
        };
        self.leaving = leaving;
        self.attempted = None;
        self.origin = None;
        self.lost = false;
        self.away_since = None;
        step
    }

    /// Sees whether ACRE is connected, whether its pipe was lost since the last
    /// look, and where the user is.
    pub fn observe(&mut self, acre: bool, lost: bool, context: &Option<Context>, now: u64) -> (step:
        MoveStep)
        ensures
            (final(self)@, step) == observed(
                old(self)@,
                acre,
                lost,
                model::optional(*context),
                now,
            ),
    {
        self.lost = self.attempted.is_some() && (self.lost || lost);
        let context: &Context = match context {
            Some(context) => context,
            None => {
                return MoveStep::Nothing;
            },
        };
        if self.lost {
            return self.send_back(context);
        }
        if acre {
            let tried: bool = match &self.attempted {
                Some(place) => place.is_of(context),
                None => false,
            };
            let left: bool = match self.leaving {
                Some(channel) => channel != context.channel,
                None => true,
            };
            self.away_since = None;
            if tried || !left {
                return MoveStep::Nothing;
            }
            self.attempted = Some(Place::of(context));
            self.origin = None;
            self.leaving = None;
            return MoveStep::FindChannel;
        }
        if self.attempted.is_none() {
            return MoveStep::Nothing;
        }
        match self.away_since {
            None => {
                self.away_since = Some(now);
                MoveStep::Nothing
            },
            Some(since) => {
                if now.saturating_sub(since) < RETURN_DELAY {
                    return MoveStep::Nothing;
                }
                self.send_back(context)
            },
        }
    }

    /// Decides about the channel that was found under the name, if any.
    pub fn found(context: &Context, channel: Option<i32>) -> (step: FoundStep)
        ensures
            step == after_search(context@, channel),
    {
        match channel {
            None => FoundStep::ChannelMissing,
            Some(channel) => if channel == context.channel {
                FoundStep::AlreadyThere
            } else {
                FoundStep::Move { channel }
            },
        }
    }

    /// Remembers that the user was moved to `channel`.
    pub fn moved(&mut self, context: &Context, channel: i32)
        ensures
            final(self)@ == after_move(old(self)@, context@, channel),
    {
        self.origin =
        Some(Origin { place: Place::of(context), from: context.channel, to: channel });
    }
}

/// While ACRE stays connected, a place sees one attempt only, however the
/// members and the channel change.
pub proof fn law_one_attempt_per_place(
    m: MoverView,
    first: ContextView,
    then: ContextView,
    now: u64,
    later: u64,
)
    requires
        place_of(first) == place_of(then),
        observed(m, true, false, Some(first), now).0.attempted == Some(place_of(first)),
    ensures
        ({
            let after = observed(m, true, false, Some(first), now).0;
            observed(after, true, false, Some(then), later) == (after, MoveStep::Nothing)
        }),
{
}

/// A user who was moved returns as soon as ACRE's pipe is lost, to the channel
/// they came from, even if ACRE is back already; if Mumble is not synchronized
/// at that moment, they return as soon as it is.
pub proof fn law_moved_users_return_when_the_pipe_is_lost(
    m: MoverView,
    acre: bool,
    again: bool,
    lost: bool,
    context: ContextView,
    now: u64,
    later: u64,
)
    requires
        m.attempted is Some,
        m.origin is Some,
        is_moved(m.origin->0, context),
    ensures
        observed(m, acre, true, Some(context), now).1 == (MoveStep::Return {
            channel: m.origin->0.from,
        }),
        observed(observed(m, acre, true, None, now).0, again, lost, Some(context), later).1 == (
        MoveStep::Return { channel: m.origin->0.from }),
{
}

/// Nobody is sent back whom the mover did not move, and nobody who went on from
/// the channel they were moved to; a user who is sent back goes to the channel
/// they came from, and only once ACRE's pipe was lost or the plugin has waited
/// for ACRE long enough.
pub proof fn law_only_moved_users_return(
    m: MoverView,
    acre: bool,
    lost: bool,
    context: Option<ContextView>,
    now: u64,
)
    requires
        observed(m, acre, lost, context, now).1 is Return,
    ensures
        context is Some && m.origin is Some,
        is_moved(m.origin->0, context->0),
        observed(m, acre, lost, context, now).1 == (MoveStep::Return {
            channel: m.origin->0.from,
        }),
        m.lost || lost || !acre && m.away_since is Some && now >= m.away_since->0 + RETURN_DELAY,
        observed(m, acre, lost, context, now).0.origin is None,
{
}

/// A user who was already in the channel stays there when ACRE is gone.
pub proof fn law_users_already_there_stay(
    m: MoverView,
    context: ContextView,
    now: u64,
    acre: bool,
    lost: bool,
    later: Option<ContextView>,
    then: u64,
)
    requires
        observed(m, true, false, Some(context), now).1 is FindChannel,
    ensures
        ({
            let tried = observed(m, true, false, Some(context), now).0;
            !(observed(tried, acre, lost, later, then).1 is Return)
        }),
{
}

/// Whether two places are one: the same connection, user and server.
pub open spec fn one_place(place: PlaceView, context: ContextView) -> bool {
    place.connection == context.connection && place.local == context.local && place.server
        == context.server
}

/// The game's channel is looked for exactly if ACRE is connected, its pipe was
/// not lost, the user's place is known and was not tried yet, and the user is
/// not in the channel that they were just told to leave. The place then counts
/// as tried.
pub proof fn law_the_channel_is_looked_for_once(
    m: MoverView,
    acre: bool,
    lost: bool,
    context: ContextView,
    now: u64,
)
    ensures
        ({
            let (after, step) = observed(m, acre, lost, Some(context), now);
            &&& step is FindChannel <==> {
                &&& acre
                &&& m.attempted is None || !m.lost && !lost && !one_place(
                    m.attempted->0,
                    context,
                )
                &&& m.leaving != Some(context.channel)
            }
            &&& step is FindChannel ==> {
                &&& after.attempted is Some && one_place(after.attempted->0, context)
                &&& after.origin is None && after.leaving is None && !after.lost
                &&& after.away_since is None
            }
            &&& observed(m, acre, lost, None, now).1 is Nothing
        }),
{
}

/// ACRE may be away for five seconds from the first time that it is missed.
pub proof fn law_acre_may_be_away_for_five_seconds(
    m: MoverView,
    context: ContextView,
    now: u64,
    later: u64,
)
    requires
        m.attempted is Some,
        !m.lost,
        m.away_since is None,
    ensures
        ({
            let (missed, step) = observed(m, false, false, Some(context), now);
            let (after, then) = observed(missed, false, false, Some(context), later);
            &&& step is Nothing
            &&& later - now < 5_000_000_000 ==> then is Nothing && after == missed
            &&& later - now >= 5_000_000_000 ==> after.attempted is None && after.origin is None
            &&& later - now >= 5_000_000_000 && m.origin is Some && one_place(
                m.origin->0.place,
                context,
            ) && context.channel == m.origin->0.to ==> then == (MoveStep::Return {
                channel: m.origin->0.from,
            })
            &&& observed(missed, true, false, Some(context), later).0.away_since is None
        }),
{
}

/// A user is moved to the channel that was found, unless they are there; a user
/// who was moved and loses ACRE's pipe returns to the channel they came from,
/// and is not moved again while still in the other one.
pub proof fn law_moves_are_undone(
    m: MoverView,
    context: ContextView,
    there: ContextView,
    channel: i32,
    now: u64,
    later: u64,
)
    requires
        m.attempted is Some,
        one_place(m.attempted->0, context),
        place_of(there) == place_of(context),
        there.channel == channel,
    ensures
        after_search(context, None) is ChannelMissing,
        after_search(context, Some(channel)) is AlreadyThere <==> channel == context.channel,
        channel != context.channel ==> after_search(context, Some(channel)) == (FoundStep::Move {
            channel,
        }),
        ({
            let (after, step) = observed(
                after_move(m, context, channel),
                true,
                true,
                Some(there),
                now,
            );
            &&& step == (MoveStep::Return { channel: context.channel })
            &&& observed(after, true, false, Some(there), later).1 is Nothing
        }),
{
}

} // verus!
