//! The creature behaviour state machine.
//!
//! One creature owns one [`CreatureState`] at a time and advances it on
//! timestamped ticks: idling until a talk timer fires, talking with an
//! animated mouth, jumping along an arc toward a hiding spot, hiding while
//! periodically peeking out, and recoiling in shock when the user catches it
//! peeking. Timed transitions carry their successor state with them, so a
//! jump or a shock is a short deterministic chain that settles in a resting
//! state.
//!
//! All methods take the current time as a parameter; randomness enters only
//! through the range-bounded jitter helpers of [`crate::rng`], and every
//! contract here holds for every value those helpers may return.

use vstd::prelude::*;

use crate::ext_window::ExtWindowInfo;
use crate::hiding::Facing;
use crate::render::Anchor;
use crate::render::RelativeTo;
use crate::render::RenderPose;
use crate::rng::rand_between;
use crate::rng::rand_coin;
use crate::util::elapsed_clamped;
use crate::util::elapsed_ms;
use crate::util::RectI;
use crate::util::Vec2I;
use crate::util::COORD_LIMIT;

verus! {

/// How long the shock recoil lasts.
pub const SHOCKED_MS: u64 = 500;

/// Duration of the jump toward a hiding spot.
pub const JUMP_HIDE_MS: u64 = 800;

/// Duration of the jump back to the screen centre after a catch.
pub const JUMP_HOME_MS: u64 = 500;

/// How long one spoken line is held.
pub const TALK_MS: u64 = 3000;

/// Delay before the freshly created creature first tries to talk.
pub const FIRST_TALK_DELAY_MS: u64 = 1000;

/// Delay after the post-catch jump lands before the next talk attempt.
pub const POST_CATCH_TALK_DELAY_MS: u64 = 300;

/// Shortest and longest time the creature stays peeking out.
pub const PEEK_SHOW_MIN_MS: u64 = 250;

pub const PEEK_SHOW_MAX_MS: u64 = 750;

/// Shortest and longest time the creature stays fully hidden between peeks.
pub const PEEK_HIDE_MIN_MS: u64 = 2000;

pub const PEEK_HIDE_MAX_MS: u64 = 10000;

/// Shortest and longest pause between the end of a talk and the next try.
pub const TALK_RETRY_MIN_MS: u64 = 3000;

pub const TALK_RETRY_MAX_MS: u64 = 5999;

/// Shortest and longest delay before the first peek after hiding begins.
pub const HIDE_DELAY_MIN_MS: u64 = 5000;

pub const HIDE_DELAY_MAX_MS: u64 = 10000;

/// Vertical target of the hide jump: a point just above the screen.
pub const HIDE_JUMP_Y: i32 = -100;

/// Timestamps are accepted up to this value, leaving headroom for every
/// scheduling addition the machine performs.
pub const MAX_TIMESTAMP: u64 = u64::MAX - 0x10000;

/// The creature's state: exactly one variant at a time. `Jumping` and
/// `Shocked` own the state they become once their duration elapses.
#[derive(Debug, PartialEq)]
pub enum CreatureState {
    /// Concealed inside a window, toggling between hidden and peeking.
    ///
    /// The snapshot of the target window is kept as taken when hiding
    /// began. If the underlying window disappears meanwhile, the creature
    /// deliberately ignores that and keeps rendering against the cached
    /// rectangle; a host that polls its window system and wants better may
    /// force a fresh hide through the [`ClickOutcome::HideRequest`] route.
    Hiding {
        target_window: ExtWindowInfo,
        /// Hide point, local to the target window's rectangle.
        pos: Vec2I,
        facing: Facing,
        peek: bool,
        peek_end_t: u64,
    },
    Idle {
        /// `None` keeps the previously rendered position.
        pos: Option<Vec2I>,
        arms_raised: bool,
        try_talk_at: u64,
    },
    Talking {
        pos: Vec2I,
        arms_raised: bool,
        t_begin_talking: u64,
        duration: u64,
        /// Which speech overlay frame is shown.
        id: usize,
    },
    Jumping {
        /// `None` starts from the position recorded when the previous state
        /// completed.
        from: Option<Vec2I>,
        to: Vec2I,
        t_begin: u64,
        duration: u64,
        following_state: Box<CreatureState>,
    },
    Shocked {
        from: Vec2I,
        /// The recoil direction, taken from the hiding facing.
        to: Facing,
        t_begin: u64,
        following_state: Box<CreatureState>,
    },
}

/// Structural well-formedness of a state: coordinates stay in the safe
/// band, durations are positive, message ids address a real overlay frame,
/// and the same holds of every following state down the chain.
pub open spec fn state_wf(s: CreatureState) -> bool
    decreases s,
{
    match s {
        CreatureState::Hiding { target_window, pos, .. } => {
            pos.in_coord_band() && target_window.rect.pos.in_coord_band()
        },
        CreatureState::Idle { pos, .. } => pos matches Some(p) ==> p.in_coord_band(),
        CreatureState::Talking { pos, duration, id, .. } => {
            pos.in_coord_band() && 1 <= duration && id <= 3
        },
        CreatureState::Jumping { from, to, duration, following_state, .. } => {
            &&& from matches Some(p) ==> p.in_coord_band()
            &&& to.in_coord_band()
            &&& 1 <= duration
            &&& state_wf(*following_state)
        },
        CreatureState::Shocked { from, following_state, .. } => {
            from.in_coord_band() && state_wf(*following_state)
        },
    }
}

/// The state's timer is due at `now`: the next call to
/// [`Creature::update`] will transition.
pub open spec fn fires(s: CreatureState, now: u64) -> bool {
    match s {
        CreatureState::Hiding { peek_end_t, .. } => now > peek_end_t,
        CreatureState::Idle { try_talk_at, .. } => now > try_talk_at,
        CreatureState::Talking { t_begin_talking, duration, .. } => {
            elapsed_ms(t_begin_talking, now) > duration
        },
        CreatureState::Jumping { t_begin, duration, .. } => elapsed_ms(t_begin, now) > duration,
        CreatureState::Shocked { t_begin, .. } => elapsed_ms(t_begin, now) > SHOCKED_MS,
    }
}

/// How many `Jumping`/`Shocked` layers the state chains through.
pub open spec fn state_depth(s: CreatureState) -> nat
    decreases s,
{
    match s {
        CreatureState::Jumping { following_state, .. } => state_depth(*following_state) + 1,
        CreatureState::Shocked { following_state, .. } => state_depth(*following_state) + 1,
        _ => 0,
    }
}

/// The resting state a chain of due `Jumping`/`Shocked` states settles in.
pub open spec fn chain_end(s: CreatureState) -> CreatureState
    decreases s,
{
    match s {
        CreatureState::Jumping { following_state, .. } => chain_end(*following_state),
        CreatureState::Shocked { following_state, .. } => chain_end(*following_state),
        _ => s,
    }
}

/// The last instant at which any timer of the chain is still running.
pub open spec fn chain_deadline(s: CreatureState) -> int
    decreases s,
{
    match s {
        CreatureState::Jumping { t_begin, duration, following_state, .. } => {
            let inner = chain_deadline(*following_state);
            let own = t_begin + duration;
            if own >= inner {
                own
            } else {
                inner
            }
        },
        CreatureState::Shocked { t_begin, following_state, .. } => {
            let inner = chain_deadline(*following_state);
            let own = t_begin + SHOCKED_MS;
            if own >= inner {
                own
            } else {
                inner
            }
        },
        _ => 0,
    }
}

/// Repeatedly step past every due `Jumping`/`Shocked` state at `now`.
pub open spec fn settle(s: CreatureState, now: u64) -> CreatureState
    decreases s,
{
    match s {
        CreatureState::Jumping { following_state, .. } => {
            if fires(s, now) {
                settle(*following_state, now)
            } else {
                s
            }
        },
        CreatureState::Shocked { following_state, .. } => {
            if fires(s, now) {
                settle(*following_state, now)
            } else {
                s
            }
        },
        _ => s,
    }
}

/// Jumping/Shocked chains always terminate: once the sum of the declared
/// durations has passed (every deadline of the chain lies in the past),
/// stepping past the due states reaches the chain's resting end, which is
/// neither jumping nor shocked, whatever the chain's depth.
pub proof fn lemma_chain_terminates(s: CreatureState, now: u64)
    requires
        now > chain_deadline(s),
    ensures
        settle(s, now) == chain_end(s),
        !(chain_end(s) is Jumping),
        !(chain_end(s) is Shocked),
    decreases s,
{
    match s {
        CreatureState::Jumping { following_state, .. } => {
            lemma_chain_terminates(*following_state, now);
        },
        CreatureState::Shocked { following_state, .. } => {
            lemma_chain_terminates(*following_state, now);
        },
        _ => {},
    }
}

/// The line chosen when a talk starts: the first line after a catch (or
/// ever) is a taunt -- id 2 before any catch, id 3 afterwards -- and every
/// repeat before the next catch is the plain line, id 1.
pub open spec fn talk_message_id(catch_count: u32, message_state: u32) -> int {
    if message_state == 0 {
        if catch_count == 0 {
            2
        } else {
            3
        }
    } else {
        1
    }
}

/// The talk-line selection rule, case by case: the first-ever talk shows
/// line 2; the first talk after a catch shows line 3; every repeat before
/// the next catch shows line 1, and the toggle never advances past its two
/// states. `update` applies this rule verbatim (and sets the toggle to 1)
/// whenever an idle talk timer fires.
pub proof fn lemma_talk_message_rule(catch_count: u32, message_state: u32)
    ensures
        catch_count == 0 && message_state == 0 ==> talk_message_id(catch_count, message_state)
            == 2,
        catch_count >= 1 && message_state == 0 ==> talk_message_id(catch_count, message_state)
            == 3,
        message_state == 1 ==> talk_message_id(catch_count, message_state) == 1,
{
}

/// The caught sequence: `Shocked` at `now`, then a jump home that starts
/// exactly when the shock ends, then `Idle` with a talk attempt scheduled
/// shortly after the landing.
pub open spec fn shock_chain_spec(
    s: CreatureState,
    pos: Vec2I,
    facing: Facing,
    now: u64,
    center: Vec2I,
) -> bool {
    &&& s matches CreatureState::Shocked { from, to, t_begin, following_state }
    &&& from == pos
    &&& to == facing
    &&& t_begin == now
    &&& *following_state matches CreatureState::Jumping {
        from: jfrom,
        to: jto,
        t_begin: jt,
        duration: jd,
        following_state: jf,
    }
    &&& jfrom is None
    &&& jto == center
    &&& jt == now + SHOCKED_MS
    &&& jd == JUMP_HOME_MS
    &&& *jf matches CreatureState::Idle { pos: ipos, arms_raised: ia, try_talk_at: itt }
    &&& ipos is None
    &&& ia == false
    &&& itt == now + SHOCKED_MS + JUMP_HOME_MS + POST_CATCH_TALK_DELAY_MS
}

/// What the user's click does, as the host must act on it.
#[derive(Debug, Clone, Copy, PartialEq, Eq, Structural)]
pub enum ClickOutcome {
    /// The click landed mid-animation and was ignored.
    Ignored,
    /// The creature was caught peeking and is now shocked.
    Caught,
    /// The creature wants to hide: the host should pick a window candidate,
    /// find a hiding spot and call [`Creature::hide_in`].
    HideRequest,
}

/// The one creature: its current state plus the cached positions and
/// counters the behaviour rules read.
#[derive(Debug, PartialEq)]
pub struct Creature {
    pub state: CreatureState,
    /// The most recently rendered position.
    pub last_pos: Vec2I,
    /// The rendered position at the moment the previous state completed.
    pub last_end_pos: Vec2I,
    pub screen_center: Vec2I,
    /// How often the user has caught the creature peeking.
    pub catch_count: u32,
    /// Talk-line sequencing toggle: 0 before the first line since the last
    /// catch, 1 afterwards.
    pub message_state: u32,
}

impl Creature {
    /// All cached positions are in the safe band, the sequencing toggle has
    /// only its two meaningful values, and the state itself is well formed.
    pub open spec fn wf(self) -> bool {
        &&& state_wf(self.state)
        &&& self.last_pos.in_coord_band()
        &&& self.last_end_pos.in_coord_band()
        &&& self.screen_center.in_coord_band()
        &&& self.message_state <= 1
    }

    /// A creature idling at the screen centre with arms raised, first talk
    /// attempt shortly ahead.
    pub fn new(screen_center: Vec2I, now: u64) -> (r: Self)
        requires
            screen_center.in_coord_band(),
            now <= MAX_TIMESTAMP,
        ensures
            r.wf(),
            r.screen_center == screen_center,
            r.last_pos == screen_center,
            r.last_end_pos == screen_center,
            r.catch_count == 0,
            r.message_state == 0,
            r.state matches CreatureState::Idle { pos, arms_raised, try_talk_at } && pos
                == Some(screen_center) && arms_raised == true && try_talk_at == now
                + FIRST_TALK_DELAY_MS,
    {
        Self {
            state: CreatureState::Idle {
                pos: Some(screen_center),
                arms_raised: true,
                try_talk_at: now + FIRST_TALK_DELAY_MS,
            },
            last_pos: screen_center,
            last_end_pos: screen_center,
            screen_center,
            catch_count: 0,
            message_state: 0,
        }
    }

    /// The catch count, exposed only while the creature is idle.
    pub fn idle_catch_count(&self) -> (r: Option<u32>)
        ensures
            self.state is Idle ==> r == Some(self.catch_count),
            !(self.state is Idle) ==> r is None,
    {
        if matches!(self.state, CreatureState::Idle { .. }) {
            Some(self.catch_count)
        } else {
            None
        }
    }

    /// The creature has been caught: count the catch, restart the talk
    /// sequencing, and begin the shock/jump-home/idle chain.
    fn found(&mut self, now: u64, pos: Vec2I, facing: Facing)
        requires
            old(self).wf(),
            pos.in_coord_band(),
            now <= MAX_TIMESTAMP,
            old(self).catch_count < u32::MAX,
        ensures
            final(self).wf(),
            final(self).catch_count == old(self).catch_count + 1,
            final(self).message_state == 0,
            shock_chain_spec(final(self).state, pos, facing, now, old(self).screen_center),
            final(self).last_pos == old(self).last_pos,
            final(self).last_end_pos == old(self).last_end_pos,
            final(self).screen_center == old(self).screen_center,
            chain_end(final(self).state) is Idle,
            chain_deadline(final(self).state) == now + SHOCKED_MS + JUMP_HOME_MS,
    {
        proof {
            reveal_with_fuel(state_wf, 4);
            reveal_with_fuel(chain_end, 4);
            reveal_with_fuel(chain_deadline, 4);
        }
        self.catch_count = self.catch_count + 1;
        self.message_state = 0;
        self.state = CreatureState::Shocked {
            from: pos,
            to: facing,
            t_begin: now,
            following_state: Box::new(
                CreatureState::Jumping {
                    from: None,
                    to: self.screen_center,
                    t_begin: now + SHOCKED_MS,
                    duration: JUMP_HOME_MS,
                    following_state: Box::new(
                        CreatureState::Idle {
                            pos: None,
                            arms_raised: false,
                            try_talk_at: now + SHOCKED_MS + JUMP_HOME_MS
                                + POST_CATCH_TALK_DELAY_MS,
                        },
                    ),
                },
            ),
        };
    }

    /// Begin hiding: jump from the last rendered position to just above the
    /// screen, then settle hidden at `pos` (local to the target window)
    /// with the first peek scheduled a few seconds ahead.
    ///
    /// The host supplies the chosen window and the spot the finder
    /// computed for it.
    pub fn hide_in(&mut self, now: u64, target_window: ExtWindowInfo, pos: Vec2I, facing: Facing)
        requires
            old(self).wf(),
            now <= MAX_TIMESTAMP,
            pos.in_coord_band(),
            target_window.rect.pos.in_coord_band(),
        ensures
            final(self).wf(),
            final(self).state matches CreatureState::Jumping {
                from,
                to,
                t_begin,
                duration,
                following_state,
            } && {
                &&& from == Some(old(self).last_pos)
                &&& to == (Vec2I { x: old(self).last_pos.x, y: HIDE_JUMP_Y })
                &&& t_begin == now
                &&& duration == JUMP_HIDE_MS
                &&& *following_state matches CreatureState::Hiding {
                    target_window: tw,
                    pos: hp,
                    facing: hf,
                    peek,
                    peek_end_t,
                }
                &&& tw == target_window
                &&& hp == pos
                &&& hf == facing
                &&& peek == false
                &&& now + HIDE_DELAY_MIN_MS <= peek_end_t <= now + HIDE_DELAY_MAX_MS
            },
            final(self).last_pos == old(self).last_pos,
            final(self).last_end_pos == old(self).last_end_pos,
            final(self).screen_center == old(self).screen_center,
            final(self).catch_count == old(self).catch_count,
            final(self).message_state == old(self).message_state,
    {
        proof {
            reveal_with_fuel(state_wf, 3);
        }
        let delay = rand_between(HIDE_DELAY_MIN_MS, HIDE_DELAY_MAX_MS);
        self.state = CreatureState::Jumping {
            from: Some(self.last_pos),
            to: Vec2I { x: self.last_pos.x, y: HIDE_JUMP_Y },
            t_begin: now,
            duration: JUMP_HIDE_MS,
            following_state: Box::new(
                CreatureState::Hiding {
                    target_window,
                    pos,
                    facing,
                    peek: false,
                    peek_end_t: now + delay,
                },
            ),
        };
    }

    /// React to a click: a peeking creature is caught; an idle or talking
    /// creature asks to hide; anything mid-animation ignores the click.
    pub fn click(&mut self, now: u64) -> (r: ClickOutcome)
        requires
            old(self).wf(),
            now <= MAX_TIMESTAMP,
            old(self).catch_count < u32::MAX,
        ensures
            final(self).wf(),
            old(self).state matches CreatureState::Hiding { pos, facing, peek: true, .. } ==> {
                &&& r is Caught
                &&& final(self).catch_count == old(self).catch_count + 1
                &&& final(self).message_state == 0
                &&& shock_chain_spec(final(self).state, pos, facing, now, old(self).screen_center)
                &&& chain_end(final(self).state) is Idle
                &&& chain_deadline(final(self).state) == now + SHOCKED_MS + JUMP_HOME_MS
            },
            (old(self).state is Idle || old(self).state is Talking) ==> r is HideRequest
                && *final(self) == *old(self),
            !(old(self).state is Idle) && !(old(self).state is Talking)
                && !(old(self).state matches CreatureState::Hiding { peek: true, .. })
                ==> r is Ignored && *final(self) == *old(self),
            final(self).last_pos == old(self).last_pos,
            final(self).last_end_pos == old(self).last_end_pos,
            final(self).screen_center == old(self).screen_center,
    {
        match &self.state {
            CreatureState::Hiding { peek: true, facing, pos, .. } => {
                let p = *pos;
                let f = *facing;
                self.found(now, p, f);
                ClickOutcome::Caught
            },
            CreatureState::Idle { .. } | CreatureState::Talking { .. } => ClickOutcome::HideRequest,
            _ => ClickOutcome::Ignored,
        }
    }

    /// Pick a line by the sequencing rule and start talking at the last
    /// rendered position; whether the arms are raised is random.
    fn start_talking(&mut self, now: u64)
        requires
            old(self).wf(),
            now <= MAX_TIMESTAMP,
        ensures
            final(self).wf(),
            final(self).state matches CreatureState::Talking {
                pos,
                arms_raised,
                t_begin_talking,
                duration,
                id,
            } && {
                &&& pos == old(self).last_pos
                &&& t_begin_talking == now
                &&& duration == TALK_MS
                &&& id == talk_message_id(old(self).catch_count, old(self).message_state)
            },
            final(self).message_state == 1,
            final(self).catch_count == old(self).catch_count,
            final(self).last_pos == old(self).last_pos,
            final(self).last_end_pos == old(self).last_end_pos,
            final(self).screen_center == old(self).screen_center,
    {
        let id: usize = if self.message_state == 0 {
            if self.catch_count == 0 {
                2
            } else {
                3
            }
        } else {
            1
        };
        self.message_state = 1;
        let arms_raised = rand_coin(13, 20);
        self.state = CreatureState::Talking {
            pos: self.last_pos,
            arms_raised,
            t_begin_talking: now,
            duration: TALK_MS,
            id,
        };
    }

    /// Step past every due `Jumping`/`Shocked` state at `now`, recording
    /// the last rendered position as each one completes.
    fn settle_chain(&mut self, now: u64)
        requires
            old(self).wf(),
            now <= MAX_TIMESTAMP,
        ensures
            final(self).wf(),
            final(self).state == settle(old(self).state, now),
            final(self).catch_count == old(self).catch_count,
            final(self).last_pos == old(self).last_pos,
            final(self).screen_center == old(self).screen_center,
            final(self).message_state == old(self).message_state,
            fires(old(self).state, now) && (old(self).state is Jumping || old(self).state
                is Shocked) ==> final(self).last_end_pos == old(self).last_pos,
            !(fires(old(self).state, now) && (old(self).state is Jumping || old(self).state
                is Shocked)) ==> *final(self) == *old(self),
            final(self).state is Jumping || final(self).state is Shocked ==> !fires(
                final(self).state,
                now,
            ),
        decreases state_depth(self.state),
    {
        let due = state_fires(&self.state, now);
        let chain = matches!(self.state, CreatureState::Jumping { .. } | CreatureState::Shocked { .. });
        if !(due && chain) {
            return;
        }
        let mut cur = CreatureState::Idle { pos: None, arms_raised: false, try_talk_at: 0 };
        core::mem::swap(&mut self.state, &mut cur);
        match cur {
            CreatureState::Jumping { following_state, .. } => {
                self.state = *following_state;
            },
            CreatureState::Shocked { following_state, .. } => {
                self.state = *following_state;
            },
            other => {
                self.state = other;
            },
        }
        self.last_end_pos = self.last_pos;
        self.settle_chain(now);
    }

    /// Advance the timed transitions to `now`, settling every transition
    /// that is due: first the whole chain of due jumps and shocks, then the
    /// one timer the uncovered resting state may have.
    ///
    /// A tick is idempotent: nothing is due at `now` after the call, so a
    /// second tick at the same timestamp changes nothing.
    pub fn update(&mut self, now: u64)
        requires
            old(self).wf(),
            now <= MAX_TIMESTAMP,
        ensures
            final(self).wf(),
            !fires(old(self).state, now) ==> *final(self) == *old(self),
            !fires(final(self).state, now),
            final(self).catch_count == old(self).catch_count,
            final(self).last_pos == old(self).last_pos,
            final(self).screen_center == old(self).screen_center,
            ({
                let mid = settle(old(self).state, now);
                &&& (!fires(mid, now) ==> final(self).state == mid && final(self).message_state
                    == old(self).message_state)
                &&& (mid matches CreatureState::Hiding {
                    target_window,
                    pos,
                    facing,
                    peek,
                    peek_end_t,
                } ==> fires(mid, now) ==> {
                    &&& final(self).state matches CreatureState::Hiding {
                        target_window: tw,
                        pos: p2,
                        facing: f2,
                        peek: pk2,
                        peek_end_t: pe2,
                    }
                    &&& tw == target_window
                    &&& p2 == pos
                    &&& f2 == facing
                    &&& pk2 == !peek
                    &&& (pk2 ==> now + PEEK_SHOW_MIN_MS <= pe2 <= now + PEEK_SHOW_MAX_MS)
                    &&& (!pk2 ==> now + PEEK_HIDE_MIN_MS <= pe2 <= now + PEEK_HIDE_MAX_MS)
                    &&& final(self).message_state == old(self).message_state
                })
                &&& (mid is Idle ==> fires(mid, now) ==> {
                    &&& final(self).state matches CreatureState::Talking {
                        pos,
                        arms_raised,
                        t_begin_talking,
                        duration,
                        id,
                    }
                    &&& pos == old(self).last_pos
                    &&& t_begin_talking == now
                    &&& duration == TALK_MS
                    &&& id == talk_message_id(old(self).catch_count, old(self).message_state)
                    &&& final(self).message_state == 1
                })
                &&& (mid is Talking ==> fires(mid, now) ==> {
                    &&& final(self).state matches CreatureState::Idle {
                        pos,
                        arms_raised,
                        try_talk_at,
                    }
                    &&& pos is None
                    &&& arms_raised == false
                    &&& now + TALK_RETRY_MIN_MS <= try_talk_at <= now + TALK_RETRY_MAX_MS
                    &&& final(self).message_state == old(self).message_state
                })
            }),
            ({
                let mid = settle(old(self).state, now);
                let chain_stepped = fires(old(self).state, now) && (old(self).state is Jumping
                    || old(self).state is Shocked);
                let talk_expired = mid is Talking && fires(mid, now);
                &&& (chain_stepped || talk_expired ==> final(self).last_end_pos == old(
                    self,
                ).last_pos)
                &&& (!(chain_stepped || talk_expired) ==> final(self).last_end_pos == old(
                    self,
                ).last_end_pos)
            }),
    {
        self.settle_chain(now);
        if !state_fires(&self.state, now) {
            return;
        }
        let mut cur = CreatureState::Idle { pos: None, arms_raised: false, try_talk_at: 0 };
        core::mem::swap(&mut self.state, &mut cur);
        match cur {
            CreatureState::Hiding { target_window, pos, facing, peek, peek_end_t } => {
                let new_peek = !peek;
                let dur = if new_peek {
                    rand_between(PEEK_SHOW_MIN_MS, PEEK_SHOW_MAX_MS)
                } else {
                    rand_between(PEEK_HIDE_MIN_MS, PEEK_HIDE_MAX_MS)
                };
                self.state = CreatureState::Hiding {
                    target_window,
                    pos,
                    facing,
                    peek: new_peek,
                    peek_end_t: now + dur,
                };
            },
            CreatureState::Idle { .. } => {
                self.start_talking(now);
            },
            CreatureState::Talking { .. } => {
                let delay = rand_between(TALK_RETRY_MIN_MS, TALK_RETRY_MAX_MS);
                self.state = CreatureState::Idle {
                    pos: None,
                    arms_raised: false,
                    try_talk_at: now + delay,
                };
                self.last_end_pos = self.last_pos;
            },
            other => {
                // a due jump or shock cannot remain once the chain settled
                self.state = other;
            },
        }
    }

    /// Compute this frame's render pose: the sprite position for the
    /// current state at `now`, the texture frame of sprite and overlay, the
    /// overlay position above the sprite, and the bounding rectangle of
    /// both. Records the computed position as the last rendered one.
    ///
    /// `sprite_dims` and `text_dims` are the per-frame texture dimensions
    /// of the creature sprite (ten frames) and the speech overlay (four).
    pub fn update_for_render(
        &mut self,
        now: u64,
        sprite_dims: &Vec<Vec2I>,
        text_dims: &Vec<Vec2I>,
    ) -> (pose: RenderPose)
        requires
            old(self).wf(),
            sprite_dims@.len() == 10,
            text_dims@.len() == 4,
            dims_ok(sprite_dims@),
            dims_ok(text_dims@),
        ensures
            final(self).wf(),
            final(self).state == old(self).state,
            final(self).last_end_pos == old(self).last_end_pos,
            final(self).screen_center == old(self).screen_center,
            final(self).catch_count == old(self).catch_count,
            final(self).message_state == old(self).message_state,
            final(self).last_pos == pose.pos,
            pose.sprite_tex == sprite_tex_index(old(self).state, now),
            pose.text_tex == text_tex_index(old(self).state),
            pose.sprite_tex < 10,
            pose.text_tex < 4,
            pose.sprite_anchor is Center,
            pose.text_anchor is BottomCenter,
            pose.relative is Screen,
            old(self).state matches CreatureState::Hiding { target_window, pos, .. } ==> {
                &&& pose.pos.x == clamp_coord(target_window.rect.pos.x + pos.x)
                &&& pose.pos.y == clamp_coord(target_window.rect.pos.y + pos.y)
            },
            old(self).state matches CreatureState::Idle { pos: Some(p), .. } ==> pose.pos == p,
            old(self).state matches CreatureState::Idle { pos: None, .. } ==> pose.pos == old(
                self,
            ).last_pos,
            old(self).state matches CreatureState::Talking { pos, .. } ==> pose.pos == pos,
            old(self).state matches CreatureState::Jumping { from, to, t_begin, duration, .. }
                ==> {
                let f = jump_from(from, old(self).last_end_pos);
                let us = bezier_u(t_begin, duration, now);
                &&& pose.pos.x == clamp_coord(jump_pos_x(f, to, us))
                &&& pose.pos.y == clamp_coord(jump_pos_y(f, to, us))
            },
            old(self).state matches CreatureState::Shocked { from, to, t_begin, .. } ==> {
                let l = shock_l(to, sprite_dims@[9]);
                let ts = shock_ts(t_begin, now);
                &&& pose.pos.x == clamp_coord(from.x + shock_off_x(to, l, ts))
                &&& pose.pos.y == clamp_coord(from.y + shock_off_y(to, l, ts))
            },
            pose.text_pos.x == pose.pos.x,
            pose.text_pos.y == pose.pos.y - text_lift(
                sprite_dims@[sprite_tex_index(old(self).state, now)].y as int,
            ),
            ({
                let dim = sprite_dims@[sprite_tex_index(old(self).state, now)];
                let tdim = text_dims@[text_tex_index(old(self).state)];
                &&& pose.bounds.pos.x == bounds_left(pose.pos, dim, tdim)
                &&& pose.bounds.pos.y == bounds_top(pose.pos, dim, tdim)
                &&& pose.bounds.dim.x == bounds_width(pose.pos, dim, tdim)
                &&& pose.bounds.dim.y == bounds_height(pose.pos, dim, tdim)
            }),
    {
        let stex: usize = match &self.state {
            CreatureState::Hiding { facing, peek, .. } => {
                if *peek {
                    match facing {
                        Facing::Left => 5,
                        Facing::Right => 6,
                        _ => 7,
                    }
                } else {
                    8
                }
            },
            CreatureState::Idle { arms_raised, .. } => {
                if *arms_raised {
                    1
                } else {
                    0
                }
            },
            CreatureState::Talking { arms_raised, t_begin_talking, .. } => {
                let mouth_open = elapsed_clamped(*t_begin_talking, now) % 600 > 300;
                if *arms_raised {
                    if mouth_open {
                        3
                    } else {
                        1
                    }
                } else {
                    if mouth_open {
                        2
                    } else {
                        0
                    }
                }
            },
            CreatureState::Jumping { .. } => 4,
            CreatureState::Shocked { .. } => 9,
        };
        let ttex: usize = match &self.state {
            CreatureState::Talking { id, .. } => *id,
            _ => 0,
        };
        let dim = sprite_dims[stex];
        let tdim = text_dims[ttex];
        proof {
            assert(0 <= sprite_dims@[stex as int].x <= 0x10000 && 0 <= sprite_dims@[stex
                as int].y <= 0x10000);
            assert(0 <= text_dims@[ttex as int].x <= 0x10000 && 0 <= text_dims@[ttex as int].y
                <= 0x10000);
        }
        let px: i64;
        let py: i64;
        match &self.state {
            CreatureState::Hiding { target_window, pos, .. } => {
                px = target_window.rect.pos.x as i64 + pos.x as i64;
                py = target_window.rect.pos.y as i64 + pos.y as i64;
            },
            CreatureState::Idle { pos, .. } => {
                let p = match pos {
                    Some(p) => *p,
                    None => self.last_pos,
                };
                px = p.x as i64;
                py = p.y as i64;
            },
            CreatureState::Talking { pos, .. } => {
                px = pos.x as i64;
                py = pos.y as i64;
            },
            CreatureState::Jumping { from, to, t_begin, duration, .. } => {
                let f = match from {
                    Some(p) => *p,
                    None => self.last_end_pos,
                };
                let us = bezier_progress(*t_begin, *duration, now);
                px = cubic_point(f.x, f.x, to.x, to.x, us);
                py = cubic_point(f.y, f.y - 3 * JUMP_POWER, to.y - 3 * JUMP_POWER, to.y, us);
            },
            CreatureState::Shocked { from, to, t_begin, .. } => {
                let ts = shock_progress(*t_begin, now);
                let l: u64 = if to.is_horizontal() {
                    dim.x as u64
                } else {
                    dim.y as u64
                };
                proof {
                    assert(ts * ts <= 1000 * ts && 4 * (ts * ts) <= 4000 * ts && ts * ts
                        <= 1000000) by (nonlinear_arith)
                        requires
                            0 <= ts <= 1000,
                    ;
                }
                let txq: u64 = 2000 * ts - ts * ts;
                let tyq: u64 = 4000 * ts - 4 * (ts * ts);
                proof {
                    assert(txq * l <= 2000000 * 0x10000 && tyq * l <= 4000000 * 0x10000 && 500000
                        * l <= 500000 * 0x10000) by (nonlinear_arith)
                        requires
                            0 <= txq <= 2000000,
                            0 <= tyq <= 4000000,
                            0 <= l <= 0x10000,
                    ;
                }
                let push: u64 = if to.is_vertical() {
                    txq * l / 2
                } else {
                    0
                };
                let mx: u64 = (txq * l + 500000 * l) / 1000000;
                let my: u64 = (tyq * l + push + 500000 * l) / 1000000;
                let offx: i64 = match to {
                    Facing::Left => -(mx as i64),
                    Facing::Right => mx as i64,
                    _ => 0,
                };
                px = from.x as i64 + offx;
                py = from.y as i64 - my as i64;
            },
        }
        let fpos = Vec2I { x: clamp_to_band(px), y: clamp_to_band(py) };
        self.last_pos = fpos;
        let tpos = Vec2I { x: fpos.x, y: fpos.y - dim.y * 12 / 20 };
        let mut rect = RectI { pos: Vec2I { x: fpos.x - dim.x / 2, y: fpos.y - dim.y / 2 }, dim };
        if tdim.x > 10 {
            let e0: i32 = if tdim.x >= dim.x {
                (tdim.x - dim.x) / 2 + 5
            } else {
                5 - (dim.x - tdim.x) / 2
            };
            let e: i32 = if e0 >= 0 {
                e0
            } else {
                0
            };
            rect.extend_lr(e);
            rect.extend_up(dim.y / 10 + tdim.y + 5);
        }
        RenderPose {
            pos: fpos,
            sprite_tex: stex,
            text_pos: tpos,
            text_tex: ttex,
            bounds: rect,
            sprite_anchor: Anchor::Center,
            text_anchor: Anchor::BottomCenter,
            relative: RelativeTo::Screen,
        }
    }
}

/// Height, in units, by which both jump-arc control points are raised.
pub const JUMP_POWER: i32 = 200;

/// Pose coordinates are forced back into the safe band; real screen
/// positions sit far inside it, so the clamp is normally the identity.
pub open spec fn clamp_coord(v: int) -> int {
    if v < -COORD_LIMIT {
        -COORD_LIMIT as int
    } else if v > COORD_LIMIT {
        COORD_LIMIT as int
    } else {
        v
    }
}

/// Normalised progress through a jump, in thousandths, clamped at one.
pub open spec fn bezier_u(t_begin: u64, duration: u64, now: u64) -> int
    recommends
        1 <= duration,
{
    let e = elapsed_ms(t_begin, now);
    if e >= duration {
        1000
    } else {
        e * 1000 / (duration as int)
    }
}

pub open spec fn min4(a: int, b: int, c: int, d: int) -> int {
    let ab = if a <= b {
        a
    } else {
        b
    };
    let cd = if c <= d {
        c
    } else {
        d
    };
    if ab <= cd {
        ab
    } else {
        cd
    }
}

/// One coordinate of a cubic Bezier with control values `p0..p3`, evaluated
/// at progress `us` thousandths: the Bernstein-weighted mix, computed over
/// the values shifted to be non-negative so that division truncates the
/// same way the machine does.
pub open spec fn cubic_point_spec(p0: int, p1: int, p2: int, p3: int, us: int) -> int {
    let base = min4(p0, p1, p2, p3);
    let vs = 1000 - us;
    base + ((p0 - base) * (vs * vs * vs) + 3 * (p1 - base) * (us * vs * vs) + 3 * (p2 - base) * (us
        * us * vs) + (p3 - base) * (us * us * us)) / 1000000000
}

/// Horizontal jump position: the x control points are the two endpoints,
/// each doubled.
pub open spec fn jump_pos_x(from: Vec2I, to: Vec2I, us: int) -> int {
    cubic_point_spec(from.x as int, from.x as int, to.x as int, to.x as int, us)
}

/// Vertical jump position: the inner control points are raised by three
/// times the jump power, which bends the path into an arc.
pub open spec fn jump_pos_y(from: Vec2I, to: Vec2I, us: int) -> int {
    cubic_point_spec(
        from.y as int,
        from.y - 3 * JUMP_POWER,
        to.y - 3 * JUMP_POWER,
        to.y as int,
        us,
    )
}

/// The jump origin: the explicit start if one was stored, else the position
/// recorded when the previous state completed.
pub open spec fn jump_from(from: Option<Vec2I>, fallback: Vec2I) -> Vec2I {
    match from {
        Some(p) => p,
        None => fallback,
    }
}

/// Normalised progress through the shock recoil, in thousandths.
pub open spec fn shock_ts(t_begin: u64, now: u64) -> int {
    let e = elapsed_ms(t_begin, now);
    if e >= SHOCKED_MS {
        1000
    } else {
        2 * e
    }
}

/// Ease-out profile `2t - t*t`, in millionths.
pub open spec fn shock_txq(ts: int) -> int {
    2000 * ts - ts * ts
}

/// Rise-and-fall profile `4t - 4*t*t`, in millionths.
pub open spec fn shock_tyq(ts: int) -> int {
    4000 * ts - 4 * (ts * ts)
}

/// The sprite dimension along the recoil axis.
pub open spec fn shock_l(facing: Facing, dim: Vec2I) -> int {
    if facing is Left || facing is Right {
        dim.x as int
    } else {
        dim.y as int
    }
}

/// Horizontal recoil displacement: the eased push plus half the sprite,
/// toward the facing; none for a vertical facing.
pub open spec fn shock_off_x(facing: Facing, l: int, ts: int) -> int {
    if facing is Left {
        -((shock_txq(ts) * l + 500000 * l) / 1000000)
    } else if facing is Right {
        (shock_txq(ts) * l + 500000 * l) / 1000000
    } else {
        0
    }
}

/// Vertical recoil displacement: always the rise-and-fall lift plus half
/// the sprite, and for a vertical facing also half the eased push.
pub open spec fn shock_off_y(facing: Facing, l: int, ts: int) -> int {
    let push = if facing is Left || facing is Right {
        0int
    } else {
        shock_txq(ts) * l / 2
    };
    -((shock_tyq(ts) * l + push + 500000 * l) / 1000000)
}

/// Which of the ten creature frames the state shows at `now`.
pub open spec fn sprite_tex_index(s: CreatureState, now: u64) -> int {
    match s {
        CreatureState::Hiding { facing, peek, .. } => {
            if peek {
                if facing is Left {
                    5
                } else if facing is Right {
                    6
                } else {
                    7
                }
            } else {
                8
            }
        },
        CreatureState::Idle { arms_raised, .. } => {
            if arms_raised {
                1
            } else {
                0
            }
        },
        CreatureState::Talking { arms_raised, t_begin_talking, .. } => {
            let mouth_open = elapsed_ms(t_begin_talking, now) % 600 > 300;
            if arms_raised {
                if mouth_open {
                    3
                } else {
                    1
                }
            } else {
                if mouth_open {
                    2
                } else {
                    0
                }
            }
        },
        CreatureState::Jumping { .. } => 4,
        CreatureState::Shocked { .. } => 9,
    }
}

/// Which of the four overlay frames is shown: the talking line, else the
/// hidden frame.
pub open spec fn text_tex_index(s: CreatureState) -> int {
    match s {
        CreatureState::Talking { id, .. } => id as int,
        _ => 0,
    }
}

/// Every dimension entry is a plausible texture size.
pub open spec fn dims_ok(v: Seq<Vec2I>) -> bool {
    forall|i: int|
        0 <= i < v.len() ==> 0 <= #[trigger] v[i].x <= 0x10000 && 0 <= v[i].y <= 0x10000
}

/// How far above the sprite position the speech overlay sits.
pub open spec fn text_lift(dimy: int) -> int {
    dimy * 12 / 20
}

/// The overlay is wide enough to count as visible.
pub open spec fn overlay_visible(tdim: Vec2I) -> bool {
    tdim.x > 10
}

/// By how much the bounding rectangle grows left and right when the
/// overlay is visible: enough to fit the overlay width plus a margin,
/// clamped at zero so that the rectangle never shrinks below the sprite.
pub open spec fn lr_extension(dimx: int, tdimx: int) -> int {
    let e = if tdimx >= dimx {
        (tdimx - dimx) / 2 + 5
    } else {
        5 - (dimx - tdimx) / 2
    };
    if e >= 0 {
        e
    } else {
        0
    }
}

/// By how much the bounding rectangle grows upward when the overlay is
/// visible.
pub open spec fn up_extension(dimy: int, tdimy: int) -> int {
    dimy / 10 + tdimy + 5
}

pub open spec fn bounds_left(pos: Vec2I, dim: Vec2I, tdim: Vec2I) -> int {
    pos.x - dim.x / 2 - if overlay_visible(tdim) {
        lr_extension(dim.x as int, tdim.x as int)
    } else {
        0
    }
}

pub open spec fn bounds_top(pos: Vec2I, dim: Vec2I, tdim: Vec2I) -> int {
    pos.y - dim.y / 2 - if overlay_visible(tdim) {
        up_extension(dim.y as int, tdim.y as int)
    } else {
        0
    }
}

pub open spec fn bounds_width(pos: Vec2I, dim: Vec2I, tdim: Vec2I) -> int {
    dim.x + if overlay_visible(tdim) {
        2 * lr_extension(dim.x as int, tdim.x as int)
    } else {
        0
    }
}

pub open spec fn bounds_height(pos: Vec2I, dim: Vec2I, tdim: Vec2I) -> int {
    dim.y + if overlay_visible(tdim) {
        up_extension(dim.y as int, tdim.y as int)
    } else {
        0
    }
}

/// What the render bounding rectangle encloses.
///
/// It always contains the sprite's own centred rectangle: without a
/// visible overlay it is exactly that rectangle, and the horizontal
/// widening for a visible overlay is clamped at zero. With a visible
/// overlay it also encloses the overlay's footprint (anchored
/// bottom-centre above the sprite, with the documented margins).
pub proof fn lemma_bounds_enclose(pos: Vec2I, dim: Vec2I, tdim: Vec2I)
    requires
        0 <= dim.x,
        0 <= dim.y,
        0 <= tdim.x,
        0 <= tdim.y,
    ensures
        !overlay_visible(tdim) ==> {
            &&& bounds_left(pos, dim, tdim) == pos.x - dim.x / 2
            &&& bounds_top(pos, dim, tdim) == pos.y - dim.y / 2
            &&& bounds_width(pos, dim, tdim) == dim.x
            &&& bounds_height(pos, dim, tdim) == dim.y
        },
        bounds_left(pos, dim, tdim) <= pos.x - dim.x / 2,
        bounds_top(pos, dim, tdim) <= pos.y - dim.y / 2,
        bounds_left(pos, dim, tdim) + bounds_width(pos, dim, tdim) >= pos.x - dim.x / 2 + dim.x,
        bounds_top(pos, dim, tdim) + bounds_height(pos, dim, tdim) >= pos.y - dim.y / 2 + dim.y,
        overlay_visible(tdim) ==> {
            let tl_x = pos.x - tdim.x / 2;
            let tl_y = pos.y - text_lift(dim.y as int) - tdim.y;
            &&& bounds_left(pos, dim, tdim) <= tl_x
            &&& bounds_top(pos, dim, tdim) <= tl_y
            &&& bounds_left(pos, dim, tdim) + bounds_width(pos, dim, tdim) >= tl_x + tdim.x
            &&& bounds_top(pos, dim, tdim) + bounds_height(pos, dim, tdim) >= tl_y + tdim.y
        },
{
    if overlay_visible(tdim) {
        let d = dim.x as int;
        let t = tdim.x as int;
        let e0 = if t >= d {
            (t - d) / 2 + 5int
        } else {
            5 - (d - t) / 2
        };
        assert(d / 2 + e0 >= t / 2 && (d - d / 2) + e0 >= t - t / 2) by (nonlinear_arith)
            requires
                0 <= d,
                0 <= t,
                e0 == if t >= d {
                    (t - d) / 2 + 5int
                } else {
                    5 - (d - t) / 2
                },
        ;
        assert(lr_extension(d, t) >= e0);
        let dy = dim.y as int;
        assert(dy / 2 + dy / 10 + 5 >= dy * 12 / 20) by (nonlinear_arith)
            requires
                0 <= dy,
        ;
    }
}

/// Executable counterpart of [`fires`].
fn state_fires(s: &CreatureState, now: u64) -> (r: bool)
    ensures
        r == fires(*s, now),
{
    match s {
        CreatureState::Hiding { peek_end_t, .. } => now > *peek_end_t,
        CreatureState::Idle { try_talk_at, .. } => now > *try_talk_at,
        CreatureState::Talking { t_begin_talking, duration, .. } => {
            elapsed_clamped(*t_begin_talking, now) > *duration
        },
        CreatureState::Jumping { t_begin, duration, .. } => {
            elapsed_clamped(*t_begin, now) > *duration
        },
        CreatureState::Shocked { t_begin, .. } => elapsed_clamped(*t_begin, now) > SHOCKED_MS,
    }
}

/// Force a raw pose coordinate into the safe band.
fn clamp_to_band(v: i64) -> (r: i32)
    ensures
        r == clamp_coord(v as int),
        -COORD_LIMIT <= r <= COORD_LIMIT,
{
    if v < -(COORD_LIMIT as i64) {
        -COORD_LIMIT
    } else if v > COORD_LIMIT as i64 {
        COORD_LIMIT
    } else {
        v as i32
    }
}

/// Executable counterpart of [`bezier_u`].
fn bezier_progress(t_begin: u64, duration: u64, now: u64) -> (us: u64)
    requires
        1 <= duration,
    ensures
        us == bezier_u(t_begin, duration, now),
        us <= 1000,
{
    let e = elapsed_clamped(t_begin, now);
    if e >= duration {
        1000
    } else {
        proof {
            assert((e as int) * 1000 / (duration as int) < 1000) by (nonlinear_arith)
                requires
                    0 <= e < duration,
                    1 <= duration,
            ;
        }
        (((e as u128) * 1000) / (duration as u128)) as u64
    }
}

/// Executable counterpart of [`shock_ts`].
fn shock_progress(t_begin: u64, now: u64) -> (ts: u64)
    ensures
        ts == shock_ts(t_begin, now),
        ts <= 1000,
{
    let e = elapsed_clamped(t_begin, now);
    if e >= SHOCKED_MS {
        1000
    } else {
        2 * e
    }
}

/// Executable counterpart of [`cubic_point_spec`]: the whole mix is
/// computed over values shifted to be non-negative, in 64-bit integers.
fn cubic_point(p0: i32, p1: i32, p2: i32, p3: i32, us: u64) -> (r: i64)
    requires
        -0x1001_0000 <= p0 <= 0x1001_0000,
        -0x1001_0000 <= p1 <= 0x1001_0000,
        -0x1001_0000 <= p2 <= 0x1001_0000,
        -0x1001_0000 <= p3 <= 0x1001_0000,
        us <= 1000,
    ensures
        r == cubic_point_spec(p0 as int, p1 as int, p2 as int, p3 as int, us as int),
{
    let b01 = if p0 <= p1 {
        p0
    } else {
        p1
    };
    let b23 = if p2 <= p3 {
        p2
    } else {
        p3
    };
    let base = if b01 <= b23 {
        b01
    } else {
        b23
    };
    let a0: u64 = (p0 - base) as u64;
    let a1: u64 = (p1 - base) as u64;
    let a2: u64 = (p2 - base) as u64;
    let a3: u64 = (p3 - base) as u64;
    let vs: u64 = 1000 - us;
    proof {
        assert(us * us <= 1000000 && us * vs <= 1000000 && vs * vs <= 1000000) by (nonlinear_arith)
            requires
                0 <= us <= 1000,
                0 <= vs <= 1000,
        ;
        assert(us * us * vs <= 1000000000 && us * vs * vs <= 1000000000 && vs * vs * vs
            <= 1000000000 && us * us * us <= 1000000000) by (nonlinear_arith)
            requires
                0 <= us <= 1000,
                0 <= vs <= 1000,
        ;
    }
    let w0: u64 = vs * vs * vs;
    let w1: u64 = us * vs * vs;
    let w2: u64 = us * us * vs;
    let w3: u64 = us * us * us;
    proof {
        assert(a0 * w0 <= 0x2002_0000 * 1000000000 && 3 * a1 * w1 <= 3 * 0x2002_0000 * 1000000000
            && 3 * a2 * w2 <= 3 * 0x2002_0000 * 1000000000 && a3 * w3 <= 0x2002_0000 * 1000000000)
            by (nonlinear_arith)
            requires
                0 <= a0 <= 0x2002_0000,
                0 <= a1 <= 0x2002_0000,
                0 <= a2 <= 0x2002_0000,
                0 <= a3 <= 0x2002_0000,
                0 <= w0 <= 1000000000,
                0 <= w1 <= 1000000000,
                0 <= w2 <= 1000000000,
                0 <= w3 <= 1000000000,
        ;
    }
    let num: u64 = a0 * w0 + 3 * a1 * w1 + 3 * a2 * w2 + a3 * w3;
    let q: u64 = num / 1000000000;
    (base as i64) + (q as i64)
}

} // verus!
