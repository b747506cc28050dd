//! The visibility controller: a debounced show/hide state machine driven by
//! pointer enter/leave signals on the detector and dock surfaces.
//!
//! A leave whose crossing detail shows the pointer genuinely left the widget
//! hierarchy arms a deferred hide; a re-entry before the deadline cancels it.
//! Every armed hide carries a fresh token, so a deferred callback armed for an
//! earlier episode finds its token stale and does nothing: two racing timers
//! can never hide the dock out of turn.

use vstd::prelude::*;

verus! {

/// Where the pointer went on a leave event, as the toolkit classifies it.
/// `Nonlinear`, `NonlinearVirtual` and `Ancestor` mean the pointer genuinely
/// left the widget hierarchy; the others mean it moved between widgets inside
/// it and must not hide the dock.
#[derive(Clone, Copy, Debug, PartialEq, Eq, Structural)]
pub enum CrossingDetail {
    Ancestor,
    Virtual,
    Inferior,
    Nonlinear,
    NonlinearVirtual,
    Unknown,
}

/// Whether a leave with this detail genuinely exits the widget hierarchy.
pub open spec fn qualifying_spec(d: CrossingDetail) -> bool {
    d == CrossingDetail::Nonlinear || d == CrossingDetail::NonlinearVirtual || d
        == CrossingDetail::Ancestor
}

/// Visibility of the dock surface. `PendingHide` records the instant the hide
/// falls due and the token the armed callback must present.
#[derive(Clone, Copy, Debug, PartialEq, Eq, Structural)]
pub enum VisibilityState {
    Hidden,
    Visible,
    PendingHide { deadline: u64, token: u64 },
}

/// A deferred hide, as handed to the caller: run the controller's timeout
/// with this token once `deadline` has passed.
#[derive(Clone, Copy, Debug, PartialEq, Eq, Structural)]
pub struct HideSchedule {
    pub deadline: u64,
    pub token: u64,
}

/// One timeout delivery: a callback armed with `token` firing at `now`.
/// All instants are milliseconds on one monotonic clock.
#[derive(Clone, Copy, Debug, PartialEq, Eq, Structural)]
pub struct TimeoutEvent {
    pub token: u64,
    pub now: u64,
}

/// The debounced show/hide state machine. Transitions happen only through
/// `on_enter`, `on_leave` and `on_timeout`, each of which equals the spec
/// step function of the same name.
#[derive(Clone, Copy, Debug, PartialEq, Eq, Structural)]
pub struct VisibilityController {
    pub state: VisibilityState,
    pub hide_timeout: u64,
    pub next_token: u64,
}

/// A pointer entering the detector makes the dock visible, whatever came
/// before; an armed hide is thereby cancelled (its token goes stale).
pub open spec fn step_enter(c: VisibilityController) -> VisibilityController {
    VisibilityController { state: VisibilityState::Visible, ..c }
}

/// A leave arms a deferred hide only while visible and only for a qualifying
/// crossing detail; every other leave changes nothing.
pub open spec fn step_leave(c: VisibilityController, d: CrossingDetail, now: u64)
    -> VisibilityController {
    if c.state == VisibilityState::Visible && qualifying_spec(d) {
        VisibilityController {
            state: VisibilityState::PendingHide {
                deadline: (now + c.hide_timeout) as u64,
                token: c.next_token,
            },
            hide_timeout: c.hide_timeout,
            next_token: (c.next_token + 1) as u64,
        }
    } else {
        c
    }
}

/// Whether a timeout delivery hides the dock: only when a hide is armed, the
/// token is the armed one, and the deadline has passed.
pub open spec fn timeout_fires(c: VisibilityController, token: u64, now: u64) -> bool {
    c.state matches VisibilityState::PendingHide { deadline, token: t } && t == token && now
        >= deadline
}

/// A timeout delivery hides the dock when it fires and changes nothing
/// otherwise.
pub open spec fn step_timeout(c: VisibilityController, token: u64, now: u64)
    -> VisibilityController {
    if timeout_fires(c, token, now) {
        VisibilityController { state: VisibilityState::Hidden, ..c }
    } else {
        c
    }
}

/// The controller after a whole sequence of timeout deliveries.
pub open spec fn run_timeouts(c: VisibilityController, evs: Seq<TimeoutEvent>)
    -> VisibilityController
    decreases evs,
{
    if evs.len() == 0 {
        c
    } else {
        run_timeouts(step_timeout(c, evs[0].token, evs[0].now), evs.drop_first())
    }
}

impl VisibilityController {
    /// A fresh controller: dock hidden, no hide armed.
    pub fn new(hide_timeout: u64) -> (c: Self)
        ensures
            c == (VisibilityController {
                state: VisibilityState::Hidden,
                hide_timeout,
                next_token: 0u64,
            }),
    {
        VisibilityController { state: VisibilityState::Hidden, hide_timeout, next_token: 0 }
    }

    /// Pointer entered the detector: become visible. The dock surface must be
    /// shown exactly when it was hidden; re-entry during an armed hide only
    /// cancels the hide.
    pub fn on_enter(&mut self) -> (show: bool)
        ensures
            *final(self) == step_enter(*old(self)),
            show == (old(self).state == VisibilityState::Hidden),
    {
        let show = match self.state {
            VisibilityState::Hidden => true,
            _ => false,
        };
        self.state = VisibilityState::Visible;
        show
    }

    /// Pointer left the dock at instant `now` with crossing detail `d`. Arms
    /// a deferred hide exactly when the dock is visible and the detail is
    /// qualifying; the returned schedule names the deadline (`now` plus the
    /// configured delay) and the fresh token the callback must present.
    pub fn on_leave(&mut self, d: CrossingDetail, now: u64) -> (sched: Option<HideSchedule>)
        requires
            now + old(self).hide_timeout <= u64::MAX,
            old(self).next_token < u64::MAX,
        ensures
            *final(self) == step_leave(*old(self), d, now),
            sched is Some <==> (old(self).state == VisibilityState::Visible && qualifying_spec(d)),
            sched matches Some(h) ==> h == (HideSchedule {
                deadline: (now + old(self).hide_timeout) as u64,
                token: old(self).next_token,
            }),
    {
        let visible = match self.state {
            VisibilityState::Visible => true,
            _ => false,
        };
        let qualifying = match d {
            CrossingDetail::Nonlinear | CrossingDetail::NonlinearVirtual
            | CrossingDetail::Ancestor => true,
            _ => false,
        };
        if visible && qualifying {
            let deadline = now + self.hide_timeout;
            let token = self.next_token;
            self.state = VisibilityState::PendingHide { deadline, token };
            self.next_token = self.next_token + 1;
            Some(HideSchedule { deadline, token })
        } else {
            None
        }
    }

    /// A deferred callback armed with `token` fired at instant `now`. Returns
    /// whether the dock surface must be hidden now: only when this very hide
    /// is still armed and its deadline has passed. A stale token or an early
    /// delivery changes nothing.
    pub fn on_timeout(&mut self, token: u64, now: u64) -> (hide: bool)
        ensures
            *final(self) == step_timeout(*old(self), token, now),
            hide == timeout_fires(*old(self), token, now),
    {
        let fires = match self.state {
            VisibilityState::PendingHide { deadline, token: t } => t == token && now >= deadline,
            _ => false,
        };
        if fires {
            self.state = VisibilityState::Hidden;
        }
        fires
    }
}

/// A visible dock stays visible under timeout deliveries alone, and none of
/// them fires a hide: once the pointer is back inside, stale callbacks are
/// inert.
pub proof fn lemma_visible_absorbs_timeouts(c: VisibilityController, evs: Seq<TimeoutEvent>)
    requires
        c.state == VisibilityState::Visible,
    ensures
        run_timeouts(c, evs) == c,
        forall|i: int|
            0 <= i < evs.len() ==> !timeout_fires(
                run_timeouts(c, evs.take(i)),
                #[trigger] evs[i].token,
                evs[i].now,
            ),
    decreases evs,
{
    if evs.len() > 0 {
        assert(step_timeout(c, evs[0].token, evs[0].now) == c);
        lemma_visible_absorbs_timeouts(c, evs.drop_first());
        assert forall|i: int| 0 <= i < evs.len() implies !timeout_fires(
            run_timeouts(c, evs.take(i)),
            #[trigger] evs[i].token,
            evs[i].now,
        ) by {
            if i > 0 {
                assert(evs.take(i).drop_first() =~= evs.drop_first().take(i - 1));
                assert(run_timeouts(c, evs.take(i)) == run_timeouts(
                    c,
                    evs.drop_first().take(i - 1),
                ));
                assert(evs[i] == evs.drop_first()[i - 1]);
            }
        }
    }
}

/// A hidden dock with no armed hide stays hidden under timeout deliveries
/// alone, and none of them fires: the dock is hidden at most once per armed
/// episode.
pub proof fn lemma_hidden_absorbs_timeouts(c: VisibilityController, evs: Seq<TimeoutEvent>)
    requires
        c.state == VisibilityState::Hidden,
    ensures
        run_timeouts(c, evs) == c,
        forall|i: int|
            0 <= i < evs.len() ==> !timeout_fires(
                run_timeouts(c, evs.take(i)),
                #[trigger] evs[i].token,
                evs[i].now,
            ),
    decreases evs,
{
    if evs.len() > 0 {
        assert(step_timeout(c, evs[0].token, evs[0].now) == c);
        lemma_hidden_absorbs_timeouts(c, evs.drop_first());
        assert forall|i: int| 0 <= i < evs.len() implies !timeout_fires(
            run_timeouts(c, evs.take(i)),
            #[trigger] evs[i].token,
            evs[i].now,
        ) by {
            if i > 0 {
                assert(evs.take(i).drop_first() =~= evs.drop_first().take(i - 1));
                assert(evs[i] == evs.drop_first()[i - 1]);
            }
        }
    }
}

/// Debounce, cancelling half: if the pointer leaves a visible dock with a
/// qualifying detail and re-enters (strictly before the armed deadline, as it
/// must for the re-entry to precede the callback), the dock is visible again
/// and no sequence of timeout deliveries — the armed callback included — ever
/// hides it for that episode.
pub proof fn lemma_debounce_reentry_cancels(
    c: VisibilityController,
    d: CrossingDetail,
    t_leave: u64,
    t_enter: u64,
    evs: Seq<TimeoutEvent>,
)
    requires
        c.state == VisibilityState::Visible,
        qualifying_spec(d),
        t_leave + c.hide_timeout <= u64::MAX,
        t_enter < t_leave + c.hide_timeout,
    ensures
        ({
            let after = run_timeouts(step_enter(step_leave(c, d, t_leave)), evs);
            &&& after.state == VisibilityState::Visible
            &&& forall|i: int|
                0 <= i < evs.len() ==> !timeout_fires(
                    run_timeouts(step_enter(step_leave(c, d, t_leave)), evs.take(i)),
                    #[trigger] evs[i].token,
                    evs[i].now,
                )
        }),
{
    lemma_visible_absorbs_timeouts(step_enter(step_leave(c, d, t_leave)), evs);
}

/// Debounce, expiring half: if the pointer leaves a visible dock with a
/// qualifying detail and does not re-enter, the armed callback fires exactly
/// at or after the deadline — never before it, never for a stale token — and
/// hides the dock exactly once; afterwards further deliveries change nothing.
pub proof fn lemma_debounce_expiry_hides(
    c: VisibilityController,
    d: CrossingDetail,
    t_leave: u64,
    t_fire: u64,
    evs: Seq<TimeoutEvent>,
)
    requires
        c.state == VisibilityState::Visible,
        qualifying_spec(d),
        t_leave + c.hide_timeout <= u64::MAX,
    ensures
        ({
            let armed = step_leave(c, d, t_leave);
            let deadline = (t_leave + c.hide_timeout) as u64;
            &&& armed.state == VisibilityState::PendingHide { deadline, token: c.next_token }
            &&& (t_fire >= deadline ==> timeout_fires(armed, c.next_token, t_fire))
            &&& (t_fire < deadline ==> !timeout_fires(armed, c.next_token, t_fire))
            &&& forall|tok: u64, at: u64| tok != c.next_token ==> !timeout_fires(armed, tok, at)
            &&& (t_fire >= deadline ==> {
                let hidden = step_timeout(armed, c.next_token, t_fire);
                &&& hidden.state == VisibilityState::Hidden
                &&& run_timeouts(hidden, evs) == hidden
                &&& forall|i: int|
                    0 <= i < evs.len() ==> !timeout_fires(
                        run_timeouts(hidden, evs.take(i)),
                        #[trigger] evs[i].token,
                        evs[i].now,
                    )
            })
        }),
{
    let armed = step_leave(c, d, t_leave);
    if t_fire >= (t_leave + c.hide_timeout) as u64 {
        lemma_hidden_absorbs_timeouts(step_timeout(armed, c.next_token, t_fire), evs);
    }
}

/// A leave with a non-qualifying crossing detail (the pointer moved to a
/// child widget or between children) never changes the controller: in
/// particular it never arms a hide while the dock is visible.
pub proof fn lemma_nonqualifying_leave_ignored(c: VisibilityController, d: CrossingDetail, now: u64)
    requires
        !qualifying_spec(d),
    ensures
        step_leave(c, d, now) == c,
{
}

} // verus!
