use vstd::prelude::*;

use crate::amount::{option_view, amount_plan, AmountView, ExchangeAmount, TYPE_INTERVAL};
use crate::geometry::{bbox_click_point, center_of, Point, Rect};
use crate::keys::KeyKind;
use crate::timeout::{lifecycle_of, next_timeout_lifecycle, Lifecycle, Timeout};

verus! {

/// Tick budget of the menu, confirmation and completion phases, and of
/// amount entry when the maximum is taken.
pub const PHASE_TICKS: u32 = 20;

/// Tick budget of amount entry while digits are typed.
pub const TYPING_TICKS: u32 = 60;

/// Horizontal offset from the max button's center to the amount input box.
pub const INPUT_BOX_OFFSET: i64 = 30;

/// Phases of exchanging HEXA boosters; each but the first carries the anchor
/// that its entry action clicks.
#[derive(Debug, Clone, Copy, PartialEq, Eq, Structural)]
pub enum State {
    OpenHexaMenu(Timeout),
    OpenExchangingMenu(Timeout, Rect),
    OpenBoosterMenu(Timeout, Rect),
    Exchanging(Timeout, Rect),
    Confirming(Timeout, Rect),
    Completing(Timeout, bool),
}

/// The whole state of one exchange request.
#[derive(Debug)]
pub struct ExchangingBooster {
    pub state: State,
    /// The digits to type, or none when the maximum is taken.
    pub amount: Option<ExchangeAmount>,
}

/// The mathematical content of an [`ExchangingBooster`].
pub struct BoosterView {
    pub state: State,
    pub amount: Option<AmountView>,
}

impl View for ExchangingBooster {
    type V = BoosterView;

    open spec fn view(&self) -> BoosterView {
        BoosterView { state: self.state, amount: option_view(self.amount) }
    }
}

/// The detection that the current tick needs from the owner.
#[derive(Debug, Clone, Copy, PartialEq, Eq, Structural)]
pub enum Query {
    Nothing,
    HexaQuickMenu,
    ErdaConversionButton,
    BoosterButton,
    MaxButton,
    ConvertButton,
    EscSettings,
}

/// Outcome of an anchor lookup.
#[derive(Debug, Clone, Copy, PartialEq, Eq, Structural)]
pub enum Detection {
    Found(Rect),
    NotFound,
    Failed,
}

/// What the owner detected for this tick's [`Query`].
#[derive(Debug, Clone, Copy, PartialEq, Eq, Structural)]
pub enum Observation {
    Nothing,
    Anchor(Detection),
    Overlay(bool),
}

/// An input intent for the owner to deliver.
#[derive(Debug, Clone, Copy, PartialEq, Eq, Structural)]
pub enum Effect {
    Click(Point),
    Key(KeyKind),
}

/// What the owner does with the player after a tick.
#[derive(Debug, Clone, Copy, PartialEq, Eq, Structural)]
pub enum PlayerTransition {
    /// Keep exchanging on the next tick.
    Continue,
    /// The exchange is finished: return to idle and complete the action.
    Finished,
    /// No queued action backs the exchange: drop it and return to idle.
    Cancelled,
}

/// Result of one tick.
#[derive(Debug, Clone, Copy, PartialEq, Eq, Structural)]
pub struct TickOutput {
    pub transition: PlayerTransition,
    pub effect: Option<Effect>,
}

/// The anchor in `observation`, if one was found; a missing anchor and a
/// failed lookup are the same.
pub open spec fn found_anchor(observation: Observation) -> Option<Rect> {
    match observation {
        Observation::Anchor(Detection::Found(r)) => Some(r),
        _ => None,
    }
}

/// Whether `observation` reports the notice overlay.
pub open spec fn overlay_seen(observation: Observation) -> bool {
    observation == Observation::Overlay(true)
}

/// Tick budget of amount entry.
pub open spec fn exchanging_budget(amount: Option<AmountView>) -> u32 {
    if amount is None {
        PHASE_TICKS
    } else {
        TYPING_TICKS
    }
}

/// Where amount entry clicks first: the max button's center, or right of it
/// on the input box when digits are typed.
pub open spec fn exchanging_click_point(bbox: Rect, typing: bool) -> Point {
    let c = center_of(bbox);
    if typing {
        Point { x: (c.x + INPUT_BOX_OFFSET) as i64, y: c.y }
    } else {
        c
    }
}

/// The completion phase, entered fresh.
pub open spec fn completing(succeeded: bool) -> State {
    State::Completing(Timeout { current: 0 }, succeeded)
}

/// `b` in phase `s`, with its plan unchanged.
pub open spec fn in_state(b: BoosterView, s: State) -> BoosterView {
    BoosterView { state: s, amount: b.amount }
}

/// The detection that the next tick of `b` reads.
pub open spec fn query_of(b: BoosterView) -> Query {
    match b.state {
        State::OpenHexaMenu(t) => match lifecycle_of(t, PHASE_TICKS) {
            Lifecycle::Started(_) => Query::HexaQuickMenu,
            Lifecycle::Ended => Query::ErdaConversionButton,
            Lifecycle::Updated(_) => Query::Nothing,
        },
        State::OpenExchangingMenu(t, _) => if lifecycle_of(t, PHASE_TICKS) is Ended {
            Query::BoosterButton
        } else {
            Query::Nothing
        },
        State::OpenBoosterMenu(t, _) => if lifecycle_of(t, PHASE_TICKS) is Ended {
            Query::MaxButton
        } else {
            Query::Nothing
        },
        State::Exchanging(t, _) => if lifecycle_of(t, exchanging_budget(b.amount)) is Ended {
            Query::ConvertButton
        } else {
            Query::Nothing
        },
        State::Confirming(_, _) => Query::Nothing,
        State::Completing(t, _) => if lifecycle_of(t, PHASE_TICKS) is Ended {
            Query::EscSettings
        } else {
            Query::Nothing
        },
    }
}

/// On a phase's `Ended` tick: go to `next` with the found anchor, or fail.
pub open spec fn after_lookup(
    b: BoosterView,
    observation: Observation,
    next: spec_fn(Rect) -> State,
) -> (BoosterView, Option<Effect>) {
    match found_anchor(observation) {
        Some(r) => (in_state(b, next(r)), None),
        None => (in_state(b, completing(false)), None),
    }
}

/// One tick of the workflow: the next state and the input to deliver.
pub open spec fn step(b: BoosterView, observation: Observation) -> (BoosterView, Option<Effect>) {
    match b.state {
        State::OpenHexaMenu(t) => match lifecycle_of(t, PHASE_TICKS) {
            Lifecycle::Started(t1) => match found_anchor(observation) {
                Some(r) => (in_state(b, State::OpenHexaMenu(t1)), Some(Effect::Click(center_of(r)))),
                None => (in_state(b, completing(true)), None),
            },
            Lifecycle::Updated(t1) => (in_state(b, State::OpenHexaMenu(t1)), None),
            Lifecycle::Ended => after_lookup(
                b,
                observation,
                |r: Rect| State::OpenExchangingMenu(Timeout { current: 0 }, r),
            ),
        },
        State::OpenExchangingMenu(t, bbox) => match lifecycle_of(t, PHASE_TICKS) {
            Lifecycle::Started(t1) => (
                in_state(b, State::OpenExchangingMenu(t1, bbox)),
                Some(Effect::Click(center_of(bbox))),
            ),
            Lifecycle::Updated(t1) => (in_state(b, State::OpenExchangingMenu(t1, bbox)), None),
            Lifecycle::Ended => after_lookup(
                b,
                observation,
                |r: Rect| State::OpenBoosterMenu(Timeout { current: 0 }, r),
            ),
        },
        State::OpenBoosterMenu(t, bbox) => match lifecycle_of(t, PHASE_TICKS) {
            Lifecycle::Started(t1) => (
                in_state(b, State::OpenBoosterMenu(t1, bbox)),
                Some(Effect::Click(center_of(bbox))),
            ),
            Lifecycle::Updated(t1) => (in_state(b, State::OpenBoosterMenu(t1, bbox)), None),
            Lifecycle::Ended => after_lookup(
                b,
                observation,
                |r: Rect| State::Exchanging(Timeout { current: 0 }, r),
            ),
        },
        State::Exchanging(t, bbox) => match lifecycle_of(t, exchanging_budget(b.amount)) {
            Lifecycle::Started(t1) => (
                in_state(b, State::Exchanging(t1, bbox)),
                Some(Effect::Click(exchanging_click_point(bbox, b.amount is Some))),
            ),
            Lifecycle::Updated(t1) => match b.amount {
                Some(a) => if t1.current % TYPE_INTERVAL == 0 && a.index < a.keys.len() {
                    (
                        BoosterView {
                            state: State::Exchanging(t1, bbox),
                            amount: Some(AmountView { index: a.index + 1, keys: a.keys }),
                        },
                        Some(Effect::Key(a.keys[a.index as int])),
                    )
                } else {
                    (in_state(b, State::Exchanging(t1, bbox)), None)
                },
                None => (in_state(b, State::Exchanging(t1, bbox)), None),
            },
            Lifecycle::Ended => after_lookup(
                b,
                observation,
                |r: Rect| State::Confirming(Timeout { current: 0 }, r),
            ),
        },
        State::Confirming(t, bbox) => match lifecycle_of(t, PHASE_TICKS) {
            Lifecycle::Started(t1) => (
                in_state(b, State::Confirming(t1, bbox)),
                Some(Effect::Click(center_of(bbox))),
            ),
            Lifecycle::Updated(t1) => (in_state(b, State::Confirming(t1, bbox)), None),
            Lifecycle::Ended => (in_state(b, completing(false)), None),
        },
        State::Completing(t, succeeded) => match lifecycle_of(t, PHASE_TICKS) {
            Lifecycle::Started(t1) => (in_state(b, State::Completing(t1, succeeded)), None),
            Lifecycle::Updated(t1) => (in_state(b, State::Completing(t1, succeeded)), None),
            Lifecycle::Ended => (
                in_state(b, State::Completing(t, true)),
                if overlay_seen(observation) {
                    Some(Effect::Key(KeyKind::Esc))
                } else {
                    None
                },
            ),
        },
    }
}

/// Whether `state` is the successful end of the workflow.
pub open spec fn finished(state: State) -> bool {
    state matches State::Completing(_, true)
}

/// What the owner does after a tick that left the workflow in `state`.
pub open spec fn transition_of(state: State, has_queued_action: bool) -> PlayerTransition {
    if finished(state) {
        PlayerTransition::Finished
    } else if !has_queued_action {
        PlayerTransition::Cancelled
    } else {
        PlayerTransition::Continue
    }
}

/// The anchor in `observation`, if one was found.
fn found(observation: Observation) -> (r: Option<Rect>)
    ensures
        r == found_anchor(observation),
{
    match observation {
        Observation::Anchor(Detection::Found(r)) => Some(r),
        _ => None,
    }
}

/// The completion phase, entered fresh.
fn completing_state(succeeded: bool) -> (r: State)
    ensures
        r == completing(succeeded),
{
    State::Completing(Timeout::new(), succeeded)
}

impl ExchangingBooster {
    /// A new request for `amount` boosters, or for as many as possible when
    /// `all` is set; `amount` is clamped into the typeable range.
    pub fn new(amount: u32, all: bool) -> (r: ExchangingBooster)
        ensures
            r@ == (BoosterView {
                state: State::OpenHexaMenu(Timeout { current: 0 }),
                amount: amount_plan(amount, all),
            }),
    {
        ExchangingBooster { state: State::OpenHexaMenu(Timeout::new()), amount: ExchangeAmount::build(amount, all) }
    }

    /// The detection that the next tick reads from its observation.
    pub fn query(&self) -> (r: Query)
        ensures
            r == query_of(self@),
    {
        match self.state {
            State::OpenHexaMenu(t) => match next_timeout_lifecycle(t, PHASE_TICKS) {
                Lifecycle::Started(_) => Query::HexaQuickMenu,
                Lifecycle::Ended => Query::ErdaConversionButton,
                Lifecycle::Updated(_) => Query::Nothing,
            },
            State::OpenExchangingMenu(t, _) => match next_timeout_lifecycle(t, PHASE_TICKS) {
                Lifecycle::Ended => Query::BoosterButton,
                _ => Query::Nothing,
            },
            State::OpenBoosterMenu(t, _) => match next_timeout_lifecycle(t, PHASE_TICKS) {
                Lifecycle::Ended => Query::MaxButton,
                _ => Query::Nothing,
            },
            State::Exchanging(t, _) => match next_timeout_lifecycle(t, self.exchanging_budget()) {
                Lifecycle::Ended => Query::ConvertButton,
                _ => Query::Nothing,
            },
            State::Confirming(_, _) => Query::Nothing,
            State::Completing(t, _) => match next_timeout_lifecycle(t, PHASE_TICKS) {
                Lifecycle::Ended => Query::EscSettings,
                _ => Query::Nothing,
            },
        }
    }

    /// Whether the workflow has ended successfully.
    pub fn is_finished(&self) -> (r: bool)
        ensures
            r == finished(self.state),
    {
        match self.state {
            State::Completing(_, succeeded) => succeeded,
            _ => false,
        }
    }

    fn exchanging_budget(&self) -> (r: u32)
        ensures
            r == exchanging_budget(self@.amount),
    {
        if self.amount.is_none() {
            PHASE_TICKS
        } else {
            TYPING_TICKS
        }
    }
}

fn update_open_hexa_menu(exchanging: &mut ExchangingBooster, observation: Observation) -> (r: Option<Effect>)
    requires
        old(exchanging).state is OpenHexaMenu,
    ensures
        (final(exchanging)@, r) == step(old(exchanging)@, observation),
{
    let State::OpenHexaMenu(timeout) = exchanging.state else { return None };
    match next_timeout_lifecycle(timeout, PHASE_TICKS) {
        Lifecycle::Started(timeout) => match found(observation) {
            Some(bbox) => {
                exchanging.state = State::OpenHexaMenu(timeout);
                Some(Effect::Click(bbox_click_point(bbox)))
            },
            None => {
                exchanging.state = completing_state(true);
                None
            },
        },
        Lifecycle::Ended => {
            exchanging.state = match found(observation) {
                Some(bbox) => State::OpenExchangingMenu(Timeout::new(), bbox),
                None => completing_state(false),
            };
            None
        },
        Lifecycle::Updated(timeout) => {
            exchanging.state = State::OpenHexaMenu(timeout);
            None
        },
    }
}

fn update_open_exchanging_menu(exchanging: &mut ExchangingBooster, observation: Observation) -> (r: Option<Effect>)
    requires
        old(exchanging).state is OpenExchangingMenu,
    ensures
        (final(exchanging)@, r) == step(old(exchanging)@, observation),
{
    let State::OpenExchangingMenu(timeout, bbox) = exchanging.state else { return None };
    match next_timeout_lifecycle(timeout, PHASE_TICKS) {
        Lifecycle::Started(timeout) => {
            exchanging.state = State::OpenExchangingMenu(timeout, bbox);
            Some(Effect::Click(bbox_click_point(bbox)))
        },
        Lifecycle::Ended => {
            exchanging.state = match found(observation) {
                Some(bbox) => State::OpenBoosterMenu(Timeout::new(), bbox),
                None => completing_state(false),
            };
            None
        },
        Lifecycle::Updated(timeout) => {
            exchanging.state = State::OpenExchangingMenu(timeout, bbox);
            None
        },
    }
}

fn update_open_booster_menu(exchanging: &mut ExchangingBooster, observation: Observation) -> (r: Option<Effect>)
    requires
        old(exchanging).state is OpenBoosterMenu,
    ensures
        (final(exchanging)@, r) == step(old(exchanging)@, observation),
{
    let State::OpenBoosterMenu(timeout, bbox) = exchanging.state else { return None };
    match next_timeout_lifecycle(timeout, PHASE_TICKS) {
        Lifecycle::Started(timeout) => {
            exchanging.state = State::OpenBoosterMenu(timeout, bbox);
            Some(Effect::Click(bbox_click_point(bbox)))
        },
        Lifecycle::Ended => {
            exchanging.state = match found(observation) {
                Some(bbox) => State::Exchanging(Timeout::new(), bbox),
                None => completing_state(false),
            };
            None
        },
        Lifecycle::Updated(timeout) => {
            exchanging.state = State::OpenBoosterMenu(timeout, bbox);
            None
        },
    }
}

fn update_exchanging(exchanging: &mut ExchangingBooster, observation: Observation) -> (r: Option<Effect>)
    requires
        old(exchanging).state is Exchanging,
    ensures
        (final(exchanging)@, r) == step(old(exchanging)@, observation),
{
    let State::Exchanging(timeout, bbox) = exchanging.state else { return None };
    let typing = exchanging.amount.is_some();
    match next_timeout_lifecycle(timeout, exchanging.exchanging_budget()) {
        Lifecycle::Started(timeout) => {
            exchanging.state = State::Exchanging(timeout, bbox);
            let center = bbox_click_point(bbox);
            if typing {
                Some(Effect::Click(Point { x: center.x + INPUT_BOX_OFFSET, y: center.y }))
            } else {
                Some(Effect::Click(center))
            }
        },
        Lifecycle::Ended => {
            exchanging.state = match found(observation) {
                Some(bbox) => State::Confirming(Timeout::new(), bbox),
                None => completing_state(false),
            };
            None
        },
        Lifecycle::Updated(timeout) => {
            exchanging.state = State::Exchanging(timeout, bbox);
            if timeout.current % TYPE_INTERVAL != 0 {
                return None;
            }
            match exchanging.amount.take() {
                Some(amount) => {
                    if amount.index < amount.keys.len() {
                        let key = amount.keys[amount.index];
                        exchanging.amount = Some(amount.increment_index());
                        Some(Effect::Key(key))
                    } else {
                        exchanging.amount = Some(amount);
                        None
                    }
                },
                None => None,
            }
        },
    }
}

fn update_confirming(exchanging: &mut ExchangingBooster) -> (r: Option<Effect>)
    requires
        old(exchanging).state is Confirming,
    ensures
        forall|o: Observation| (final(exchanging)@, r) == #[trigger] step(old(exchanging)@, o),
{
    let State::Confirming(timeout, bbox) = exchanging.state else { return None };
    match next_timeout_lifecycle(timeout, PHASE_TICKS) {
        Lifecycle::Started(timeout) => {
            exchanging.state = State::Confirming(timeout, bbox);
            Some(Effect::Click(bbox_click_point(bbox)))
        },
        Lifecycle::Ended => {
            exchanging.state = completing_state(false);
            None
        },
        Lifecycle::Updated(timeout) => {
            exchanging.state = State::Confirming(timeout, bbox);
            None
        },
    }
}

fn update_completing(exchanging: &mut ExchangingBooster, observation: Observation) -> (r: Option<Effect>)
    requires
        old(exchanging).state is Completing,
    ensures
        (final(exchanging)@, r) == step(old(exchanging)@, observation),
{
    let State::Completing(timeout, succeeded) = exchanging.state else { return None };
    match next_timeout_lifecycle(timeout, PHASE_TICKS) {
        Lifecycle::Started(timeout) | Lifecycle::Updated(timeout) => {
            exchanging.state = State::Completing(timeout, succeeded);
            None
        },
        Lifecycle::Ended => {
            exchanging.state = State::Completing(timeout, true);
            if observation == Observation::Overlay(true) {
                Some(Effect::Key(KeyKind::Esc))
            } else {
                None
            }
        },
    }
}

/// Runs one tick of the exchange: advances the active phase with what the
/// owner observed for [`ExchangingBooster::query`], and says whether the
/// owner keeps exchanging, has finished, or must cancel because no queued
/// action backs the exchange any more.
pub fn update_exchanging_booster_state(
    exchanging: &mut ExchangingBooster,
    observation: Observation,
    has_queued_action: bool,
) -> (r: TickOutput)
    ensures
        final(exchanging)@ == step(old(exchanging)@, observation).0,
        r.effect == step(old(exchanging)@, observation).1,
        r.transition == transition_of(final(exchanging)@.state, has_queued_action),
{
    let effect = match exchanging.state {
        State::OpenHexaMenu(_) => update_open_hexa_menu(exchanging, observation),
        State::OpenExchangingMenu(_, _) => update_open_exchanging_menu(exchanging, observation),
        State::OpenBoosterMenu(_, _) => update_open_booster_menu(exchanging, observation),
        State::Exchanging(_, _) => update_exchanging(exchanging, observation),
        State::Confirming(_, _) => update_confirming(exchanging),
        State::Completing(_, _) => update_completing(exchanging, observation),
    };
    let transition = if exchanging.is_finished() {
        PlayerTransition::Finished
    } else if !has_queued_action {
        PlayerTransition::Cancelled
    } else {
        PlayerTransition::Continue
    };
    TickOutput { transition, effect }
}

/// The plan's cursor never passes its end, and a plan holds at most four keys.
pub open spec fn wf(b: BoosterView) -> bool {
    match b.amount {
        Some(a) => a.index <= a.keys.len() && a.keys.len() <= 4,
        None => true,
    }
}

/// A new request is well formed, and every tick keeps it so.
pub proof fn lemma_step_preserves_wf(b: BoosterView, observation: Observation, amount: u32, all: bool)
    ensures
        wf(BoosterView { state: State::OpenHexaMenu(Timeout { current: 0 }), amount: amount_plan(amount, all) }),
        wf(b) ==> wf(step(b, observation).0),
{
    if !all {
        crate::amount::lemma_plan_length(amount);
    }
}

/// When the maximum is taken, amount entry presses no key on any tick, and
/// its budget is that of the other phases: on tick `PHASE_TICKS + 1` it looks
/// up the convert button and leaves the phase.
pub proof fn lemma_maximum_types_nothing(b: BoosterView, observation: Observation)
    requires
        b.amount is None,
        b.state is Exchanging,
    ensures
        !(step(b, observation).1 matches Some(Effect::Key(_))),
        exchanging_budget(b.amount) == PHASE_TICKS,
        b.state->Exchanging_0.current == PHASE_TICKS ==> query_of(b) == Query::ConvertButton
            && !(step(b, observation).0.state is Exchanging),
{
}

/// The successful end is terminal: every later tick stays there.
pub proof fn lemma_finished_is_terminal(b: BoosterView, observation: Observation)
    requires
        finished(b.state),
    ensures
        finished(step(b, observation).0.state),
{
}

/// A tick whose query is `Nothing` does not read its observation.
pub proof fn lemma_observation_only_when_queried(b: BoosterView, o1: Observation, o2: Observation)
    requires
        query_of(b) == Query::Nothing,
    ensures
        step(b, o1) == step(b, o2),
{
}

} // verus!
