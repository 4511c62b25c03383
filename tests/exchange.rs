use exchange_booster::amount::ExchangeAmount;
use exchange_booster::exchange_booster::{
    update_exchanging_booster_state, Detection, Effect, ExchangingBooster, Observation,
    PlayerTransition, Query, State, TickOutput,
};
use exchange_booster::geometry::{bbox_click_point, Point, Rect};
use exchange_booster::keys::KeyKind;
use exchange_booster::timeout::{next_timeout_lifecycle, Lifecycle, Timeout};

fn rect(x: i32, y: i32) -> Rect {
    Rect { x, y, width: 10, height: 20 }
}

/// Answers every query with a found anchor (each at its own place), or with
/// `miss` for the query named there, and reports the overlay as `overlay`.
fn observe(query: Query, miss: Option<(Query, Detection)>, overlay: bool) -> Observation {
    if let Some((q, d)) = miss {
        if q == query {
            return Observation::Anchor(d);
        }
    }
    match query {
        Query::Nothing => Observation::Nothing,
        Query::HexaQuickMenu => Observation::Anchor(Detection::Found(rect(100, 100))),
        Query::ErdaConversionButton => Observation::Anchor(Detection::Found(rect(200, 100))),
        Query::BoosterButton => Observation::Anchor(Detection::Found(rect(300, 100))),
        Query::MaxButton => Observation::Anchor(Detection::Found(rect(400, 100))),
        Query::ConvertButton => Observation::Anchor(Detection::Found(rect(500, 100))),
        Query::EscSettings => Observation::Overlay(overlay),
    }
}

fn tick(e: &mut ExchangingBooster, miss: Option<(Query, Detection)>, overlay: bool) -> TickOutput {
    let obs = observe(e.query(), miss, overlay);
    update_exchanging_booster_state(e, obs, true)
}

fn keys_of(a: &Option<ExchangeAmount>) -> Vec<KeyKind> {
    a.as_ref().unwrap().keys.clone()
}

fn decode(keys: &[KeyKind]) -> u32 {
    keys.iter().fold(0, |acc, k| {
        let d = match k {
            KeyKind::Zero => 0,
            KeyKind::One => 1,
            KeyKind::Two => 2,
            KeyKind::Three => 3,
            KeyKind::Four => 4,
            KeyKind::Five => 5,
            KeyKind::Six => 6,
            KeyKind::Seven => 7,
            KeyKind::Eight => 8,
            KeyKind::Nine => 9,
            _ => panic!("not a digit"),
        };
        acc * 10 + d
    })
}

#[test]
fn timer_runs_started_updated_ended() {
    for max in [1u32, 2, 20, 60] {
        let mut t = Timeout::new();
        let mut started = 0;
        let mut updated = 0;
        let mut calls = 0;
        loop {
            calls += 1;
            match next_timeout_lifecycle(t, max) {
                Lifecycle::Started(n) => {
                    assert_eq!(updated, 0);
                    started += 1;
                    t = n;
                }
                Lifecycle::Updated(n) => {
                    assert_eq!(n.current, t.current + 1);
                    updated += 1;
                    t = n;
                }
                Lifecycle::Ended => break,
            }
        }
        assert_eq!(started, 1);
        assert_eq!(updated, max - 1);
        assert_eq!(calls, max + 1);
    }
}

#[test]
fn timer_events_exact() {
    assert_eq!(next_timeout_lifecycle(Timeout { current: 0 }, 20), Lifecycle::Started(Timeout { current: 1 }));
    assert_eq!(next_timeout_lifecycle(Timeout { current: 7 }, 20), Lifecycle::Updated(Timeout { current: 8 }));
    assert_eq!(next_timeout_lifecycle(Timeout { current: 20 }, 20), Lifecycle::Ended);
    assert_eq!(next_timeout_lifecycle(Timeout { current: 25 }, 20), Lifecycle::Ended);
}

#[test]
fn maximum_builds_no_plan() {
    assert!(ExchangeAmount::build(5, true).is_none());
    assert!(ExchangeAmount::build(0, true).is_none());
    assert!(ExchangingBooster::new(7, true).amount.is_none());
}

#[test]
fn plan_spells_every_amount_in_range() {
    for n in 1u32..=20 {
        let keys = keys_of(&ExchangeAmount::build(n, false));
        assert!(keys.len() == 3 || keys.len() == 4);
        assert_eq!(&keys[..2], &[KeyKind::Backspace, KeyKind::Backspace]);
        assert_eq!(decode(&keys[2..]), n);
        assert_eq!(ExchangeAmount::build(n, false).unwrap().index, 0);
    }
}

#[test]
fn plan_exact_keys() {
    assert_eq!(
        keys_of(&ExchangeAmount::build(7, false)),
        vec![KeyKind::Backspace, KeyKind::Backspace, KeyKind::Seven]
    );
    assert_eq!(
        keys_of(&ExchangeAmount::build(15, false)),
        vec![KeyKind::Backspace, KeyKind::Backspace, KeyKind::One, KeyKind::Five]
    );
}

#[test]
fn plan_clamps_out_of_range() {
    assert_eq!(keys_of(&ExchangeAmount::build(0, false)), keys_of(&ExchangeAmount::build(1, false)));
    assert_eq!(keys_of(&ExchangeAmount::build(999, false)), keys_of(&ExchangeAmount::build(20, false)));
    assert_eq!(
        keys_of(&ExchangeAmount::build(999, false)),
        vec![KeyKind::Backspace, KeyKind::Backspace, KeyKind::Two, KeyKind::Zero]
    );
    assert_eq!(
        keys_of(&ExchangeAmount::build(u32::MAX, false)),
        vec![KeyKind::Backspace, KeyKind::Backspace, KeyKind::Two, KeyKind::Zero]
    );
}

#[test]
fn increment_index_advances_by_one() {
    let a = ExchangeAmount::build(3, false).unwrap().increment_index();
    assert_eq!(a.index, 1);
    assert_eq!(a.keys.len(), 3);
}

#[test]
fn quick_menu_missing_completes_at_once() {
    let mut e = ExchangingBooster::new(5, false);
    assert_eq!(e.query(), Query::HexaQuickMenu);
    let out = update_exchanging_booster_state(&mut e, Observation::Anchor(Detection::NotFound), true);
    assert_eq!(out.transition, PlayerTransition::Finished);
    assert_eq!(out.effect, None);
    assert_eq!(e.state, State::Completing(Timeout { current: 0 }, true));
    assert!(e.is_finished());
}

#[test]
fn quick_menu_lookup_error_completes_at_once() {
    let mut e = ExchangingBooster::new(5, false);
    let out = update_exchanging_booster_state(&mut e, Observation::Anchor(Detection::Failed), true);
    assert_eq!(out.transition, PlayerTransition::Finished);
    assert_eq!(e.state, State::Completing(Timeout { current: 0 }, true));
}

#[test]
fn full_run_with_maximum() {
    let mut e = ExchangingBooster::new(5, true);
    let mut clicks = Vec::new();
    let mut keys = 0;
    let mut ticks = 0;
    loop {
        ticks += 1;
        let out = tick(&mut e, None, false);
        match out.effect {
            Some(Effect::Click(p)) => clicks.push(p),
            Some(Effect::Key(_)) => keys += 1,
            None => {}
        }
        if out.transition == PlayerTransition::Finished {
            break;
        }
        assert_eq!(out.transition, PlayerTransition::Continue);
        assert!(ticks < 1000);
    }
    // Six phases, each active for 20 ticks and left on its 21st.
    assert_eq!(ticks, 126);
    assert_eq!(e.state, State::Completing(Timeout { current: 20 }, true));
    assert_eq!(keys, 0);
    assert_eq!(
        clicks,
        vec![
            Point { x: 105, y: 110 },
            Point { x: 205, y: 110 },
            Point { x: 305, y: 110 },
            Point { x: 405, y: 110 },
            Point { x: 505, y: 110 },
        ]
    );
}

#[test]
fn full_run_typing_amount() {
    let mut e = ExchangingBooster::new(15, false);
    let mut clicks = Vec::new();
    let mut keys = Vec::new();
    let mut ticks = 0;
    loop {
        ticks += 1;
        let out = tick(&mut e, None, true);
        match out.effect {
            Some(Effect::Click(p)) => clicks.push(p),
            Some(Effect::Key(k)) => keys.push(k),
            None => {}
        }
        if out.transition == PlayerTransition::Finished {
            break;
        }
        assert!(ticks < 1000);
    }
    assert_eq!(ticks, 21 * 5 + 61);
    assert_eq!(clicks[3], Point { x: 435, y: 110 });
    assert_eq!(
        keys,
        vec![KeyKind::Backspace, KeyKind::Backspace, KeyKind::One, KeyKind::Five, KeyKind::Esc]
    );
}

#[test]
fn keys_typed_on_interval_ticks_only() {
    let mut e = ExchangingBooster::new(7, false);
    e.state = State::Exchanging(Timeout::new(), rect(0, 0));
    let mut sent = Vec::new();
    for t in 1..=61u32 {
        let out = tick(&mut e, None, false);
        if let Some(Effect::Key(k)) = out.effect {
            sent.push((t, k));
        }
    }
    assert_eq!(
        sent,
        vec![(10, KeyKind::Backspace), (20, KeyKind::Backspace), (30, KeyKind::Seven)]
    );
    assert_eq!(e.amount.as_ref().unwrap().index, 3);
    assert_eq!(e.state, State::Confirming(Timeout::new(), rect(500, 100)));
}

#[test]
fn cancel_while_entering_amount() {
    let mut e = ExchangingBooster::new(15, false);
    e.state = State::Exchanging(Timeout { current: 33 }, rect(0, 0));
    let out = update_exchanging_booster_state(&mut e, Observation::Nothing, false);
    assert_eq!(out.transition, PlayerTransition::Cancelled);
}

#[test]
fn booster_lookup_error_fails() {
    let mut e = ExchangingBooster::new(1, false);
    e.state = State::OpenExchangingMenu(Timeout { current: 20 }, rect(0, 0));
    assert_eq!(e.query(), Query::BoosterButton);
    let out = update_exchanging_booster_state(&mut e, Observation::Anchor(Detection::Failed), true);
    assert_eq!(e.state, State::Completing(Timeout { current: 0 }, false));
    assert_eq!(out.transition, PlayerTransition::Continue);
    assert_eq!(out.effect, None);
}

#[test]
fn later_missing_anchor_fails() {
    let mut e = ExchangingBooster::new(1, false);
    let mut ticks = 0;
    while !matches!(e.state, State::Completing(_, _)) {
        tick(&mut e, Some((Query::ConvertButton, Detection::NotFound)), false);
        ticks += 1;
    }
    assert_eq!(ticks, 21 * 3 + 61);
    assert_eq!(e.state, State::Completing(Timeout { current: 0 }, false));
}

#[test]
fn confirming_ends_in_completing() {
    let mut e = ExchangingBooster::new(1, true);
    e.state = State::Confirming(Timeout { current: 20 }, rect(0, 0));
    assert_eq!(e.query(), Query::Nothing);
    update_exchanging_booster_state(&mut e, Observation::Nothing, true);
    assert_eq!(e.state, State::Completing(Timeout { current: 0 }, false));
}

#[test]
fn completing_dismisses_overlay() {
    let mut e = ExchangingBooster::new(1, true);
    e.state = State::Completing(Timeout { current: 20 }, false);
    assert_eq!(e.query(), Query::EscSettings);
    let out = update_exchanging_booster_state(&mut e, Observation::Overlay(true), false);
    assert_eq!(out.effect, Some(Effect::Key(KeyKind::Esc)));
    assert_eq!(out.transition, PlayerTransition::Finished);
    assert_eq!(e.state, State::Completing(Timeout { current: 20 }, true));
}

#[test]
fn completing_without_overlay_presses_nothing() {
    let mut e = ExchangingBooster::new(1, true);
    e.state = State::Completing(Timeout { current: 20 }, false);
    let out = update_exchanging_booster_state(&mut e, Observation::Overlay(false), true);
    assert_eq!(out.effect, None);
    assert!(e.is_finished());
}

#[test]
fn click_point_is_center() {
    assert_eq!(bbox_click_point(Rect { x: 10, y: 20, width: 31, height: 9 }), Point { x: 25, y: 24 });
    assert_eq!(
        bbox_click_point(Rect { x: i32::MAX, y: i32::MIN, width: i32::MAX, height: -5 }),
        Point { x: i32::MAX as i64 + (i32::MAX / 2) as i64, y: i32::MIN as i64 - 2 }
    );
}
