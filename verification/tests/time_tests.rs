use my_little_universe::time::{
    ExternalTimeEventType, InternalTimeEventType, TimeEventReturnType, TimeEventType,
    TimeStackState,
};

#[test]
fn handle_events() {
    let mut time_state = TimeStackState::new();

    match time_state.push_event(&TimeEventType::External(
        ExternalTimeEventType::GetTimeStackState { include_stack: true },
    )) {
        TimeEventReturnType::StackState(state) => {
            assert_eq!(0, state.turn);
            assert_eq!(true, state.ready_for_next_turn);
        }
        _ => assert!(false),
    }

    match time_state.push_event(&TimeEventType::Internal(InternalTimeEventType::ReadyForNextTurn))
    {
        TimeEventReturnType::Received => {}
        _ => assert!(false),
    }

    match time_state.push_event(&TimeEventType::External(
        ExternalTimeEventType::GetTimeStackState { include_stack: true },
    )) {
        TimeEventReturnType::StackState(state) => {
            assert_eq!(0, state.turn);
            assert_eq!(true, state.ready_for_next_turn);
        }
        _ => assert!(false),
    }
}

#[test]
fn change_turn() {
    let mut time_state = TimeStackState::new();
    assert_eq!(0, time_state.turn);
    time_state.next_turn();
    assert_eq!(1, time_state.turn);
}

#[test]
fn turn_clock_gating() {
    let mut time_state = TimeStackState::new();
    assert_eq!(
        TimeEventReturnType::Received,
        time_state.push_event(&TimeEventType::External(ExternalTimeEventType::SetSpeed(1000)))
    );
    assert_eq!(
        TimeEventReturnType::Received,
        time_state.push_event(&TimeEventType::External(ExternalTimeEventType::StartUntilTurn(5)))
    );
    let armed_at = time_state.last_turn_timestamp();

    // under a second of wall-clock time: the turn does not advance
    assert_eq!(false, time_state.request_execute_turn_at(armed_at + 999));
    assert_eq!(0, time_state.turn());

    // once the full second has elapsed, the next poll advances the turn
    assert_eq!(true, time_state.request_execute_turn_at(armed_at + 1000));
    assert_eq!(1, time_state.turn());

    // the clock is not re-armed yet, so the turn stays put even later
    assert_eq!(false, time_state.request_execute_turn_at(armed_at + 5000));
    assert_eq!(1, time_state.turn());
}

#[test]
fn start_until_turn_pauses_at_ceiling() {
    let mut time_state = TimeStackState::new();
    assert_eq!(
        TimeEventReturnType::Received,
        time_state.push_event(&TimeEventType::External(ExternalTimeEventType::StartUntilTurn(2)))
    );
    assert_eq!(false, time_state.paused());

    assert!(time_state.request_execute_turn_at(time_state.last_turn_timestamp()));
    assert_eq!(1, time_state.turn());
    assert_eq!(false, time_state.paused());
    assert_eq!(
        TimeEventReturnType::Received,
        time_state.push_event(&TimeEventType::Internal(InternalTimeEventType::ReadyForNextTurn))
    );

    assert!(time_state.request_execute_turn_at(time_state.last_turn_timestamp()));
    assert_eq!(2, time_state.turn());
    // the ceiling was reached: the clock re-pauses itself
    assert_eq!(true, time_state.paused());
    assert_eq!(
        TimeEventReturnType::Received,
        time_state.push_event(&TimeEventType::Internal(InternalTimeEventType::ReadyForNextTurn))
    );
    assert_eq!(false, time_state.request_execute_turn_at(u64::MAX - 1));
    assert_eq!(2, time_state.turn());
}
