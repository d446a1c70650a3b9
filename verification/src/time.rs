use vstd::prelude::*;

verus! {

#[derive(Clone, Copy, PartialEq, Eq, Structural, Debug)]
pub enum TimeEventType {
    Internal(InternalTimeEventType),
    External(ExternalTimeEventType),
}

#[derive(Clone, Copy, PartialEq, Eq, Structural, Debug)]
pub enum InternalTimeEventType {
    ReadyForNextTurn,
    StartedNextTurn,
}

#[derive(Clone, Copy, PartialEq, Eq, Structural, Debug)]
pub enum ExternalTimeEventType {
    Pause,
    Start,
    StartUntilTurn(u64),
    SetSpeed(u64),
    GetTimeStackState { include_stack: bool },
}

#[derive(Clone, PartialEq, Debug)]
pub enum TimeEventReturnType {
    StackState(TimeStackState),
    Received,
}

/// The throttled turn counter: paused or running, with an optional
/// "pause at turn N" ceiling and a minimal wall-clock duration per turn.
#[derive(Clone, PartialEq, Debug)]
pub struct TimeStackState {
    pub turn: u64,
    pub turn_min_duration_in_milli_secs: u64,
    pub last_turn_timestamp: u64,
    pub last_processed_event_index: usize,
    pub pause_at_turn: Option<u64>,
    pub paused: bool,
    pub ready_for_next_turn: bool,
    pub event_stack: Vec<TimeEventType>,
}

/// The turn-increment transition, wall-clock timestamp aside: the turn
/// counter goes up by one, the ready flag drops, and reaching the ceiling
/// re-pauses the clock and clears the ceiling.
pub open spec fn next_turn_transition(old_s: TimeStackState, new_s: TimeStackState) -> bool {
    &&& new_s.turn == old_s.turn + 1
    &&& new_s.ready_for_next_turn == false
    &&& new_s.turn_min_duration_in_milli_secs == old_s.turn_min_duration_in_milli_secs
    &&& new_s.last_processed_event_index == old_s.last_processed_event_index
    &&& new_s.event_stack == old_s.event_stack
    &&& if old_s.pause_at_turn is Some && old_s.turn + 1 >= old_s.pause_at_turn->0 {
        new_s.paused == true && new_s.pause_at_turn is None
    } else {
        new_s.paused == old_s.paused && new_s.pause_at_turn == old_s.pause_at_turn
    }
}

/// What the clock does with each event. The wall-clock timestamp after a
/// `StartedNextTurn` is whatever the system clock read; nothing more is
/// stated of it.
pub open spec fn time_event_outcome(
    old_s: TimeStackState,
    new_s: TimeStackState,
    event: TimeEventType,
    r: TimeEventReturnType,
) -> bool {
    match event {
        TimeEventType::Internal(InternalTimeEventType::ReadyForNextTurn) => {
            &&& r is Received
            &&& new_s == (TimeStackState { ready_for_next_turn: true, ..old_s })
        }
        TimeEventType::Internal(InternalTimeEventType::StartedNextTurn) => {
            &&& r is Received
            &&& next_turn_transition(old_s, new_s)
        }
        TimeEventType::External(ExternalTimeEventType::Pause) => {
            &&& r is Received
            &&& new_s == (TimeStackState { paused: true, ..old_s })
        }
        TimeEventType::External(ExternalTimeEventType::Start) => {
            &&& r is Received
            &&& new_s == (TimeStackState { paused: false, ..old_s })
        }
        TimeEventType::External(ExternalTimeEventType::SetSpeed(milli_secs)) => {
            &&& r is Received
            &&& new_s == (TimeStackState {
                turn_min_duration_in_milli_secs: milli_secs,
                ..old_s
            })
        }
        TimeEventType::External(ExternalTimeEventType::StartUntilTurn(turn)) => {
            &&& r is Received
            &&& new_s == (TimeStackState {
                pause_at_turn: Some(turn),
                paused: false,
                ..old_s
            })
        }
        TimeEventType::External(ExternalTimeEventType::GetTimeStackState { include_stack }) => {
            &&& new_s == old_s
            &&& r matches TimeEventReturnType::StackState(state) && state == (TimeStackState {
                event_stack: state.event_stack,
                ..old_s
            }) && state.event_stack@ == if include_stack {
                old_s.event_stack@
            } else {
                Seq::<TimeEventType>::empty()
            }
        }
    }
}

/// The per-event precondition: a turn increment must not overflow the
/// counter.
pub open spec fn time_event_requires(s: TimeStackState, event: TimeEventType) -> bool {
    event matches TimeEventType::Internal(InternalTimeEventType::StartedNextTurn) ==> s.turn
        < u64::MAX
}

impl TimeStackState {
    pub fn new() -> (r: Self)
        ensures
            r.turn == 0,
            r.turn_min_duration_in_milli_secs == 0,
            r.last_processed_event_index == 0,
            r.paused == true,
            r.ready_for_next_turn == true,
            r.pause_at_turn is None,
            r.event_stack@.len() == 0,
    {
        TimeStackState {
            turn: 0,
            turn_min_duration_in_milli_secs: 0,
            last_turn_timestamp: Self::epcoh_time(),
            last_processed_event_index: 0,
            paused: true,
            ready_for_next_turn: true,
            event_stack: Vec::new(),
            pause_at_turn: None,
        }
    }

    /// Relies on `std::time::SystemTime::now`, read as milliseconds since
    /// the Unix epoch. Nothing can be promised of a wall-clock reading.
    #[verifier::external_body]
    fn epcoh_time() -> u64 {
        match std::time::SystemTime::now().duration_since(std::time::UNIX_EPOCH) {
            Ok(elapsed) => elapsed.as_millis() as u64,
            Err(_) => 0,
        }
    }

    /// A copy of the clock state with an empty event log.
    fn snapshot_without_stack(&self) -> (r: TimeStackState)
        ensures
            r == (TimeStackState { event_stack: r.event_stack, ..*self }),
            r.event_stack@ == Seq::<TimeEventType>::empty(),
    {
        TimeStackState {
            turn: self.turn,
            turn_min_duration_in_milli_secs: self.turn_min_duration_in_milli_secs,
            last_turn_timestamp: self.last_turn_timestamp,
            last_processed_event_index: self.last_processed_event_index,
            pause_at_turn: self.pause_at_turn,
            paused: self.paused,
            ready_for_next_turn: self.ready_for_next_turn,
            event_stack: Vec::new(),
        }
    }

    pub fn push_event(&mut self, event: &TimeEventType) -> (r: TimeEventReturnType)
        requires
            time_event_requires(*old(self), *event),
        ensures
            time_event_outcome(*old(self), *final(self), *event, r),
    {
        self.handle_event(event)
    }

    pub fn handle_event(&mut self, event: &TimeEventType) -> (r: TimeEventReturnType)
        requires
            time_event_requires(*old(self), *event),
        ensures
            time_event_outcome(*old(self), *final(self), *event, r),
    {
        match event {
            TimeEventType::Internal(internal_event) => {
                match internal_event {
                    InternalTimeEventType::ReadyForNextTurn => {
                        self.ready_for_next_turn = true;
                        TimeEventReturnType::Received
                    }
                    InternalTimeEventType::StartedNextTurn => {
                        self.next_turn();
                        TimeEventReturnType::Received
                    }
                }
            }
            TimeEventType::External(external_event) => {
                match external_event {
                    ExternalTimeEventType::Pause => {
                        self.paused = true;
                        TimeEventReturnType::Received
                    }
                    ExternalTimeEventType::Start => {
                        self.paused = false;
                        TimeEventReturnType::Received
                    }
                    ExternalTimeEventType::SetSpeed(turn_min_duration_in_milli_secs) => {
                        self.turn_min_duration_in_milli_secs = *turn_min_duration_in_milli_secs;
                        TimeEventReturnType::Received
                    }
                    ExternalTimeEventType::GetTimeStackState { include_stack } => {
                        let mut state = self.snapshot_without_stack();
                        if *include_stack {
                            let mut stack: Vec<TimeEventType> = Vec::new();
                            let mut i: usize = 0;
                            proof {
                                assert(self.event_stack@.take(0) =~= Seq::<
                                    TimeEventType,
                                >::empty());
                            }
                            while i < self.event_stack.len()
                                invariant
                                    i <= self.event_stack@.len(),
                                    stack@ == self.event_stack@.take(i as int),
                                decreases self.event_stack@.len() - i,
                            {
                                proof {
                                    assert(self.event_stack@.take(i + 1).drop_last()
                                        =~= self.event_stack@.take(i as int));
                                }
                                stack.push(self.event_stack[i]);
                                i += 1;
                            }
                            proof {
                                assert(self.event_stack@.take(self.event_stack@.len() as int)
                                    =~= self.event_stack@);
                            }
                            state.event_stack = stack;
                        }
                        TimeEventReturnType::StackState(state)
                    }
                    ExternalTimeEventType::StartUntilTurn(turn) => {
                        self.pause_at_turn = Some(*turn);
                        self.paused = false;
                        TimeEventReturnType::Received
                    }
                }
            }
        }
    }

    /// Fires the next turn when and only when the clock is armed, running,
    /// and the minimal wall-clock duration has elapsed at `now`.
    pub fn request_execute_turn_at(&mut self, now: u64) -> (r: bool)
        requires
            old(self).last_turn_timestamp + old(self).turn_min_duration_in_milli_secs <= u64::MAX,
            old(self).turn < u64::MAX,
        ensures
            r == (old(self).ready_for_next_turn && !old(self).paused && now >= old(
                self,
            ).last_turn_timestamp + old(self).turn_min_duration_in_milli_secs),
            r ==> next_turn_transition(*old(self), *final(self)),
            !r ==> *final(self) == *old(self),
    {
        if self.ready_for_next_turn() && !self.paused() {
            let min_instant_where_we_can_switch_turn = self.last_turn_timestamp
                + self.turn_min_duration_in_milli_secs;
            if now >= min_instant_where_we_can_switch_turn {
                self.push_event(&TimeEventType::Internal(InternalTimeEventType::StartedNextTurn));
                return true;
            }
        }
        false
    }

    /// Reads the wall clock and fires the next turn when it is due. The
    /// gating itself is stated exactly on `request_execute_turn_at`.
    pub fn request_execute_turn(&mut self) -> (r: bool)
        requires
            old(self).last_turn_timestamp + old(self).turn_min_duration_in_milli_secs <= u64::MAX,
            old(self).turn < u64::MAX,
        ensures
            r ==> old(self).ready_for_next_turn && !old(self).paused && next_turn_transition(
                *old(self),
                *final(self),
            ),
            !r ==> *final(self) == *old(self),
    {
        let now = Self::epcoh_time();
        self.request_execute_turn_at(now)
    }

    pub fn next_turn(&mut self)
        requires
            old(self).turn < u64::MAX,
        ensures
            next_turn_transition(*old(self), *final(self)),
    {
        self.turn = self.turn + 1;
        self.ready_for_next_turn = false;
        self.last_turn_timestamp = Self::epcoh_time();

        if let Some(pause_at_turn) = self.pause_at_turn {
            if self.turn >= pause_at_turn {
                self.paused = true;
                self.pause_at_turn = None;
            }
        }
    }

    pub fn turn(&self) -> (r: u64)
        ensures
            r == self.turn,
    {
        self.turn
    }

    pub fn turn_min_duration_in_milli_secs(&self) -> (r: u64)
        ensures
            r == self.turn_min_duration_in_milli_secs,
    {
        self.turn_min_duration_in_milli_secs
    }

    pub fn last_turn_timestamp(&self) -> (r: u64)
        ensures
            r == self.last_turn_timestamp,
    {
        self.last_turn_timestamp
    }

    pub fn paused(&self) -> (r: bool)
        ensures
            r == self.paused,
    {
        self.paused
    }

    pub fn ready_for_next_turn(&self) -> (r: bool)
        ensures
            r == self.ready_for_next_turn,
    {
        self.ready_for_next_turn
    }
}

} // verus!
