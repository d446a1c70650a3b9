use vstd::prelude::*;

use crate::messages::{
    msg_station_load_no_room, msg_station_load_wrong_product, msg_station_unload_no_stock,
    msg_station_unload_wrong_product,
};
use crate::products::Product;

verus! {

/// A request to load or unload one product at a station.
#[derive(Clone, Copy, PartialEq, Eq, Structural, Debug)]
pub struct LoadingRequest {
    pub product: Product,
    pub amount: u32,
}

impl LoadingRequest {
    pub fn new(product: Product, amount: u32) -> (r: Self)
        ensures
            r == (LoadingRequest { product, amount }),
    {
        LoadingRequest { product, amount }
    }
}

#[derive(Clone, Copy, PartialEq, Eq, Structural, Debug)]
pub enum StationEventType {
    Internal(InternalStationEventType),
    External(ExternalStationEventType),
}

#[derive(Clone, Copy, PartialEq, Eq, Structural, Debug)]
pub enum InternalStationEventType {
    ExecuteTurn(u64),
}

#[derive(Clone, Copy, PartialEq, Eq, Structural, Debug)]
pub enum ExternalStationEventType {
    RequestLoad(LoadingRequest),
    RequestUnload(LoadingRequest),
    GetStationState { include_stack: bool },
}

#[derive(Clone, PartialEq, Debug)]
pub enum StationEvenReturnType {
    Denied(String),
    Approved,
    StationState(Station),
    TurnExecuted,
}

/// A per-product store of the legacy station: the batch quantity together
/// with its own stock and bound.
#[derive(Clone, Copy, PartialEq, Eq, Structural, Debug)]
pub struct Amount {
    pub product: Product,
    pub amount: u32,
    pub current_storage: u32,
    pub max_storage: u32,
}

impl Amount {
    pub fn product(&self) -> (r: &Product)
        ensures
            *r == self.product,
    {
        &self.product
    }

    pub fn amount(&self) -> (r: u32)
        ensures
            r == self.amount,
    {
        self.amount
    }

    pub fn current_storage(&self) -> (r: u32)
        ensures
            r == self.current_storage,
    {
        self.current_storage
    }

    pub fn max_storage(&self) -> (r: u32)
        ensures
            r == self.max_storage,
    {
        self.max_storage
    }

    pub fn new(product: Product, amount: u32, current_storage: u32, max_storage: u32) -> (r: Self)
        ensures
            r == (Amount { product, amount, current_storage, max_storage }),
    {
        Self { product, amount, current_storage, max_storage }
    }
}

/// The station's fixed recipe with per-product stores.
#[derive(Clone, PartialEq, Debug)]
pub struct Production {
    pub input: Vec<Amount>,
    pub output: Vec<Amount>,
    pub production_time: u32,
    pub production_trigger_time: u64,
}

impl Production {
    pub fn input(&self) -> (r: &Vec<Amount>)
        ensures
            r == &self.input,
    {
        &self.input
    }

    pub fn output(&self) -> (r: &Vec<Amount>)
        ensures
            r == &self.output,
    {
        &self.output
    }

    pub fn production_time(&self) -> (r: u32)
        ensures
            r == self.production_time,
    {
        self.production_time
    }

    pub fn production_trigger_time(&self) -> (r: u64)
        ensures
            r == self.production_trigger_time,
    {
        self.production_trigger_time
    }

    pub fn new(input: Vec<Amount>, output: Vec<Amount>, production_time: u32,
        production_trigger_time: u64) -> (r: Self)
        ensures
            r == (Production { input, output, production_time, production_trigger_time }),
    {
        Self { input, output, production_time, production_trigger_time }
    }
}

/// The legacy station: a single recipe with per-product stores instead of a
/// shared inventory.
#[derive(Clone, PartialEq, Debug)]
pub struct Station {
    pub name: String,
    pub production: Production,
    pub event_stack: Vec<StationEventType>,
}

/// `i` is the first store of this product.
pub open spec fn first_store_of(bill: Seq<Amount>, product: Product, i: int) -> bool {
    &&& 0 <= i < bill.len()
    &&& bill[i].product == product
    &&& forall|k: int| 0 <= k < i ==> bill[k].product != product
}

pub open spec fn has_store_of(bill: Seq<Amount>, product: Product) -> bool {
    exists|i: int| 0 <= i < bill.len() && bill[i].product == product
}

/// Every input store holds at least one batch of its product.
pub open spec fn station_have_all(input: Seq<Amount>) -> bool {
    forall|i: int| 0 <= i < input.len() ==> input[i].current_storage >= input[i].amount
}

/// Every output store has room for one more batch.
pub open spec fn station_have_room(output: Seq<Amount>) -> bool {
    forall|i: int|
        0 <= i < output.len() ==> output[i].current_storage + output[i].amount
            <= output[i].max_storage
}

/// Every input store consumed one batch.
pub open spec fn inputs_consumed(old_in: Seq<Amount>, new_in: Seq<Amount>) -> bool {
    &&& new_in.len() == old_in.len()
    &&& forall|i: int|
        0 <= i < old_in.len() ==> new_in[i] == (Amount {
            current_storage: (old_in[i].current_storage - old_in[i].amount) as u32,
            ..old_in[i]
        })
}

/// Every output store gained one batch.
pub open spec fn outputs_added(old_out: Seq<Amount>, new_out: Seq<Amount>) -> bool {
    &&& new_out.len() == old_out.len()
    &&& forall|i: int|
        0 <= i < old_out.len() ==> new_out[i] == (Amount {
            current_storage: (old_out[i].current_storage + old_out[i].amount) as u32,
            ..old_out[i]
        })
}

/// What a station turn does: when the timer has expired, a batch of inputs
/// is consumed (when present) and the timer re-armed; then, if the timer
/// was ever armed and there is room, a batch of outputs is added.
pub open spec fn station_turn_rel(old_p: Production, new_p: Production, turn: u64) -> bool {
    if turn >= old_p.production_trigger_time {
        let consumed = station_have_all(old_p.input@);
        let trigger = if consumed {
            (turn + old_p.production_time) as u64
        } else {
            old_p.production_trigger_time
        };
        &&& new_p.production_time == old_p.production_time
        &&& new_p.production_trigger_time == trigger
        &&& if consumed {
            inputs_consumed(old_p.input@, new_p.input@)
        } else {
            new_p.input == old_p.input
        }
        &&& if trigger > 0 && station_have_room(old_p.output@) {
            outputs_added(old_p.output@, new_p.output@)
        } else {
            new_p.output == old_p.output
        }
    } else {
        new_p == old_p
    }
}

/// What a station does with each event; the event log is the caller's
/// business (`push_event` appends one entry).
pub open spec fn station_event_outcome(
    old_s: Station,
    new_s: Station,
    event: StationEventType,
    r: StationEvenReturnType,
) -> bool {
    &&& new_s.name == old_s.name
    &&& match event {
        StationEventType::External(ExternalStationEventType::GetStationState {
            include_stack,
        }) => {
            &&& new_s.production == old_s.production
            &&& r matches StationEvenReturnType::StationState(state) && station_snapshot_eq(
                old_s,
                new_s,
                state,
                include_stack,
            )
        }
        StationEventType::External(ExternalStationEventType::RequestLoad(request)) => {
            if has_store_of(old_s.production.input@, request.product) {
                let i = choose|i: int| first_store_of(old_s.production.input@, request.product, i);
                let store = old_s.production.input@[i];
                if store.current_storage + request.amount <= store.max_storage {
                    &&& r is Approved
                    &&& new_s.production.output == old_s.production.output
                    &&& new_s.production.production_time == old_s.production.production_time
                    &&& new_s.production.production_trigger_time
                        == old_s.production.production_trigger_time
                    &&& new_s.production.input@ == old_s.production.input@.update(
                        i,
                        Amount {
                            current_storage: (store.current_storage + request.amount) as u32,
                            ..store
                        },
                    )
                } else {
                    r is Denied && new_s.production == old_s.production
                }
            } else {
                r is Denied && new_s.production == old_s.production
            }
        }
        StationEventType::External(ExternalStationEventType::RequestUnload(request)) => {
            if has_store_of(old_s.production.output@, request.product) {
                let i = choose|i: int|
                    first_store_of(old_s.production.output@, request.product, i);
                let store = old_s.production.output@[i];
                if store.current_storage >= request.amount {
                    &&& r is Approved
                    &&& new_s.production.input == old_s.production.input
                    &&& new_s.production.production_time == old_s.production.production_time
                    &&& new_s.production.production_trigger_time
                        == old_s.production.production_trigger_time
                    &&& new_s.production.output@ == old_s.production.output@.update(
                        i,
                        Amount {
                            current_storage: (store.current_storage - request.amount) as u32,
                            ..store
                        },
                    )
                } else {
                    r is Denied && new_s.production == old_s.production
                }
            } else {
                r is Denied && new_s.production == old_s.production
            }
        }
        StationEventType::Internal(InternalStationEventType::ExecuteTurn(turn)) => {
            &&& r is TurnExecuted
            &&& station_turn_rel(old_s.production, new_s.production, turn)
        }
    }
}

/// The snapshot a state query hands out: the same station, view by view.
/// The event log is included only on request, as it stands when the query
/// itself has been logged.
pub open spec fn station_snapshot_eq(
    old_s: Station,
    new_s: Station,
    r: Station,
    include_stack: bool,
) -> bool {
    &&& r.name@ == old_s.name@
    &&& r.production.input@ == old_s.production.input@
    &&& r.production.output@ == old_s.production.output@
    &&& r.production.production_time == old_s.production.production_time
    &&& r.production.production_trigger_time == old_s.production.production_trigger_time
    &&& r.event_stack@ == if include_stack {
        new_s.event_stack@
    } else {
        Seq::<StationEventType>::empty()
    }
}

fn dup_stores(stores: &Vec<Amount>) -> (r: Vec<Amount>)
    ensures
        r@ == stores@,
{
    let mut copied: Vec<Amount> = Vec::new();
    let mut i: usize = 0;
    proof {
        assert(stores@.take(0) =~= Seq::<Amount>::empty());
    }
    while i < stores.len()
        invariant
            i <= stores@.len(),
            copied@ == stores@.take(i as int),
        decreases stores@.len() - i,
    {
        proof {
            assert(stores@.take(i + 1).drop_last() =~= stores@.take(i as int));
        }
        copied.push(stores[i]);
        i += 1;
    }
    proof {
        assert(stores@.take(stores@.len() as int) =~= stores@);
    }
    copied
}

fn dup_station_events(events: &Vec<StationEventType>) -> (r: Vec<StationEventType>)
    ensures
        r@ == events@,
{
    let mut copied: Vec<StationEventType> = Vec::new();
    let mut i: usize = 0;
    proof {
        assert(events@.take(0) =~= Seq::<StationEventType>::empty());
    }
    while i < events.len()
        invariant
            i <= events@.len(),
            copied@ == events@.take(i as int),
        decreases events@.len() - i,
    {
        proof {
            assert(events@.take(i + 1).drop_last() =~= events@.take(i as int));
        }
        copied.push(events[i]);
        i += 1;
    }
    proof {
        assert(events@.take(events@.len() as int) =~= events@);
    }
    copied
}

/// Index of the first store of this product, if any.
fn find_store_of(bill: &Vec<Amount>, product: &Product) -> (r: Option<usize>)
    ensures
        r matches Some(i) ==> first_store_of(bill@, *product, i as int),
        r is None ==> !has_store_of(bill@, *product),
{
    let mut i: usize = 0;
    while i < bill.len()
        invariant
            i <= bill.len(),
            forall|k: int| 0 <= k < i ==> bill@[k].product != *product,
        decreases bill.len() - i,
    {
        if bill[i].product == *product {
            return Some(i);
        }
        i += 1;
    }
    None
}

impl Station {
    /// Well-formedness: no input store is over its bound.
    pub open spec fn inv(self) -> bool {
        forall|i: int|
            0 <= i < self.production.input@.len() ==> self.production.input@[i].current_storage
                <= self.production.input@[i].max_storage
    }

    pub fn name(&self) -> (r: &str)
        ensures
            r@ == self.name@,
    {
        self.name.as_str()
    }

    pub fn production(&self) -> (r: &Production)
        ensures
            r == &self.production,
    {
        &self.production
    }

    pub fn event_stack(&self) -> (r: &Vec<StationEventType>)
        ensures
            r == &self.event_stack,
    {
        &self.event_stack
    }

    pub fn new(name: String, production: Production) -> (r: Self)
        ensures
            r.name == name,
            r.production == production,
            r.event_stack@.len() == 0,
    {
        Station { name, production, event_stack: Vec::new() }
    }

    pub fn push_event(&mut self, event: &StationEventType) -> (r: StationEvenReturnType)
        requires
            old(self).inv(),
            event matches StationEventType::Internal(InternalStationEventType::ExecuteTurn(t))
                ==> t <= 0xFFFF_FFFF_0000_0000u64,
        ensures
            final(self).inv(),
            final(self).event_stack@ == old(self).event_stack@.push(*event),
            station_event_outcome(*old(self), *final(self), *event, r),
    {
        self.event_stack.push(*event);
        let r = self.handle_event(event);
        r
    }

    fn handle_event(&mut self, event: &StationEventType) -> (r: StationEvenReturnType)
        requires
            old(self).inv(),
            event matches StationEventType::Internal(InternalStationEventType::ExecuteTurn(t))
                ==> t <= 0xFFFF_FFFF_0000_0000u64,
        ensures
            final(self).inv(),
            final(self).event_stack == old(self).event_stack,
            station_event_outcome(*old(self), *final(self), *event, r),
    {
        match event {
            StationEventType::External(ExternalStationEventType::GetStationState {
                include_stack,
            }) => {
                let event_stack: Vec<StationEventType> = if *include_stack {
                    dup_station_events(&self.event_stack)
                } else {
                    Vec::new()
                };
                let state = Station {
                    name: self.name.clone(),
                    production: Production {
                        input: dup_stores(&self.production.input),
                        output: dup_stores(&self.production.output),
                        production_time: self.production.production_time,
                        production_trigger_time: self.production.production_trigger_time,
                    },
                    event_stack,
                };
                StationEvenReturnType::StationState(state)
            }
            StationEventType::External(ExternalStationEventType::RequestLoad(request)) => {
                match find_store_of(&self.production.input, &request.product) {
                    Some(i) => {
                        let store = self.production.input[i];
                        match store.current_storage.checked_add(request.amount) {
                            Some(new_current_amount) => {
                                if new_current_amount <= store.max_storage {
                                    let mut updated = self.production.input.remove(i);
                                    updated.current_storage = new_current_amount;
                                    self.production.input.insert(i, updated);
                                    proof {
                                        assert(self.production.input@ =~= old(
                                            self,
                                        ).production.input@.update(i as int, updated));
                                    }
                                    return StationEvenReturnType::Approved;
                                }
                            }
                            None => {}
                        }
                        StationEvenReturnType::Denied(
                            msg_station_load_no_room(
                                request.amount,
                                store.max_storage - store.current_storage,
                            ),
                        )
                    }
                    None => {
                        StationEvenReturnType::Denied(
                            msg_station_load_wrong_product(&request.product),
                        )
                    }
                }
            }
            StationEventType::External(ExternalStationEventType::RequestUnload(request)) => {
                match find_store_of(&self.production.output, &request.product) {
                    Some(i) => {
                        let store = self.production.output[i];
                        match store.current_storage.checked_sub(request.amount) {
                            Some(new_current_storage) => {
                                let mut updated = self.production.output.remove(i);
                                updated.current_storage = new_current_storage;
                                self.production.output.insert(i, updated);
                                proof {
                                    assert(self.production.output@ =~= old(
                                        self,
                                    ).production.output@.update(i as int, updated));
                                }
                                StationEvenReturnType::Approved
                            }
                            None => {
                                StationEvenReturnType::Denied(
                                    msg_station_unload_no_stock(
                                        request.amount,
                                        store.current_storage,
                                    ),
                                )
                            }
                        }
                    }
                    None => {
                        StationEvenReturnType::Denied(
                            msg_station_unload_wrong_product(&request.product),
                        )
                    }
                }
            }
            StationEventType::Internal(InternalStationEventType::ExecuteTurn(current_turn)) => {
                let turn = *current_turn;
                self.next_turn(&turn);
                StationEvenReturnType::TurnExecuted
            }
        }
    }

    fn have_all_inputs(&mut self) -> (r: bool)
        ensures
            *final(self) == *old(self),
            r == station_have_all(old(self).production.input@),
    {
        let mut i: usize = 0;
        while i < self.production.input.len()
            invariant
                *self == *old(self),
                i <= self.production.input@.len(),
                forall|k: int|
                    0 <= k < i ==> self.production.input@[k].current_storage
                        >= self.production.input@[k].amount,
            decreases self.production.input@.len() - i,
        {
            let store = self.production.input[i];
            if store.current_storage < store.amount {
                return false;
            }
            i += 1;
        }
        true
    }

    fn subtract_all_inputs(&mut self)
        requires
            station_have_all(old(self).production.input@),
        ensures
            final(self).name == old(self).name,
            final(self).event_stack == old(self).event_stack,
            final(self).production.output == old(self).production.output,
            final(self).production.production_time == old(self).production.production_time,
            final(self).production.production_trigger_time == old(
                self,
            ).production.production_trigger_time,
            inputs_consumed(old(self).production.input@, final(self).production.input@),
    {
        let ghost old_in = self.production.input@;
        let mut i: usize = 0;
        while i < self.production.input.len()
            invariant
                station_have_all(old_in),
                self.name == old(self).name,
                self.event_stack == old(self).event_stack,
                self.production.output == old(self).production.output,
                self.production.production_time == old(self).production.production_time,
                self.production.production_trigger_time == old(
                    self,
                ).production.production_trigger_time,
                i <= old_in.len(),
                self.production.input@.len() == old_in.len(),
                forall|k: int| i <= k < old_in.len() ==> self.production.input@[k] == old_in[k],
                forall|k: int|
                    0 <= k < i ==> self.production.input@[k] == (Amount {
                        current_storage: (old_in[k].current_storage - old_in[k].amount) as u32,
                        ..old_in[k]
                    }),
            decreases old_in.len() - i,
        {
            let ghost before = self.production.input@;
            let mut updated = self.production.input.remove(i);
            updated.current_storage = updated.current_storage - updated.amount;
            self.production.input.insert(i, updated);
            proof {
                assert(self.production.input@ =~= before.update(i as int, updated));
            }
            i += 1;
        }
    }

    fn have_room_for_outputs(&mut self) -> (r: bool)
        ensures
            *final(self) == *old(self),
            r == station_have_room(old(self).production.output@),
    {
        let mut i: usize = 0;
        while i < self.production.output.len()
            invariant
                *self == *old(self),
                i <= self.production.output@.len(),
                forall|k: int|
                    0 <= k < i ==> self.production.output@[k].current_storage
                        + self.production.output@[k].amount
                        <= self.production.output@[k].max_storage,
            decreases self.production.output@.len() - i,
        {
            let store = self.production.output[i];
            if (store.current_storage as u64) + (store.amount as u64) > (store.max_storage
                as u64) {
                return false;
            }
            i += 1;
        }
        true
    }

    fn add_all_outputs(&mut self)
        requires
            station_have_room(old(self).production.output@),
        ensures
            final(self).name == old(self).name,
            final(self).event_stack == old(self).event_stack,
            final(self).production.input == old(self).production.input,
            final(self).production.production_time == old(self).production.production_time,
            final(self).production.production_trigger_time == old(
                self,
            ).production.production_trigger_time,
            outputs_added(old(self).production.output@, final(self).production.output@),
    {
        let ghost old_out = self.production.output@;
        let mut i: usize = 0;
        while i < self.production.output.len()
            invariant
                station_have_room(old_out),
                self.name == old(self).name,
                self.event_stack == old(self).event_stack,
                self.production.input == old(self).production.input,
                self.production.production_time == old(self).production.production_time,
                self.production.production_trigger_time == old(
                    self,
                ).production.production_trigger_time,
                i <= old_out.len(),
                self.production.output@.len() == old_out.len(),
                forall|k: int| i <= k < old_out.len() ==> self.production.output@[k] == old_out[k],
                forall|k: int|
                    0 <= k < i ==> self.production.output@[k] == (Amount {
                        current_storage: (old_out[k].current_storage + old_out[k].amount) as u32,
                        ..old_out[k]
                    }),
            decreases old_out.len() - i,
        {
            let ghost before = self.production.output@;
            let mut updated = self.production.output.remove(i);
            updated.current_storage = updated.current_storage + updated.amount;
            self.production.output.insert(i, updated);
            proof {
                assert(self.production.output@ =~= before.update(i as int, updated));
            }
            i += 1;
        }
    }

    /// One turn of the single recipe: consume a batch and re-arm, then
    /// flush a batch when the timer was ever armed and there is room.
    pub fn next_turn(&mut self, current_turn: &u64)
        requires
            old(self).inv(),
            *current_turn <= 0xFFFF_FFFF_0000_0000u64,
        ensures
            final(self).inv(),
            final(self).name == old(self).name,
            final(self).event_stack == old(self).event_stack,
            station_turn_rel(old(self).production, final(self).production, *current_turn),
    {
        if *current_turn >= self.production.production_trigger_time {
            if self.have_all_inputs() {
                self.subtract_all_inputs();
                self.production.production_trigger_time = *current_turn
                    + self.production.production_time as u64;
            }
            if self.production.production_trigger_time > 0 && self.have_room_for_outputs() {
                self.add_all_outputs();
            }
        }
    }
}

} // verus!
