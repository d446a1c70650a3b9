use vstd::prelude::*;

use crate::construct::amount::Amount;
use crate::construct::construct_position::{
    dup_external_position_event, dup_internal_position_event, position_event_outcome,
    some_slot_holds, ConstructPositionEventReturnType, ConstructPositionEventType,
    ConstructPositionSector, ConstructPositionState, ConstructPositionStatus, DockerModule,
    ExternalConstructPositionEventType, InternalConstructPositionEventType,
};
use crate::construct::production_module::{
    lemma_sum_amounts_nonneg, lemma_sum_amounts_take_le, lemma_sum_amounts_take_succ, sum_amounts,
    ProductionModule,
};
use crate::construct_module::ConstructModuleType;
use crate::products::Product;

verus! {

#[derive(Clone, PartialEq, Debug)]
pub enum ConstructEventType {
    Internal(InternalConstructEventType),
    External(ExternalConstructEventType),
}

#[derive(Clone, PartialEq, Debug)]
pub enum InternalConstructEventType {
    ExecuteTurn(u64),
    RequestLoad(Amount),
    RequestUnload(Amount),
    ConstructPosition(InternalConstructPositionEventType),
}

#[derive(Clone, PartialEq, Debug)]
pub enum ExternalConstructEventType {
    RequestLoad(Amount),
    RequestUnload(Amount),
    GetConstructState { include_stack: bool },
    ConstructPosition(ExternalConstructPositionEventType),
}

#[derive(Clone, PartialEq, Debug)]
pub enum ConstructEvenReturnType {
    RequestLoadProcessed(u32),
    RequestUnloadProcessed(u32),
    ConstructState(Construct),
    TurnExecuted,
    ConstructPosition(ConstructPositionEventReturnType),
}

/// Per-product inventory counts. A product is "stored" exactly when its
/// count is positive; an absent map entry of the wire format is a zero here.
#[derive(Clone, Copy, PartialEq, Eq, Structural, Debug)]
pub struct ProductStorage {
    pub ores: u32,
    pub metals: u32,
    pub power_cells: u32,
}

impl ProductStorage {
    pub open spec fn spec_count(self, product: Product) -> u32 {
        match product {
            Product::Ores => self.ores,
            Product::Metals => self.metals,
            Product::PowerCells => self.power_cells,
        }
    }

    pub open spec fn spec_set(self, product: Product, quantity: u32) -> Self {
        match product {
            Product::Ores => ProductStorage { ores: quantity, ..self },
            Product::Metals => ProductStorage { metals: quantity, ..self },
            Product::PowerCells => ProductStorage { power_cells: quantity, ..self },
        }
    }

    /// Everything stored, all products together.
    pub open spec fn spec_total(self) -> int {
        self.ores + self.metals + self.power_cells
    }

    pub fn new() -> (r: Self)
        ensures
            r == (ProductStorage { ores: 0u32, metals: 0u32, power_cells: 0u32 }),
    {
        ProductStorage { ores: 0, metals: 0, power_cells: 0 }
    }

    pub fn count_of(&self, product: &Product) -> (r: u32)
        ensures
            r == self.spec_count(*product),
    {
        match product {
            Product::Ores => self.ores,
            Product::Metals => self.metals,
            Product::PowerCells => self.power_cells,
        }
    }

    /// The stored quantity, `None` when nothing of the product is stored.
    pub fn get(&self, product: &Product) -> (r: Option<u32>)
        ensures
            r == if self.spec_count(*product) == 0 {
                None::<u32>
            } else {
                Some(self.spec_count(*product))
            },
    {
        let count = self.count_of(product);
        if count == 0 {
            None
        } else {
            Some(count)
        }
    }

    pub fn total(&self) -> (r: u32)
        requires
            self.spec_total() <= u32::MAX,
        ensures
            r == self.spec_total(),
    {
        self.ores + self.metals + self.power_cells
    }
}

/// Adding one amount to storage.
pub open spec fn spec_load(st: ProductStorage, amount: Amount) -> ProductStorage {
    st.spec_set(amount.product, (st.spec_count(amount.product) + amount.amount) as u32)
}

/// How much an unload of `amount` removes: all of the request when enough is
/// stored, the whole stock otherwise.
pub open spec fn spec_unloaded_amount(st: ProductStorage, amount: Amount) -> u32 {
    if st.spec_count(amount.product) < amount.amount {
        st.spec_count(amount.product)
    } else {
        amount.amount
    }
}

/// Removing one amount from storage, saturating at empty.
pub open spec fn spec_unload(st: ProductStorage, amount: Amount) -> ProductStorage {
    st.spec_set(
        amount.product,
        (st.spec_count(amount.product) - spec_unloaded_amount(st, amount)) as u32,
    )
}

/// Adds the amount to storage; callers have checked capacity.
pub fn load(current_storage: &mut ProductStorage, amount: &Amount)
    requires
        old(current_storage).spec_count(amount.product) + amount.amount <= u32::MAX,
    ensures
        *final(current_storage) == spec_load(*old(current_storage), *amount),
{
    let count = current_storage.count_of(amount.product());
    match amount.product() {
        Product::Ores => current_storage.ores = count + amount.amount(),
        Product::Metals => current_storage.metals = count + amount.amount(),
        Product::PowerCells => current_storage.power_cells = count + amount.amount(),
    }
}

/// Removes up to the requested amount and returns what was removed:
/// `min(stored, requested)`, leaving `max(0, stored - requested)` stored.
pub fn unload(current_storage: &mut ProductStorage, amount: &Amount) -> (r: u32)
    ensures
        r == spec_unloaded_amount(*old(current_storage), *amount),
        *final(current_storage) == spec_unload(*old(current_storage), *amount),
{
    let count = current_storage.count_of(amount.product());
    let removed = if count < amount.amount() {
        count
    } else {
        amount.amount()
    };
    match amount.product() {
        Product::Ores => current_storage.ores = count - removed,
        Product::Metals => current_storage.metals = count - removed,
        Product::PowerCells => current_storage.power_cells = count - removed,
    }
    removed
}

/// Everything the bill needs is stored.
pub open spec fn spec_have_all(st: ProductStorage, bill: Seq<Amount>) -> bool {
    forall|i: int| 0 <= i < bill.len() ==> st.spec_count(bill[i].product) >= bill[i].amount
}

/// Storage after adding a whole bill, in order.
pub open spec fn add_all(st: ProductStorage, bill: Seq<Amount>) -> ProductStorage
    decreases bill.len(),
{
    if bill.len() == 0 {
        st
    } else {
        spec_load(add_all(st, bill.drop_last()), bill.last())
    }
}

/// Storage after removing a whole bill, in order.
pub open spec fn consume_all(st: ProductStorage, bill: Seq<Amount>) -> ProductStorage
    decreases bill.len(),
{
    if bill.len() == 0 {
        st
    } else {
        spec_unload(consume_all(st, bill.drop_last()), bill.last())
    }
}

proof fn lemma_add_all_total(st: ProductStorage, bill: Seq<Amount>)
    ensures
        add_all(st, bill).spec_total() <= st.spec_total() + sum_amounts(bill),
    decreases bill.len(),
{
    if bill.len() > 0 {
        lemma_add_all_total(st, bill.drop_last());
    }
}

proof fn lemma_consume_all_total(st: ProductStorage, bill: Seq<Amount>)
    ensures
        consume_all(st, bill).spec_total() <= st.spec_total(),
    decreases bill.len(),
{
    if bill.len() > 0 {
        lemma_consume_all_total(st, bill.drop_last());
    }
}

/// Step 1 of the per-module turn: flush a finished batch when it fits, else
/// record the backpressure.
pub open spec fn spec_output_step(
    st: ProductStorage,
    capacity: u32,
    m: ProductionModule,
    turn: u64,
) -> (ProductStorage, ProductionModule) {
    if m.spec_will_output(turn) {
        if sum_amounts(m.output@) <= capacity - st.spec_total() {
            (
                add_all(st, m.output@),
                ProductionModule { stored_output: false, stored_input: false, ..m },
            )
        } else {
            (st, ProductionModule { stored_output: true, ..m })
        }
    } else {
        (st, m)
    }
}

/// Step 2 of the per-module turn: consume a fresh batch of inputs when every
/// required product is present in sufficient quantity.
pub open spec fn spec_input_step(st: ProductStorage, m: ProductionModule, turn: u64) -> (
    ProductStorage,
    ProductionModule,
) {
    if m.spec_require_input(turn) && spec_have_all(st, m.input@) {
        (consume_all(st, m.input@), ProductionModule { stored_input: true, ..m })
    } else {
        (st, m)
    }
}

/// One module's whole turn: flush, intake, re-arm — in that order.
pub open spec fn spec_run_module(
    st: ProductStorage,
    capacity: u32,
    m: ProductionModule,
    turn: u64,
) -> (ProductStorage, ProductionModule) {
    let (st1, m1) = spec_output_step(st, capacity, m, turn);
    let (st2, m2) = spec_input_step(st1, m1, turn);
    (st2, m2.spec_advance(turn))
}

/// A whole turn over a module list, in install order; an earlier module's
/// effect on storage is visible to a later one.
pub open spec fn spec_run_modules(
    st: ProductStorage,
    capacity: u32,
    modules: Seq<ConstructModuleType>,
    turn: u64,
) -> (ProductStorage, Seq<ConstructModuleType>)
    decreases modules.len(),
{
    if modules.len() == 0 {
        (st, Seq::empty())
    } else {
        let (st1, ms1) = spec_run_modules(st, capacity, modules.drop_last(), turn);
        match modules.last() {
            ConstructModuleType::Production(m) => {
                let (st2, m2) = spec_run_module(st1, capacity, m, turn);
                (st2, ms1.push(ConstructModuleType::Production(m2)))
            }
        }
    }
}

/// Flushes the module's output batch into storage when it fits; otherwise
/// buffers it (`stored_output`) for a retry next turn.
pub fn handle_production_output(
    current_storage: &mut ProductStorage,
    capacity: u32,
    current_turn: &u64,
    production_module: &mut ProductionModule,
)
    requires
        old(production_module).inv(),
        old(current_storage).spec_total() <= capacity,
    ensures
        (*final(current_storage), *final(production_module)) == spec_output_step(
            *old(current_storage),
            capacity,
            *old(production_module),
            *current_turn,
        ),
        final(current_storage).spec_total() <= capacity,
        final(production_module).inv(),
        final(production_module).input == old(production_module).input,
        final(production_module).output == old(production_module).output,
        final(production_module).name == old(production_module).name,
        final(production_module).production_time == old(production_module).production_time,
{
    if production_module.will_output(current_turn).is_some() {
        let ghost bill = production_module.output@;
        let mut total_output: u32 = 0;
        let mut i: usize = 0;
        proof {
            assert(bill.take(0) =~= Seq::<Amount>::empty());
        }
        while i < production_module.output.len()
            invariant
                *production_module == *old(production_module),
                old(production_module).inv(),
                bill == production_module.output@,
                i <= bill.len(),
                total_output == sum_amounts(bill.take(i as int)),
            decreases bill.len() - i,
        {
            proof {
                lemma_sum_amounts_take_succ(bill, i as int);
                lemma_sum_amounts_take_le(bill, i + 1);
                lemma_sum_amounts_nonneg(bill.take(i as int));
            }
            total_output = total_output + production_module.output[i].amount;
            i += 1;
        }
        proof {
            assert(bill.take(bill.len() as int) =~= bill);
        }

        let total_free_capacity = capacity - current_storage.total();

        if total_output <= total_free_capacity {
            let ghost st0 = *current_storage;
            let mut k: usize = 0;
            proof {
                assert(bill.take(0) =~= Seq::<Amount>::empty());
            }
            while k < production_module.output.len()
                invariant
                    *production_module == *old(production_module),
                    old(production_module).inv(),
                    bill == production_module.output@,
                    k <= bill.len(),
                    sum_amounts(bill) <= capacity - st0.spec_total(),
                    st0.spec_total() <= capacity,
                    *current_storage == add_all(st0, bill.take(k as int)),
                    current_storage.spec_total() == st0.spec_total() + sum_amounts(
                        bill.take(k as int),
                    ),
                decreases bill.len() - k,
            {
                proof {
                    lemma_sum_amounts_take_succ(bill, k as int);
                    lemma_sum_amounts_take_le(bill, k + 1);
                    assert(bill.take(k + 1).drop_last() =~= bill.take(k as int));
                }
                let next = production_module.output[k];
                load(current_storage, &next);
                k += 1;
            }
            proof {
                assert(bill.take(bill.len() as int) =~= bill);
            }
            production_module.set_stored_output(false);
            production_module.set_stored_input(false);
        } else {
            production_module.set_stored_output(true);
        }
    }
}

/// Consumes the module's input bill when everything required is stored, and
/// marks the batch as taken (`stored_input`).
pub fn handle_production_input(
    current_storage: &mut ProductStorage,
    current_turn: &u64,
    production_module: &mut ProductionModule,
)
    ensures
        (*final(current_storage), *final(production_module)) == spec_input_step(
            *old(current_storage),
            *old(production_module),
            *current_turn,
        ),
        final(current_storage).spec_total() <= old(current_storage).spec_total(),
        final(production_module).input == old(production_module).input,
        final(production_module).output == old(production_module).output,
        final(production_module).name == old(production_module).name,
        final(production_module).production_time == old(production_module).production_time,
{
    if production_module.require_input(current_turn).is_some() {
        let ghost bill = production_module.input@;

        let mut all_stored = true;
        let mut i: usize = 0;
        while i < production_module.input.len()
            invariant
                *current_storage == *old(current_storage),
                *production_module == *old(production_module),
                bill == production_module.input@,
                i <= bill.len(),
                all_stored == (forall|k: int|
                    0 <= k < i ==> current_storage.spec_count(bill[k].product) >= bill[k].amount),
            decreases bill.len() - i,
        {
            let required = production_module.input[i];
            if current_storage.count_of(&required.product) < required.amount {
                all_stored = false;
            }
            i += 1;
        }

        if all_stored {
            let ghost st0 = *current_storage;
            let mut k: usize = 0;
            proof {
                assert(bill.take(0) =~= Seq::<Amount>::empty());
                lemma_consume_all_total(st0, bill.take(0));
            }
            while k < production_module.input.len()
                invariant
                    *production_module == *old(production_module),
                    bill == production_module.input@,
                    k <= bill.len(),
                    *current_storage == consume_all(st0, bill.take(k as int)),
                decreases bill.len() - k,
            {
                proof {
                    assert(bill.take(k + 1).drop_last() =~= bill.take(k as int));
                }
                let next = production_module.input[k];
                unload(current_storage, &next);
                k += 1;
            }
            proof {
                assert(bill.take(bill.len() as int) =~= bill);
                lemma_consume_all_total(st0, bill);
            }
            production_module.set_stored_input(true);
        }
    }
}

/// There is already a module of this name.
pub open spec fn has_module_named(modules: Seq<ConstructModuleType>, name: Seq<char>) -> bool {
    exists|i: int| 0 <= i < modules.len() && modules[i].spec_name() == name
}

/// The module list after removing every module of this name.
pub open spec fn seq_remove_module(modules: Seq<ConstructModuleType>, name: Seq<char>) -> Seq<
    ConstructModuleType,
>
    decreases modules.len(),
{
    if modules.len() == 0 {
        Seq::empty()
    } else {
        let rest = seq_remove_module(modules.drop_last(), name);
        if modules.last().spec_name() == name {
            rest
        } else {
            rest.push(modules.last())
        }
    }
}

/// Rebuilds the event so that verified callers know the copy is the very
/// same value (a derived clone promises nothing).
pub(crate) fn dup_construct_event(event: &ConstructEventType) -> (r: ConstructEventType)
    ensures
        r == *event,
{
    match event {
        ConstructEventType::Internal(internal_event) => {
            ConstructEventType::Internal(
                match internal_event {
                    InternalConstructEventType::ExecuteTurn(turn) => {
                        InternalConstructEventType::ExecuteTurn(*turn)
                    }
                    InternalConstructEventType::RequestLoad(amount) => {
                        InternalConstructEventType::RequestLoad(*amount)
                    }
                    InternalConstructEventType::RequestUnload(amount) => {
                        InternalConstructEventType::RequestUnload(*amount)
                    }
                    InternalConstructEventType::ConstructPosition(position_event) => {
                        InternalConstructEventType::ConstructPosition(
                            dup_internal_position_event(position_event),
                        )
                    }
                },
            )
        }
        ConstructEventType::External(external_event) => {
            ConstructEventType::External(
                match external_event {
                    ExternalConstructEventType::RequestLoad(amount) => {
                        ExternalConstructEventType::RequestLoad(*amount)
                    }
                    ExternalConstructEventType::RequestUnload(amount) => {
                        ExternalConstructEventType::RequestUnload(*amount)
                    }
                    ExternalConstructEventType::GetConstructState { include_stack } => {
                        ExternalConstructEventType::GetConstructState {
                            include_stack: *include_stack,
                        }
                    }
                    ExternalConstructEventType::ConstructPosition(position_event) => {
                        ExternalConstructEventType::ConstructPosition(
                            dup_external_position_event(position_event),
                        )
                    }
                },
            )
        }
    }
}

fn dup_construct_events(events: &Vec<ConstructEventType>) -> (r: Vec<ConstructEventType>)
    ensures
        r@ == events@,
{
    let mut copied: Vec<ConstructEventType> = Vec::new();
    let mut i: usize = 0;
    proof {
        assert(events@.take(0) =~= Seq::<ConstructEventType>::empty());
    }
    while i < events.len()
        invariant
            i <= events@.len(),
            copied@ == events@.take(i as int),
        decreases events@.len() - i,
    {
        proof {
            assert(events@.take(i + 1).drop_last() =~= events@.take(i as int));
        }
        let event = dup_construct_event(&events[i]);
        copied.push(event);
        i += 1;
    }
    proof {
        assert(events@.take(events@.len() as int) =~= events@);
    }
    copied
}

/// Two modules carry the same data, compared by views.
pub open spec fn module_views_eq(a: ConstructModuleType, b: ConstructModuleType) -> bool {
    match (a, b) {
        (ConstructModuleType::Production(x), ConstructModuleType::Production(y)) => {
            &&& x.name@ == y.name@
            &&& x.input@ == y.input@
            &&& x.output@ == y.output@
            &&& x.production_time == y.production_time
            &&& x.production_trigger_time == y.production_trigger_time
            &&& x.stored_input == y.stored_input
            &&& x.stored_output == y.stored_output
        }
    }
}

pub open spec fn modules_views_eq(a: Seq<ConstructModuleType>, b: Seq<ConstructModuleType>) -> bool {
    a.len() == b.len() && forall|i: int| 0 <= i < a.len() ==> module_views_eq(a[i], b[i])
}

/// Two docking slots hold the same occupant, compared by views.
pub open spec fn slot_views_eq(a: DockerModule, b: DockerModule) -> bool {
    match (a.docked_construct, b.docked_construct) {
        (Some(x), Some(y)) => x@ == y@,
        (None, None) => true,
        _ => false,
    }
}

pub open spec fn position_state_views_eq(
    a: ConstructPositionState,
    b: ConstructPositionState,
) -> bool {
    &&& crate::construct::construct_position::status_eq(a.position, b.position)
    &&& a.source_construct_name@ == b.source_construct_name@
    &&& a.docker_modules@.len() == b.docker_modules@.len()
    &&& forall|i: int|
        0 <= i < a.docker_modules@.len() ==> slot_views_eq(
            a.docker_modules@[i],
            b.docker_modules@[i],
        )
}

/// The snapshot a state query hands out: the same construct, field by field
/// and view by view; the event log is the query's own business.
pub open spec fn construct_snapshot_eq(c: Construct, r: Construct) -> bool {
    &&& r.name@ == c.name@
    &&& r.capacity == c.capacity
    &&& r.current_storage == c.current_storage
    &&& modules_views_eq(r.modules@, c.modules@)
    &&& position_state_views_eq(r.position, c.position)
}

fn dup_amounts(bill: &Vec<Amount>) -> (r: Vec<Amount>)
    ensures
        r@ == bill@,
{
    let mut copied: Vec<Amount> = Vec::new();
    let mut i: usize = 0;
    proof {
        assert(bill@.take(0) =~= Seq::<Amount>::empty());
    }
    while i < bill.len()
        invariant
            i <= bill@.len(),
            copied@ == bill@.take(i as int),
        decreases bill@.len() - i,
    {
        proof {
            assert(bill@.take(i + 1).drop_last() =~= bill@.take(i as int));
        }
        copied.push(bill[i]);
        i += 1;
    }
    proof {
        assert(bill@.take(bill@.len() as int) =~= bill@);
    }
    copied
}

fn dup_module(module: &ConstructModuleType) -> (r: ConstructModuleType)
    ensures
        module_views_eq(*module, r),
{
    match module {
        ConstructModuleType::Production(production_module) => {
            ConstructModuleType::Production(
                ProductionModule {
                    name: production_module.name.clone(),
                    input: dup_amounts(&production_module.input),
                    output: dup_amounts(&production_module.output),
                    production_time: production_module.production_time,
                    production_trigger_time: production_module.production_trigger_time,
                    stored_input: production_module.stored_input,
                    stored_output: production_module.stored_output,
                },
            )
        }
    }
}

fn dup_position_state(position: &ConstructPositionState) -> (r: ConstructPositionState)
    ensures
        position_state_views_eq(*position, r),
{
    let status = match &position.position {
        ConstructPositionStatus::Docked(name) => ConstructPositionStatus::Docked(name.clone()),
        ConstructPositionStatus::Sector(sector_position) => {
            ConstructPositionStatus::Sector(*sector_position)
        }
    };
    let mut slots: Vec<DockerModule> = Vec::new();
    let mut i: usize = 0;
    while i < position.docker_modules.len()
        invariant
            i <= position.docker_modules@.len(),
            slots@.len() == i,
            forall|k: int|
                0 <= k < i ==> slot_views_eq(position.docker_modules@[k], slots@[k]),
        decreases position.docker_modules@.len() - i,
    {
        let occupant = match &position.docker_modules[i].docked_construct {
            Some(name) => Some(name.clone()),
            None => None,
        };
        slots.push(DockerModule {
            docked_construct: occupant,
        });
        i += 1;
    }
    ConstructPositionState {
        position: status,
        source_construct_name: position.source_construct_name.clone(),
        docker_modules: slots,
    }
}

/// A named, capacity-bounded inventory container owning zero or more
/// production modules and a position in the universe.
#[derive(Clone, PartialEq, Debug)]
pub struct Construct {
    pub name: String,
    pub capacity: u32,
    pub current_storage: ProductStorage,
    pub modules: Vec<ConstructModuleType>,
    pub position: ConstructPositionState,
    pub event_stack: Vec<ConstructEventType>,
}

/// What `load_request` does: `min(free, requested)` is stored; the return
/// value is the moved quantity, except that a fully blocked load (no free
/// capacity at all) returns the requested quantity unchanged.
pub open spec fn spec_load_request(c: Construct, amount: Amount) -> (Construct, u32) {
    let free = c.capacity - c.current_storage.spec_total();
    let moved = if free < amount.amount { free } else { amount.amount as int };
    if moved == 0 {
        (c, amount.amount)
    } else {
        (
            Construct {
                current_storage: spec_load(
                    c.current_storage,
                    Amount { product: amount.product, amount: moved as u32 },
                ),
                ..c
            },
            moved as u32,
        )
    }
}

/// What `unload_request` does: returns `min(stored, requested)` and leaves
/// `max(0, stored - requested)`.
pub open spec fn spec_unload_request(c: Construct, amount: Amount) -> (Construct, u32) {
    (
        Construct { current_storage: spec_unload(c.current_storage, amount), ..c },
        spec_unloaded_amount(c.current_storage, amount),
    )
}

impl Construct {
    /// Well-formedness: the inventory never exceeds the capacity
    /// (conservation), module names are unique, and every module's bill
    /// totals fit the machine arithmetic.
    pub open spec fn inv(self) -> bool {
        &&& self.current_storage.spec_total() <= self.capacity
        &&& forall|i: int| 0 <= i < self.modules@.len() ==> (#[trigger] self.modules@[i]).inv()
        &&& forall|i: int, j: int|
            0 <= i < j < self.modules@.len() ==> self.modules@[i].spec_name()
                != self.modules@[j].spec_name()
    }

    pub fn new(name: String, capacity: u32, sector_position: ConstructPositionSector) -> (r: Self)
        ensures
            r.name == name,
            r.capacity == capacity,
            r.current_storage == (ProductStorage { ores: 0u32, metals: 0u32, power_cells: 0u32 }),
            r.modules@.len() == 0,
            r.position.position == ConstructPositionStatus::Sector(sector_position),
            r.position.source_construct_name == name,
            r.position.docker_modules@.len() == 0,
            r.event_stack@.len() == 0,
            r.inv(),
    {
        let position = ConstructPositionState::new(name.clone(), sector_position);
        Construct {
            name,
            capacity,
            current_storage: ProductStorage::new(),
            modules: Vec::new(),
            position,
            event_stack: Vec::new(),
        }
    }

    pub fn name(&self) -> (r: &str)
        ensures
            r@ == self.name@,
    {
        self.name.as_str()
    }

    pub fn capacity(&self) -> (r: u32)
        ensures
            r == self.capacity,
    {
        self.capacity
    }

    pub fn current_storage(&self) -> (r: &ProductStorage)
        ensures
            r == &self.current_storage,
    {
        &self.current_storage
    }

    pub fn position(&self) -> (r: &ConstructPositionState)
        ensures
            r == &self.position,
    {
        &self.position
    }

    /// A copy of this construct with an empty event log, for state queries.
    pub fn snapshot_without_stack(&self) -> (r: Construct)
        ensures
            construct_snapshot_eq(*self, r),
            r.event_stack@ == Seq::<ConstructEventType>::empty(),
    {
        let mut modules: Vec<ConstructModuleType> = Vec::new();
        let mut i: usize = 0;
        while i < self.modules.len()
            invariant
                i <= self.modules@.len(),
                modules@.len() == i,
                forall|k: int| 0 <= k < i ==> module_views_eq(self.modules@[k], modules@[k]),
            decreases self.modules@.len() - i,
        {
            let copied = dup_module(&self.modules[i]);
            modules.push(copied);
            i += 1;
        }
        Construct {
            name: self.name.clone(),
            capacity: self.capacity,
            current_storage: self.current_storage,
            modules,
            position: dup_position_state(&self.position),
            event_stack: Vec::new(),
        }
    }

    pub fn load_request(&mut self, amount: &Amount) -> (r: u32)
        requires
            old(self).inv(),
        ensures
            final(self).inv(),
            (*final(self), r) == spec_load_request(*old(self), *amount),
    {
        let leftover_capacity = self.capacity - self.current_storage.total();
        let amount_to_be_stored = if leftover_capacity < amount.amount() {
            leftover_capacity
        } else {
            amount.amount()
        };

        if amount_to_be_stored == 0 {
            return amount.amount();
        }

        load(&mut self.current_storage, &Amount::new(*amount.product(), amount_to_be_stored));
        amount_to_be_stored
    }

    pub fn unload_request(&mut self, amount: &Amount) -> (r: u32)
        requires
            old(self).inv(),
        ensures
            final(self).inv(),
            (*final(self), r) == spec_unload_request(*old(self), *amount),
    {
        unload(&mut self.current_storage, amount)
    }

    pub fn install(&mut self, new_module: ConstructModuleType) -> (r: Result<(), String>)
        requires
            old(self).inv(),
            new_module.inv(),
        ensures
            final(self).inv(),
            if has_module_named(old(self).modules@, new_module.spec_name()) {
                &&& r is Err
                &&& *final(self) == *old(self)
            } else {
                &&& r is Ok
                &&& *final(self) == (Construct { modules: final(self).modules, ..*old(self) })
                &&& final(self).modules@ == old(self).modules@.push(new_module)
            },
    {
        let mut i: usize = 0;
        while i < self.modules.len()
            invariant
                *self == *old(self),
                old(self).inv(),
                i <= self.modules.len(),
                forall|k: int|
                    0 <= k < i ==> self.modules@[k].spec_name() != new_module.spec_name(),
            decreases self.modules.len() - i,
        {
            if self.modules[i].same_name(&new_module) {
                return Err("Module with that name already exists.".to_owned());
            }
            i += 1;
        }

        self.modules.push(new_module);
        Ok(())
    }

    pub fn uninstall(&mut self, module_name: &String) -> (r: Result<(), String>)
        requires
            old(self).inv(),
        ensures
            final(self).inv(),
            if has_module_named(old(self).modules@, module_name@) {
                &&& r is Ok
                &&& *final(self) == (Construct { modules: final(self).modules, ..*old(self) })
                &&& final(self).modules@ == seq_remove_module(old(self).modules@, module_name@)
            } else {
                &&& r is Err
                &&& *final(self) == *old(self)
            },
    {
        let mut found = false;
        let mut i: usize = 0;
        while i < self.modules.len()
            invariant
                *self == *old(self),
                old(self).inv(),
                i <= self.modules.len(),
                found == (exists|k: int|
                    0 <= k < i && (#[trigger] self.modules@[k].spec_name()) == module_name@),
            decreases self.modules.len() - i,
        {
            if self.modules[i].has_name(module_name) {
                found = true;
            }
            i += 1;
        }

        if !found {
            return Err("Module with that name is not installed.".to_owned());
        }

        let ghost old_modules = self.modules@;
        let mut k: usize = 0;
        let ghost mut j: int = 0;
        proof {
            assert(old_modules.take(0) =~= Seq::<ConstructModuleType>::empty());
            assert(self.modules@ =~= seq_remove_module(old_modules.take(0), module_name@)
                + old_modules.skip(0));
        }
        while k < self.modules.len()
            invariant
                0 <= j <= old_modules.len(),
                self.name == old(self).name,
                self.capacity == old(self).capacity,
                self.current_storage == old(self).current_storage,
                self.position == old(self).position,
                self.event_stack == old(self).event_stack,
                self.modules@ == seq_remove_module(old_modules.take(j), module_name@)
                    + old_modules.skip(j),
                k == seq_remove_module(old_modules.take(j), module_name@).len(),
                self.modules@.len() == k + old_modules.len() - j,
            decreases old_modules.len() - j,
        {
            proof {
                assert(self.modules@[k as int] == old_modules[j]);
                assert(old_modules.take(j + 1).drop_last() =~= old_modules.take(j));
            }
            if self.modules[k].has_name(module_name) {
                self.modules.remove(k);
                proof {
                    assert(self.modules@ =~= seq_remove_module(
                        old_modules.take(j + 1),
                        module_name@,
                    ) + old_modules.skip(j + 1));
                }
            } else {
                k += 1;
                proof {
                    assert(self.modules@ =~= seq_remove_module(
                        old_modules.take(j + 1),
                        module_name@,
                    ) + old_modules.skip(j + 1));
                }
            }
            proof {
                j = j + 1;
            }
        }
        proof {
            assert(old_modules.take(old_modules.len() as int) =~= old_modules);
            assert(self.modules@ =~= seq_remove_module(old_modules, module_name@));
            lemma_seq_remove_module_keeps(old_modules, module_name@);
        }
        Ok(())
    }

    /// Runs every installed module's three-step turn, in install order,
    /// against the shared storage.
    pub fn next_turn(&mut self, current_turn: &u64)
        requires
            old(self).inv(),
            *current_turn <= 0xFFFF_FFFF_0000_0000u64,
        ensures
            final(self).inv(),
            final(self).name == old(self).name,
            final(self).capacity == old(self).capacity,
            final(self).position == old(self).position,
            final(self).event_stack == old(self).event_stack,
            (final(self).current_storage, final(self).modules@) == spec_run_modules(
                old(self).current_storage,
                old(self).capacity,
                old(self).modules@,
                *current_turn,
            ),
    {
        let ghost old_modules = self.modules@;
        let ghost capacity = self.capacity;
        let ghost turn = *current_turn;
        let mut i: usize = 0;
        proof {
            assert(old_modules.take(0) =~= Seq::<ConstructModuleType>::empty());
            assert(self.modules@.skip(0) =~= old_modules.skip(0));
        }
        while i < self.modules.len()
            invariant
                old(self).inv(),
                *current_turn == turn,
                turn <= 0xFFFF_FFFF_0000_0000u64,
                i <= old_modules.len(),
                self.modules@.len() == old_modules.len(),
                self.name == old(self).name,
                self.capacity == old(self).capacity,
                capacity == old(self).capacity,
                self.position == old(self).position,
                self.event_stack == old(self).event_stack,
                old_modules == old(self).modules@,
                self.modules@.skip(i as int) == old_modules.skip(i as int),
                (self.current_storage, self.modules@.take(i as int)) == spec_run_modules(
                    old(self).current_storage,
                    capacity,
                    old_modules.take(i as int),
                    turn,
                ),
                self.current_storage.spec_total() <= capacity,
                forall|a: int|
                    0 <= a < old_modules.len() ==> (#[trigger] self.modules@[a]).inv(),
            decreases old_modules.len() - i,
        {
            proof {
                assert(self.modules@.skip(i as int)[0] == old_modules.skip(i as int)[0]);
                assert(self.modules@[i as int] == old_modules[i as int]);
                assert(old_modules[i as int].inv());
            }
            let ghost prev_modules = self.modules@;
            let mut module = self.modules.remove(i);
            match &mut module {
                ConstructModuleType::Production(production_module) => {
                    handle_production_output(
                        &mut self.current_storage,
                        self.capacity,
                        current_turn,
                        production_module,
                    );
                    handle_production_input(&mut self.current_storage, current_turn, production_module);
                    production_module.handle_turn(current_turn);
                }
            }
            self.modules.insert(i, module);
            proof {
                assert(self.modules@ =~= prev_modules.update(i as int, module));
                assert(old_modules.take(i + 1).drop_last() =~= old_modules.take(i as int));
                assert(self.modules@.take(i + 1) =~= prev_modules.take(i as int).push(module));
                assert(prev_modules.take(i as int) == spec_run_modules(
                    old(self).current_storage,
                    capacity,
                    old_modules.take(i as int),
                    turn,
                ).1);
                assert forall|k: int|
                    0 <= k < old_modules.len() - (i + 1) implies #[trigger] self.modules@.skip(
                    i + 1,
                )[k] == old_modules.skip(i + 1)[k] by {
                    assert(self.modules@.skip(i + 1)[k] == prev_modules[i + 1 + k]);
                    assert(prev_modules[i + 1 + k] == prev_modules.skip(i as int)[k + 1]);
                    assert(old_modules.skip(i as int)[k + 1] == old_modules[i + 1 + k]);
                }
                assert(self.modules@.skip(i + 1) =~= old_modules.skip(i + 1));
            }
            i += 1;
        }
        proof {
            assert(old_modules.take(old_modules.len() as int) =~= old_modules);
            assert(self.modules@.take(old_modules.len() as int) =~= self.modules@);
            lemma_run_modules_preserves_shape(
                old(self).current_storage,
                old(self).capacity,
                old_modules,
                turn,
            );
        }
    }

    pub fn push_event(&mut self, event: &ConstructEventType) -> (r: ConstructEvenReturnType)
        requires
            old(self).inv(),
            construct_event_requires(*old(self), *event),
        ensures
            final(self).inv(),
            final(self).event_stack@ == old(self).event_stack@.push(*event),
            construct_event_outcome(*old(self), *final(self), *event, r),
    {
        let logged = dup_construct_event(event);
        self.event_stack.push(logged);
        let ghost stacked = *self;
        let r = self.handle_event(event);
        proof {
            assert(construct_event_outcome(stacked, *self, *event, r));
        }
        r
    }

    pub fn handle_event(&mut self, event: &ConstructEventType) -> (r: ConstructEvenReturnType)
        requires
            old(self).inv(),
            construct_event_requires(*old(self), *event),
        ensures
            final(self).inv(),
            final(self).event_stack == old(self).event_stack,
            construct_event_outcome(*old(self), *final(self), *event, r),
    {
        match event {
            ConstructEventType::External(ExternalConstructEventType::GetConstructState {
                include_stack,
            }) => {
                let mut state = self.snapshot_without_stack();
                if *include_stack {
                    state.event_stack = dup_construct_events(&self.event_stack);
                }
                ConstructEvenReturnType::ConstructState(state)
            }
            ConstructEventType::External(ExternalConstructEventType::RequestLoad(request)) => {
                ConstructEvenReturnType::RequestLoadProcessed(self.load_request(request))
            }
            ConstructEventType::External(ExternalConstructEventType::RequestUnload(request)) => {
                ConstructEvenReturnType::RequestUnloadProcessed(self.unload_request(request))
            }
            ConstructEventType::External(ExternalConstructEventType::ConstructPosition(
                position_event,
            )) => {
                let dispatched = ConstructPositionEventType::External(
                    dup_external_position_event(position_event),
                );
                ConstructEvenReturnType::ConstructPosition(self.position.handle_event(&dispatched))
            }
            ConstructEventType::Internal(InternalConstructEventType::RequestLoad(request)) => {
                ConstructEvenReturnType::RequestLoadProcessed(self.load_request(request))
            }
            ConstructEventType::Internal(InternalConstructEventType::RequestUnload(request)) => {
                ConstructEvenReturnType::RequestUnloadProcessed(self.unload_request(request))
            }
            ConstructEventType::Internal(InternalConstructEventType::ConstructPosition(
                position_event,
            )) => {
                let dispatched = ConstructPositionEventType::Internal(
                    dup_internal_position_event(position_event),
                );
                ConstructEvenReturnType::ConstructPosition(self.position.handle_event(&dispatched))
            }
            ConstructEventType::Internal(InternalConstructEventType::ExecuteTurn(current_turn)) => {
                let turn = *current_turn;
                self.next_turn(&turn);
                ConstructEvenReturnType::TurnExecuted
            }
        }
    }
}

/// The per-event preconditions of `handle_event`: turn numbers stay clear of
/// the arithmetic limit, and an `Undocked` notice names a construct that is
/// actually in a slot.
pub open spec fn construct_event_requires(c: Construct, event: ConstructEventType) -> bool {
    &&& (event matches ConstructEventType::Internal(InternalConstructEventType::ExecuteTurn(t))
        ==> t <= 0xFFFF_FFFF_0000_0000u64)
    &&& (event matches ConstructEventType::Internal(
        InternalConstructEventType::ConstructPosition(
            InternalConstructPositionEventType::Undocked(n),
        ),
    ) ==> some_slot_holds(c.position.docker_modules@, n@))
}

/// What `handle_event` does, case by case; the event stack is dealt with by
/// the caller (`push_event` appends, `handle_event` leaves it alone).
pub open spec fn construct_event_outcome(
    old_c: Construct,
    new_c: Construct,
    event: ConstructEventType,
    r: ConstructEvenReturnType,
) -> bool {
    match event {
        ConstructEventType::External(ExternalConstructEventType::GetConstructState {
            include_stack,
        }) => {
            &&& same_but_event_stack(old_c, new_c)
            &&& r matches ConstructEvenReturnType::ConstructState(state)
                && construct_snapshot_eq(old_c, state) && state.event_stack@ == if include_stack {
                new_c.event_stack@
            } else {
                Seq::<ConstructEventType>::empty()
            }
        }
        ConstructEventType::External(ExternalConstructEventType::RequestLoad(request)) => {
            load_outcome(old_c, new_c, request, r)
        }
        ConstructEventType::Internal(InternalConstructEventType::RequestLoad(request)) => {
            load_outcome(old_c, new_c, request, r)
        }
        ConstructEventType::External(ExternalConstructEventType::RequestUnload(request)) => {
            unload_outcome(old_c, new_c, request, r)
        }
        ConstructEventType::Internal(InternalConstructEventType::RequestUnload(request)) => {
            unload_outcome(old_c, new_c, request, r)
        }
        ConstructEventType::External(ExternalConstructEventType::ConstructPosition(
            position_event,
        )) => {
            position_dispatch_outcome(
                old_c,
                new_c,
                ConstructPositionEventType::External(position_event),
                r,
            )
        }
        ConstructEventType::Internal(InternalConstructEventType::ConstructPosition(
            position_event,
        )) => {
            position_dispatch_outcome(
                old_c,
                new_c,
                ConstructPositionEventType::Internal(position_event),
                r,
            )
        }
        ConstructEventType::Internal(InternalConstructEventType::ExecuteTurn(current_turn)) => {
            &&& r is TurnExecuted
            &&& same_but_event_stack(
                Construct { current_storage: new_c.current_storage, modules: new_c.modules, ..old_c },
                new_c,
            )
            &&& (new_c.current_storage, new_c.modules@) == spec_run_modules(
                old_c.current_storage,
                old_c.capacity,
                old_c.modules@,
                current_turn,
            )
        }
    }
}

/// Equal in every field except, possibly, the event stack.
pub open spec fn same_but_event_stack(a: Construct, b: Construct) -> bool {
    &&& a.name == b.name
    &&& a.capacity == b.capacity
    &&& a.current_storage == b.current_storage
    &&& a.modules == b.modules
    &&& a.position == b.position
}

pub open spec fn load_outcome(
    old_c: Construct,
    new_c: Construct,
    request: Amount,
    r: ConstructEvenReturnType,
) -> bool {
    &&& r matches ConstructEvenReturnType::RequestLoadProcessed(moved) && (
    Construct { event_stack: old_c.event_stack, ..new_c },
    moved,
    ) == spec_load_request(old_c, request)
}

pub open spec fn unload_outcome(
    old_c: Construct,
    new_c: Construct,
    request: Amount,
    r: ConstructEvenReturnType,
) -> bool {
    r matches ConstructEvenReturnType::RequestUnloadProcessed(removed) && (
    Construct { event_stack: old_c.event_stack, ..new_c },
    removed,
    ) == spec_unload_request(old_c, request)
}

pub open spec fn position_dispatch_outcome(
    old_c: Construct,
    new_c: Construct,
    position_event: ConstructPositionEventType,
    r: ConstructEvenReturnType,
) -> bool {
    &&& same_but_event_stack(
        Construct { position: new_c.position, ..old_c },
        new_c,
    )
    &&& r matches ConstructEvenReturnType::ConstructPosition(pr) && position_event_outcome(
        old_c.position,
        new_c.position,
        position_event,
        pr,
    )
}

/// Removing modules by name keeps every survivor a member of the original
/// list, in order; uniqueness and module invariants carry over.
pub(crate) proof fn lemma_seq_remove_module_keeps(modules: Seq<ConstructModuleType>, name: Seq<char>)
    ensures
        forall|a: int|
            0 <= a < seq_remove_module(modules, name).len() ==> exists|b: int|
                0 <= b < modules.len() && modules[b] == #[trigger] seq_remove_module(
                    modules,
                    name,
                )[a],
        seq_remove_module(modules, name).len() <= modules.len(),
        (forall|i: int, j: int|
            0 <= i < j < modules.len() ==> modules[i].spec_name() != modules[j].spec_name())
            ==> forall|i: int, j: int|
            0 <= i < j < seq_remove_module(modules, name).len()
                ==> seq_remove_module(modules, name)[i].spec_name() != seq_remove_module(
                modules,
                name,
            )[j].spec_name(),
    decreases modules.len(),
{
    if modules.len() > 0 {
        lemma_seq_remove_module_keeps(modules.drop_last(), name);
        assert forall|b: int| 0 <= b < modules.drop_last().len() implies modules.drop_last()[b]
            == modules[b] by {}
    }
}

/// Running a turn never changes a module's name or bills, so uniqueness and
/// the bill bounds survive the turn.
proof fn lemma_run_modules_preserves_shape(
    st: ProductStorage,
    capacity: u32,
    modules: Seq<ConstructModuleType>,
    turn: u64,
)
    ensures
        spec_run_modules(st, capacity, modules, turn).1.len() == modules.len(),
        forall|i: int|
            0 <= i < modules.len() ==> (#[trigger] spec_run_modules(
                st,
                capacity,
                modules,
                turn,
            ).1[i]).spec_name() == modules[i].spec_name(),
    decreases modules.len(),
{
    if modules.len() > 0 {
        lemma_run_modules_preserves_shape(st, capacity, modules.drop_last(), turn);
    }
}

/// Conservation law: however a turn goes, a construct's stored total never
/// exceeds its capacity afterwards, provided it did not before. Together
/// with the load and unload contracts this bounds the inventory under any
/// sequence of loads, unloads and production turns.
pub proof fn lemma_turn_conserves_capacity(
    st: ProductStorage,
    capacity: u32,
    modules: Seq<ConstructModuleType>,
    turn: u64,
)
    requires
        st.spec_total() <= capacity,
    ensures
        spec_run_modules(st, capacity, modules, turn).0.spec_total() <= capacity,
    decreases modules.len(),
{
    if modules.len() > 0 {
        lemma_turn_conserves_capacity(st, capacity, modules.drop_last(), turn);
        let st1 = spec_run_modules(st, capacity, modules.drop_last(), turn).0;
        match modules.last() {
            ConstructModuleType::Production(m) => {
                let (st2, m2) = spec_output_step(st1, capacity, m, turn);
                if m.spec_will_output(turn) && sum_amounts(m.output@) <= capacity
                    - st1.spec_total() {
                    lemma_add_all_total(st1, m.output@);
                }
                let (st3, m3) = spec_input_step(st2, m2, turn);
                if m2.spec_require_input(turn) && spec_have_all(st2, m2.input@) {
                    lemma_consume_all_total(st2, m2.input@);
                }
            }
        }
    }
}

} // verus!
