use vstd::prelude::*;

pub use crate::construct::amount::Amount;
use crate::construct::construct::{add_all, consume_all, spec_have_all};
use crate::construct::production_module::{
    distinct_products, lemma_sum_amounts_nonneg, lemma_sum_amounts_take_le,
    lemma_sum_amounts_take_succ, sum_amounts,
};
use crate::production::cosntruct::Construct;

verus! {

/// The early recipe state machine, paired with the early construct design:
/// its turn flushes any finished batch whenever it fits, then consumes a
/// fresh batch and re-arms the timer.
#[derive(Clone, PartialEq, Debug)]
pub struct ProductionModule {
    pub name: String,
    pub input: Vec<Amount>,
    pub output: Vec<Amount>,
    pub production_time: u32,
    pub production_trigger_time: u64,
    pub stored_input: bool,
    pub stored_output: bool,
}

/// What the early per-module turn does.
pub open spec fn spec_next_turn(
    st: crate::construct::construct::ProductStorage,
    capacity: u32,
    m: ProductionModule,
    turn: u64,
) -> (crate::construct::construct::ProductStorage, ProductionModule) {
    if turn >= m.production_trigger_time {
        let st1 = if m.production_trigger_time > 0 && sum_amounts(m.output@) + st.spec_total()
            <= capacity {
            add_all(st, m.output@)
        } else {
            st
        };
        if spec_have_all(st1, m.input@) {
            (
                consume_all(st1, m.input@),
                ProductionModule {
                    production_trigger_time: (turn + m.production_time) as u64,
                    ..m
                },
            )
        } else {
            (st1, m)
        }
    } else {
        (st, m)
    }
}

impl ProductionModule {
    /// Bills whose totals fit in a `u32`.
    pub open spec fn inv(self) -> bool {
        &&& sum_amounts(self.input@) <= u32::MAX
        &&& sum_amounts(self.output@) <= u32::MAX
    }

    pub fn new(
        name: String,
        input: Vec<Amount>,
        output: Vec<Amount>,
        production_time: u32,
        production_trigger_time: u64,
    ) -> (r: Self)
        requires
            sum_amounts(input@) <= u32::MAX,
            sum_amounts(output@) <= u32::MAX,
        ensures
            r == (ProductionModule {
                name,
                input,
                output,
                production_time,
                production_trigger_time,
                stored_input: false,
                stored_output: false,
            }),
            r.inv(),
    {
        Self {
            name,
            input,
            output,
            production_time,
            production_trigger_time,
            stored_input: false,
            stored_output: false,
        }
    }

    fn have_all_inputs(&mut self, construct: &Construct) -> (r: bool)
        ensures
            *final(self) == *old(self),
            r == spec_have_all(construct.current_storage, old(self).input@),
    {
        let ghost bill = self.input@;
        let mut i: usize = 0;
        while i < self.input.len()
            invariant
                *self == *old(self),
                bill == self.input@,
                i <= bill.len(),
                forall|k: int|
                    0 <= k < i ==> construct.current_storage.spec_count(bill[k].product)
                        >= bill[k].amount,
            decreases bill.len() - i,
        {
            let required = self.input[i];
            if construct.current_storage.count_of(&required.product) < required.amount {
                return false;
            }
            i += 1;
        }
        true
    }

    fn subtract_all_inputs(&mut self, construct: &mut Construct)
        requires
            old(construct).inv(),
            old(self).inv(),
            distinct_products(old(self).input@),
            spec_have_all(old(construct).current_storage, old(self).input@),
        ensures
            *final(self) == *old(self),
            final(construct).inv(),
            *final(construct) == (Construct {
                current_storage: consume_all(old(construct).current_storage, old(self).input@),
                ..*old(construct)
            }),
    {
        let ghost bill = self.input@;
        let ghost st0 = construct.current_storage;
        let mut k: usize = 0;
        proof {
            assert(bill.take(0) =~= Seq::<Amount>::empty());
        }
        while k < self.input.len()
            invariant
                *self == *old(self),
                old(construct).inv(),
                old(self).inv(),
                distinct_products(bill),
                spec_have_all(st0, bill),
                bill == self.input@,
                st0 == old(construct).current_storage,
                k <= bill.len(),
                construct.inv(),
                *construct == (Construct {
                    current_storage: consume_all(st0, bill.take(k as int)),
                    ..*old(construct)
                }),
                forall|m: int|
                    k <= m < bill.len() ==> construct.current_storage.spec_count(
                        #[trigger] bill[m].product,
                    ) == st0.spec_count(bill[m].product),
            decreases bill.len() - k,
        {
            proof {
                assert(bill.take(k + 1).drop_last() =~= bill.take(k as int));
            }
            let next = self.input[k];
            let leftover = construct.unload(&next.product, next.amount);
            proof {
                assert(leftover == next.amount);
            }
            k += 1;
        }
        proof {
            assert(bill.take(bill.len() as int) =~= bill);
        }
    }

    fn have_room_for_outputs(&mut self, construct: &Construct) -> (r: bool)
        requires
            old(self).inv(),
            construct.inv(),
        ensures
            *final(self) == *old(self),
            r == (sum_amounts(old(self).output@) + construct.current_storage.spec_total()
                <= construct.capacity),
    {
        let ghost bill = self.output@;
        let mut total_need: u32 = 0;
        let mut i: usize = 0;
        proof {
            assert(bill.take(0) =~= Seq::<Amount>::empty());
        }
        while i < self.output.len()
            invariant
                *self == *old(self),
                old(self).inv(),
                bill == self.output@,
                i <= bill.len(),
                total_need == sum_amounts(bill.take(i as int)),
            decreases bill.len() - i,
        {
            proof {
                lemma_sum_amounts_take_succ(bill, i as int);
                lemma_sum_amounts_take_le(bill, i + 1);
                lemma_sum_amounts_nonneg(bill.take(i as int));
            }
            total_need = total_need + self.output[i].amount;
            i += 1;
        }
        proof {
            assert(bill.take(bill.len() as int) =~= bill);
        }
        (total_need as u64) + (construct.current_storage.total() as u64) <= (construct.capacity
            as u64)
    }

    /// The early outputs test: a batch is due whenever the timer has been
    /// armed at all and has expired.
    pub fn will_output(&self, current_turn: &u64) -> (r: Option<&Vec<Amount>>)
        ensures
            r is Some <==> (self.production_trigger_time > 0 && *current_turn
                >= self.production_trigger_time),
            r matches Some(bill) ==> bill == &self.output,
    {
        if self.production_trigger_time > 0 && *current_turn >= self.production_trigger_time {
            return Some(&self.output);
        }
        None
    }

    /// The early inputs test: inputs are wanted whenever the timer has
    /// expired.
    pub fn require_input(&self, current_turn: &u64) -> (r: Option<&Vec<Amount>>)
        ensures
            r is Some <==> *current_turn >= self.production_trigger_time,
            r matches Some(bill) ==> bill == &self.input,
    {
        if *current_turn >= self.production_trigger_time {
            return Some(&self.input);
        }
        None
    }

    /// The early re-arm step: it also hands the consumed batch over
    /// (clearing `stored_input`).
    pub fn handle_turn(&mut self, current_turn: &u64)
        requires
            *current_turn <= u64::MAX - old(self).production_time,
        ensures
            *final(self) == if old(self).production_trigger_time <= *current_turn && old(
                self,
            ).stored_input && !old(self).stored_output {
                ProductionModule {
                    production_trigger_time: (*current_turn + old(self).production_time) as u64,
                    stored_input: false,
                    ..*old(self)
                }
            } else {
                *old(self)
            },
    {
        if self.production_trigger_time <= *current_turn {
            if self.stored_input && !self.stored_output {
                self.production_trigger_time = *current_turn + u64::from(self.production_time);
                self.stored_input = false;
            }
        }
    }

    fn add_all_outputs(&mut self, construct: &mut Construct)
        requires
            old(construct).inv(),
            old(self).inv(),
            sum_amounts(old(self).output@) + old(construct).current_storage.spec_total() <= old(
                construct,
            ).capacity,
        ensures
            *final(self) == *old(self),
            final(construct).inv(),
            *final(construct) == (Construct {
                current_storage: add_all(old(construct).current_storage, old(self).output@),
                ..*old(construct)
            }),
    {
        let ghost bill = self.output@;
        let ghost st0 = construct.current_storage;
        let mut k: usize = 0;
        proof {
            assert(bill.take(0) =~= Seq::<Amount>::empty());
        }
        while k < self.output.len()
            invariant
                *self == *old(self),
                old(construct).inv(),
                old(self).inv(),
                sum_amounts(bill) + st0.spec_total() <= old(construct).capacity,
                bill == self.output@,
                st0 == old(construct).current_storage,
                k <= bill.len(),
                construct.inv(),
                *construct == (Construct {
                    current_storage: add_all(st0, bill.take(k as int)),
                    ..*old(construct)
                }),
                construct.current_storage.spec_total() == st0.spec_total() + sum_amounts(
                    bill.take(k as int),
                ),
            decreases bill.len() - k,
        {
            proof {
                lemma_sum_amounts_take_succ(bill, k as int);
                lemma_sum_amounts_take_le(bill, k + 1);
                assert(bill.take(k + 1).drop_last() =~= bill.take(k as int));
            }
            let next = self.output[k];
            let leftover = construct.load(&next.product, next.amount);
            proof {
                assert(leftover == 0);
            }
            k += 1;
        }
        proof {
            assert(bill.take(bill.len() as int) =~= bill);
        }
    }

    pub fn name(&self) -> (r: &str)
        ensures
            r@ == self.name@,
    {
        self.name.as_str()
    }

    pub fn input(&self) -> (r: &Vec<Amount>)
        ensures
            r == &self.input,
    {
        &self.input
    }

    pub fn output(&self) -> (r: &Vec<Amount>)
        ensures
            r == &self.output,
    {
        &self.output
    }

    pub fn production_time(&self) -> (r: u32)
        ensures
            r == self.production_time,
    {
        self.production_time
    }

    pub fn production_trigger_time(&self) -> (r: u64)
        ensures
            r == self.production_trigger_time,
    {
        self.production_trigger_time
    }

    pub fn stored_input(&self) -> (r: bool)
        ensures
            r == self.stored_input,
    {
        self.stored_input
    }

    pub fn stored_output(&self) -> (r: bool)
        ensures
            r == self.stored_output,
    {
        self.stored_output
    }

    pub fn set_stored_input(&mut self, stored_input: bool)
        ensures
            *final(self) == (ProductionModule { stored_input, ..*old(self) }),
    {
        self.stored_input = stored_input;
    }

    pub fn set_stored_output(&mut self, stored_output: bool)
        ensures
            *final(self) == (ProductionModule { stored_output, ..*old(self) }),
    {
        self.stored_output = stored_output;
    }

    /// The early per-module turn, run directly against a construct.
    pub fn next_turn(&mut self, current_turn: &u64, construct: &mut Construct)
        requires
            old(construct).inv(),
            old(self).inv(),
            distinct_products(old(self).input@),
            *current_turn <= u64::MAX - old(self).production_time,
        ensures
            final(construct).inv(),
            final(self).inv(),
            ({
                let (storage, module) = spec_next_turn(
                    old(construct).current_storage,
                    old(construct).capacity,
                    *old(self),
                    *current_turn,
                );
                &&& *final(construct) == (Construct { current_storage: storage, ..*old(construct) })
                &&& *final(self) == module
            }),
    {
        if *current_turn >= self.production_trigger_time {
            if self.production_trigger_time > 0 && self.have_room_for_outputs(construct) {
                self.add_all_outputs(construct);
            }
            if self.have_all_inputs(construct) {
                self.subtract_all_inputs(construct);
                self.production_trigger_time = *current_turn + self.production_time as u64;
            }
        }
    }
}

} // verus!
