use vstd::prelude::*;

use crate::construct::construct::{
    has_module_named, seq_remove_module, spec_load, spec_unload, spec_unloaded_amount,
    ProductStorage,
};
use crate::construct_module::ConstructModuleType;
use crate::products::Product;

verus! {

/// The early construct design: a bare inventory container with its modules,
/// before positions and docking existed.
#[derive(Clone, PartialEq, Debug)]
pub struct Construct {
    pub name: String,
    pub capacity: u32,
    pub current_storage: ProductStorage,
    pub modules: Vec<ConstructModuleType>,
}

impl Construct {
    /// Well-formedness: the inventory never exceeds the capacity and module
    /// names are unique.
    pub open spec fn inv(self) -> bool {
        &&& self.current_storage.spec_total() <= self.capacity
        &&& forall|i: int, j: int|
            0 <= i < j < self.modules@.len() ==> self.modules@[i].spec_name()
                != self.modules@[j].spec_name()
    }

    pub fn new(name: String, capacity: u32) -> (r: Self)
        ensures
            r.name == name,
            r.capacity == capacity,
            r.current_storage == (ProductStorage { ores: 0u32, metals: 0u32, power_cells: 0u32 }),
            r.modules@.len() == 0,
            r.inv(),
    {
        Construct {
            name,
            capacity,
            current_storage: ProductStorage::new(),
            modules: Vec::new(),
        }
    }

    pub fn name(&self) -> (r: &str)
        ensures
            r@ == self.name@,
    {
        self.name.as_str()
    }

    pub fn capacity(&self) -> (r: u32)
        ensures
            r == self.capacity,
    {
        self.capacity
    }

    pub fn current_storage(&self) -> (r: &ProductStorage)
        ensures
            r == &self.current_storage,
    {
        &self.current_storage
    }

    /// Removes up to `amount` of the product and returns what was removed:
    /// `min(stored, amount)`.
    pub fn unload(&mut self, product: &Product, amount: u32) -> (r: u32)
        requires
            old(self).inv(),
        ensures
            final(self).inv(),
            r == spec_unloaded_amount(
                old(self).current_storage,
                crate::construct::amount::Amount { product: *product, amount },
            ),
            *final(self) == (Construct {
                current_storage: spec_unload(
                    old(self).current_storage,
                    crate::construct::amount::Amount { product: *product, amount },
                ),
                ..*old(self)
            }),
    {
        crate::construct::construct::unload(
            &mut self.current_storage,
            &crate::construct::amount::Amount::new(*product, amount),
        )
    }

    /// Stores `min(free, amount)` and returns the quantity it could *not*
    /// take; a fully blocked load returns the whole request.
    pub fn load(&mut self, product: &Product, amount: u32) -> (r: u32)
        requires
            old(self).inv(),
        ensures
            final(self).inv(),
            ({
                let free = old(self).capacity - old(self).current_storage.spec_total();
                let stored = if free < amount { free } else { amount as int };
                if stored == 0 {
                    r == amount && *final(self) == *old(self)
                } else {
                    &&& r == amount - stored
                    &&& *final(self) == (Construct {
                        current_storage: spec_load(
                            old(self).current_storage,
                            crate::construct::amount::Amount {
                                product: *product,
                                amount: stored as u32,
                            },
                        ),
                        ..*old(self)
                    })
                }
            }),
    {
        let leftover_capacity = self.capacity - self.current_storage.total();
        let amount_to_be_stored = if leftover_capacity < amount {
            leftover_capacity
        } else {
            amount
        };

        if amount_to_be_stored == 0 {
            return amount;
        }

        crate::construct::construct::load(
            &mut self.current_storage,
            &crate::construct::amount::Amount::new(*product, amount_to_be_stored),
        );

        amount - amount_to_be_stored
    }

    pub fn install(&mut self, module: ConstructModuleType) -> (r: Result<(), String>)
        requires
            old(self).inv(),
        ensures
            final(self).inv(),
            if has_module_named(old(self).modules@, module.spec_name()) {
                &&& r is Err
                &&& *final(self) == *old(self)
            } else {
                &&& r is Ok
                &&& *final(self) == (Construct { modules: final(self).modules, ..*old(self) })
                &&& final(self).modules@ == old(self).modules@.push(module)
            },
    {
        let mut i: usize = 0;
        while i < self.modules.len()
            invariant
                *self == *old(self),
                old(self).inv(),
                i <= self.modules.len(),
                forall|k: int| 0 <= k < i ==> self.modules@[k].spec_name() != module.spec_name(),
            decreases self.modules.len() - i,
        {
            if self.modules[i].same_name(&module) {
                return Err("Module with that name already exists.".to_owned());
            }
            i += 1;
        }

        self.modules.push(module);
        Ok(())
    }

    /// Removes and returns the module of this name, if it is installed.
    pub fn uninstall(&mut self, module_name: &String) -> (r: Option<ConstructModuleType>)
        requires
            old(self).inv(),
        ensures
            final(self).inv(),
            match r {
                Some(module) => {
                    &&& module.spec_name() == module_name@
                    &&& *final(self) == (Construct { modules: final(self).modules, ..*old(self) })
                    &&& final(self).modules@ == seq_remove_module(old(self).modules@, module_name@)
                }
                None => {
                    &&& !has_module_named(old(self).modules@, module_name@)
                    &&& *final(self) == *old(self)
                }
            },
    {
        let ghost old_modules = self.modules@;
        let mut i: usize = 0;
        while i < self.modules.len()
            invariant
                *self == *old(self),
                old(self).inv(),
                old_modules == self.modules@,
                i <= self.modules.len(),
                forall|k: int| 0 <= k < i ==> self.modules@[k].spec_name() != module_name@,
            decreases self.modules.len() - i,
        {
            if self.modules[i].has_name(module_name) {
                let module = self.modules.remove(i);
                proof {
                    lemma_unique_remove_at(old_modules, module_name@, i as int);
                    crate::construct::construct::lemma_seq_remove_module_keeps(
                        old_modules,
                        module_name@,
                    );
                }
                return Some(module);
            }
            i += 1;
        }
        None
    }
}

/// In a list with unique names, removing by name takes out exactly the one
/// occurrence.
proof fn lemma_unique_remove_at(modules: Seq<ConstructModuleType>, name: Seq<char>, i: int)
    requires
        0 <= i < modules.len(),
        modules[i].spec_name() == name,
        forall|a: int, b: int|
            0 <= a < b < modules.len() ==> modules[a].spec_name() != modules[b].spec_name(),
    ensures
        modules.remove(i) == seq_remove_module(modules, name),
    decreases modules.len(),
{
    if modules.len() > 0 {
        let last = modules.last();
        if i == modules.len() - 1 {
            assert(modules.remove(i) =~= modules.drop_last());
            lemma_remove_module_absent(modules.drop_last(), name);
        } else {
            lemma_unique_remove_at(modules.drop_last(), name, i);
            assert(modules.remove(i) =~= modules.drop_last().remove(i).push(last));
        }
    }
}

/// Removing a name that no module carries changes nothing.
proof fn lemma_remove_module_absent(modules: Seq<ConstructModuleType>, name: Seq<char>)
    requires
        forall|a: int| 0 <= a < modules.len() ==> (#[trigger] modules[a].spec_name()) != name,
    ensures
        seq_remove_module(modules, name) == modules,
    decreases modules.len(),
{
    if modules.len() > 0 {
        lemma_remove_module_absent(modules.drop_last(), name);
        assert(seq_remove_module(modules, name) =~= modules);
    }
}

} // verus!
