use vstd::prelude::*;

use crate::products::Product;

verus! {

/// A named store for a single product kind, bounded by its own capacity.
#[derive(Clone, PartialEq, Debug)]
pub struct SingleProductStorageModule {
    pub name: String,
    pub product: Product,
    pub capacity: u32,
    pub current_storage: u32,
}

impl SingleProductStorageModule {
    pub fn new(name: String, product: Product, capacity: u32, current_storage: u32) -> (r: Self)
        ensures
            r == (SingleProductStorageModule { name, product, capacity, current_storage }),
    {
        Self { name, product, capacity, current_storage }
    }

    pub fn name(&self) -> (r: &str)
        ensures
            r@ == self.name@,
    {
        self.name.as_str()
    }

    pub fn product(&self) -> (r: &Product)
        ensures
            *r == self.product,
    {
        &self.product
    }

    pub fn capacity(&self) -> (r: u32)
        ensures
            r == self.capacity,
    {
        self.capacity
    }

    pub fn current_storage(&self) -> (r: u32)
        ensures
            r == self.current_storage,
    {
        self.current_storage
    }

    pub fn increase_current_storage(&mut self, change: u32)
        requires
            old(self).current_storage + change <= u32::MAX,
        ensures
            *final(self) == (SingleProductStorageModule {
                current_storage: (old(self).current_storage + change) as u32,
                ..*old(self)
            }),
    {
        self.current_storage += change;
    }

    pub fn reduce_current_storage(&mut self, change: u32)
        requires
            change <= old(self).current_storage,
        ensures
            *final(self) == (SingleProductStorageModule {
                current_storage: (old(self).current_storage - change) as u32,
                ..*old(self)
            }),
    {
        self.current_storage -= change;
    }
}

} // verus!
