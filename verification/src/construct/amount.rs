use vstd::prelude::*;

use crate::products::Product;

verus! {

/// An immutable pairing of a product kind with a quantity.
#[derive(Clone, Copy, PartialEq, Eq, Structural, Debug)]
pub struct Amount {
    pub product: Product,
    pub amount: u32,
}

impl Amount {
    pub fn new(product: Product, amount: u32) -> (r: Self)
        ensures
            r.product == product,
            r.amount == amount,
    {
        Self { product, amount }
    }

    pub fn product(&self) -> (r: &Product)
        ensures
            *r == self.product,
    {
        &self.product
    }

    pub fn amount(&self) -> (r: u32)
        ensures
            r == self.amount,
    {
        self.amount
    }
}

} // verus!
