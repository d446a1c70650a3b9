use vstd::prelude::*;

verus! {

/// The kinds of goods a construct can store, consume and produce.
#[derive(Clone, Copy, PartialEq, Eq, Structural, Debug)]
pub enum Product {
    Ores,
    Metals,
    PowerCells,
}

} // verus!
