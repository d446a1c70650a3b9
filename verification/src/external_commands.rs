use vstd::prelude::*;

pub use crate::construct::amount::Amount;
use crate::construct::construct::{ConstructEvenReturnType, ExternalConstructEventType};
use crate::my_little_universe::{ExternalUniverseEventType, MyLittleUniverseReturnValues};
use crate::sector::{ExternalSectorEventType, SectorEvenReturnType, SectorPosition};
use crate::time::{ExternalTimeEventType, TimeEventReturnType};

verus! {

/// The in-process command contract: what external callers may ask of the
/// universe. Parsing a wire command into one of these is the surrounding
/// program's business.
#[derive(Clone, PartialEq, Debug)]
pub enum ExternalCommands {
    Time(ExternalTimeEventType),
    Construct(String, ExternalConstructEventType),
    Sector(SectorPosition, ExternalSectorEventType),
    Universe(ExternalUniverseEventType),
}

/// The tagged results the universe hands back, one envelope per subsystem.
#[derive(Clone, PartialEq, Debug)]
pub enum ExternalCommandReturnValues {
    Time(TimeEventReturnType),
    Universe(MyLittleUniverseReturnValues),
    Construct(ConstructEvenReturnType),
    Sector(SectorEvenReturnType),
}

} // verus!
