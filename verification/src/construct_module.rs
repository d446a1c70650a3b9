use vstd::prelude::*;

use crate::construct::production_module::ProductionModule;

verus! {

/// The kinds of module a construct can carry.
#[derive(Clone, PartialEq, Debug)]
pub enum ConstructModuleType {
    Production(ProductionModule),
}

impl ConstructModuleType {
    pub open spec fn spec_name(self) -> Seq<char> {
        match self {
            ConstructModuleType::Production(production_module) => production_module.name@,
        }
    }

    pub open spec fn inv(self) -> bool {
        match self {
            ConstructModuleType::Production(production_module) => production_module.inv(),
        }
    }

    pub fn name(&self) -> (r: &str)
        ensures
            r@ == self.spec_name(),
    {
        match self {
            ConstructModuleType::Production(production_module) => production_module.name(),
        }
    }

    pub fn has_name(&self, name: &String) -> (r: bool)
        ensures
            r == (self.spec_name() == name@),
    {
        match self {
            ConstructModuleType::Production(production_module) => production_module.name.eq(name),
        }
    }

    pub fn same_name(&self, other: &ConstructModuleType) -> (r: bool)
        ensures
            r == (self.spec_name() == other.spec_name()),
    {
        match other {
            ConstructModuleType::Production(production_module) => self.has_name(
                &production_module.name,
            ),
        }
    }
}

} // verus!
