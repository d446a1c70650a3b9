use vstd::prelude::*;

use crate::construct::amount::Amount;
use crate::construct::construct::Construct;
use crate::construct::construct_position::ConstructPositionSector;
use crate::construct::production_module::{sum_amounts, ProductionModule};
use crate::construct_module::ConstructModuleType;
use crate::my_little_universe::MyLittleUniverse;
use crate::products::Product;
use crate::sector::{Sector, SectorPosition};
use crate::time::TimeStackState;

verus! {

/// A small fixed universe: two producing bases in two sectors and a free
/// transport, the second base with one docking slot each.
pub fn generate_simple_universe(universe_name: String) -> (r: MyLittleUniverse)
    ensures
        r.inv(),
        r.universe_name == universe_name,
        r.constructs@.len() == 3,
        r.sectors@.len() == 2,
{
    let sector_position_1 = ConstructPositionSector::new(SectorPosition::new(1, 1, 1), 0);
    let mut construct_1 = Construct::new("The_base_1".to_owned(), 500, sector_position_1);
    let power_to_ore_input = vec![Amount::new(Product::PowerCells, 1)];
    let power_to_ore_output = vec![Amount::new(Product::Ores, 2)];
    proof {
        lemma_singleton_bill_sum(power_to_ore_input@);
        lemma_singleton_bill_sum(power_to_ore_output@);
    }
    let _installed_1 = construct_1.install(
        ConstructModuleType::Production(
            ProductionModule::new(
                "PowerToOre".to_owned(),
                power_to_ore_input,
                power_to_ore_output,
                1,
                0,
            ),
        ),
    );
    construct_1.position.install();

    let sector_position_2 = ConstructPositionSector::new(SectorPosition::new(2, 2, 2), 0);
    let mut construct_2 = Construct::new("The_base_2".to_owned(), 500, sector_position_2);
    let ore_to_power_input = vec![Amount::new(Product::Ores, 1)];
    let ore_to_power_output = vec![Amount::new(Product::Metals, 2)];
    proof {
        lemma_singleton_bill_sum(ore_to_power_input@);
        lemma_singleton_bill_sum(ore_to_power_output@);
    }
    let _installed_2 = construct_2.install(
        ConstructModuleType::Production(
            ProductionModule::new(
                "OreToPower".to_owned(),
                ore_to_power_input,
                ore_to_power_output,
                1,
                0,
            ),
        ),
    );
    construct_2.position.install();

    let transport_construct = Construct::new("transport".to_owned(), 500, sector_position_1);

    proof {
        reveal_strlit("The_base_1");
        reveal_strlit("The_base_2");
        reveal_strlit("transport");
        assert(construct_1.name@.len() == 10);
        assert(transport_construct.name@.len() == 9);
        assert(construct_1.name@[9] == '1');
        assert(construct_2.name@[9] == '2');
        assert(construct_1.name@ != construct_2.name@);
        assert(construct_1.name@ != transport_construct.name@);
        assert(construct_2.name@ != transport_construct.name@);
    }

    let mut constructs: Vec<Construct> = Vec::new();
    constructs.push(construct_1);
    constructs.push(construct_2);
    constructs.push(transport_construct);

    let mut sector_1 = Sector::new(Vec::new(), SectorPosition::new(1, 1, 1));
    sector_1.enter_sector("The_base_1".to_owned(), None);
    sector_1.enter_sector("transport".to_owned(), None);
    let mut sector_2 = Sector::new(Vec::new(), SectorPosition::new(2, 2, 2));
    sector_2.enter_sector("The_base_2".to_owned(), None);

    let mut sectors: Vec<Sector> = Vec::new();
    sectors.push(sector_1);
    sectors.push(sector_2);

    MyLittleUniverse::new(universe_name, TimeStackState::new(), constructs, sectors)
}

/// The bills built here hold one single amount, so their total is that
/// amount and fits every bound the recipe machinery asks for.
proof fn lemma_singleton_bill_sum(bill: Seq<Amount>)
    requires
        bill.len() == 1,
    ensures
        sum_amounts(bill) == bill[0].amount,
{
    assert(bill.drop_last() =~= Seq::<Amount>::empty());
    assert(sum_amounts(Seq::<Amount>::empty()) == 0);
    assert(bill.last() == bill[0]);
}

} // verus!
