use my_little_universe::construct::amount::Amount;
use my_little_universe::construct::construct::Construct;
use my_little_universe::construct::construct_position::ConstructPositionSector;
use my_little_universe::construct::production_module::ProductionModule;
use my_little_universe::products::Product;
use my_little_universe::sector::SectorPosition;

#[test]
fn production_module_it_works() {
    let sector_position = ConstructPositionSector::new(SectorPosition::new(1, 1, 1), 0);
    let mut construct = Construct::new("The base".to_string(), 500, sector_position);

    let mut ore_production = ProductionModule::new(
        "PowerToOre".to_string(),
        vec![Amount::new(Product::PowerCells, 1)],
        vec![Amount::new(Product::Ores, 2)],
        1,
        0,
    );
    let mut metal_production = ProductionModule::new(
        "OreAndEnergyToMetal".to_string(),
        vec![Amount::new(Product::PowerCells, 2), Amount::new(Product::Ores, 4)],
        vec![Amount::new(Product::Metals, 1)],
        3,
        0,
    );

    construct.load_request(&Amount::new(Product::PowerCells, 200));

    ore_production.next_turn(&1, &mut construct);
    metal_production.next_turn(&1, &mut construct);

    assert_eq!(2, ore_production.production_trigger_time);
    assert_eq!(0, metal_production.production_trigger_time);

    assert_eq!(199, construct.current_storage().get(&Product::PowerCells).unwrap());
    assert_eq!(None, construct.current_storage().get(&Product::Ores));
    assert_eq!(None, construct.current_storage().get(&Product::Metals));

    ore_production.next_turn(&2, &mut construct);
    metal_production.next_turn(&2, &mut construct);

    assert_eq!(3, ore_production.production_trigger_time);
    assert_eq!(0, metal_production.production_trigger_time);

    assert_eq!(198, construct.current_storage().get(&Product::PowerCells).unwrap());
    assert_eq!(2, construct.current_storage().get(&Product::Ores).unwrap());
    assert_eq!(None, construct.current_storage().get(&Product::Metals));

    ore_production.next_turn(&3, &mut construct);
    metal_production.next_turn(&3, &mut construct);

    assert_eq!(4, ore_production.production_trigger_time);
    assert_eq!(6, metal_production.production_trigger_time);

    assert_eq!(195, construct.current_storage().get(&Product::PowerCells).unwrap());
    assert_eq!(None, construct.current_storage().get(&Product::Ores));
    assert_eq!(None, construct.current_storage().get(&Product::Metals));

    ore_production.next_turn(&4, &mut construct);
    metal_production.next_turn(&4, &mut construct);

    assert_eq!(5, ore_production.production_trigger_time);
    assert_eq!(6, metal_production.production_trigger_time);

    assert_eq!(194, construct.current_storage().get(&Product::PowerCells).unwrap());
    assert_eq!(2, construct.current_storage().get(&Product::Ores).unwrap());
    assert_eq!(None, construct.current_storage().get(&Product::Metals));

    ore_production.next_turn(&5, &mut construct);
    metal_production.next_turn(&5, &mut construct);

    assert_eq!(6, ore_production.production_trigger_time);
    assert_eq!(6, metal_production.production_trigger_time);

    assert_eq!(193, construct.current_storage().get(&Product::PowerCells).unwrap());
    assert_eq!(4, construct.current_storage().get(&Product::Ores).unwrap());
    assert_eq!(None, construct.current_storage().get(&Product::Metals));

    ore_production.next_turn(&6, &mut construct);
    metal_production.next_turn(&6, &mut construct);

    assert_eq!(7, ore_production.production_trigger_time);
    assert_eq!(9, metal_production.production_trigger_time);

    assert_eq!(190, construct.current_storage().get(&Product::PowerCells).unwrap());
    assert_eq!(2, construct.current_storage().get(&Product::Ores).unwrap());
    assert_eq!(1, construct.current_storage().get(&Product::Metals).unwrap());
}
