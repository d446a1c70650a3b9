use my_little_universe::construct::production_module::ProductionModule as CoreProductionModule;
use my_little_universe::construct::amount::Amount as CoreAmount;
use my_little_universe::construct_module::ConstructModuleType;
use my_little_universe::construct_module::ConstructModuleType::Production;
use my_little_universe::production::cosntruct::Construct;
use my_little_universe::production::production_module::{Amount, ProductionModule};
use my_little_universe::products::Product;

fn module_named<'a>(construct: &'a Construct, name: &str) -> Option<&'a ConstructModuleType> {
    construct.modules.iter().find(|m| m.name() == name)
}

#[test]
fn cosntruct_load_and_unload_tries_its_best() {
    let mut construct = Construct::new("The base".to_string(), 500);
    assert_eq!(None, construct.current_storage.get(&Product::PowerCells));

    assert_eq!(200, construct.load(&Product::PowerCells, 700));
    assert_eq!(500, construct.current_storage.get(&Product::PowerCells).unwrap());

    assert_eq!(500, construct.unload(&Product::PowerCells, 700));
    assert_eq!(None, construct.current_storage.get(&Product::PowerCells));

    assert_eq!(200, construct.load(&Product::PowerCells, 700));
    assert_eq!(500, construct.current_storage.get(&Product::PowerCells).unwrap());

    assert_eq!(700, construct.load(&Product::PowerCells, 700));
    assert_eq!(500, construct.current_storage.get(&Product::PowerCells).unwrap());

    assert_eq!(500, construct.unload(&Product::PowerCells, 700));
    assert_eq!(None, construct.current_storage.get(&Product::PowerCells));

    assert_eq!(0, construct.unload(&Product::PowerCells, 700));
    assert_eq!(None, construct.current_storage.get(&Product::PowerCells));
}

#[test]
fn cosntruct_install_and_uninstall_tries_its_best() {
    let mut construct = Construct::new("The base".to_string(), 500);
    let ore_production = CoreProductionModule::new(
        "PowerToOre".to_string(),
        vec![CoreAmount::new(Product::PowerCells, 1)],
        vec![CoreAmount::new(Product::Ores, 2)],
        1,
        0,
    );
    let metal_production = CoreProductionModule::new(
        "OreAndEnergyToMetal".to_string(),
        vec![CoreAmount::new(Product::PowerCells, 2), CoreAmount::new(Product::Ores, 4)],
        vec![CoreAmount::new(Product::Metals, 1)],
        3,
        0,
    );

    assert_eq!(Ok(()), construct.install(Production(ore_production.clone())));
    assert_eq!(Ok(()), construct.install(Production(metal_production.clone())));

    assert_eq!(
        Some(&Production(ore_production.clone())),
        module_named(&construct, ore_production.name())
    );
    assert_eq!(
        Some(&Production(metal_production.clone())),
        module_named(&construct, metal_production.name())
    );

    assert_eq!(
        Err("Module with that name already exists.".to_string()),
        construct.install(Production(ore_production.clone()))
    );

    assert_eq!(
        Some(Production(ore_production.clone())),
        construct.uninstall(&ore_production.name().to_string())
    );
    assert_eq!(None, construct.uninstall(&ore_production.name().to_string()));

    assert_eq!(None, module_named(&construct, ore_production.name()));
    assert_eq!(
        Some(&Production(metal_production.clone())),
        module_named(&construct, metal_production.name())
    );
}

#[test]
fn production_production_module_it_works() {
    let mut construct = Construct::new("The base".to_string(), 500);

    let mut ore_production = ProductionModule::new(
        "PowerToOre".to_string(),
        vec![Amount::new(Product::PowerCells, 1)],
        vec![Amount::new(Product::Ores, 2)],
        1,
        0,
    );
    let mut metal_production = ProductionModule::new(
        "OreAndEnergyToMetal".to_string(),
        vec![Amount::new(Product::PowerCells, 2), Amount::new(Product::Ores, 4)],
        vec![Amount::new(Product::Metals, 1)],
        3,
        0,
    );

    construct.load(&Product::PowerCells, 200);

    ore_production.next_turn(&1, &mut construct);
    metal_production.next_turn(&1, &mut construct);

    assert_eq!(2, ore_production.production_trigger_time);
    assert_eq!(0, metal_production.production_trigger_time);

    assert_eq!(199, construct.current_storage().get(&Product::PowerCells).unwrap());
    assert_eq!(None, construct.current_storage().get(&Product::Ores));
    assert_eq!(None, construct.current_storage().get(&Product::Metals));

    ore_production.next_turn(&2, &mut construct);
    metal_production.next_turn(&2, &mut construct);

    assert_eq!(3, ore_production.production_trigger_time);
    assert_eq!(0, metal_production.production_trigger_time);

    assert_eq!(198, construct.current_storage().get(&Product::PowerCells).unwrap());
    assert_eq!(2, construct.current_storage().get(&Product::Ores).unwrap());
    assert_eq!(None, construct.current_storage().get(&Product::Metals));

    ore_production.next_turn(&3, &mut construct);
    metal_production.next_turn(&3, &mut construct);

    assert_eq!(4, ore_production.production_trigger_time);
    assert_eq!(6, metal_production.production_trigger_time);

    assert_eq!(195, construct.current_storage().get(&Product::PowerCells).unwrap());
    assert_eq!(None, construct.current_storage().get(&Product::Ores));
    assert_eq!(None, construct.current_storage().get(&Product::Metals));

    ore_production.next_turn(&4, &mut construct);
    metal_production.next_turn(&4, &mut construct);

    assert_eq!(5, ore_production.production_trigger_time);
    assert_eq!(6, metal_production.production_trigger_time);

    assert_eq!(194, construct.current_storage().get(&Product::PowerCells).unwrap());
    assert_eq!(2, construct.current_storage().get(&Product::Ores).unwrap());
    assert_eq!(None, construct.current_storage().get(&Product::Metals));

    ore_production.next_turn(&5, &mut construct);
    metal_production.next_turn(&5, &mut construct);

    assert_eq!(6, ore_production.production_trigger_time);
    assert_eq!(6, metal_production.production_trigger_time);

    assert_eq!(193, construct.current_storage().get(&Product::PowerCells).unwrap());
    assert_eq!(4, construct.current_storage().get(&Product::Ores).unwrap());
    assert_eq!(None, construct.current_storage().get(&Product::Metals));

    ore_production.next_turn(&6, &mut construct);
    metal_production.next_turn(&6, &mut construct);

    assert_eq!(7, ore_production.production_trigger_time);
    assert_eq!(9, metal_production.production_trigger_time);

    assert_eq!(190, construct.current_storage().get(&Product::PowerCells).unwrap());
    assert_eq!(2, construct.current_storage().get(&Product::Ores).unwrap());
    assert_eq!(1, construct.current_storage().get(&Product::Metals).unwrap());
}
