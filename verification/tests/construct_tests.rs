use my_little_universe::construct::amount::Amount;
use my_little_universe::construct::construct::{
    Construct, ConstructEvenReturnType, ConstructEventType, ExternalConstructEventType,
    InternalConstructEventType,
};
use my_little_universe::construct::construct_position::ConstructPositionSector;
use my_little_universe::construct::production_module::ProductionModule;
use my_little_universe::construct_module::ConstructModuleType::Production;
use my_little_universe::products::Product;
use my_little_universe::sector::SectorPosition;

fn new_construct(name: &str, capacity: u32) -> Construct {
    Construct::new(
        name.to_string(),
        capacity,
        ConstructPositionSector::new(SectorPosition::new(1, 1, 1), 0),
    )
}

fn request_load(construct: &mut Construct, amount: Amount) -> u32 {
    if let ConstructEvenReturnType::RequestLoadProcessed(loaded_value) = construct.handle_event(
        &ConstructEventType::External(ExternalConstructEventType::RequestLoad(amount)),
    ) {
        loaded_value
    } else {
        panic!("request_load failed in test")
    }
}

fn request_unload(construct: &mut Construct, amount: Amount) -> u32 {
    if let ConstructEvenReturnType::RequestUnloadProcessed(loaded_value) = construct.handle_event(
        &ConstructEventType::External(ExternalConstructEventType::RequestUnload(amount)),
    ) {
        loaded_value
    } else {
        panic!("request_load failed in test")
    }
}

fn next_turn(construct: &mut Construct, turn: u64) {
    match construct.handle_event(&ConstructEventType::Internal(
        InternalConstructEventType::ExecuteTurn(turn),
    )) {
        ConstructEvenReturnType::TurnExecuted => {}
        _ => panic!("request_load failed in test"),
    }
}

fn request_state(construct: &mut Construct) -> Construct {
    if let ConstructEvenReturnType::ConstructState(construct) = construct.handle_event(
        &ConstructEventType::External(ExternalConstructEventType::GetConstructState {
            include_stack: true,
        }),
    ) {
        construct
    } else {
        panic!("request_load failed in test")
    }
}

#[test]
fn construct_load_and_unload_tries_its_best() {
    let mut construct = new_construct("The base", 500);
    assert_eq!(None, construct.current_storage.get(&Product::PowerCells));

    // a partially blocked load stores and returns the moved quantity
    assert_eq!(500, request_load(&mut construct, Amount::new(Product::PowerCells, 700)));
    assert_eq!(500, construct.current_storage.get(&Product::PowerCells).unwrap());

    assert_eq!(500, request_unload(&mut construct, Amount::new(Product::PowerCells, 700)));
    assert_eq!(None, construct.current_storage.get(&Product::PowerCells));

    assert_eq!(500, request_load(&mut construct, Amount::new(Product::PowerCells, 700)));
    assert_eq!(500, construct.current_storage.get(&Product::PowerCells).unwrap());

    // a fully blocked load returns the requested quantity unchanged
    assert_eq!(700, request_load(&mut construct, Amount::new(Product::PowerCells, 700)));
    assert_eq!(500, construct.current_storage.get(&Product::PowerCells).unwrap());

    assert_eq!(500, request_unload(&mut construct, Amount::new(Product::PowerCells, 700)));
    assert_eq!(None, construct.current_storage.get(&Product::PowerCells));

    assert_eq!(0, request_unload(&mut construct, Amount::new(Product::PowerCells, 700)));
    assert_eq!(None, construct.current_storage.get(&Product::PowerCells));
}

#[test]
fn construct_install_and_uninstall_tries_its_best() {
    let mut construct = new_construct("The base", 500);
    let ore_production = ProductionModule::new(
        "PowerToOre".to_string(),
        vec![Amount::new(Product::PowerCells, 1)],
        vec![Amount::new(Product::Ores, 2)],
        1,
        0,
    );
    let metal_production = ProductionModule::new(
        "OreAndEnergyToMetal".to_string(),
        vec![Amount::new(Product::PowerCells, 2), Amount::new(Product::Ores, 4)],
        vec![Amount::new(Product::Metals, 1)],
        3,
        0,
    );

    assert_eq!(Ok(()), construct.install(Production(ore_production.clone())));
    assert_eq!(Ok(()), construct.install(Production(metal_production.clone())));

    assert_eq!(Some(&Production(ore_production.clone())), construct.modules.get(0));
    assert_eq!(Some(&Production(metal_production.clone())), construct.modules.get(1));

    assert_eq!(
        Err("Module with that name already exists.".to_string()),
        construct.install(Production(ore_production.clone()))
    );

    assert_eq!(Ok(()), construct.uninstall(&ore_production.name().to_string()));
    assert_eq!(
        Err("Module with that name is not installed.".to_string()),
        construct.uninstall(&ore_production.name().to_string())
    );

    assert_eq!(Some(&Production(metal_production.clone())), construct.modules.get(0));
}

#[test]
#[allow(unused_variables)]
fn test_parsing() {
    let mut construct = new_construct("The base", 500);
    let ore_production = ProductionModule::new(
        "PowerToOre".to_string(),
        vec![Amount::new(Product::PowerCells, 1)],
        vec![Amount::new(Product::Ores, 2)],
        1,
        0,
    );
    let metal_production = ProductionModule::new(
        "OreAndEnergyToMetal".to_string(),
        vec![Amount::new(Product::PowerCells, 2), Amount::new(Product::Ores, 4)],
        vec![Amount::new(Product::Metals, 1)],
        3,
        0,
    );

    format!("{:?}", request_state(&mut construct));
}

#[test]
fn production() {
    let mut construct = new_construct("The base", 500);
    let ore_production = ProductionModule::new(
        "PowerToOre".to_string(),
        vec![Amount::new(Product::PowerCells, 1)],
        vec![Amount::new(Product::Ores, 2)],
        1,
        0,
    );
    let metal_production = ProductionModule::new(
        "OreAndEnergyToMetal".to_string(),
        vec![Amount::new(Product::PowerCells, 2), Amount::new(Product::Ores, 4)],
        vec![Amount::new(Product::Metals, 1)],
        3,
        0,
    );

    assert_eq!(Ok(()), construct.install(Production(ore_production.clone())));
    assert_eq!(Ok(()), construct.install(Production(metal_production.clone())));
    assert_eq!(None, construct.current_storage.get(&Product::PowerCells));
    assert_eq!(None, construct.current_storage.get(&Product::Ores));
    assert_eq!(None, construct.current_storage.get(&Product::Metals));

    assert_eq!(200, request_load(&mut construct, Amount::new(Product::PowerCells, 200)));

    next_turn(&mut construct, 1);

    assert_eq!(Some(199), construct.current_storage.get(&Product::PowerCells));
    assert_eq!(None, construct.current_storage.get(&Product::Ores));
    assert_eq!(None, construct.current_storage.get(&Product::Metals));

    next_turn(&mut construct, 2);

    assert_eq!(Some(198), construct.current_storage.get(&Product::PowerCells));
    assert_eq!(Some(2), construct.current_storage.get(&Product::Ores));
    assert_eq!(None, construct.current_storage.get(&Product::Metals));

    next_turn(&mut construct, 3);

    assert_eq!(Some(195), construct.current_storage.get(&Product::PowerCells));
    assert_eq!(None, construct.current_storage.get(&Product::Ores));
    assert_eq!(None, construct.current_storage.get(&Product::Metals));

    next_turn(&mut construct, 4);

    assert_eq!(Some(194), construct.current_storage.get(&Product::PowerCells));
    assert_eq!(Some(2), construct.current_storage.get(&Product::Ores));
    assert_eq!(None, construct.current_storage.get(&Product::Metals));

    next_turn(&mut construct, 5);

    assert_eq!(Some(193), construct.current_storage.get(&Product::PowerCells));
    assert_eq!(Some(4), construct.current_storage.get(&Product::Ores));
    assert_eq!(None, construct.current_storage.get(&Product::Metals));

    next_turn(&mut construct, 6);

    assert_eq!(Some(190), construct.current_storage.get(&Product::PowerCells));
    assert_eq!(Some(2), construct.current_storage.get(&Product::Ores));
    assert_eq!(Some(1), construct.current_storage.get(&Product::Metals));

    for i in 7..200 {
        next_turn(&mut construct, i);
    }

    assert_eq!(None, construct.current_storage.get(&Product::PowerCells));
    assert_eq!(Some(80), construct.current_storage.get(&Product::Ores));
    assert_eq!(Some(40), construct.current_storage.get(&Product::Metals));

    for i in 201..205 {
        next_turn(&mut construct, i);
    }

    assert_eq!(None, construct.current_storage.get(&Product::PowerCells));
    assert_eq!(Some(80), construct.current_storage.get(&Product::Ores));
    assert_eq!(Some(40), construct.current_storage.get(&Product::Metals));

    // Bigger output than input will fill up the station over time
    let metal_production = ProductionModule::new(
        "MetalToEnergy".to_string(),
        vec![Amount::new(Product::Metals, 1)],
        vec![Amount::new(Product::PowerCells, 200)],
        1,
        0,
    );
    assert_eq!(Ok(()), construct.install(Production(metal_production.clone())));

    next_turn(&mut construct, 206);

    assert_eq!(None, construct.current_storage.get(&Product::PowerCells));
    assert_eq!(Some(80), construct.current_storage.get(&Product::Ores));
    assert_eq!(Some(39), construct.current_storage.get(&Product::Metals));

    next_turn(&mut construct, 207);

    assert_eq!(Some(200), construct.current_storage.get(&Product::PowerCells));
    assert_eq!(Some(80), construct.current_storage.get(&Product::Ores));
    assert_eq!(Some(38), construct.current_storage.get(&Product::Metals));

    next_turn(&mut construct, 208);

    assert_eq!(Some(197), construct.current_storage.get(&Product::PowerCells));
    assert_eq!(Some(76), construct.current_storage.get(&Product::Ores));
    assert_eq!(Some(38), construct.current_storage.get(&Product::Metals));

    next_turn(&mut construct, 209);

    assert_eq!(Some(196), construct.current_storage.get(&Product::PowerCells));
    assert_eq!(Some(78), construct.current_storage.get(&Product::Ores));
    assert_eq!(Some(38), construct.current_storage.get(&Product::Metals));
}

#[test]
fn load_saturation_edges() {
    // free = 30 > 0: a request of 50 stores exactly 30 and returns 30
    let mut construct = new_construct("edge", 100);
    assert_eq!(70, request_load(&mut construct, Amount::new(Product::Ores, 70)));
    assert_eq!(30, request_load(&mut construct, Amount::new(Product::Metals, 50)));
    assert_eq!(Some(30), construct.current_storage.get(&Product::Metals));
    // free = 0: the request comes back unchanged and nothing is stored
    assert_eq!(50, request_load(&mut construct, Amount::new(Product::Metals, 50)));
    assert_eq!(Some(30), construct.current_storage.get(&Product::Metals));
}

#[test]
fn unload_exactness_edges() {
    let mut construct = new_construct("edge", 100);
    assert_eq!(5, request_load(&mut construct, Amount::new(Product::Ores, 5)));
    // more stored than requested: the full request comes out
    assert_eq!(3, request_unload(&mut construct, Amount::new(Product::Ores, 3)));
    assert_eq!(Some(2), construct.current_storage.get(&Product::Ores));
    // less stored than requested: the whole stock comes out
    assert_eq!(2, request_unload(&mut construct, Amount::new(Product::Ores, 7)));
    assert_eq!(None, construct.current_storage.get(&Product::Ores));
    // absent product: nothing happens
    assert_eq!(0, request_unload(&mut construct, Amount::new(Product::Metals, 7)));
    assert_eq!(None, construct.current_storage.get(&Product::Metals));
}

#[test]
fn conservation_under_mixed_steps() {
    let mut construct = new_construct("bounded", 50);
    let generator = ProductionModule::new(
        "OreMaker".to_string(),
        vec![Amount::new(Product::PowerCells, 1)],
        vec![Amount::new(Product::Ores, 30)],
        1,
        0,
    );
    assert_eq!(Ok(()), construct.install(Production(generator)));
    request_load(&mut construct, Amount::new(Product::PowerCells, 40));
    for turn in 1..20 {
        next_turn(&mut construct, turn);
        let total = construct.current_storage.get(&Product::Ores).unwrap_or(0)
            + construct.current_storage.get(&Product::Metals).unwrap_or(0)
            + construct.current_storage.get(&Product::PowerCells).unwrap_or(0);
        assert!(total <= 50);
        request_unload(&mut construct, Amount::new(Product::Ores, 25));
    }
}
