use my_little_universe::construct::amount::Amount;
use my_little_universe::construct::construct::{
    Construct, ConstructEvenReturnType, ConstructEventType, ExternalConstructEventType,
    InternalConstructEventType,
};
use my_little_universe::construct::construct_position::{
    ConstructPositionEventReturnType, ConstructPositionSector, ConstructPositionStatus,
    ExternalConstructPositionEventType,
};
use my_little_universe::construct::construct_position::ConstructPositionStatus::{Docked, Sector};
use my_little_universe::construct::production_module::ProductionModule;
use my_little_universe::construct_module::ConstructModuleType::Production;
use my_little_universe::external_commands::{ExternalCommandReturnValues, ExternalCommands};
use my_little_universe::my_little_universe::{
    ExternalUniverseEventType, MyLittleUniverse, MyLittleUniverseReturnValues, OfMove,
    OfTransferCargo,
};
use my_little_universe::products::Product;
use my_little_universe::sector::{ExternalSectorEventType, SectorEvenReturnType, SectorPosition};
use my_little_universe::time::{ExternalTimeEventType, TimeEventReturnType, TimeStackState};
use my_little_universe::universe_generator::generate_simple_universe;

fn push_construct_event(
    universe: &mut MyLittleUniverse,
    name: &str,
    event: ConstructEventType,
) -> ConstructEvenReturnType {
    universe
        .constructs
        .iter_mut()
        .find(|c| c.name() == name)
        .expect("construct missing in test")
        .push_event(&event)
}

fn verify_all_constructs_position(
    universe: &mut MyLittleUniverse,
    transport_position: ConstructPositionStatus,
    base_1_position: ConstructPositionStatus,
    base_2_position: ConstructPositionStatus,
) {
    if let ExternalCommandReturnValues::Construct(ConstructEvenReturnType::ConstructState(
        construct,
    )) = universe.handle_event(ExternalCommands::Construct(
        "transport".to_string(),
        ExternalConstructEventType::GetConstructState { include_stack: false },
    )) {
        assert_eq!(&transport_position, construct.position.position());
    } else {
        assert!(false);
    }

    if let ExternalCommandReturnValues::Construct(ConstructEvenReturnType::ConstructState(
        construct,
    )) = universe.handle_event(ExternalCommands::Construct(
        "The_base_1".to_string(),
        ExternalConstructEventType::GetConstructState { include_stack: false },
    )) {
        assert_eq!(&base_1_position, construct.position.position());
    } else {
        assert!(false);
    }

    if let ExternalCommandReturnValues::Construct(ConstructEvenReturnType::ConstructState(
        construct,
    )) = universe.handle_event(ExternalCommands::Construct(
        "The_base_2".to_string(),
        ExternalConstructEventType::GetConstructState { include_stack: false },
    )) {
        assert_eq!(&base_2_position, construct.position.position());
    } else {
        assert!(false);
    }
}

#[test]
fn my_little_universe_it_works() {
    //Setup universe
    let sector_position = ConstructPositionSector::new(SectorPosition::new(1, 1, 1), 0);
    let mut construct = Construct::new("The base".to_string(), 500, sector_position);
    let ore_production = ProductionModule::new(
        "PowerToOre".to_string(),
        vec![Amount::new(Product::PowerCells, 1)],
        vec![Amount::new(Product::Ores, 2)],
        1,
        0,
    );
    assert_eq!(Ok(()), construct.install(Production(ore_production.clone())));

    let construct_name = construct.name().to_string();
    let constructs = vec![construct];

    let mut universe = MyLittleUniverse::new(
        "universe_name".to_string(),
        TimeStackState::new(),
        constructs,
        Vec::new(),
    );

    //testing
    assert_eq!(
        ConstructEvenReturnType::RequestLoadProcessed(200),
        push_construct_event(
            &mut universe,
            &construct_name,
            ConstructEventType::Internal(InternalConstructEventType::RequestLoad(Amount::new(
                Product::PowerCells,
                200
            )))
        )
    );
    assert_eq!(
        ConstructEvenReturnType::RequestUnloadProcessed(0),
        push_construct_event(
            &mut universe,
            &construct_name,
            ConstructEventType::Internal(InternalConstructEventType::RequestUnload(Amount::new(
                Product::Ores,
                2
            )))
        )
    );

    assert_eq!(
        ExternalCommandReturnValues::Time(TimeEventReturnType::Received),
        universe.handle_event(ExternalCommands::Time(ExternalTimeEventType::StartUntilTurn(100)))
    );
    universe.request_execute_turn();
    universe.request_execute_turn();

    assert!(matches!(
        universe.handle_event(ExternalCommands::Construct(
            "The base".to_string(),
            ExternalConstructEventType::GetConstructState { include_stack: false }
        )),
        ExternalCommandReturnValues::Construct(ConstructEvenReturnType::ConstructState { .. })
    ));

    assert_eq!(
        ConstructEvenReturnType::RequestUnloadProcessed(2),
        push_construct_event(
            &mut universe,
            &construct_name,
            ConstructEventType::Internal(InternalConstructEventType::RequestUnload(Amount::new(
                Product::Ores,
                2
            )))
        )
    );

    assert_eq!(
        ExternalCommandReturnValues::Universe(MyLittleUniverseReturnValues::CouldNotFindConstruct(
            "!The base".to_string()
        )),
        universe.handle_event(ExternalCommands::Construct(
            "!The base".to_string(),
            ExternalConstructEventType::GetConstructState { include_stack: false }
        )),
    );
}

#[test]
fn move_sectors() {
    let mut universe = generate_simple_universe("the_universe".to_string());

    if let ExternalCommandReturnValues::Construct(ConstructEvenReturnType::ConstructState(
        construct,
    )) = universe.handle_event(ExternalCommands::Construct(
        "transport".to_string(),
        ExternalConstructEventType::GetConstructState { include_stack: false },
    )) {
        assert_eq!(
            &Sector(ConstructPositionSector::new(SectorPosition::new(1, 1, 1), 0)),
            construct.position.position()
        );
    } else {
        assert!(false);
    }

    assert_eq!(
        ExternalCommandReturnValues::Universe(MyLittleUniverseReturnValues::CouldNotMoveToSector("Construct \"transport\" is already in target position OfMove { construct_name: \"transport\", sector_position: SectorPosition { x: 1, y: 1, z: 1 }, group_address: Some(0) }".to_string())),
        universe.handle_event(ExternalCommands::Universe(ExternalUniverseEventType::Move(OfMove::new("transport".to_string(), SectorPosition::new(1, 1, 1), Some(0))))),
    );

    assert_eq!(
        ExternalCommandReturnValues::Universe(MyLittleUniverseReturnValues::CouldNotMoveToSector(
            "Target sector does not exist SectorPosition { x: 3, y: 3, z: 3 }".to_string()
        )),
        universe.handle_event(ExternalCommands::Universe(ExternalUniverseEventType::Move(
            OfMove::new("transport".to_string(), SectorPosition::new(3, 3, 3), None)
        ))),
    );

    assert_eq!(
        ExternalCommandReturnValues::Universe(MyLittleUniverseReturnValues::MovedToSector(1)),
        universe.handle_event(ExternalCommands::Universe(ExternalUniverseEventType::Move(
            OfMove::new("transport".to_string(), SectorPosition::new(2, 2, 2), None)
        ))),
    );

    assert_eq!(
        ExternalCommandReturnValues::Universe(MyLittleUniverseReturnValues::MovedToSector(1)),
        universe.handle_event(ExternalCommands::Universe(ExternalUniverseEventType::Move(
            OfMove::new("transport".to_string(), SectorPosition::new(1, 1, 1), None)
        ))),
    );

    assert_eq!(
        ExternalCommandReturnValues::Universe(MyLittleUniverseReturnValues::CouldNotMoveToSector("Construct \"transport\" is already in target position OfMove { construct_name: \"transport\", sector_position: SectorPosition { x: 1, y: 1, z: 1 }, group_address: Some(1) }".to_string())),
        universe.handle_event(ExternalCommands::Universe(ExternalUniverseEventType::Move(OfMove::new("transport".to_string(), SectorPosition::new(1, 1, 1), Some(1))))),
    );

    assert_eq!(
        ExternalCommandReturnValues::Universe(MyLittleUniverseReturnValues::CouldNotMoveToSector(
            "Target sector does not exist SectorPosition { x: 3, y: 3, z: 3 }".to_string()
        )),
        universe.handle_event(ExternalCommands::Universe(ExternalUniverseEventType::Move(
            OfMove::new("transport".to_string(), SectorPosition::new(3, 3, 3), None)
        ))),
    );
}

#[test]
fn docking() {
    let mut universe = generate_simple_universe("the_universe".to_string());

    verify_all_constructs_position(
        &mut universe,
        Sector(ConstructPositionSector::new(SectorPosition::new(1, 1, 1), 0)),
        Sector(ConstructPositionSector::new(SectorPosition::new(1, 1, 1), 0)),
        Sector(ConstructPositionSector::new(SectorPosition::new(2, 2, 2), 0)),
    );

    assert_eq!(
        ExternalCommandReturnValues::Construct(ConstructEvenReturnType::ConstructPosition(
            ConstructPositionEventReturnType::Denied(
                "Target has no free docking slots transport".to_string()
            )
        )),
        universe.handle_event(ExternalCommands::Construct(
            "The_base_1".to_string(),
            ExternalConstructEventType::ConstructPosition(
                ExternalConstructPositionEventType::Dock("transport".to_string())
            )
        )),
    );

    verify_all_constructs_position(
        &mut universe,
        Sector(ConstructPositionSector::new(SectorPosition::new(1, 1, 1), 0)),
        Sector(ConstructPositionSector::new(SectorPosition::new(1, 1, 1), 0)),
        Sector(ConstructPositionSector::new(SectorPosition::new(2, 2, 2), 0)),
    );

    assert_eq!(
        ExternalCommandReturnValues::Construct(ConstructEvenReturnType::ConstructPosition(ConstructPositionEventReturnType::Denied("Construct \"transport\" is at position Sector(ConstructPositionSector { sector_position: SectorPosition { x: 1, y: 1, z: 1 }, group_address: 0 }) and \"The_base_2\" is at position Sector(ConstructPositionSector { sector_position: SectorPosition { x: 2, y: 2, z: 2 }, group_address: 0 }), but they need to be at the same position to dock.".to_string()))),
        universe.handle_event(ExternalCommands::Construct("transport".to_string(), ExternalConstructEventType::ConstructPosition(ExternalConstructPositionEventType::Dock("The_base_2".to_string())))),
    );

    verify_all_constructs_position(
        &mut universe,
        Sector(ConstructPositionSector::new(SectorPosition::new(1, 1, 1), 0)),
        Sector(ConstructPositionSector::new(SectorPosition::new(1, 1, 1), 0)),
        Sector(ConstructPositionSector::new(SectorPosition::new(2, 2, 2), 0)),
    );

    assert_eq!(
        ExternalCommandReturnValues::Universe(MyLittleUniverseReturnValues::MovedToSector(1)),
        universe.handle_event(ExternalCommands::Universe(ExternalUniverseEventType::Move(
            OfMove::new("transport".to_string(), SectorPosition::new(2, 2, 2), None)
        ))),
    );

    verify_all_constructs_position(
        &mut universe,
        Sector(ConstructPositionSector::new(SectorPosition::new(2, 2, 2), 1)),
        Sector(ConstructPositionSector::new(SectorPosition::new(1, 1, 1), 0)),
        Sector(ConstructPositionSector::new(SectorPosition::new(2, 2, 2), 0)),
    );

    assert_eq!(
        ExternalCommandReturnValues::Construct(ConstructEvenReturnType::ConstructPosition(ConstructPositionEventReturnType::Denied("Construct \"transport\" is at position Sector(ConstructPositionSector { sector_position: SectorPosition { x: 2, y: 2, z: 2 }, group_address: 1 }) and \"The_base_2\" is at position Sector(ConstructPositionSector { sector_position: SectorPosition { x: 2, y: 2, z: 2 }, group_address: 0 }), but they need to be at the same position to dock.".to_string()))),
        universe.handle_event(ExternalCommands::Construct("transport".to_string(), ExternalConstructEventType::ConstructPosition(ExternalConstructPositionEventType::Dock("The_base_2".to_string())))),
    );

    verify_all_constructs_position(
        &mut universe,
        Sector(ConstructPositionSector::new(SectorPosition::new(2, 2, 2), 1)),
        Sector(ConstructPositionSector::new(SectorPosition::new(1, 1, 1), 0)),
        Sector(ConstructPositionSector::new(SectorPosition::new(2, 2, 2), 0)),
    );

    assert_eq!(
        ExternalCommandReturnValues::Sector(SectorEvenReturnType::Entered(0)),
        universe.handle_event(ExternalCommands::Sector(
            SectorPosition::new(2, 2, 2),
            ExternalSectorEventType::MoveToGroup("transport".to_string(), Some(0))
        )),
    );

    verify_all_constructs_position(
        &mut universe,
        Sector(ConstructPositionSector::new(SectorPosition::new(2, 2, 2), 0)),
        Sector(ConstructPositionSector::new(SectorPosition::new(1, 1, 1), 0)),
        Sector(ConstructPositionSector::new(SectorPosition::new(2, 2, 2), 0)),
    );

    assert_eq!(
        ExternalCommandReturnValues::Construct(ConstructEvenReturnType::ConstructPosition(
            ConstructPositionEventReturnType::RequestProcessed
        )),
        universe.handle_event(ExternalCommands::Construct(
            "transport".to_string(),
            ExternalConstructEventType::ConstructPosition(
                ExternalConstructPositionEventType::Dock("The_base_2".to_string())
            )
        )),
    );

    verify_all_constructs_position(
        &mut universe,
        Docked("The_base_2".to_string()),
        Sector(ConstructPositionSector::new(SectorPosition::new(1, 1, 1), 0)),
        Sector(ConstructPositionSector::new(SectorPosition::new(2, 2, 2), 0)),
    );

    assert_eq!(
        ExternalCommandReturnValues::Construct(ConstructEvenReturnType::ConstructPosition(
            ConstructPositionEventReturnType::Denied(
                "Construct transport is already docked at The_base_2 so cannot dock again. Use Undock first.".to_string()
            )
        )),
        universe.handle_event(ExternalCommands::Construct(
            "transport".to_string(),
            ExternalConstructEventType::ConstructPosition(
                ExternalConstructPositionEventType::Dock("The_base_2".to_string())
            )
        )),
    );

    verify_all_constructs_position(
        &mut universe,
        Docked("The_base_2".to_string()),
        Sector(ConstructPositionSector::new(SectorPosition::new(1, 1, 1), 0)),
        Sector(ConstructPositionSector::new(SectorPosition::new(2, 2, 2), 0)),
    );

    assert_eq!(
        ExternalCommandReturnValues::Construct(ConstructEvenReturnType::ConstructPosition(
            ConstructPositionEventReturnType::RequestProcessed
        )),
        universe.handle_event(ExternalCommands::Construct(
            "transport".to_string(),
            ExternalConstructEventType::ConstructPosition(
                ExternalConstructPositionEventType::Undock
            )
        )),
    );

    verify_all_constructs_position(
        &mut universe,
        Sector(ConstructPositionSector::new(SectorPosition::new(2, 2, 2), 0)),
        Sector(ConstructPositionSector::new(SectorPosition::new(1, 1, 1), 0)),
        Sector(ConstructPositionSector::new(SectorPosition::new(2, 2, 2), 0)),
    );

    assert_eq!(
        ExternalCommandReturnValues::Construct(ConstructEvenReturnType::ConstructPosition(
            ConstructPositionEventReturnType::Denied(
                "Cannot undock because is not docked. Is in sector ConstructPositionSector { sector_position: SectorPosition { x: 2, y: 2, z: 2 }, group_address: 0 }".to_string()
            )
        )),
        universe.handle_event(ExternalCommands::Construct(
            "transport".to_string(),
            ExternalConstructEventType::ConstructPosition(
                ExternalConstructPositionEventType::Undock
            )
        )),
    );

    verify_all_constructs_position(
        &mut universe,
        Sector(ConstructPositionSector::new(SectorPosition::new(2, 2, 2), 0)),
        Sector(ConstructPositionSector::new(SectorPosition::new(1, 1, 1), 0)),
        Sector(ConstructPositionSector::new(SectorPosition::new(2, 2, 2), 0)),
    );
    assert_eq!(
        ExternalCommandReturnValues::Construct(ConstructEvenReturnType::ConstructPosition(
            ConstructPositionEventReturnType::RequestProcessed
        )),
        universe.handle_event(ExternalCommands::Construct(
            "transport".to_string(),
            ExternalConstructEventType::ConstructPosition(
                ExternalConstructPositionEventType::Dock("The_base_2".to_string())
            )
        )),
    );

    verify_all_constructs_position(
        &mut universe,
        Docked("The_base_2".to_string()),
        Sector(ConstructPositionSector::new(SectorPosition::new(1, 1, 1), 0)),
        Sector(ConstructPositionSector::new(SectorPosition::new(2, 2, 2), 0)),
    );

    assert_eq!(
        ExternalCommandReturnValues::Universe(MyLittleUniverseReturnValues::MovedToSector(0)),
        universe.handle_event(ExternalCommands::Universe(ExternalUniverseEventType::Move(
            OfMove::new("The_base_2".to_string(), SectorPosition::new(1, 1, 1), Some(0))
        ))),
    );

    verify_all_constructs_position(
        &mut universe,
        Docked("The_base_2".to_string()),
        Sector(ConstructPositionSector::new(SectorPosition::new(1, 1, 1), 0)),
        Sector(ConstructPositionSector::new(SectorPosition::new(1, 1, 1), 0)),
    );

    assert_eq!(
        ExternalCommandReturnValues::Construct(ConstructEvenReturnType::ConstructPosition(
            ConstructPositionEventReturnType::RequestProcessed
        )),
        universe.handle_event(ExternalCommands::Construct(
            "The_base_2".to_string(),
            ExternalConstructEventType::ConstructPosition(
                ExternalConstructPositionEventType::Dock("The_base_1".to_string())
            )
        )),
    );

    verify_all_constructs_position(
        &mut universe,
        Docked("The_base_2".to_string()),
        Sector(ConstructPositionSector::new(SectorPosition::new(1, 1, 1), 0)),
        Docked("The_base_1".to_string()),
    );

    assert_eq!(
        ExternalCommandReturnValues::Construct(ConstructEvenReturnType::ConstructPosition(
            ConstructPositionEventReturnType::Denied(
                "Construct The_base_1 is already docked at The_base_2 or one of its docker parents.".to_string()
            )
        )),
        universe.handle_event(ExternalCommands::Construct(
            "The_base_1".to_string(),
            ExternalConstructEventType::ConstructPosition(
                ExternalConstructPositionEventType::Dock("The_base_2".to_string())
            )
        )),
    );

    verify_all_constructs_position(
        &mut universe,
        Docked("The_base_2".to_string()),
        Sector(ConstructPositionSector::new(SectorPosition::new(1, 1, 1), 0)),
        Docked("The_base_1".to_string()),
    );
}

#[test]
fn transfering() {
    let mut universe = generate_simple_universe("the_universe".to_string());

    assert_eq!(
        ConstructEvenReturnType::RequestLoadProcessed(200),
        push_construct_event(
            &mut universe,
            "The_base_1",
            ConstructEventType::Internal(InternalConstructEventType::RequestLoad(Amount::new(
                Product::PowerCells,
                200
            )))
        )
    );

    assert_eq!(
        ExternalCommandReturnValues::Universe(MyLittleUniverseReturnValues::Denied(
            "Cannot transfer because source transport and target transport construct is the same"
                .to_string()
        )),
        universe.handle_event(ExternalCommands::Universe(
            ExternalUniverseEventType::TransferCargo(OfTransferCargo::new(
                "transport".to_string(),
                "transport".to_string(),
                Amount::new(Product::Metals, 100),
            ))
        )),
    );

    assert_eq!(
        ExternalCommandReturnValues::Universe(MyLittleUniverseReturnValues::Denied("Cannot transfer, because transport is docked at ConstructPositionSector { sector_position: SectorPosition { x: 1, y: 1, z: 1 }, group_address: 0 } and The_base_1 is docked at ConstructPositionSector { sector_position: SectorPosition { x: 1, y: 1, z: 1 }, group_address: 0 }; One need to be docked at the other.".to_string())),
        universe.handle_event(ExternalCommands::Universe(ExternalUniverseEventType::TransferCargo(OfTransferCargo::new(
            "transport".to_string(),
            "The_base_1".to_string(),
            Amount::new(Product::Metals, 100),
        )))),
    );

    assert_eq!(
        ExternalCommandReturnValues::Construct(ConstructEvenReturnType::ConstructPosition(
            ConstructPositionEventReturnType::RequestProcessed
        )),
        universe.handle_event(ExternalCommands::Construct(
            "transport".to_string(),
            ExternalConstructEventType::ConstructPosition(
                ExternalConstructPositionEventType::Dock("The_base_1".to_string())
            )
        )),
    );

    assert_eq!(
        ExternalCommandReturnValues::Universe(MyLittleUniverseReturnValues::CargoTransfered(0)),
        universe.handle_event(ExternalCommands::Universe(
            ExternalUniverseEventType::TransferCargo(OfTransferCargo::new(
                "transport".to_string(),
                "The_base_1".to_string(),
                Amount::new(Product::Metals, 100),
            ))
        )),
    );

    assert_eq!(
        ExternalCommandReturnValues::Universe(MyLittleUniverseReturnValues::CargoTransfered(50)),
        universe.handle_event(ExternalCommands::Universe(
            ExternalUniverseEventType::TransferCargo(OfTransferCargo::new(
                "transport".to_string(),
                "The_base_1".to_string(),
                Amount::new(Product::PowerCells, 50),
            ))
        )),
    );

    assert_eq!(
        ExternalCommandReturnValues::Universe(MyLittleUniverseReturnValues::CargoTransfered(150)),
        universe.handle_event(ExternalCommands::Universe(
            ExternalUniverseEventType::TransferCargo(OfTransferCargo::new(
                "transport".to_string(),
                "The_base_1".to_string(),
                Amount::new(Product::PowerCells, 200),
            ))
        )),
    );

    assert_eq!(
        ExternalCommandReturnValues::Universe(MyLittleUniverseReturnValues::CargoTransfered(0)),
        universe.handle_event(ExternalCommands::Universe(
            ExternalUniverseEventType::TransferCargo(OfTransferCargo::new(
                "transport".to_string(),
                "The_base_1".to_string(),
                Amount::new(Product::PowerCells, 200),
            ))
        )),
    );

    assert_eq!(
        ExternalCommandReturnValues::Universe(MyLittleUniverseReturnValues::CargoTransfered(200)),
        universe.handle_event(ExternalCommands::Universe(
            ExternalUniverseEventType::TransferCargo(OfTransferCargo::new(
                "The_base_1".to_string(),
                "transport".to_string(),
                Amount::new(Product::PowerCells, 300),
            ))
        )),
    );

    assert_eq!(
        ExternalCommandReturnValues::Universe(MyLittleUniverseReturnValues::CargoTransfered(0)),
        universe.handle_event(ExternalCommands::Universe(
            ExternalUniverseEventType::TransferCargo(OfTransferCargo::new(
                "The_base_1".to_string(),
                "transport".to_string(),
                Amount::new(Product::PowerCells, 300),
            ))
        )),
    );
}

#[test]
fn transfer_loses_cargo_a_full_receiver_cannot_take() {
    let mut universe = generate_simple_universe("the_universe".to_string());

    // dock the transport at the first base so transfers are allowed
    assert_eq!(
        ExternalCommandReturnValues::Construct(ConstructEvenReturnType::ConstructPosition(
            ConstructPositionEventReturnType::RequestProcessed
        )),
        universe.handle_event(ExternalCommands::Construct(
            "transport".to_string(),
            ExternalConstructEventType::ConstructPosition(
                ExternalConstructPositionEventType::Dock("The_base_1".to_string())
            )
        )),
    );

    // fill the receiver to the brim and stock the giver
    assert_eq!(
        ConstructEvenReturnType::RequestLoadProcessed(500),
        push_construct_event(
            &mut universe,
            "transport",
            ConstructEventType::Internal(InternalConstructEventType::RequestLoad(Amount::new(
                Product::Metals,
                500
            )))
        )
    );
    assert_eq!(
        ConstructEvenReturnType::RequestLoadProcessed(200),
        push_construct_event(
            &mut universe,
            "The_base_1",
            ConstructEventType::Internal(InternalConstructEventType::RequestLoad(Amount::new(
                Product::PowerCells,
                200
            )))
        )
    );

    // the giver loses the goods even though the full receiver takes none:
    // the reply carries the receiver's (blocked) load result
    assert_eq!(
        ExternalCommandReturnValues::Universe(MyLittleUniverseReturnValues::CargoTransfered(100)),
        universe.handle_event(ExternalCommands::Universe(
            ExternalUniverseEventType::TransferCargo(OfTransferCargo::new(
                "transport".to_string(),
                "The_base_1".to_string(),
                Amount::new(Product::PowerCells, 100),
            ))
        )),
    );

    // the base lost 100 power cells, the transport still holds only metals
    assert_eq!(
        ConstructEvenReturnType::RequestUnloadProcessed(100),
        push_construct_event(
            &mut universe,
            "The_base_1",
            ConstructEventType::Internal(InternalConstructEventType::RequestUnload(Amount::new(
                Product::PowerCells,
                1000
            )))
        )
    );
    assert_eq!(
        ConstructEvenReturnType::RequestUnloadProcessed(0),
        push_construct_event(
            &mut universe,
            "transport",
            ConstructEventType::Internal(InternalConstructEventType::RequestUnload(Amount::new(
                Product::PowerCells,
                1000
            )))
        )
    );
}

#[test]
fn sector_command_on_missing_sector_is_denied() {
    let mut universe = generate_simple_universe("the_universe".to_string());
    assert_eq!(
        ExternalCommandReturnValues::Universe(MyLittleUniverseReturnValues::CouldNotFindSector(
            SectorPosition::new(9, 9, 9)
        )),
        universe.handle_event(ExternalCommands::Sector(
            SectorPosition::new(9, 9, 9),
            ExternalSectorEventType::GetSectorState
        )),
    );
}
