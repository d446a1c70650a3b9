use my_little_universe::sector::{
    ExternalSectorEventType, InternalSectorEventType, Sector, SectorEvenReturnType,
    SectorEventType, SectorPosition,
};

#[test]
fn one_construct() {
    let position = SectorPosition::new(4, 3, 2);
    let groups = Vec::new();
    let mut sector = Sector::new(groups, position);

    assert_eq!(0, sector.groups.len());
    assert_eq!(
        SectorEvenReturnType::Entered(0),
        sector.handle_event(&SectorEventType::Internal(InternalSectorEventType::Enter(
            "construct_1".to_string(),
            Some(0)
        )))
    );
    assert_eq!(1, sector.groups.len());
    assert_eq!(&"construct_1".to_string(), sector.groups.get(0).unwrap().get(0).unwrap());

    assert_eq!(
        SectorEvenReturnType::Entered(0),
        sector.handle_event(&SectorEventType::External(ExternalSectorEventType::MoveToGroup(
            "construct_1".to_string(),
            Some(0)
        )))
    );
    assert_eq!(&"construct_1".to_string(), sector.groups.get(0).unwrap().get(0).unwrap());
    assert_eq!(1, sector.groups.len());

    assert_eq!(
        SectorEvenReturnType::Entered(1),
        sector.handle_event(&SectorEventType::External(ExternalSectorEventType::MoveToGroup(
            "construct_1".to_string(),
            None
        )))
    );
    assert!(sector.groups.get(0).unwrap().is_empty());
    assert_eq!(&"construct_1".to_string(), sector.groups.get(1).unwrap().get(0).unwrap());
    assert_eq!(2, sector.groups.len());

    assert_eq!(
        SectorEvenReturnType::Entered(0),
        sector.handle_event(&SectorEventType::External(ExternalSectorEventType::MoveToGroup(
            "construct_1".to_string(),
            Some(0)
        )))
    );
    assert_eq!(&"construct_1".to_string(), sector.groups.get(0).unwrap().get(0).unwrap());
    assert!(sector.groups.get(1).unwrap().is_empty());
    assert_eq!(2, sector.groups.len());

    assert_eq!(
        SectorEvenReturnType::Entered(1),
        sector.handle_event(&SectorEventType::External(ExternalSectorEventType::MoveToGroup(
            "construct_1".to_string(),
            Some(42)
        )))
    );
    assert!(sector.groups.get(0).unwrap().is_empty());
    assert_eq!(&"construct_1".to_string(), sector.groups.get(1).unwrap().get(0).unwrap());
    assert_eq!(2, sector.groups.len());

    assert_eq!(
        SectorEvenReturnType::Approved,
        sector.handle_event(&SectorEventType::Internal(InternalSectorEventType::Leave(
            "construct_1".to_string()
        )))
    );
    assert!(sector.groups.get(0).unwrap().is_empty());
    assert!(sector.groups.get(1).unwrap().is_empty());
    assert_eq!(2, sector.groups.len());
}

#[test]
fn multiple_construct() {
    let position = SectorPosition::new(4, 3, 2);
    let groups = Vec::new();
    let mut sector = Sector::new(groups, position);

    assert_eq!(0, sector.groups.len());
    assert_eq!(
        SectorEvenReturnType::Entered(0),
        sector.handle_event(&SectorEventType::Internal(InternalSectorEventType::Enter(
            "construct_1".to_string(),
            None
        )))
    );
    assert_eq!(1, sector.groups.len());
    assert_eq!(&"construct_1".to_string(), sector.groups.get(0).unwrap().get(0).unwrap());

    assert_eq!(
        SectorEvenReturnType::Entered(1),
        sector.handle_event(&SectorEventType::Internal(InternalSectorEventType::Enter(
            "construct_2".to_string(),
            None
        )))
    );
    assert_eq!(2, sector.groups.len());
    assert_eq!(&"construct_1".to_string(), sector.groups.get(0).unwrap().get(0).unwrap());
    assert_eq!(&"construct_2".to_string(), sector.groups.get(1).unwrap().get(0).unwrap());

    assert_eq!(
        SectorEvenReturnType::Entered(2),
        sector.handle_event(&SectorEventType::External(ExternalSectorEventType::MoveToGroup(
            "construct_1".to_string(),
            None
        )))
    );
    assert_eq!(3, sector.groups.len());
    assert!(sector.groups.get(0).unwrap().is_empty());
    assert_eq!(&"construct_2".to_string(), sector.groups.get(1).unwrap().get(0).unwrap());
    assert_eq!(&"construct_1".to_string(), sector.groups.get(2).unwrap().get(0).unwrap());

    assert_eq!(
        SectorEvenReturnType::Entered(2),
        sector.handle_event(&SectorEventType::External(ExternalSectorEventType::MoveToGroup(
            "construct_2".to_string(),
            Some(2)
        )))
    );
    assert_eq!(3, sector.groups.len());
    assert!(sector.groups.get(0).unwrap().is_empty());
    assert!(sector.groups.get(1).unwrap().is_empty());
    assert_eq!(&"construct_2".to_string(), sector.groups.get(2).unwrap().get(1).unwrap());
    assert_eq!(&"construct_1".to_string(), sector.groups.get(2).unwrap().get(0).unwrap());

    assert_eq!(
        SectorEvenReturnType::Entered(0),
        sector.handle_event(&SectorEventType::External(ExternalSectorEventType::MoveToGroup(
            "construct_1".to_string(),
            None
        )))
    );
    assert_eq!(3, sector.groups.len());
    assert_eq!(&"construct_1".to_string(), sector.groups.get(0).unwrap().get(0).unwrap());
    assert!(sector.groups.get(1).unwrap().is_empty());
    assert_eq!(&"construct_2".to_string(), sector.groups.get(2).unwrap().get(0).unwrap());

    assert_eq!(
        SectorEvenReturnType::Approved,
        sector.handle_event(&SectorEventType::Internal(InternalSectorEventType::Leave(
            "construct_1".to_string()
        )))
    );
    assert_eq!(3, sector.groups.len());
    assert!(sector.groups.get(0).unwrap().is_empty());
    assert!(sector.groups.get(1).unwrap().is_empty());
    assert_eq!(&"construct_2".to_string(), sector.groups.get(2).unwrap().get(0).unwrap());

    assert_eq!(
        Err("Construct with name construct_1 does not seem to be a member of any group in sector SectorPosition { x: 4, y: 3, z: 2 } so it cannot move.".to_string()),
        sector.leave_sector(&"construct_1".to_string())
    );

    assert_eq!(
        SectorEvenReturnType::Entered(0),
        sector.handle_event(&SectorEventType::External(ExternalSectorEventType::MoveToGroup(
            "construct_2".to_string(),
            None
        )))
    );
    assert_eq!(&"construct_2".to_string(), sector.groups.get(0).unwrap().get(0).unwrap());
    assert!(sector.groups.get(1).unwrap().is_empty());
    assert!(sector.groups.get(2).unwrap().is_empty());
}
