use my_little_universe::products::Product;
use my_little_universe::station::{
    Amount, ExternalStationEventType, InternalStationEventType, LoadingRequest, Production,
    Station, StationEvenReturnType, StationEventType,
};

fn make_mining_station() -> Station {
    Station {
        name: "The digger".to_string(),
        production: Production {
            input: vec![Amount {
                product: Product::PowerCells,
                amount: 1,
                current_storage: 0,
                max_storage: 10000,
            }],
            output: vec![Amount {
                product: Product::Ores,
                amount: 2,
                current_storage: 0,
                max_storage: 20000,
            }],
            production_time: 1,
            production_trigger_time: 0,
        },
        event_stack: Vec::new(),
    }
}

#[test]
fn request_unload_wrong_product() {
    let mut station = make_mining_station();
    match station.push_event(&StationEventType::External(
        ExternalStationEventType::RequestUnload(LoadingRequest {
            product: Product::Metals,
            amount: 200,
        }),
    )) {
        StationEvenReturnType::Denied(s) => {
            assert_eq!(
                "Unloading request denied. This station does not produce Metals and will not sell it.",
                s
            )
        }
        _ => assert!(false),
    }
}

#[test]
fn request_unload_to_big_amount() {
    let mut station = make_mining_station();
    match station.push_event(&StationEventType::External(
        ExternalStationEventType::RequestUnload(LoadingRequest {
            product: Product::Ores,
            amount: 200,
        }),
    )) {
        StationEvenReturnType::Denied(s) => {
            assert_eq!("Unloading request denied. Requested 200 but there were only 0 available.", s)
        }
        _ => assert!(false),
    }
}

#[test]
fn request_load_wrong_product() {
    let mut station = make_mining_station();
    match station.push_event(&StationEventType::External(
        ExternalStationEventType::RequestLoad(LoadingRequest {
            product: Product::Ores,
            amount: 200,
        }),
    )) {
        StationEvenReturnType::Denied(s) => {
            assert_eq!(
                "Loading request denied. This station does not use Ores and will not receive it.",
                s
            )
        }
        _ => assert!(false),
    }
}

#[test]
fn request_load_wrong_amount() {
    let mut station = make_mining_station();
    match station.push_event(&StationEventType::External(
        ExternalStationEventType::RequestLoad(LoadingRequest {
            product: Product::PowerCells,
            amount: 9999999,
        }),
    )) {
        StationEvenReturnType::Denied(s) => {
            assert_eq!("Loading request denied. Requested 9999999 but there were only room for 10000.", s)
        }
        _ => assert!(false),
    }
}

#[test]
fn produce() {
    let mut station = make_mining_station();
    match station.push_event(&StationEventType::External(ExternalStationEventType::RequestLoad(
        LoadingRequest { product: Product::PowerCells, amount: 100 },
    ))) {
        StationEvenReturnType::Approved => {}
        _ => assert!(false),
    }

    match station.push_event(&StationEventType::Internal(InternalStationEventType::ExecuteTurn(
        1,
    ))) {
        StationEvenReturnType::TurnExecuted => {}
        _ => assert!(false),
    }

    match station.push_event(&StationEventType::External(
        ExternalStationEventType::GetStationState { include_stack: true },
    )) {
        StationEvenReturnType::StationState(state) => {
            assert_eq!(2, state.production.output.get(0).unwrap().current_storage);
            assert_eq!(99, state.production.input.get(0).unwrap().current_storage);
            assert_eq!(2, state.production.production_trigger_time);
        }
        _ => assert!(false),
    }

    match station.push_event(&StationEventType::Internal(InternalStationEventType::ExecuteTurn(
        2,
    ))) {
        StationEvenReturnType::TurnExecuted => {}
        _ => assert!(false),
    }

    match station.push_event(&StationEventType::External(
        ExternalStationEventType::GetStationState { include_stack: true },
    )) {
        StationEvenReturnType::StationState(state) => {
            assert_eq!(4, state.production.output.get(0).unwrap().current_storage);
            assert_eq!(98, state.production.input.get(0).unwrap().current_storage);
            assert_eq!(3, state.production.production_trigger_time);
        }
        _ => assert!(false),
    }

    match station.push_event(&StationEventType::External(
        ExternalStationEventType::RequestUnload(LoadingRequest {
            product: Product::Ores,
            amount: 2,
        }),
    )) {
        StationEvenReturnType::Approved => {}
        _ => assert!(false),
    }

    match station.push_event(&StationEventType::External(
        ExternalStationEventType::GetStationState { include_stack: true },
    )) {
        StationEvenReturnType::StationState(state) => {
            assert_eq!(2, state.production.output.get(0).unwrap().current_storage);
            assert_eq!(98, state.production.input.get(0).unwrap().current_storage);
            assert_eq!(3, state.production.production_trigger_time);
        }
        _ => assert!(false),
    }
}
