//! Builders for the human-readable reason strings carried by `Denied` and
//! other error results. Verified code treats the text as opaque: contracts
//! state *when* a denial happens, never what its string spells.

use vstd::prelude::*;

use crate::construct::construct::ConstructEvenReturnType;
use crate::construct::construct_position::{ConstructPositionSector, ConstructPositionStatus};
use crate::my_little_universe::OfMove;
use crate::sector::{SectorEvenReturnType, SectorPosition};

verus! {

/// Relies on std's `format!` to render the text.
#[verifier::external_body]
pub(crate) fn msg_not_member_of_sector(name: &String, position: &SectorPosition) -> String {
    format!(
        "Construct with name {} does not seem to be a member of any group in sector {:?} so it cannot move.",
        name,
        position,
    )
}

/// Relies on std's `format!` to render the text.
#[verifier::external_body]
pub(crate) fn msg_cannot_update_group(docked_at: &String, source_name: &String) -> String {
    format!("Currently docket at {} so cannot update the group for {}.", docked_at, source_name)
}

/// Relies on std's `format!` to render the text.
#[verifier::external_body]
pub(crate) fn msg_no_free_docking_slots(name: &String) -> String {
    format!("Target has no free docking slots {}", name)
}

/// Relies on std's `format!` to render the text.
#[verifier::external_body]
pub(crate) fn msg_no_construct_with_name(name: &String) -> String {
    format!("No construct with the name {}", name)
}

/// Relies on std's `format!` to render the text.
#[verifier::external_body]
pub(crate) fn msg_already_docked(source_name: &String, docked_at: &String) -> String {
    format!(
        "Construct {} is already docked at {} so cannot dock again. Use Undock first.",
        source_name,
        docked_at,
    )
}

/// Relies on std's `format!` to render the text.
#[verifier::external_body]
pub(crate) fn msg_docked_in_parents(source_name: &String, target_name: &String) -> String {
    format!(
        "Construct {} is already docked at {} or one of its docker parents.",
        source_name,
        target_name,
    )
}

/// Relies on std's `format!` to render the text.
#[verifier::external_body]
pub(crate) fn msg_positions_differ(
    source_name: &String,
    source_position: &ConstructPositionStatus,
    target_name: &String,
    target_position: &ConstructPositionStatus,
) -> String {
    format!(
        "Construct {:?} is at position {:?} and {:?} is at position {:?}, but they need to be at the same position to dock.",
        source_name,
        source_position,
        target_name,
        target_position,
    )
}

/// Relies on std's `format!` to render the text.
#[verifier::external_body]
pub(crate) fn msg_no_sector_at(position: &ConstructPositionSector) -> String {
    format!("No sector at position {:?}", position)
}

/// Relies on std's `format!` to render the text.
#[verifier::external_body]
pub(crate) fn msg_cannot_undock_in_sector(sector_name: &ConstructPositionSector) -> String {
    format!("Cannot undock because is not docked. Is in sector {:?}", sector_name)
}

/// Relies on std's `format!` to render the text.
#[verifier::external_body]
pub(crate) fn msg_target_sector_missing(position: &SectorPosition) -> String {
    format!("Target sector does not exist {:?}", position)
}

/// Relies on std's `format!` to render the text.
#[verifier::external_body]
pub(crate) fn msg_is_docked_at(name: &String) -> String {
    format!("Is docked at {}", name)
}

/// Relies on std's `format!` to render the text.
#[verifier::external_body]
pub(crate) fn msg_already_at_target(name: &String, of_move: &OfMove) -> String {
    format!("Construct {:?} is already in target position {:?}", name, of_move)
}

/// Relies on std's `format!` to render the text.
#[verifier::external_body]
pub(crate) fn msg_could_not_leave_sector(position: &SectorPosition, message: &String) -> String {
    format!("Could not leave sector {:?}, because {}", position, message)
}

/// Relies on std's `format!` to render the text.
#[verifier::external_body]
pub(crate) fn msg_source_sector_missing(position: &SectorPosition) -> String {
    format!("Source sector does not exist {:?}", position)
}

/// Relies on std's `format!` to render the text.
#[verifier::external_body]
pub(crate) fn msg_construct_missing(name: &String) -> String {
    format!("Construct does not exist {}", name)
}

/// Relies on std's `format!` to render the text.
#[verifier::external_body]
pub(crate) fn msg_transfer_same(source_name: &String, target_name: &String) -> String {
    format!(
        "Cannot transfer because source {} and target {} construct is the same",
        source_name,
        target_name,
    )
}

/// Relies on std's `format!` to render the text.
#[verifier::external_body]
pub(crate) fn msg_transfer_both_in_sectors(
    source_name: &String,
    source_position: &ConstructPositionSector,
    target_name: &String,
    target_position: &ConstructPositionSector,
) -> String {
    format!(
        "Cannot transfer, because {} is docked at {:?} and {} is docked at {:?}; One need to be docked at the other.",
        source_name,
        source_position,
        target_name,
        target_position,
    )
}

/// Relies on std's `format!` to render the text.
#[verifier::external_body]
pub(crate) fn msg_transfer_target_docked_elsewhere(
    source_name: &String,
    source_position: &ConstructPositionSector,
    target_name: &String,
    target_docked_at: &String,
) -> String {
    format!(
        "Cannot transfer, because {} is docked at {:?} and {} is docked at {:?}; One need to be docked at the other.",
        source_name,
        source_position,
        target_name,
        target_docked_at,
    )
}

/// Relies on std's `format!` to render the text.
#[verifier::external_body]
pub(crate) fn msg_transfer_source_docked_elsewhere(
    source_name: &String,
    source_docked_at: &String,
    target_name: &String,
) -> String {
    format!(
        "Cannot transfer, because {} is docked at {:?} and that is not {}.",
        source_name,
        source_docked_at,
        target_name,
    )
}

/// Relies on std's `format!` to render the text.
#[verifier::external_body]
pub(crate) fn msg_group_update_trouble(
    name: &String,
    group_address: usize,
    event: &ConstructEvenReturnType,
) -> String {
    format!(
        "Construct {} had trouble updating its group state to {}, got this event {:?}",
        name,
        group_address,
        event,
    )
}

/// Relies on std's `format!` to render the text.
#[verifier::external_body]
pub(crate) fn msg_move_to_group_trouble(
    name: &String,
    position: &SectorPosition,
    return_type: &SectorEvenReturnType,
) -> String {
    format!(
        "Construct {} had trouble sector {:?}, got this returned {:?}",
        name,
        position,
        return_type,
    )
}

/// Relies on std's `format!` to render the text.
#[verifier::external_body]
pub(crate) fn msg_station_load_no_room(requested: u32, room: u32) -> String {
    format!("Loading request denied. Requested {} but there were only room for {}.", requested, room)
}

/// Relies on std's `format!` to render the text.
#[verifier::external_body]
pub(crate) fn msg_station_load_wrong_product(product: &crate::products::Product) -> String {
    format!("Loading request denied. This station does not use {:?} and will not receive it.", product)
}

/// Relies on std's `format!` to render the text.
#[verifier::external_body]
pub(crate) fn msg_station_unload_no_stock(requested: u32, available: u32) -> String {
    format!("Unloading request denied. Requested {} but there were only {} available.", requested, available)
}

/// Relies on std's `format!` to render the text.
#[verifier::external_body]
pub(crate) fn msg_station_unload_wrong_product(product: &crate::products::Product) -> String {
    format!("Unloading request denied. This station does not produce {:?} and will not sell it.", product)
}

} // verus!
