use vstd::prelude::*;

use crate::construct::amount::Amount;
use crate::construct::construct::{
    same_but_event_stack, spec_load_request, spec_unload, spec_unloaded_amount, Construct,
    ConstructEvenReturnType, ConstructEventType, ExternalConstructEventType,
    InternalConstructEventType,
};
use crate::external_commands::{ExternalCommandReturnValues, ExternalCommands};
use crate::construct::construct_position::{
    first_free_slot, first_slot_holding, has_free_slot, status_eq, statuses_equal,
    ConstructPositionEventReturnType, ConstructPositionEventType, ConstructPositionSector,
    ConstructPositionState, ConstructPositionStatus, DockerModule,
    ExternalConstructPositionEventType, InternalConstructPositionEventType,
};
use crate::messages::{
    msg_already_at_target, msg_already_docked, msg_construct_missing, msg_could_not_leave_sector,
    msg_docked_in_parents, msg_is_docked_at, msg_no_construct_with_name, msg_no_free_docking_slots,
    msg_no_sector_at, msg_positions_differ, msg_source_sector_missing, msg_target_sector_missing,
    msg_cannot_undock_in_sector, msg_group_update_trouble, msg_move_to_group_trouble,
    msg_transfer_both_in_sectors, msg_transfer_same, msg_transfer_source_docked_elsewhere,
    msg_transfer_target_docked_elsewhere,
};
use crate::sector::{
    groups_add, groups_removed, leave_sector_outcome, some_group_has, Sector, SectorPosition,
};
use crate::time::TimeStackState;

verus! {

/// The universe-level requests: relocation and cargo transfer span several
/// entities and are orchestrated here.
#[derive(Clone, PartialEq, Debug)]
pub enum ExternalUniverseEventType {
    Move(OfMove),
    TransferCargo(OfTransferCargo),
}

#[derive(Clone, PartialEq, Debug)]
pub struct OfTransferCargo {
    pub source_construct_name: String,
    pub target_construct_name: String,
    pub amount: Amount,
}

impl OfTransferCargo {
    pub fn new(source_construct_name: String, target_construct_name: String, amount: Amount) -> (r:
        Self)
        ensures
            r == (OfTransferCargo { source_construct_name, target_construct_name, amount }),
    {
        OfTransferCargo { source_construct_name, target_construct_name, amount }
    }
}

#[derive(Clone, PartialEq, Debug)]
pub struct OfMove {
    pub construct_name: String,
    pub sector_position: SectorPosition,
    pub group_address: Option<usize>,
}

impl OfMove {
    pub fn new(construct_name: String, sector_position: SectorPosition, group_address: Option<
        usize,
    >) -> (r: Self)
        ensures
            r == (OfMove { construct_name, sector_position, group_address }),
    {
        OfMove { construct_name, sector_position, group_address }
    }
}

#[derive(Clone, PartialEq, Debug)]
pub enum MyLittleUniverseReturnValues {
    CouldNotFindStation,
    CouldNotFindConstruct(String),
    CouldNotFindSector(SectorPosition),
    MovedToSector(usize),
    CouldNotMoveToSector(String),
    Denied(String),
    CargoTransfered(u32),
}

/// The top-level orchestrator: every construct and sector of the running
/// simulation, and the turn clock.
pub struct MyLittleUniverse {
    pub time: TimeStackState,
    pub constructs: Vec<Construct>,
    pub sectors: Vec<Sector>,
    pub universe_name: String,
}

/// Some construct of this name exists.
pub open spec fn has_construct(cs: Seq<Construct>, name: Seq<char>) -> bool {
    exists|i: int| 0 <= i < cs.len() && cs[i].name@ == name
}

/// The index of the construct of this name (unique under the universe
/// invariant).
pub open spec fn idx_of_construct(cs: Seq<Construct>, name: Seq<char>) -> int {
    choose|i: int| 0 <= i < cs.len() && cs[i].name@ == name
}

pub open spec fn has_sector(ss: Seq<Sector>, position: SectorPosition) -> bool {
    exists|k: int| 0 <= k < ss.len() && ss[k].position == position
}

pub open spec fn idx_of_sector(ss: Seq<Sector>, position: SectorPosition) -> int {
    choose|k: int| 0 <= k < ss.len() && ss[k].position == position
}

/// Following the docking-parent chain from `from` for at most `fuel` steps
/// reaches a construct named `to`.
pub open spec fn chain_reaches(cs: Seq<Construct>, from: Seq<char>, to: Seq<char>, fuel: nat) -> bool
    decreases fuel,
{
    if from == to {
        true
    } else if fuel == 0 {
        false
    } else if has_construct(cs, from) {
        match cs[idx_of_construct(cs, from)].position.position {
            ConstructPositionStatus::Docked(parent) => chain_reaches(
                cs,
                parent@,
                to,
                (fuel - 1) as nat,
            ),
            ConstructPositionStatus::Sector(_) => false,
        }
    } else {
        false
    }
}

/// The sector position a construct effectively occupies: its own when loose,
/// its dock chain's root otherwise; `None` when the chain is broken or
/// longer than the construct count (a cycle).
pub open spec fn resolved_sector_position(cs: Seq<Construct>, name: Seq<char>, fuel: nat) -> Option<
    ConstructPositionSector,
>
    decreases fuel,
{
    if !has_construct(cs, name) {
        None
    } else {
        match cs[idx_of_construct(cs, name)].position.position {
            ConstructPositionStatus::Sector(position) => Some(position),
            ConstructPositionStatus::Docked(parent) => if fuel == 0 {
                None
            } else {
                resolved_sector_position(cs, parent@, (fuel - 1) as nat)
            },
        }
    }
}

/// The request is denied and nothing changes.
pub open spec fn denied_unchanged(
    old_u: MyLittleUniverse,
    new_u: MyLittleUniverse,
    r: ConstructPositionEventReturnType,
) -> bool {
    r is Denied && universe_unchanged(old_u, new_u)
}

pub open spec fn universe_unchanged(old_u: MyLittleUniverse, new_u: MyLittleUniverse) -> bool {
    &&& new_u.time == old_u.time
    &&& new_u.constructs@ == old_u.constructs@
    &&& new_u.sectors@ == old_u.sectors@
    &&& new_u.universe_name == old_u.universe_name
}

/// What the docking protocol does: every precondition is validated — no
/// self-docking, the source exists and is loose in a sector, the target
/// exists and is not (transitively) docked at the source, the two share a
/// sector and group, the sector exists, and the target has a free slot —
/// and only then are the three mutations committed together.
pub open spec fn dock_outcome(
    old_u: MyLittleUniverse,
    new_u: MyLittleUniverse,
    source_name: String,
    target_name: String,
    r: ConstructPositionEventReturnType,
) -> bool {
    let cs = old_u.constructs@;
    if source_name@ == target_name@ {
        denied_unchanged(old_u, new_u, r)
    } else if !has_construct(cs, source_name@) {
        denied_unchanged(old_u, new_u, r)
    } else {
        let si = idx_of_construct(cs, source_name@);
        match cs[si].position.position {
            ConstructPositionStatus::Docked(_) => denied_unchanged(old_u, new_u, r),
            ConstructPositionStatus::Sector(source_position) => {
                if !has_construct(cs, target_name@) {
                    denied_unchanged(old_u, new_u, r)
                } else if chain_reaches(cs, target_name@, source_name@, cs.len() as nat) {
                    denied_unchanged(old_u, new_u, r)
                } else if !status_eq(
                    cs[idx_of_construct(cs, target_name@)].position.position,
                    cs[si].position.position,
                ) {
                    denied_unchanged(old_u, new_u, r)
                } else if !has_sector(old_u.sectors@, source_position.sector_position) {
                    denied_unchanged(old_u, new_u, r)
                } else if !has_free_slot(
                    cs[idx_of_construct(cs, target_name@)].position.docker_modules@,
                ) {
                    denied_unchanged(old_u, new_u, r)
                } else {
                    &&& r is RequestProcessed
                    &&& dock_commit(old_u, new_u, source_name, target_name, source_position)
                }
            }
        }
    }
}

/// The three committed docking mutations: the source leaves its sector
/// group, the target's first free slot takes the source's name, and the
/// source's position becomes `Docked(target)`.
pub open spec fn dock_commit(
    old_u: MyLittleUniverse,
    new_u: MyLittleUniverse,
    source_name: String,
    target_name: String,
    source_position: ConstructPositionSector,
) -> bool {
    let cs = old_u.constructs@;
    let si = idx_of_construct(cs, source_name@);
    let ti = idx_of_construct(cs, target_name@);
    let ki = idx_of_sector(old_u.sectors@, source_position.sector_position);
    &&& new_u.time == old_u.time
    &&& new_u.universe_name == old_u.universe_name
    &&& new_u.constructs@.len() == cs.len()
    &&& new_u.sectors@.len() == old_u.sectors@.len()
    // the sector: the source's name is removed from its group
    &&& forall|k: int|
        0 <= k < old_u.sectors@.len() && k != ki ==> new_u.sectors@[k] == old_u.sectors@[k]
    &&& new_u.sectors@[ki].position == old_u.sectors@[ki].position
    &&& groups_removed(
        old_u.sectors@[ki].groups@,
        new_u.sectors@[ki].groups@,
        source_name@,
        source_position.group_address as int,
    )
    // the target: its first free slot holds the source
    &&& forall|i: int| 0 <= i < cs.len() && i != si && i != ti ==> new_u.constructs@[i] == cs[i]
    &&& exists|j: int|
        #[trigger] first_free_slot(cs[ti].position.docker_modules@, j)
            && new_u.constructs@[ti] == (Construct {
            position: ConstructPositionState {
                docker_modules: new_u.constructs@[ti].position.docker_modules,
                ..cs[ti].position
            },
            ..cs[ti]
        }) && new_u.constructs@[ti].position.docker_modules@
            == cs[ti].position.docker_modules@.update(
            j,
            DockerModule { docked_construct: Some(source_name) },
        )
    // the source: docked at the target
    &&& new_u.constructs@[si] == (Construct {
        position: ConstructPositionState {
            position: ConstructPositionStatus::Docked(target_name),
            ..cs[si].position
        },
        ..cs[si]
    })
}

impl MyLittleUniverse {
    /// Well-formedness: every construct is well-formed, construct names are
    /// unique, and sector coordinates are unique.
    pub open spec fn inv(self) -> bool {
        &&& forall|i: int|
            0 <= i < self.constructs@.len() ==> (#[trigger] self.constructs@[i]).inv()
        &&& forall|i: int, j: int|
            0 <= i < j < self.constructs@.len() ==> self.constructs@[i].name@
                != self.constructs@[j].name@
        &&& forall|i: int, j: int|
            0 <= i < j < self.sectors@.len() ==> self.sectors@[i].position
                != self.sectors@[j].position
    }

    pub fn new(
        universe_name: String,
        time: TimeStackState,
        constructs: Vec<Construct>,
        sectors: Vec<Sector>,
    ) -> (r: Self)
        ensures
            r.time == time,
            r.constructs == constructs,
            r.sectors == sectors,
            r.universe_name == universe_name,
    {
        MyLittleUniverse { time, universe_name, constructs, sectors }
    }

    pub fn time(&self) -> (r: &TimeStackState)
        ensures
            r == &self.time,
    {
        &self.time
    }

    pub fn constructs(&self) -> (r: &Vec<Construct>)
        ensures
            r == &self.constructs,
    {
        &self.constructs
    }

    pub fn universe_name(&self) -> (r: &str)
        ensures
            r@ == self.universe_name@,
    {
        self.universe_name.as_str()
    }

    /// Index of the construct of this name, if any.
    fn find_construct(&self, name: &String) -> (r: Option<usize>)
        ensures
            r matches Some(i) ==> i < self.constructs@.len() && self.constructs@[i as int].name@
                == name@,
            r is None ==> !has_construct(self.constructs@, name@),
    {
        let mut i: usize = 0;
        while i < self.constructs.len()
            invariant
                i <= self.constructs.len(),
                forall|k: int| 0 <= k < i ==> self.constructs@[k].name@ != name@,
            decreases self.constructs.len() - i,
        {
            if self.constructs[i].name.eq(name) {
                return Some(i);
            }
            i += 1;
        }
        None
    }

    /// Index of the sector at this coordinate, if any.
    fn find_sector(&self, position: &SectorPosition) -> (r: Option<usize>)
        ensures
            r matches Some(k) ==> k < self.sectors@.len() && self.sectors@[k as int].position
                == *position,
            r is None ==> !has_sector(self.sectors@, *position),
    {
        let mut k: usize = 0;
        while k < self.sectors.len()
            invariant
                k <= self.sectors.len(),
                forall|m: int| 0 <= m < k ==> self.sectors@[m].position != *position,
            decreases self.sectors.len() - k,
        {
            if self.sectors[k].position == *position {
                return Some(k);
            }
            k += 1;
        }
        None
    }

    /// Whether `query_construct_name` stands anywhere in the docking-parent
    /// chain that starts at `first_docked_construct_name`.
    pub fn construct_is_part_of_docker_parents(
        &self,
        first_docked_construct_name: String,
        query_construct_name: &String,
    ) -> (r: bool)
        requires
            self.inv(),
        ensures
            r == chain_reaches(
                self.constructs@,
                first_docked_construct_name@,
                query_construct_name@,
                self.constructs@.len() as nat,
            ),
    {
        let mut current: String = first_docked_construct_name;
        let ghost start_name = current@;
        let mut fuel: usize = self.constructs.len();
        loop
            invariant
                self.inv(),
                start_name == first_docked_construct_name@,
                fuel <= self.constructs@.len(),
                chain_reaches(
                    self.constructs@,
                    current@,
                    query_construct_name@,
                    fuel as nat,
                ) == chain_reaches(
                    self.constructs@,
                    start_name,
                    query_construct_name@,
                    self.constructs@.len() as nat,
                ),
            decreases fuel,
        {
            if current.eq(query_construct_name) {
                return true;
            }
            if fuel == 0 {
                return false;
            }
            match self.find_construct(&current) {
                None => {
                    return false;
                }
                Some(i) => {
                    proof {
                        assert(self.constructs@[idx_of_construct(self.constructs@, current@)].name@
                            == current@);
                        assert(idx_of_construct(self.constructs@, current@) == i as int);
                    }
                    match &self.constructs[i].position.position {
                        ConstructPositionStatus::Sector(_) => {
                            return false;
                        }
                        ConstructPositionStatus::Docked(parent) => {
                            current = parent.clone();
                            fuel = fuel - 1;
                        }
                    }
                }
            }
        }
    }

    /// The sector position a construct effectively occupies, following the
    /// docking-parent chain to its root.
    fn get_sector_position(&self, construct_name: String) -> (r: Option<ConstructPositionSector>)
        requires
            self.inv(),
        ensures
            r == resolved_sector_position(
                self.constructs@,
                construct_name@,
                self.constructs@.len() as nat,
            ),
    {
        let mut current: String = construct_name;
        let ghost start_name = current@;
        let mut fuel: usize = self.constructs.len();
        loop
            invariant
                self.inv(),
                start_name == construct_name@,
                fuel <= self.constructs@.len(),
                resolved_sector_position(self.constructs@, current@, fuel as nat)
                    == resolved_sector_position(
                    self.constructs@,
                    start_name,
                    self.constructs@.len() as nat,
                ),
            decreases fuel,
        {
            match self.find_construct(&current) {
                None => {
                    return None;
                }
                Some(i) => {
                    proof {
                        assert(self.constructs@[idx_of_construct(self.constructs@, current@)].name@
                            == current@);
                        assert(idx_of_construct(self.constructs@, current@) == i as int);
                    }
                    match &self.constructs[i].position.position {
                        ConstructPositionStatus::Sector(position) => {
                            return Some(*position);
                        }
                        ConstructPositionStatus::Docked(parent) => {
                            if fuel == 0 {
                                return None;
                            }
                            current = parent.clone();
                            fuel = fuel - 1;
                        }
                    }
                }
            }
        }
    }

    /// The docking protocol: validates every precondition, then commits the
    /// sector-leave, the slot occupation and the position change together,
    /// so a denial never leaves the state half-changed.
    pub fn handle_docking_request(
        &mut self,
        source_construct_name: String,
        target_construct_name: String,
    ) -> (r: ConstructPositionEventReturnType)
        requires
            old(self).inv(),
        ensures
            final(self).inv(),
            dock_outcome(*old(self), *final(self), source_construct_name, target_construct_name, r),
    {
        if source_construct_name.eq(&target_construct_name) {
            return ConstructPositionEventReturnType::Denied(
                "Construct cannot dock with itself.".to_owned(),
            );
        }

        let si = match self.find_construct(&source_construct_name) {
            None => {
                return ConstructPositionEventReturnType::Denied(
                    msg_no_construct_with_name(&source_construct_name),
                );
            }
            Some(i) => i,
        };
        proof {
            assert(idx_of_construct(self.constructs@, source_construct_name@) == si as int);
        }

        let source_position = match &self.constructs[si].position.position {
            ConstructPositionStatus::Docked(docked_at_name) => {
                return ConstructPositionEventReturnType::Denied(
                    msg_already_docked(&source_construct_name, docked_at_name),
                );
            }
            ConstructPositionStatus::Sector(position) => *position,
        };

        let ti = match self.find_construct(&target_construct_name) {
            None => {
                return ConstructPositionEventReturnType::Denied(
                    msg_no_construct_with_name(&target_construct_name),
                );
            }
            Some(i) => i,
        };
        proof {
            assert(idx_of_construct(self.constructs@, target_construct_name@) == ti as int);
        }

        if self.construct_is_part_of_docker_parents(
            target_construct_name.clone(),
            &source_construct_name,
        ) {
            return ConstructPositionEventReturnType::Denied(
                msg_docked_in_parents(&source_construct_name, &target_construct_name),
            );
        }

        if !statuses_equal(
            &self.constructs[ti].position.position,
            &self.constructs[si].position.position,
        ) {
            return ConstructPositionEventReturnType::Denied(
                msg_positions_differ(
                    &source_construct_name,
                    &self.constructs[si].position.position,
                    &target_construct_name,
                    &self.constructs[ti].position.position,
                ),
            );
        }

        let ki = match self.find_sector(source_position.sector_position()) {
            None => {
                return ConstructPositionEventReturnType::Denied(msg_no_sector_at(&source_position));
            }
            Some(k) => k,
        };
        proof {
            assert(idx_of_sector(self.sectors@, source_position.sector_position) == ki as int);
        }

        if self.constructs[ti].position.find_free_slot().is_none() {
            return ConstructPositionEventReturnType::Denied(
                msg_no_free_docking_slots(&self.constructs[ti].name),
            );
        }

        // Commit: leave the sector group, occupy the target's slot, record
        // the new parent.
        let mut sector = self.sectors.remove(ki);
        sector.remove_construct_from_group(&source_construct_name, source_position.group_address());
        self.sectors.insert(ki, sector);
        proof {
            assert(self.sectors@ =~= old(self).sectors@.update(ki as int, sector));
        }

        let mut target = self.constructs.remove(ti);
        let occupied = target.handle_docking_request(source_construct_name.clone());
        self.constructs.insert(ti, target);
        proof {
            assert(occupied is RequestProcessed);
            assert(self.constructs@ =~= old(self).constructs@.update(ti as int, target));
        }

        let mut source = self.constructs.remove(si);
        source.handle_docked(target_construct_name);
        self.constructs.insert(si, source);
        proof {
            assert(self.constructs@ =~= old(self).constructs@.update(ti as int, target).update(
                si as int,
                source,
            ));
        }

        ConstructPositionEventReturnType::RequestProcessed
    }

    /// The movement protocol: the target sector must exist, the construct
    /// must be loose, and a move to its exact current (sector, group) is
    /// denied rather than silently approved.
    pub fn move_to_sector(&mut self, of_move_to_sector: OfMove) -> (r: MyLittleUniverseReturnValues)
        requires
            old(self).inv(),
        ensures
            final(self).inv(),
            move_outcome(*old(self), *final(self), of_move_to_sector, r),
    {
        let target_sector_idx = match self.find_sector(&of_move_to_sector.sector_position) {
            None => {
                return MyLittleUniverseReturnValues::CouldNotMoveToSector(
                    msg_target_sector_missing(&of_move_to_sector.sector_position),
                );
            }
            Some(k) => k,
        };
        proof {
            assert(idx_of_sector(self.sectors@, of_move_to_sector.sector_position)
                == target_sector_idx as int);
        }

        let ci = match self.find_construct(&of_move_to_sector.construct_name) {
            None => {
                return MyLittleUniverseReturnValues::CouldNotMoveToSector(
                    msg_construct_missing(&of_move_to_sector.construct_name),
                );
            }
            Some(i) => i,
        };
        proof {
            assert(idx_of_construct(self.constructs@, of_move_to_sector.construct_name@)
                == ci as int);
        }

        let source_position = match &self.constructs[ci].position.position {
            ConstructPositionStatus::Docked(construct_name) => {
                return MyLittleUniverseReturnValues::CouldNotMoveToSector(
                    msg_is_docked_at(construct_name),
                );
            }
            ConstructPositionStatus::Sector(position) => *position,
        };

        if source_position.sector_position == of_move_to_sector.sector_position {
            if let Some(group_address) = of_move_to_sector.group_address {
                if source_position.group_address == group_address {
                    return MyLittleUniverseReturnValues::CouldNotMoveToSector(
                        msg_already_at_target(
                            &of_move_to_sector.construct_name,
                            &of_move_to_sector,
                        ),
                    );
                }
            }
        }

        let source_sector_idx = match self.find_sector(source_position.sector_position()) {
            None => {
                return MyLittleUniverseReturnValues::CouldNotMoveToSector(
                    msg_source_sector_missing(&of_move_to_sector.sector_position),
                );
            }
            Some(k) => k,
        };
        proof {
            assert(idx_of_sector(self.sectors@, source_position.sector_position)
                == source_sector_idx as int);
        }

        let mut source_sector = self.sectors.remove(source_sector_idx);
        let left = source_sector.leave_sector(&of_move_to_sector.construct_name);
        let ghost mid_sector_value = source_sector;
        self.sectors.insert(source_sector_idx, source_sector);
        proof {
            assert(self.sectors@ =~= old(self).sectors@.update(
                source_sector_idx as int,
                source_sector,
            ));
        }
        if let Err(message) = left {
            proof {
                assert(self.sectors@ =~= old(self).sectors@);
            }
            return MyLittleUniverseReturnValues::CouldNotMoveToSector(
                msg_could_not_leave_sector(&of_move_to_sector.sector_position, &message),
            );
        }
        proof {
            let j = choose|j: int|
                #[trigger] crate::sector::first_member_group(
                    old(self).sectors@[source_sector_idx as int].groups@,
                    of_move_to_sector.construct_name@,
                    j,
                ) && groups_removed(
                    old(self).sectors@[source_sector_idx as int].groups@,
                    mid_sector_value.groups@,
                    of_move_to_sector.construct_name@,
                    j,
                );
            assert(crate::sector::group_has(
                old(self).sectors@[source_sector_idx as int].groups@[j],
                of_move_to_sector.construct_name@,
            ));
            assert(some_group_has(
                old(self).sectors@[source_sector_idx as int].groups@,
                of_move_to_sector.construct_name@,
            ));
        }

        let ghost mid_sectors = self.sectors@;
        let mut target_sector = self.sectors.remove(target_sector_idx);
        let group_id = target_sector.enter_sector(
            of_move_to_sector.construct_name.clone(),
            of_move_to_sector.group_address,
        );
        let ghost entered_sector_value = target_sector;
        self.sectors.insert(target_sector_idx, target_sector);
        proof {
            assert(self.sectors@ =~= mid_sectors.update(target_sector_idx as int, target_sector));
        }

        let mut construct = self.constructs.remove(ci);
        construct.push_event(
            &crate::construct::construct::ConstructEventType::External(
                crate::construct::construct::ExternalConstructEventType::ConstructPosition(
                    crate::construct::construct_position::ExternalConstructPositionEventType::EnterSector(
                        ConstructPositionSector::new(of_move_to_sector.sector_position, group_id),
                    ),
                ),
            ),
        );
        self.constructs.insert(ci, construct);
        proof {
            assert(self.constructs@ =~= old(self).constructs@.update(ci as int, construct));
            assert(leave_sector_outcome(
                old(self).sectors@[source_sector_idx as int],
                mid_sector_value,
                of_move_to_sector.construct_name@,
                Ok(()),
            ));
            if source_sector_idx == target_sector_idx {
                assert(groups_add(
                    mid_sector_value.groups@,
                    entered_sector_value.groups@,
                    of_move_to_sector.construct_name,
                    of_move_to_sector.group_address,
                    group_id,
                ));
            } else {
                assert(groups_add(
                    old(self).sectors@[target_sector_idx as int].groups@,
                    entered_sector_value.groups@,
                    of_move_to_sector.construct_name,
                    of_move_to_sector.group_address,
                    group_id,
                ));
            }
        }

        MyLittleUniverseReturnValues::MovedToSector(group_id)
    }

    /// The cargo-transfer protocol: source and target must be directly
    /// docked at one another; the target gives up `min(stock, requested)`
    /// whether or not the source can take it all (lost cargo is accepted
    /// behavior), and the source stores what fits.
    pub fn transfer_cargo(&mut self, transfer_cargo: OfTransferCargo) -> (r:
        MyLittleUniverseReturnValues)
        requires
            old(self).inv(),
        ensures
            final(self).inv(),
            transfer_outcome(*old(self), *final(self), transfer_cargo, r),
    {
        if transfer_cargo.source_construct_name.eq(&transfer_cargo.target_construct_name) {
            return MyLittleUniverseReturnValues::Denied(
                msg_transfer_same(
                    &transfer_cargo.source_construct_name,
                    &transfer_cargo.target_construct_name,
                ),
            );
        }

        let si = match self.find_construct(&transfer_cargo.source_construct_name) {
            None => {
                return MyLittleUniverseReturnValues::CouldNotFindConstruct(
                    transfer_cargo.source_construct_name.clone(),
                );
            }
            Some(i) => i,
        };
        proof {
            assert(idx_of_construct(self.constructs@, transfer_cargo.source_construct_name@)
                == si as int);
        }

        let ti = match self.find_construct(&transfer_cargo.target_construct_name) {
            None => {
                return MyLittleUniverseReturnValues::CouldNotFindConstruct(
                    transfer_cargo.target_construct_name.clone(),
                );
            }
            Some(i) => i,
        };
        proof {
            assert(idx_of_construct(self.constructs@, transfer_cargo.target_construct_name@)
                == ti as int);
        }

        match &self.constructs[si].position.position {
            ConstructPositionStatus::Sector(source_position) => {
                let source_position = *source_position;
                match &self.constructs[ti].position.position {
                    ConstructPositionStatus::Sector(target_position) => {
                        return MyLittleUniverseReturnValues::Denied(
                            msg_transfer_both_in_sectors(
                                &transfer_cargo.source_construct_name,
                                &source_position,
                                &transfer_cargo.target_construct_name,
                                target_position,
                            ),
                        );
                    }
                    ConstructPositionStatus::Docked(target_docked_at_name) => {
                        if !target_docked_at_name.eq(&transfer_cargo.source_construct_name) {
                            return MyLittleUniverseReturnValues::Denied(
                                msg_transfer_target_docked_elsewhere(
                                    &transfer_cargo.source_construct_name,
                                    &source_position,
                                    &transfer_cargo.target_construct_name,
                                    target_docked_at_name,
                                ),
                            );
                        }
                    }
                }
            }
            ConstructPositionStatus::Docked(source_docked_at_name) => {
                if !source_docked_at_name.eq(&transfer_cargo.target_construct_name) {
                    return MyLittleUniverseReturnValues::Denied(
                        msg_transfer_source_docked_elsewhere(
                            &transfer_cargo.source_construct_name,
                            source_docked_at_name,
                            &transfer_cargo.target_construct_name,
                        ),
                    );
                }
            }
        }

        let mut target = self.constructs.remove(ti);
        let unload_return = target.push_event(
            &crate::construct::construct::ConstructEventType::Internal(
                crate::construct::construct::InternalConstructEventType::RequestUnload(
                    transfer_cargo.amount,
                ),
            ),
        );
        self.constructs.insert(ti, target);
        proof {
            assert(self.constructs@ =~= old(self).constructs@.update(ti as int, target));
        }
        let amount_removed = match unload_return {
            crate::construct::construct::ConstructEvenReturnType::RequestUnloadProcessed(
                amount,
            ) => amount,
            _ => {
                proof {
                    assert(false);
                }
                0
            }
        };

        let ghost mid_constructs = self.constructs@;
        let mut source = self.constructs.remove(si);
        let load_return = source.push_event(
            &crate::construct::construct::ConstructEventType::Internal(
                crate::construct::construct::InternalConstructEventType::RequestLoad(
                    Amount::new(*transfer_cargo.amount.product(), amount_removed),
                ),
            ),
        );
        self.constructs.insert(si, source);
        proof {
            assert(self.constructs@ =~= mid_constructs.update(si as int, source));
        }
        let amount_loaded = match load_return {
            crate::construct::construct::ConstructEvenReturnType::RequestLoadProcessed(amount) => {
                amount
            }
            _ => {
                proof {
                    assert(false);
                }
                0
            }
        };

        MyLittleUniverseReturnValues::CargoTransfered(amount_loaded)
    }

    /// The orchestrated undock: rejected when the construct is not docked;
    /// otherwise the parent's slot is freed and the construct re-enters the
    /// sector position resolved from its (former) dock chain.
    fn handle_undock_request(&mut self, construct_name: String) -> (r: ExternalCommandReturnValues)
        requires
            old(self).inv(),
        ensures
            final(self).inv(),
            undock_outcome(*old(self), *final(self), construct_name, r),
    {
        let ci = match self.find_construct(&construct_name) {
            None => {
                return ExternalCommandReturnValues::Universe(
                    MyLittleUniverseReturnValues::CouldNotFindConstruct(construct_name),
                );
            }
            Some(i) => i,
        };
        proof {
            assert(idx_of_construct(self.constructs@, construct_name@) == ci as int);
        }

        let docked_at_name = match &self.constructs[ci].position.position {
            ConstructPositionStatus::Sector(sector_name) => {
                let message = msg_cannot_undock_in_sector(sector_name);
                return ExternalCommandReturnValues::Construct(
                    ConstructEvenReturnType::ConstructPosition(
                        ConstructPositionEventReturnType::Denied(message),
                    ),
                );
            }
            ConstructPositionStatus::Docked(the_docked_at_name) => the_docked_at_name.clone(),
        };

        let pi = match self.find_construct(&docked_at_name) {
            None => {
                return ExternalCommandReturnValues::Universe(
                    MyLittleUniverseReturnValues::Denied(
                        "The construct does not exists in universe list of constructs".to_owned(),
                    ),
                );
            }
            Some(i) => i,
        };
        proof {
            assert(idx_of_construct(self.constructs@, docked_at_name@) == pi as int);
        }

        if self.constructs[pi].position.find_slot_holding(&construct_name).is_none() {
            return ExternalCommandReturnValues::Universe(
                MyLittleUniverseReturnValues::Denied(
                    "Trying to undock construct that is not docked".to_owned(),
                ),
            );
        }

        let sector_position = match self.get_sector_position(construct_name.clone()) {
            None => {
                return ExternalCommandReturnValues::Universe(
                    MyLittleUniverseReturnValues::Denied(
                        "Looked up a construct_name that does not exist anymore".to_owned(),
                    ),
                );
            }
            Some(position) => position,
        };

        let mut parent = self.constructs.remove(pi);
        parent.position.handle_event(
            &ConstructPositionEventType::Internal(
                InternalConstructPositionEventType::Undocked(construct_name.clone()),
            ),
        );
        self.constructs.insert(pi, parent);
        proof {
            assert(self.constructs@ =~= old(self).constructs@.update(pi as int, parent));
        }

        let ghost mid_constructs = self.constructs@;
        let mut construct = self.constructs.remove(ci);
        let return_type = construct.push_event(
            &ConstructEventType::Internal(
                InternalConstructEventType::ConstructPosition(
                    InternalConstructPositionEventType::Undock(sector_position),
                ),
            ),
        );
        self.constructs.insert(ci, construct);
        proof {
            assert(self.constructs@ =~= mid_constructs.update(ci as int, construct));
        }

        ExternalCommandReturnValues::Construct(return_type)
    }

    /// Routes an external command to the clock, a construct, a sector or
    /// the universe-level protocols.
    #[verifier::rlimit(100)]
    pub fn handle_event(&mut self, event: ExternalCommands) -> (r: ExternalCommandReturnValues)
        requires
            old(self).inv(),
        ensures
            final(self).inv(),
            universe_event_outcome(*old(self), *final(self), event, r),
    {
        match event {
            ExternalCommands::Time(time_event) => {
                let return_type = self.time.push_event(
                    &crate::time::TimeEventType::External(time_event),
                );
                ExternalCommandReturnValues::Time(return_type)
            }
            ExternalCommands::Construct(construct_name, construct_event) => {
                match construct_event {
                    ExternalConstructEventType::ConstructPosition(
                        ExternalConstructPositionEventType::Undock,
                    ) => self.handle_undock_request(construct_name),
                    ExternalConstructEventType::ConstructPosition(
                        ExternalConstructPositionEventType::Dock(target_construct_name),
                    ) => {
                        ExternalCommandReturnValues::Construct(
                            ConstructEvenReturnType::ConstructPosition(
                                self.handle_docking_request(
                                    construct_name,
                                    target_construct_name,
                                ),
                            ),
                        )
                    }
                    other_event => {
                        match self.find_construct(&construct_name) {
                            Some(ci) => {
                                proof {
                                    assert(idx_of_construct(self.constructs@, construct_name@)
                                        == ci as int);
                                }
                                let mut construct = self.constructs.remove(ci);
                                let return_type = construct.push_event(
                                    &ConstructEventType::External(other_event),
                                );
                                self.constructs.insert(ci, construct);
                                proof {
                                    assert(self.constructs@ =~= old(self).constructs@.update(
                                        ci as int,
                                        construct,
                                    ));
                                }
                                ExternalCommandReturnValues::Construct(return_type)
                            }
                            None => {
                                ExternalCommandReturnValues::Universe(
                                    MyLittleUniverseReturnValues::CouldNotFindConstruct(
                                        construct_name,
                                    ),
                                )
                            }
                        }
                    }
                }
            }
            ExternalCommands::Sector(sector_position, sector_event) => {
                match self.find_sector(&sector_position) {
                    None => {
                        return ExternalCommandReturnValues::Universe(
                            MyLittleUniverseReturnValues::CouldNotFindSector(sector_position),
                        );
                    }
                    Some(ki) => {
                        proof {
                            assert(idx_of_sector(self.sectors@, sector_position) == ki as int);
                        }
                        match sector_event {
                            crate::sector::ExternalSectorEventType::GetSectorState => {
                                let mut sector = self.sectors.remove(ki);
                                let return_type = sector.push_event(
                                    &crate::sector::SectorEventType::External(
                                        crate::sector::ExternalSectorEventType::GetSectorState,
                                    ),
                                );
                                self.sectors.insert(ki, sector);
                                proof {
                                    assert(self.sectors@ =~= old(self).sectors@.update(
                                        ki as int,
                                        sector,
                                    ));
                                    assert(self.sectors@ =~= old(self).sectors@);
                                }
                                ExternalCommandReturnValues::Sector(return_type)
                            }
                            crate::sector::ExternalSectorEventType::MoveToGroup(
                                construct_name,
                                group_id,
                            ) => {
                                let mut sector = self.sectors.remove(ki);
                                let return_type = sector.push_event(
                                    &crate::sector::SectorEventType::External(
                                        crate::sector::ExternalSectorEventType::MoveToGroup(
                                            construct_name.clone(),
                                            group_id,
                                        ),
                                    ),
                                );
                                self.sectors.insert(ki, sector);
                                proof {
                                    assert(self.sectors@ =~= old(self).sectors@.update(
                                        ki as int,
                                        sector,
                                    ));
                                }
                                if let crate::sector::SectorEvenReturnType::Entered(group_address)
                                    = return_type {
                                    match self.find_construct(&construct_name) {
                                        None => {
                                            let result = ExternalCommandReturnValues::Universe(
                                                MyLittleUniverseReturnValues::CouldNotFindConstruct(
                                                    construct_name,
                                                ),
                                            );
                                            proof {
                                                assert(sector_command_outcome(
                                                    *old(self),
                                                    *self,
                                                    sector_position,
                                                    crate::sector::ExternalSectorEventType::MoveToGroup(
                                                        construct_name,
                                                        group_id,
                                                    ),
                                                    result,
                                                ));
                                            }
                                            result
                                        }
                                        Some(ci) => {
                                            proof {
                                                assert(idx_of_construct(
                                                    self.constructs@,
                                                    construct_name@,
                                                ) == ci as int);
                                            }
                                            let mut construct = self.constructs.remove(ci);
                                            let construct_return = construct.push_event(
                                                &ConstructEventType::External(
                                                    ExternalConstructEventType::ConstructPosition(
                                                        ExternalConstructPositionEventType::EnterGroup(
                                                            group_address,
                                                        ),
                                                    ),
                                                ),
                                            );
                                            self.constructs.insert(ci, construct);
                                            proof {
                                                assert(self.constructs@ =~= old(
                                                    self,
                                                ).constructs@.update(ci as int, construct));
                                            }
                                            match construct_return {
                                                ConstructEvenReturnType::ConstructPosition(
                                                    ConstructPositionEventReturnType::RequestProcessed,
                                                ) => {
                                                    let result = ExternalCommandReturnValues::Sector(
                                                        crate::sector::SectorEvenReturnType::Entered(
                                                            group_address,
                                                        ),
                                                    );
                                                    proof {
                                                        assert(sector_command_outcome(
                                                            *old(self),
                                                            *self,
                                                            sector_position,
                                                            crate::sector::ExternalSectorEventType::MoveToGroup(
                                                                construct_name,
                                                                group_id,
                                                            ),
                                                            result,
                                                        ));
                                                    }
                                                    result
                                                }
                                                other_return => {
                                                    let result = ExternalCommandReturnValues::Universe(
                                                        MyLittleUniverseReturnValues::CouldNotMoveToSector(
                                                            msg_group_update_trouble(
                                                                &construct_name,
                                                                group_address,
                                                                &other_return,
                                                            ),
                                                        ),
                                                    );
                                                    proof {
                                                        assert(sector_command_outcome(
                                                            *old(self),
                                                            *self,
                                                            sector_position,
                                                            crate::sector::ExternalSectorEventType::MoveToGroup(
                                                                construct_name,
                                                                group_id,
                                                            ),
                                                            result,
                                                        ));
                                                    }
                                                    result
                                                }
                                            }
                                        }
                                    }
                                } else {
                                    let result = ExternalCommandReturnValues::Universe(
                                        MyLittleUniverseReturnValues::CouldNotMoveToSector(
                                            msg_move_to_group_trouble(
                                                &construct_name,
                                                &sector_position,
                                                &return_type,
                                            ),
                                        ),
                                    );
                                    proof {
                                        assert(self.sectors@ =~= old(self).sectors@);
                                        assert(sector_command_outcome(
                                            *old(self),
                                            *self,
                                            sector_position,
                                            crate::sector::ExternalSectorEventType::MoveToGroup(
                                                construct_name,
                                                group_id,
                                            ),
                                            result,
                                        ));
                                    }
                                    result
                                }
                            }
                        }
                    }
                }
            }
            ExternalCommands::Universe(universe_event) => {
                match universe_event {
                    ExternalUniverseEventType::Move(of_move_to_sector) => {
                        ExternalCommandReturnValues::Universe(
                            self.move_to_sector(of_move_to_sector),
                        )
                    }
                    ExternalUniverseEventType::TransferCargo(transfer_cargo) => {
                        ExternalCommandReturnValues::Universe(self.transfer_cargo(transfer_cargo))
                    }
                }
            }
        }
    }

    /// Polls the clock; when a turn fires, every construct executes the new
    /// turn, in order, and the clock is re-armed for the next one.
    pub fn request_execute_turn(&mut self)
        requires
            old(self).inv(),
            old(self).time.last_turn_timestamp + old(self).time.turn_min_duration_in_milli_secs
                <= u64::MAX,
            old(self).time.turn < 0xFFFF_FFFF_0000_0000u64,
        ensures
            final(self).inv(),
            final(self).sectors@ == old(self).sectors@,
            final(self).universe_name == old(self).universe_name,
            ({
                ||| universe_unchanged(*old(self), *final(self))
                ||| {
                    &&& old(self).time.ready_for_next_turn && !old(self).time.paused
                    &&& final(self).time.turn == old(self).time.turn + 1
                    &&& final(self).time.ready_for_next_turn == true
                    &&& final(self).time.turn_min_duration_in_milli_secs == old(
                        self,
                    ).time.turn_min_duration_in_milli_secs
                    &&& if old(self).time.pause_at_turn is Some && old(self).time.turn + 1 >= old(
                        self,
                    ).time.pause_at_turn->0 {
                        final(self).time.paused == true && final(self).time.pause_at_turn is None
                    } else {
                        &&& final(self).time.paused == old(self).time.paused
                        &&& final(self).time.pause_at_turn == old(self).time.pause_at_turn
                    }
                    &&& final(self).constructs@.len() == old(self).constructs@.len()
                    &&& forall|i: int|
                        0 <= i < old(self).constructs@.len() ==> turn_executed(
                            old(self).constructs@[i],
                            #[trigger] final(self).constructs@[i],
                            (old(self).time.turn + 1) as u64,
                        )
                }
            }),
    {
        if self.time.request_execute_turn() {
            let ghost time_after = self.time;
            let current_turn = self.time.turn();
            let ghost cs0 = self.constructs@;
            let mut i: usize = 0;
            while i < self.constructs.len()
                invariant
                    old(self).inv(),
                    cs0 == old(self).constructs@,
                    i <= cs0.len(),
                    self.constructs@.len() == cs0.len(),
                    self.time == time_after,
                    current_turn == time_after.turn,
                    current_turn == old(self).time.turn + 1,
                    current_turn <= 0xFFFF_FFFF_0000_0000u64,
                    self.sectors == old(self).sectors,
                    self.universe_name == old(self).universe_name,
                    forall|k: int| i <= k < cs0.len() ==> self.constructs@[k] == cs0[k],
                    forall|k: int|
                        0 <= k < i ==> turn_executed(
                            cs0[k],
                            #[trigger] self.constructs@[k],
                            current_turn,
                        ),
                    forall|k: int|
                        0 <= k < cs0.len() ==> (#[trigger] self.constructs@[k]).inv()
                            && self.constructs@[k].name@ == cs0[k].name@,
                decreases cs0.len() - i,
            {
                let ghost prev_constructs = self.constructs@;
                let mut construct = self.constructs.remove(i);
                construct.push_event(
                    &ConstructEventType::Internal(
                        InternalConstructEventType::ExecuteTurn(current_turn),
                    ),
                );
                self.constructs.insert(i, construct);
                proof {
                    assert(self.constructs@ =~= prev_constructs.update(i as int, construct));
                }
                i += 1;
            }
            self.time.push_event(
                &crate::time::TimeEventType::Internal(
                    crate::time::InternalTimeEventType::ReadyForNextTurn,
                ),
            );
        }
    }
}

/// A failed move: the request is turned down and nothing changes.
pub open spec fn move_denied(
    old_u: MyLittleUniverse,
    new_u: MyLittleUniverse,
    r: MyLittleUniverseReturnValues,
) -> bool {
    r is CouldNotMoveToSector && universe_unchanged(old_u, new_u)
}

/// What the movement protocol does.
pub open spec fn move_outcome(
    old_u: MyLittleUniverse,
    new_u: MyLittleUniverse,
    of_move: OfMove,
    r: MyLittleUniverseReturnValues,
) -> bool {
    let cs = old_u.constructs@;
    let ss = old_u.sectors@;
    if !has_sector(ss, of_move.sector_position) {
        move_denied(old_u, new_u, r)
    } else if !has_construct(cs, of_move.construct_name@) {
        move_denied(old_u, new_u, r)
    } else {
        match cs[idx_of_construct(cs, of_move.construct_name@)].position.position {
            ConstructPositionStatus::Docked(_) => move_denied(old_u, new_u, r),
            ConstructPositionStatus::Sector(source_position) => {
                if source_position.sector_position == of_move.sector_position
                    && of_move.group_address is Some && source_position.group_address
                    == of_move.group_address->0 {
                    // moving to the exact current position is denied, not a
                    // silent no-op success
                    move_denied(old_u, new_u, r)
                } else if !has_sector(ss, source_position.sector_position) {
                    move_denied(old_u, new_u, r)
                } else if !some_group_has(
                    ss[idx_of_sector(ss, source_position.sector_position)].groups@,
                    of_move.construct_name@,
                ) {
                    move_denied(old_u, new_u, r)
                } else {
                    r matches MyLittleUniverseReturnValues::MovedToSector(group_id) && move_commit(
                        old_u,
                        new_u,
                        of_move,
                        source_position,
                        group_id,
                    )
                }
            }
        }
    }
}

/// The committed move: the construct leaves its old group, enters the
/// target sector at the resolved group, and records its new position.
pub open spec fn move_commit(
    old_u: MyLittleUniverse,
    new_u: MyLittleUniverse,
    of_move: OfMove,
    source_position: ConstructPositionSector,
    group_id: usize,
) -> bool {
    let cs = old_u.constructs@;
    let ss = old_u.sectors@;
    let ci = idx_of_construct(cs, of_move.construct_name@);
    let sk = idx_of_sector(ss, source_position.sector_position);
    let tk = idx_of_sector(ss, of_move.sector_position);
    &&& new_u.time == old_u.time
    &&& new_u.universe_name == old_u.universe_name
    &&& new_u.constructs@.len() == cs.len()
    &&& new_u.sectors@.len() == ss.len()
    &&& forall|i: int| 0 <= i < cs.len() && i != ci ==> new_u.constructs@[i] == cs[i]
    &&& construct_repositioned(
        cs[ci],
        new_u.constructs@[ci],
        ConstructPositionSector { sector_position: of_move.sector_position, group_address: group_id },
    )
    &&& forall|k: int| 0 <= k < ss.len() && k != sk && k != tk ==> new_u.sectors@[k] == ss[k]
    &&& if sk == tk {
        exists|mid: Sector|
            #[trigger] leave_sector_outcome(ss[sk], mid, of_move.construct_name@, Ok(()))
                && new_u.sectors@[sk].position == ss[sk].position && groups_add(
                mid.groups@,
                new_u.sectors@[sk].groups@,
                of_move.construct_name,
                of_move.group_address,
                group_id,
            )
    } else {
        &&& leave_sector_outcome(ss[sk], new_u.sectors@[sk], of_move.construct_name@, Ok(()))
        &&& new_u.sectors@[tk].position == ss[tk].position
        &&& groups_add(
            ss[tk].groups@,
            new_u.sectors@[tk].groups@,
            of_move.construct_name,
            of_move.group_address,
            group_id,
        )
    }
}

/// The construct after a successful move: same in every field but its
/// position (now loose at `position`) and its grown event log.
pub open spec fn construct_repositioned(
    old_c: Construct,
    new_c: Construct,
    position: ConstructPositionSector,
) -> bool {
    &&& same_but_event_stack(
        Construct {
            position: ConstructPositionState {
                position: ConstructPositionStatus::Sector(position),
                ..old_c.position
            },
            ..old_c
        },
        new_c,
    )
    &&& new_c.event_stack@.len() == old_c.event_stack@.len() + 1
}

/// A refused transfer: the request is turned down and nothing changes.
pub open spec fn transfer_denied(
    old_u: MyLittleUniverse,
    new_u: MyLittleUniverse,
    r: MyLittleUniverseReturnValues,
) -> bool {
    r is Denied && universe_unchanged(old_u, new_u)
}

/// What the cargo-transfer protocol does.
pub open spec fn transfer_outcome(
    old_u: MyLittleUniverse,
    new_u: MyLittleUniverse,
    transfer_cargo: OfTransferCargo,
    r: MyLittleUniverseReturnValues,
) -> bool {
    let cs = old_u.constructs@;
    let source = transfer_cargo.source_construct_name;
    let target = transfer_cargo.target_construct_name;
    if source@ == target@ {
        transfer_denied(old_u, new_u, r)
    } else if !has_construct(cs, source@) {
        r == MyLittleUniverseReturnValues::CouldNotFindConstruct(source) && universe_unchanged(
            old_u,
            new_u,
        )
    } else if !has_construct(cs, target@) {
        r == MyLittleUniverseReturnValues::CouldNotFindConstruct(target) && universe_unchanged(
            old_u,
            new_u,
        )
    } else {
        let si = idx_of_construct(cs, source@);
        let ti = idx_of_construct(cs, target@);
        match cs[si].position.position {
            ConstructPositionStatus::Sector(_) => {
                match cs[ti].position.position {
                    ConstructPositionStatus::Sector(_) => transfer_denied(old_u, new_u, r),
                    ConstructPositionStatus::Docked(target_docked_at) => {
                        if target_docked_at@ != source@ {
                            transfer_denied(old_u, new_u, r)
                        } else {
                            transfer_commit(old_u, new_u, transfer_cargo, r)
                        }
                    }
                }
            }
            ConstructPositionStatus::Docked(source_docked_at) => {
                if source_docked_at@ != target@ {
                    transfer_denied(old_u, new_u, r)
                } else {
                    transfer_commit(old_u, new_u, transfer_cargo, r)
                }
            }
        }
    }
}

/// The committed transfer: the target gives up `min(stock, requested)` of
/// the product, the source then takes what its free capacity allows of that
/// removed quantity, and the reply carries the source's load result — so
/// cargo the source cannot take is gone.
pub open spec fn transfer_commit(
    old_u: MyLittleUniverse,
    new_u: MyLittleUniverse,
    transfer_cargo: OfTransferCargo,
    r: MyLittleUniverseReturnValues,
) -> bool {
    let cs = old_u.constructs@;
    let si = idx_of_construct(cs, transfer_cargo.source_construct_name@);
    let ti = idx_of_construct(cs, transfer_cargo.target_construct_name@);
    let removed = spec_unloaded_amount(cs[ti].current_storage, transfer_cargo.amount);
    let loaded = spec_load_request(
        cs[si],
        Amount { product: transfer_cargo.amount.product, amount: removed },
    );
    &&& new_u.time == old_u.time
    &&& new_u.universe_name == old_u.universe_name
    &&& new_u.sectors@ == old_u.sectors@
    &&& new_u.constructs@.len() == cs.len()
    &&& forall|i: int| 0 <= i < cs.len() && i != si && i != ti ==> new_u.constructs@[i] == cs[i]
    &&& same_but_event_stack(
        Construct {
            current_storage: spec_unload(cs[ti].current_storage, transfer_cargo.amount),
            ..cs[ti]
        },
        new_u.constructs@[ti],
    )
    &&& new_u.constructs@[ti].event_stack@.len() == cs[ti].event_stack@.len() + 1
    &&& same_but_event_stack(
        Construct { current_storage: loaded.0.current_storage, ..cs[si] },
        new_u.constructs@[si],
    )
    &&& new_u.constructs@[si].event_stack@.len() == cs[si].event_stack@.len() + 1
    &&& r == MyLittleUniverseReturnValues::CargoTransfered(loaded.1)
}

/// What `request_execute_turn` does to one construct when a turn fires.
pub open spec fn turn_executed(old_c: Construct, new_c: Construct, turn: u64) -> bool {
    &&& same_but_event_stack(
        Construct { current_storage: new_c.current_storage, modules: new_c.modules, ..old_c },
        new_c,
    )
    &&& (new_c.current_storage, new_c.modules@) == crate::construct::construct::spec_run_modules(
        old_c.current_storage,
        old_c.capacity,
        old_c.modules@,
        turn,
    )
    &&& new_c.event_stack@.len() == old_c.event_stack@.len() + 1
}

/// An undock attempt that found the recorded state inconsistent; nothing
/// changes.
pub open spec fn undock_failed(
    old_u: MyLittleUniverse,
    new_u: MyLittleUniverse,
    r: ExternalCommandReturnValues,
) -> bool {
    r matches ExternalCommandReturnValues::Universe(MyLittleUniverseReturnValues::Denied(_))
        && universe_unchanged(old_u, new_u)
}

/// A parent construct with the first slot that held `name` now empty, and
/// nothing else changed.
pub open spec fn parent_slot_cleared(old_c: Construct, new_c: Construct, name: Seq<char>) -> bool {
    &&& new_c == (Construct {
        position: ConstructPositionState {
            docker_modules: new_c.position.docker_modules,
            ..old_c.position
        },
        ..old_c
    })
    &&& exists|j: int|
        #[trigger] first_slot_holding(old_c.position.docker_modules@, name, j)
            && new_c.position.docker_modules@ == old_c.position.docker_modules@.update(
            j,
            DockerModule { docked_construct: None },
        )
}

/// What the orchestrated undock does: the parent frees the slot, and the
/// construct becomes loose at the dock chain's resolved sector position.
pub open spec fn undock_outcome(
    old_u: MyLittleUniverse,
    new_u: MyLittleUniverse,
    name: String,
    r: ExternalCommandReturnValues,
) -> bool {
    let cs = old_u.constructs@;
    if !has_construct(cs, name@) {
        r == ExternalCommandReturnValues::Universe(
            MyLittleUniverseReturnValues::CouldNotFindConstruct(name),
        ) && universe_unchanged(old_u, new_u)
    } else {
        let ci = idx_of_construct(cs, name@);
        match cs[ci].position.position {
            ConstructPositionStatus::Sector(_) => {
                r matches ExternalCommandReturnValues::Construct(
                    crate::construct::construct::ConstructEvenReturnType::ConstructPosition(
                        ConstructPositionEventReturnType::Denied(_),
                    ),
                ) && universe_unchanged(old_u, new_u)
            }
            ConstructPositionStatus::Docked(parent) => {
                if !has_construct(cs, parent@) {
                    undock_failed(old_u, new_u, r)
                } else if !crate::construct::construct_position::some_slot_holds(
                    cs[idx_of_construct(cs, parent@)].position.docker_modules@,
                    name@,
                ) {
                    undock_failed(old_u, new_u, r)
                } else {
                    match resolved_sector_position(cs, name@, cs.len() as nat) {
                        None => undock_failed(old_u, new_u, r),
                        Some(position) => {
                            &&& r == ExternalCommandReturnValues::Construct(
                                crate::construct::construct::ConstructEvenReturnType::ConstructPosition(
                                    ConstructPositionEventReturnType::RequestProcessed,
                                ),
                            )
                            &&& undock_commit(old_u, new_u, name, parent, position)
                        }
                    }
                }
            }
        }
    }
}

/// The committed undock mutations.
pub open spec fn undock_commit(
    old_u: MyLittleUniverse,
    new_u: MyLittleUniverse,
    name: String,
    parent: String,
    position: ConstructPositionSector,
) -> bool {
    let cs = old_u.constructs@;
    let ci = idx_of_construct(cs, name@);
    let pi = idx_of_construct(cs, parent@);
    &&& new_u.time == old_u.time
    &&& new_u.universe_name == old_u.universe_name
    &&& new_u.sectors@ == old_u.sectors@
    &&& new_u.constructs@.len() == cs.len()
    &&& forall|i: int| 0 <= i < cs.len() && i != ci && i != pi ==> new_u.constructs@[i] == cs[i]
    &&& if pi != ci {
        &&& parent_slot_cleared(cs[pi], new_u.constructs@[pi], name@)
        &&& construct_repositioned(cs[ci], new_u.constructs@[ci], position)
    } else {
        let new_c = new_u.constructs@[ci];
        let old_c = cs[ci];
        &&& new_c.name == old_c.name
        &&& new_c.capacity == old_c.capacity
        &&& new_c.current_storage == old_c.current_storage
        &&& new_c.modules == old_c.modules
        &&& new_c.position.source_construct_name == old_c.position.source_construct_name
        &&& new_c.position.position == ConstructPositionStatus::Sector(position)
        &&& exists|j: int|
            #[trigger] first_slot_holding(old_c.position.docker_modules@, name@, j)
                && new_c.position.docker_modules@ == old_c.position.docker_modules@.update(
                j,
                DockerModule { docked_construct: None },
            )
        &&& new_c.event_stack@.len() == old_c.event_stack@.len() + 1
    }
}

/// A construct that took an `EnterGroup` notice: loose in the same sector,
/// now at the given group, its event log grown by one.
pub open spec fn construct_group_entered(old_c: Construct, new_c: Construct, group_address: usize) -> bool {
    &&& old_c.position.position is Sector
    &&& same_but_event_stack(
        Construct {
            position: ConstructPositionState {
                position: ConstructPositionStatus::Sector(
                    ConstructPositionSector {
                        sector_position: old_c.position.position->Sector_0.sector_position,
                        group_address,
                    },
                ),
                ..old_c.position
            },
            ..old_c
        },
        new_c,
    )
    &&& new_c.event_stack@.len() == old_c.event_stack@.len() + 1
}

/// What a sector-addressed command does, the follow-up construct notice
/// included.
pub open spec fn sector_command_outcome(
    old_u: MyLittleUniverse,
    new_u: MyLittleUniverse,
    sector_position: SectorPosition,
    sector_event: crate::sector::ExternalSectorEventType,
    r: ExternalCommandReturnValues,
) -> bool {
    let cs = old_u.constructs@;
    let ss = old_u.sectors@;
    if !has_sector(ss, sector_position) {
        r == ExternalCommandReturnValues::Universe(
            MyLittleUniverseReturnValues::CouldNotFindSector(sector_position),
        ) && universe_unchanged(old_u, new_u)
    } else {
        let ki = idx_of_sector(ss, sector_position);
        match sector_event {
            crate::sector::ExternalSectorEventType::GetSectorState => {
                &&& universe_unchanged(old_u, new_u)
                &&& r matches ExternalCommandReturnValues::Sector(
                    crate::sector::SectorEvenReturnType::SectorState(state),
                ) && state.position == ss[ki].position && crate::sector::groups_views_eq(
                    state.groups@,
                    ss[ki].groups@,
                )
            }
            crate::sector::ExternalSectorEventType::MoveToGroup(name, group_id) => {
                &&& new_u.time == old_u.time
                &&& new_u.universe_name == old_u.universe_name
                &&& new_u.sectors@.len() == ss.len()
                &&& forall|k: int| 0 <= k < ss.len() && k != ki ==> new_u.sectors@[k] == ss[k]
                &&& new_u.constructs@.len() == cs.len()
                &&& match r {
                    ExternalCommandReturnValues::Sector(
                        crate::sector::SectorEvenReturnType::Entered(group_address),
                    ) => {
                        &&& crate::sector::move_to_group_outcome(
                            ss[ki],
                            new_u.sectors@[ki],
                            name,
                            group_id,
                            Ok(group_address),
                        )
                        &&& has_construct(cs, name@)
                        &&& construct_group_entered(
                            cs[idx_of_construct(cs, name@)],
                            new_u.constructs@[idx_of_construct(cs, name@)],
                            group_address,
                        )
                        &&& forall|i: int|
                            0 <= i < cs.len() && i != idx_of_construct(cs, name@)
                                ==> new_u.constructs@[i] == cs[i]
                    }
                    ExternalCommandReturnValues::Universe(
                        MyLittleUniverseReturnValues::CouldNotFindConstruct(missing),
                    ) => {
                        // the sector moved the member, but no construct of
                        // that name exists to take the notice
                        &&& missing == name
                        &&& !has_construct(cs, name@)
                        &&& new_u.constructs@ == cs
                        &&& new_u.sectors@[ki].position == ss[ki].position
                    }
                    ExternalCommandReturnValues::Universe(
                        MyLittleUniverseReturnValues::CouldNotMoveToSector(_),
                    ) => {
                        ||| {
                            // the sector denied the move: the name is in
                            // none of its groups, and nothing changed
                            &&& !some_group_has(ss[ki].groups@, name@)
                            &&& new_u.constructs@ == cs
                            &&& new_u.sectors@ == ss
                        }
                        ||| {
                            // the sector moved the member, but the construct
                            // (docked, inconsistently) refused the notice
                            &&& has_construct(cs, name@)
                            &&& cs[idx_of_construct(cs, name@)].position.position is Docked
                            &&& same_but_event_stack(
                                cs[idx_of_construct(cs, name@)],
                                new_u.constructs@[idx_of_construct(cs, name@)],
                            )
                            &&& new_u.constructs@[idx_of_construct(cs, name@)].event_stack@.len()
                                == cs[idx_of_construct(cs, name@)].event_stack@.len() + 1
                            &&& forall|i: int|
                                0 <= i < cs.len() && i != idx_of_construct(cs, name@)
                                    ==> new_u.constructs@[i] == cs[i]
                            &&& new_u.sectors@[ki].position == ss[ki].position
                        }
                    }
                    _ => false,
                }
            }
        }
    }
}

/// What the universe does with each external command.
pub open spec fn universe_event_outcome(
    old_u: MyLittleUniverse,
    new_u: MyLittleUniverse,
    event: crate::external_commands::ExternalCommands,
    r: ExternalCommandReturnValues,
) -> bool {
    match event {
        crate::external_commands::ExternalCommands::Time(time_event) => {
            &&& new_u.constructs@ == old_u.constructs@
            &&& new_u.sectors@ == old_u.sectors@
            &&& new_u.universe_name == old_u.universe_name
            &&& r matches ExternalCommandReturnValues::Time(rt) && crate::time::time_event_outcome(
                old_u.time,
                new_u.time,
                crate::time::TimeEventType::External(time_event),
                rt,
            )
        }
        crate::external_commands::ExternalCommands::Construct(name, construct_event) => {
            match construct_event {
                crate::construct::construct::ExternalConstructEventType::ConstructPosition(
                    crate::construct::construct_position::ExternalConstructPositionEventType::Undock,
                ) => undock_outcome(old_u, new_u, name, r),
                crate::construct::construct::ExternalConstructEventType::ConstructPosition(
                    crate::construct::construct_position::ExternalConstructPositionEventType::Dock(
                        target,
                    ),
                ) => {
                    r matches ExternalCommandReturnValues::Construct(
                        crate::construct::construct::ConstructEvenReturnType::ConstructPosition(pr),
                    ) && dock_outcome(old_u, new_u, name, target, pr)
                }
                _ => {
                    if has_construct(old_u.constructs@, name@) {
                        let ci = idx_of_construct(old_u.constructs@, name@);
                        &&& new_u.time == old_u.time
                        &&& new_u.universe_name == old_u.universe_name
                        &&& new_u.sectors@ == old_u.sectors@
                        &&& new_u.constructs@.len() == old_u.constructs@.len()
                        &&& forall|i: int|
                            0 <= i < old_u.constructs@.len() && i != ci
                                ==> new_u.constructs@[i] == old_u.constructs@[i]
                        &&& r matches ExternalCommandReturnValues::Construct(cr)
                            && crate::construct::construct::construct_event_outcome(
                            old_u.constructs@[ci],
                            new_u.constructs@[ci],
                            crate::construct::construct::ConstructEventType::External(
                                construct_event,
                            ),
                            cr,
                        )
                        &&& new_u.constructs@[ci].event_stack@.len()
                            == old_u.constructs@[ci].event_stack@.len() + 1
                    } else {
                        r == ExternalCommandReturnValues::Universe(
                            MyLittleUniverseReturnValues::CouldNotFindConstruct(name),
                        ) && universe_unchanged(old_u, new_u)
                    }
                }
            }
        }
        crate::external_commands::ExternalCommands::Sector(sector_position, sector_event) => {
            sector_command_outcome(old_u, new_u, sector_position, sector_event, r)
        }
        crate::external_commands::ExternalCommands::Universe(universe_event) => {
            match universe_event {
                ExternalUniverseEventType::Move(of_move) => {
                    r matches ExternalCommandReturnValues::Universe(ur) && move_outcome(
                        old_u,
                        new_u,
                        of_move,
                        ur,
                    )
                }
                ExternalUniverseEventType::TransferCargo(transfer_cargo) => {
                    r matches ExternalCommandReturnValues::Universe(ur) && transfer_outcome(
                        old_u,
                        new_u,
                        transfer_cargo,
                        ur,
                    )
                }
            }
        }
    }
}

/// Docking cycle prevention law: once A has successfully docked at B, an
/// attempt to dock B at A is denied and leaves the universe unchanged.
pub proof fn lemma_docking_cycle_prevention(
    u0: MyLittleUniverse,
    u1: MyLittleUniverse,
    u2: MyLittleUniverse,
    a: String,
    b: String,
    r1: ConstructPositionEventReturnType,
    r2: ConstructPositionEventReturnType,
)
    requires
        u0.inv(),
        u1.inv(),
        dock_outcome(u0, u1, a, b, r1),
        r1 is RequestProcessed,
        dock_outcome(u1, u2, b, a, r2),
    ensures
        r2 is Denied,
        universe_unchanged(u1, u2),
{
    let cs0 = u0.constructs@;
    let cs1 = u1.constructs@;
    // the first dock went through, so its commit describes u1
    assert(a@ != b@);
    assert(has_construct(cs0, a@));
    let si = idx_of_construct(cs0, a@);
    assert(cs0[si].position.position is Sector);
    assert(has_construct(cs0, b@));
    let ti = idx_of_construct(cs0, b@);
    assert(cs0[ti].name@ == b@);
    assert(si != ti);
    // names survive the commit, one index at a time
    assert(cs1.len() == cs0.len());
    assert(cs1[si].name == cs0[si].name);
    assert(cs1[ti].name == cs0[ti].name);
    assert(forall|i: int| 0 <= i < cs0.len() ==> (#[trigger] cs1[i]).name@ == cs0[i].name@);
    assert(has_construct(cs1, b@));
    assert(has_construct(cs1, a@));
    // the second dock finds B loose and A docked at B
    let ti1 = idx_of_construct(cs1, b@);
    assert(cs1[ti1].name@ == b@);
    assert(ti1 == ti);
    let si1 = idx_of_construct(cs1, a@);
    assert(si1 == si);
    assert(cs1[si].position.position == ConstructPositionStatus::Docked(b));
    assert(cs1[ti].position.position == cs0[ti].position.position);
    assert(cs1[ti].position.position is Sector);
    // so the parent chain from A reaches B in one step
    assert(cs1.len() >= 1);
    assert(chain_reaches(cs1, b@, b@, (cs1.len() - 1) as nat));
    assert(chain_reaches(cs1, a@, b@, cs1.len() as nat));
}

/// Docking slot exhaustion law: a target without a single free docking
/// slot denies every dock attempt, whatever else the request looks like,
/// and the universe is left untouched.
pub proof fn lemma_docking_slot_exhaustion(
    u0: MyLittleUniverse,
    u1: MyLittleUniverse,
    source_name: String,
    target_name: String,
    r: ConstructPositionEventReturnType,
)
    requires
        dock_outcome(u0, u1, source_name, target_name, r),
        has_construct(u0.constructs@, target_name@) ==> !has_free_slot(
            u0.constructs@[idx_of_construct(u0.constructs@, target_name@)].position.docker_modules@,
        ),
    ensures
        r is Denied,
        universe_unchanged(u0, u1),
{
}

/// Move idempotence guard law: moving a construct to its exact current
/// (sector, group) is denied — never a silent no-op success — and the
/// universe is left untouched.
pub proof fn lemma_move_idempotence_guard(
    u0: MyLittleUniverse,
    u1: MyLittleUniverse,
    of_move: OfMove,
    r: MyLittleUniverseReturnValues,
)
    requires
        move_outcome(u0, u1, of_move, r),
        has_construct(u0.constructs@, of_move.construct_name@),
        ({
            let position = u0.constructs@[idx_of_construct(
                u0.constructs@,
                of_move.construct_name@,
            )].position.position;
            &&& position is Sector
            &&& position->Sector_0.sector_position == of_move.sector_position
            &&& of_move.group_address == Some(position->Sector_0.group_address)
        }),
    ensures
        r is CouldNotMoveToSector,
        universe_unchanged(u0, u1),
{
}

/// Cargo non-atomicity law: on a committed transfer the target always gives
/// up `min(stock, requested)`, whether or not the source can take it; the
/// reply carries only what the source's load reported.
pub proof fn lemma_transfer_loses_cargo(
    u0: MyLittleUniverse,
    u1: MyLittleUniverse,
    transfer_cargo: OfTransferCargo,
    r: MyLittleUniverseReturnValues,
)
    requires
        transfer_outcome(u0, u1, transfer_cargo, r),
        r is CargoTransfered,
    ensures
        ({
            let cs = u0.constructs@;
            let si = idx_of_construct(cs, transfer_cargo.source_construct_name@);
            let ti = idx_of_construct(cs, transfer_cargo.target_construct_name@);
            let removed = spec_unloaded_amount(cs[ti].current_storage, transfer_cargo.amount);
            &&& u1.constructs@[ti].current_storage == spec_unload(
                cs[ti].current_storage,
                transfer_cargo.amount,
            )
            &&& r == MyLittleUniverseReturnValues::CargoTransfered(
                spec_load_request(
                    cs[si],
                    Amount { product: transfer_cargo.amount.product, amount: removed },
                ).1,
            )
        }),
{
}

} // verus!
