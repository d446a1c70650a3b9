use vstd::prelude::*;

use crate::construct::construct::Construct;
use crate::messages::{msg_cannot_update_group, msg_no_free_docking_slots};
use crate::sector::SectorPosition;

verus! {

/// Where a construct is: docked at a named parent, or loose in a sector
/// group.
#[derive(Clone, PartialEq, Debug)]
pub enum ConstructPositionStatus {
    Docked(String),
    Sector(ConstructPositionSector),
}

/// A sector coordinate together with a group index inside that sector.
#[derive(Clone, Copy, PartialEq, Eq, Structural, Debug)]
pub struct ConstructPositionSector {
    pub sector_position: SectorPosition,
    pub group_address: usize,
}

impl ConstructPositionSector {
    pub fn new(sector_position: SectorPosition, group_address: usize) -> (r: Self)
        ensures
            r == (ConstructPositionSector { sector_position, group_address }),
    {
        ConstructPositionSector { sector_position, group_address }
    }

    pub fn sector_position(&self) -> (r: &SectorPosition)
        ensures
            *r == self.sector_position,
    {
        &self.sector_position
    }

    pub fn group_address(&self) -> (r: usize)
        ensures
            r == self.group_address,
    {
        self.group_address
    }
}

#[derive(Clone, PartialEq, Debug)]
pub enum ConstructPositionEventType {
    Internal(InternalConstructPositionEventType),
    External(ExternalConstructPositionEventType),
}

#[derive(Clone, PartialEq, Debug)]
pub enum ExternalConstructPositionEventType {
    Dock(String),
    Undock,
    EnterSector(ConstructPositionSector),
    EnterGroup(usize),
}

#[derive(Clone, PartialEq, Debug)]
pub enum InternalConstructPositionEventType {
    Undock(ConstructPositionSector),
    Undocked(String),
}

#[derive(Clone, PartialEq, Debug)]
pub enum ConstructPositionEventReturnType {
    RequestProcessed,
    Denied(String),
}

/// The per-construct position state machine, with its docking-slot
/// bookkeeping.
#[derive(Clone, PartialEq, Debug)]
pub struct ConstructPositionState {
    pub position: ConstructPositionStatus,
    pub source_construct_name: String,
    pub docker_modules: Vec<DockerModule>,
}

/// One docking slot; holds the name of the construct occupying it.
#[derive(Clone, PartialEq, Debug)]
pub struct DockerModule {
    pub docked_construct: Option<String>,
}

impl DockerModule {
    pub fn new() -> (r: Self)
        ensures
            r == (DockerModule { docked_construct: None::<String> }),
    {
        DockerModule { docked_construct: None }
    }

    pub fn docked_construct(&self) -> (r: &Option<String>)
        ensures
            r == &self.docked_construct,
    {
        &self.docked_construct
    }

    pub fn undock(&mut self)
        ensures
            *final(self) == (DockerModule { docked_construct: None::<String> }),
    {
        self.docked_construct = None;
    }
}

/// The slot at `j` holds a construct of this name.
pub open spec fn slot_holds(dm: DockerModule, name: Seq<char>) -> bool {
    dm.docked_construct matches Some(n) && n@ == name
}

/// `j` is the first slot holding `name`.
pub open spec fn first_slot_holding(dms: Seq<DockerModule>, name: Seq<char>, j: int) -> bool {
    &&& 0 <= j < dms.len()
    &&& slot_holds(dms[j], name)
    &&& forall|k: int| 0 <= k < j ==> !slot_holds(dms[k], name)
}

pub open spec fn some_slot_holds(dms: Seq<DockerModule>, name: Seq<char>) -> bool {
    exists|j: int| 0 <= j < dms.len() && slot_holds(dms[j], name)
}

/// `j` is the first free slot.
pub open spec fn first_free_slot(dms: Seq<DockerModule>, j: int) -> bool {
    &&& 0 <= j < dms.len()
    &&& dms[j].docked_construct is None
    &&& forall|k: int| 0 <= k < j ==> dms[k].docked_construct is Some
}

pub open spec fn has_free_slot(dms: Seq<DockerModule>) -> bool {
    exists|j: int| 0 <= j < dms.len() && dms[j].docked_construct is None
}

/// What the position state machine does with each event.
pub open spec fn position_event_outcome(
    old_p: ConstructPositionState,
    new_p: ConstructPositionState,
    event: ConstructPositionEventType,
    r: ConstructPositionEventReturnType,
) -> bool {
    match event {
        ConstructPositionEventType::External(ExternalConstructPositionEventType::Dock(name)) => {
            if old_p.source_construct_name@ == name@ {
                r is Denied && new_p == old_p
            } else {
                &&& r is RequestProcessed
                &&& new_p == (ConstructPositionState {
                    position: ConstructPositionStatus::Docked(name),
                    ..old_p
                })
            }
        }
        ConstructPositionEventType::External(ExternalConstructPositionEventType::Undock) => {
            r is Denied && new_p == old_p
        }
        ConstructPositionEventType::External(
            ExternalConstructPositionEventType::EnterSector(sector_position),
        ) => {
            &&& r is RequestProcessed
            &&& new_p == (ConstructPositionState {
                position: ConstructPositionStatus::Sector(sector_position),
                ..old_p
            })
        }
        ConstructPositionEventType::External(
            ExternalConstructPositionEventType::EnterGroup(group_address),
        ) => {
            match old_p.position {
                ConstructPositionStatus::Sector(current) => {
                    &&& r is RequestProcessed
                    &&& new_p == (ConstructPositionState {
                        position: ConstructPositionStatus::Sector(ConstructPositionSector {
                            sector_position: current.sector_position,
                            group_address,
                        }),
                        ..old_p
                    })
                }
                ConstructPositionStatus::Docked(_) => r is Denied && new_p == old_p,
            }
        }
        ConstructPositionEventType::Internal(
            InternalConstructPositionEventType::Undock(sector_position),
        ) => {
            &&& r is RequestProcessed
            &&& new_p == (ConstructPositionState {
                position: ConstructPositionStatus::Sector(sector_position),
                ..old_p
            })
        }
        ConstructPositionEventType::Internal(
            InternalConstructPositionEventType::Undocked(name),
        ) => {
            &&& r is RequestProcessed
            &&& new_p.position == old_p.position
            &&& new_p.source_construct_name == old_p.source_construct_name
            &&& exists|j: int|
                #[trigger] first_slot_holding(old_p.docker_modules@, name@, j)
                    && new_p.docker_modules@ == old_p.docker_modules@.update(
                    j,
                    DockerModule { docked_construct: None },
                )
        }
    }
}

impl ConstructPositionState {
    pub fn new(source_construct_name: String, sector_position: ConstructPositionSector) -> (r:
        Self)
        ensures
            r.position == ConstructPositionStatus::Sector(sector_position),
            r.source_construct_name == source_construct_name,
            r.docker_modules@.len() == 0,
    {
        ConstructPositionState {
            position: ConstructPositionStatus::Sector(sector_position),
            source_construct_name,
            docker_modules: Vec::new(),
        }
    }

    pub fn position(&self) -> (r: &ConstructPositionStatus)
        ensures
            r == &self.position,
    {
        &self.position
    }

    pub fn source_construct_name(&self) -> (r: &str)
        ensures
            r@ == self.source_construct_name@,
    {
        self.source_construct_name.as_str()
    }

    pub fn docker_modules(&self) -> (r: &Vec<DockerModule>)
        ensures
            r == &self.docker_modules,
    {
        &self.docker_modules
    }

    pub fn handle_event(&mut self, event: &ConstructPositionEventType) -> (r:
        ConstructPositionEventReturnType)
        requires
            event matches ConstructPositionEventType::Internal(
                InternalConstructPositionEventType::Undocked(n),
            ) ==> some_slot_holds(old(self).docker_modules@, n@),
        ensures
            position_event_outcome(*old(self), *final(self), *event, r),
    {
        match event {
            ConstructPositionEventType::External(ExternalConstructPositionEventType::Dock(
                construct_name,
            )) => {
                if self.source_construct_name.eq(construct_name) {
                    return ConstructPositionEventReturnType::Denied(
                        "Construct cannot dock with itself.".to_owned(),
                    );
                }
                self.position = ConstructPositionStatus::Docked(construct_name.clone());
                ConstructPositionEventReturnType::RequestProcessed
            }
            ConstructPositionEventType::External(ExternalConstructPositionEventType::Undock) => {
                ConstructPositionEventReturnType::Denied(
                    "External Undock should never hit construct, use internal dock instead that contains all relevant information".to_owned(),
                )
            }
            ConstructPositionEventType::External(ExternalConstructPositionEventType::EnterSector(
                sector_position,
            )) => {
                self.position = ConstructPositionStatus::Sector(*sector_position);
                ConstructPositionEventReturnType::RequestProcessed
            }
            ConstructPositionEventType::External(ExternalConstructPositionEventType::EnterGroup(
                group_address,
            )) => {
                match &self.position {
                    ConstructPositionStatus::Sector(current_position) => {
                        let sector_position = current_position.sector_position;
                        self.position = ConstructPositionStatus::Sector(
                            ConstructPositionSector {
                                sector_position,
                                group_address: *group_address,
                            },
                        );
                        ConstructPositionEventReturnType::RequestProcessed
                    }
                    ConstructPositionStatus::Docked(docked_at) => {
                        ConstructPositionEventReturnType::Denied(
                            msg_cannot_update_group(docked_at, &self.source_construct_name),
                        )
                    }
                }
            }
            ConstructPositionEventType::Internal(InternalConstructPositionEventType::Undock(
                sector_position,
            )) => {
                self.position = ConstructPositionStatus::Sector(*sector_position);
                ConstructPositionEventReturnType::RequestProcessed
            }
            ConstructPositionEventType::Internal(InternalConstructPositionEventType::Undocked(
                construct_name,
            )) => {
                match self.find_slot_holding(construct_name) {
                    Some(j) => {
                        let mut slot = self.docker_modules.remove(j);
                        slot.docked_construct = None;
                        self.docker_modules.insert(j, slot);
                        proof {
                            assert(self.docker_modules@ =~= old(self).docker_modules@.update(
                                j as int,
                                DockerModule { docked_construct: None },
                            ));
                        }
                        ConstructPositionEventReturnType::RequestProcessed
                    }
                    None => {
                        proof {
                            assert(false);
                        }
                        ConstructPositionEventReturnType::RequestProcessed
                    }
                }
            }
        }
    }

    /// Index of the first slot occupied by this name, if any.
    pub(crate) fn find_slot_holding(&self, name: &String) -> (r: Option<usize>)
        ensures
            r matches Some(j) ==> first_slot_holding(self.docker_modules@, name@, j as int),
            r is None ==> !some_slot_holds(self.docker_modules@, name@),
    {
        let mut j: usize = 0;
        while j < self.docker_modules.len()
            invariant
                j <= self.docker_modules.len(),
                forall|k: int| 0 <= k < j ==> !slot_holds(self.docker_modules@[k], name@),
            decreases self.docker_modules.len() - j,
        {
            let occupied = match &self.docker_modules[j].docked_construct {
                Some(n) => n.eq(name),
                None => false,
            };
            if occupied {
                return Some(j);
            }
            j += 1;
        }
        None
    }

    /// Index of the first free slot, if any.
    pub(crate) fn find_free_slot(&self) -> (r: Option<usize>)
        ensures
            r matches Some(j) ==> first_free_slot(self.docker_modules@, j as int),
            r is None ==> !has_free_slot(self.docker_modules@),
    {
        let mut j: usize = 0;
        while j < self.docker_modules.len()
            invariant
                j <= self.docker_modules.len(),
                forall|k: int| 0 <= k < j ==> self.docker_modules@[k].docked_construct is Some,
            decreases self.docker_modules.len() - j,
        {
            if self.docker_modules[j].docked_construct.is_none() {
                return Some(j);
            }
            j += 1;
        }
        None
    }

    /// Installs one more (empty) docking slot.
    pub fn install(&mut self)
        ensures
            final(self).position == old(self).position,
            final(self).source_construct_name == old(self).source_construct_name,
            final(self).docker_modules@ == old(self).docker_modules@.push(
                DockerModule { docked_construct: None },
            ),
    {
        self.docker_modules.push(DockerModule::new());
    }
}

/// Two position statuses agree: docked at the same-named parent, or loose
/// at the same sector coordinate and group.
pub open spec fn status_eq(a: ConstructPositionStatus, b: ConstructPositionStatus) -> bool {
    match (a, b) {
        (ConstructPositionStatus::Docked(x), ConstructPositionStatus::Docked(y)) => x@ == y@,
        (ConstructPositionStatus::Sector(p), ConstructPositionStatus::Sector(q)) => p == q,
        _ => false,
    }
}

pub fn statuses_equal(a: &ConstructPositionStatus, b: &ConstructPositionStatus) -> (r: bool)
    ensures
        r == status_eq(*a, *b),
{
    match (a, b) {
        (ConstructPositionStatus::Docked(x), ConstructPositionStatus::Docked(y)) => x.eq(y),
        (ConstructPositionStatus::Sector(p), ConstructPositionStatus::Sector(q)) => p == q,
        _ => false,
    }
}

/// Rebuilds the event so that verified callers know the copy is the very
/// same value (a derived clone promises nothing).
pub(crate) fn dup_internal_position_event(event: &InternalConstructPositionEventType) -> (r:
    InternalConstructPositionEventType)
    ensures
        r == *event,
{
    match event {
        InternalConstructPositionEventType::Undock(sector_position) => {
            InternalConstructPositionEventType::Undock(*sector_position)
        }
        InternalConstructPositionEventType::Undocked(name) => {
            InternalConstructPositionEventType::Undocked(name.clone())
        }
    }
}

/// Rebuilds the event so that verified callers know the copy is the very
/// same value (a derived clone promises nothing).
pub(crate) fn dup_external_position_event(event: &ExternalConstructPositionEventType) -> (r:
    ExternalConstructPositionEventType)
    ensures
        r == *event,
{
    match event {
        ExternalConstructPositionEventType::Dock(name) => {
            ExternalConstructPositionEventType::Dock(name.clone())
        }
        ExternalConstructPositionEventType::Undock => ExternalConstructPositionEventType::Undock,
        ExternalConstructPositionEventType::EnterSector(sector_position) => {
            ExternalConstructPositionEventType::EnterSector(*sector_position)
        }
        ExternalConstructPositionEventType::EnterGroup(group_address) => {
            ExternalConstructPositionEventType::EnterGroup(*group_address)
        }
    }
}

impl Construct {
    /// Target side of the docking protocol: occupy the first free docking
    /// slot with the source's name, or deny when every slot is taken.
    pub fn handle_docking_request(&mut self, source_construct_name: String) -> (r:
        ConstructPositionEventReturnType)
        ensures
            docking_request_outcome(*old(self), *final(self), source_construct_name, r),
    {
        match self.position.find_free_slot() {
            Some(j) => {
                let mut slot = self.position.docker_modules.remove(j);
                slot.docked_construct = Some(source_construct_name);
                self.position.docker_modules.insert(j, slot);
                proof {
                    assert(self.position.docker_modules@ =~= old(
                        self,
                    ).position.docker_modules@.update(j as int, slot));
                }
                ConstructPositionEventReturnType::RequestProcessed
            }
            None => ConstructPositionEventReturnType::Denied(
                msg_no_free_docking_slots(&self.name),
            ),
        }
    }

    /// Source side of the docking protocol: record the new parent.
    pub fn handle_docked(&mut self, target_construct_name: String) -> (r:
        ConstructPositionEventReturnType)
        ensures
            r is RequestProcessed,
            *final(self) == (Construct {
                position: ConstructPositionState {
                    position: ConstructPositionStatus::Docked(target_construct_name),
                    ..old(self).position
                },
                ..*old(self)
            }),
    {
        self.position.position = ConstructPositionStatus::Docked(target_construct_name);
        ConstructPositionEventReturnType::RequestProcessed
    }
}

/// What the target-side docking step does.
pub open spec fn docking_request_outcome(
    old_c: Construct,
    new_c: Construct,
    source_name: String,
    r: ConstructPositionEventReturnType,
) -> bool {
    if has_free_slot(old_c.position.docker_modules@) {
        &&& r is RequestProcessed
        &&& exists|j: int|
            #[trigger] first_free_slot(old_c.position.docker_modules@, j)
                && new_c == (Construct {
                position: ConstructPositionState {
                    docker_modules: new_c.position.docker_modules,
                    ..old_c.position
                },
                ..old_c
            }) && new_c.position.docker_modules@ == old_c.position.docker_modules@.update(
                j,
                DockerModule { docked_construct: Some(source_name) },
            )
    } else {
        r is Denied && new_c == old_c
    }
}

} // verus!
