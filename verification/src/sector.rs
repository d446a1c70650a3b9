use vstd::prelude::*;

use crate::messages::msg_not_member_of_sector;

verus! {

#[derive(Clone, PartialEq, Debug)]
pub enum SectorEventType {
    Internal(InternalSectorEventType),
    External(ExternalSectorEventType),
}

#[derive(Clone, PartialEq, Debug)]
pub enum InternalSectorEventType {
    Leave(String),
    Enter(String, Option<usize>),
}

#[derive(Clone, PartialEq, Debug)]
pub enum ExternalSectorEventType {
    GetSectorState,
    MoveToGroup(String, Option<usize>),
}

#[derive(Clone, PartialEq, Debug)]
pub enum SectorEvenReturnType {
    Approved,
    Denied(String),
    SectorState(Sector),
    Entered(usize),
}

/// A spatial partition keyed by a 3D coordinate, holding an ordered list of
/// "groups": co-located clusters of construct names.
#[derive(Clone, PartialEq, Debug)]
pub struct Sector {
    pub groups: Vec<Vec<String>>,
    pub position: SectorPosition,
}

#[derive(Clone, Copy, PartialEq, Eq, Structural, Debug)]
pub struct SectorPosition {
    pub x: u8,
    pub y: u8,
    pub z: u8,
}

impl SectorPosition {
    pub fn new(x: u8, y: u8, z: u8) -> (r: Self)
        ensures
            r == (SectorPosition { x, y, z }),
    {
        SectorPosition { x, y, z }
    }
}

/// True when the group holds a construct of this name.
pub open spec fn group_has(g: Vec<String>, name: Seq<char>) -> bool {
    exists|i: int| 0 <= i < g@.len() && g@[i]@ == name
}

/// The group list after removing every occurrence of `name` from one group.
pub open spec fn seq_remove_name(s: Seq<String>, name: Seq<char>) -> Seq<String>
    decreases s.len(),
{
    if s.len() == 0 {
        Seq::empty()
    } else {
        let rest = seq_remove_name(s.drop_last(), name);
        if s.last()@ == name {
            rest
        } else {
            rest.push(s.last())
        }
    }
}

/// `e` is the index of the first empty group.
pub open spec fn first_empty_group(gs: Seq<Vec<String>>, e: int) -> bool {
    &&& 0 <= e < gs.len()
    &&& gs[e]@.len() == 0
    &&& forall|k: int| 0 <= k < e ==> gs[k]@.len() != 0
}

pub open spec fn has_empty_group(gs: Seq<Vec<String>>) -> bool {
    exists|e: int| 0 <= e < gs.len() && gs[e]@.len() == 0
}

/// `new_gs` is `old_gs` with `name` appended to the group at `at`.
pub open spec fn groups_added_at(
    old_gs: Seq<Vec<String>>,
    new_gs: Seq<Vec<String>>,
    name: String,
    at: int,
) -> bool {
    &&& 0 <= at < old_gs.len()
    &&& new_gs.len() == old_gs.len()
    &&& new_gs[at]@ == old_gs[at]@.push(name)
    &&& forall|k: int| 0 <= k < old_gs.len() && k != at ==> new_gs[k] == old_gs[k]
}

/// What `add_construct_to_group` does: append to the requested group when
/// that index exists, else to the first empty group, else to a fresh group.
pub open spec fn groups_add(
    old_gs: Seq<Vec<String>>,
    new_gs: Seq<Vec<String>>,
    name: String,
    group_id: Option<usize>,
    r: usize,
) -> bool {
    if group_id is Some && group_id->0 < old_gs.len() {
        r == group_id->0 && groups_added_at(old_gs, new_gs, name, group_id->0 as int)
    } else if has_empty_group(old_gs) {
        first_empty_group(old_gs, r as int) && groups_added_at(old_gs, new_gs, name, r as int)
    } else {
        &&& r == old_gs.len()
        &&& new_gs.len() == old_gs.len() + 1
        &&& forall|k: int| 0 <= k < old_gs.len() ==> new_gs[k] == old_gs[k]
        &&& new_gs[old_gs.len() as int]@ =~= seq![name]
    }
}

/// What `remove_construct_from_group` does: every occurrence of `name` is
/// removed from the group at `group_id`; an out-of-range index is a no-op.
pub open spec fn groups_removed(
    old_gs: Seq<Vec<String>>,
    new_gs: Seq<Vec<String>>,
    name: Seq<char>,
    group_id: int,
) -> bool {
    if 0 <= group_id < old_gs.len() {
        &&& new_gs.len() == old_gs.len()
        &&& new_gs[group_id]@ == seq_remove_name(old_gs[group_id]@, name)
        &&& forall|k: int| 0 <= k < old_gs.len() && k != group_id ==> new_gs[k] == old_gs[k]
    } else {
        new_gs == old_gs
    }
}

/// `j` is the index of the first group holding `name`.
pub open spec fn first_member_group(gs: Seq<Vec<String>>, name: Seq<char>, j: int) -> bool {
    &&& 0 <= j < gs.len()
    &&& group_has(gs[j], name)
    &&& forall|k: int| 0 <= k < j ==> !group_has(gs[k], name)
}

pub open spec fn some_group_has(gs: Seq<Vec<String>>, name: Seq<char>) -> bool {
    exists|j: int| 0 <= j < gs.len() && group_has(gs[j], name)
}

/// Two group lists hold the same names, compared by views.
pub open spec fn groups_views_eq(a: Seq<Vec<String>>, b: Seq<Vec<String>>) -> bool {
    a.len() == b.len() && forall|k: int| 0 <= k < a.len() ==> a[k]@ == b[k]@
}

fn dup_group(group: &Vec<String>) -> (r: Vec<String>)
    ensures
        r@ == group@,
{
    let mut copied: Vec<String> = Vec::new();
    let mut i: usize = 0;
    proof {
        assert(group@.take(0) =~= Seq::<String>::empty());
    }
    while i < group.len()
        invariant
            i <= group@.len(),
            copied@ == group@.take(i as int),
        decreases group@.len() - i,
    {
        proof {
            assert(group@.take(i + 1).drop_last() =~= group@.take(i as int));
        }
        copied.push(group[i].clone());
        i += 1;
    }
    proof {
        assert(group@.take(group@.len() as int) =~= group@);
    }
    copied
}

fn group_contains(g: &Vec<String>, name: &String) -> (b: bool)
    ensures
        b == group_has(*g, name@),
{
    let mut i: usize = 0;
    while i < g.len()
        invariant
            i <= g.len(),
            forall|k: int| 0 <= k < i ==> g@[k]@ != name@,
        decreases g.len() - i,
    {
        if g[i].eq(name) {
            return true;
        }
        i += 1;
    }
    false
}

impl Sector {
    pub fn new(groups: Vec<Vec<String>>, position: SectorPosition) -> (r: Self)
        ensures
            r == (Sector { groups, position }),
    {
        Sector { groups, position }
    }

    pub fn groups(&self) -> (r: &Vec<Vec<String>>)
        ensures
            r == &self.groups,
    {
        &self.groups
    }

    /// Index of the first group that holds `name`, if any.
    fn find_member_group(&self, name: &String) -> (r: Option<usize>)
        ensures
            r matches Some(j) ==> first_member_group(self.groups@, name@, j as int),
            r is None ==> !some_group_has(self.groups@, name@),
    {
        let mut j: usize = 0;
        while j < self.groups.len()
            invariant
                j <= self.groups.len(),
                forall|k: int| 0 <= k < j ==> !group_has(self.groups@[k], name@),
            decreases self.groups.len() - j,
        {
            if group_contains(&self.groups[j], name) {
                return Some(j);
            }
            j += 1;
        }
        None
    }

    /// A copy of this sector, for state queries.
    pub fn snapshot(&self) -> (r: Sector)
        ensures
            r.position == self.position,
            groups_views_eq(r.groups@, self.groups@),
    {
        let mut groups: Vec<Vec<String>> = Vec::new();
        let mut k: usize = 0;
        while k < self.groups.len()
            invariant
                k <= self.groups@.len(),
                groups@.len() == k,
                forall|m: int| 0 <= m < k ==> groups@[m]@ == self.groups@[m]@,
            decreases self.groups@.len() - k,
        {
            let copied = dup_group(&self.groups[k]);
            groups.push(copied);
            k += 1;
        }
        Sector { groups, position: self.position }
    }

    pub fn push_event(&mut self, event: &SectorEventType) -> (r: SectorEvenReturnType)
        ensures
            sector_event_outcome(*old(self), *final(self), *event, r),
    {
        self.handle_event(event)
    }

    pub fn handle_event(&mut self, event: &SectorEventType) -> (r: SectorEvenReturnType)
        ensures
            sector_event_outcome(*old(self), *final(self), *event, r),
    {
        match event {
            SectorEventType::External(ExternalSectorEventType::GetSectorState) => {
                SectorEvenReturnType::SectorState(self.snapshot())
            }
            SectorEventType::Internal(InternalSectorEventType::Enter(construct_name, group_id)) => {
                SectorEvenReturnType::Entered(self.enter_sector(construct_name.clone(), *group_id))
            }
            SectorEventType::Internal(InternalSectorEventType::Leave(construct_name)) => {
                match self.leave_sector(construct_name) {
                    Ok(_) => SectorEvenReturnType::Approved,
                    Err(message) => SectorEvenReturnType::Denied(message),
                }
            }
            SectorEventType::External(ExternalSectorEventType::MoveToGroup(construct_name, group_id)) => {
                match self.move_to_group(construct_name.clone(), *group_id) {
                    Ok(new_group_id) => SectorEvenReturnType::Entered(new_group_id),
                    Err(message) => SectorEvenReturnType::Denied(message),
                }
            }
        }
    }

    /// Moves a member to another group: a lookup by membership, a short
    /// circuit when source and target group agree, then add-then-remove.
    pub fn move_to_group(&mut self, construct_name: String, construct_target: Option<usize>) -> (r:
        Result<usize, String>)
        ensures
            move_to_group_outcome(*old(self), *final(self), construct_name, construct_target, r),
    {
        match self.find_member_group(&construct_name) {
            Some(construct_source) => {
                if let Some(t) = construct_target {
                    if construct_source == t {
                        return Ok(construct_source);
                    }
                }
                let result = self.add_construct_to_group(&construct_name, construct_target);
                let ghost mid = self.groups@;
                self.remove_construct_from_group(&construct_name, construct_source);
                proof {
                    assert(first_member_group(old(self).groups@, construct_name@, construct_source as int));
                    assert(groups_add(old(self).groups@, mid, construct_name, construct_target, result));
                    assert(groups_removed(mid, self.groups@, construct_name@, construct_source as int));
                }
                Ok(result)
            }
            None => Err(msg_not_member_of_sector(&construct_name, &self.position)),
        }
    }

    pub fn add_construct_to_group(&mut self, construct_name: &String, group_id: Option<usize>) -> (r:
        usize)
        ensures
            groups_add(old(self).groups@, final(self).groups@, *construct_name, group_id, r),
            final(self).position == old(self).position,
    {
        if let Some(address) = group_id {
            if address < self.groups.len() {
                let mut group = self.groups.remove(address);
                group.push(construct_name.clone());
                self.groups.insert(address, group);
                proof {
                    assert(self.groups@ =~= old(self).groups@.update(address as int, group));
                }
                return address;
            }
        }

        let mut e: usize = 0;
        while e < self.groups.len()
            invariant
                *self == *old(self),
                !(group_id is Some && (group_id->0 as int) < old(self).groups@.len()),
                e <= self.groups.len(),
                forall|k: int| 0 <= k < e ==> self.groups@[k]@.len() != 0,
            decreases self.groups.len() - e,
        {
            if self.groups[e].is_empty() {
                let mut group = self.groups.remove(e);
                group.push(construct_name.clone());
                self.groups.insert(e, group);
                proof {
                    assert(self.groups@ =~= old(self).groups@.update(e as int, group));
                }
                return e;
            }
            e += 1;
        }

        let mut new_group: Vec<String> = Vec::new();
        new_group.push(construct_name.clone());
        self.groups.push(new_group);
        proof {
            assert(self.groups@.last()@ =~= seq![*construct_name]);
        }
        self.groups.len() - 1
    }

    pub fn remove_construct_from_group(&mut self, construct_name: &String, group_id: usize)
        ensures
            groups_removed(old(self).groups@, final(self).groups@, construct_name@, group_id as int),
            final(self).position == old(self).position,
    {
        if group_id < self.groups.len() {
            let old_group = self.groups.remove(group_id);
            let mut new_group: Vec<String> = Vec::new();
            let mut i: usize = 0;
            while i < old_group.len()
                invariant
                    i <= old_group.len(),
                    new_group@ == seq_remove_name(old_group@.take(i as int), construct_name@),
                decreases old_group.len() - i,
            {
                proof {
                    assert(old_group@.take(i + 1).drop_last() =~= old_group@.take(i as int));
                }
                if !old_group[i].eq(construct_name) {
                    new_group.push(old_group[i].clone());
                }
                i += 1;
            }
            proof {
                assert(old_group@.take(old_group@.len() as int) =~= old_group@);
            }
            self.groups.insert(group_id, new_group);
            proof {
                assert(self.groups@ =~= old(self).groups@.update(group_id as int, new_group));
            }
        }
    }

    pub fn leave_sector(&mut self, construct_name: &String) -> (r: Result<(), String>)
        ensures
            leave_sector_outcome(*old(self), *final(self), construct_name@, r),
    {
        match self.find_member_group(construct_name) {
            Some(construct_source) => {
                self.remove_construct_from_group(construct_name, construct_source);
                Ok(())
            }
            None => Err(msg_not_member_of_sector(construct_name, &self.position)),
        }
    }

    pub fn enter_sector(&mut self, construct_name: String, group_id: Option<usize>) -> (r: usize)
        ensures
            groups_add(old(self).groups@, final(self).groups@, construct_name, group_id, r),
            final(self).position == old(self).position,
    {
        self.add_construct_to_group(&construct_name, group_id)
    }
}

/// What `leave_sector` does: the first group holding the name loses it, or
/// the request is denied when no group holds it.
pub open spec fn leave_sector_outcome(
    old_s: Sector,
    new_s: Sector,
    name: Seq<char>,
    r: Result<(), String>,
) -> bool {
    &&& new_s.position == old_s.position
    &&& match r {
        Ok(_) => exists|j: int|
            #[trigger] first_member_group(old_s.groups@, name, j) && groups_removed(
                old_s.groups@,
                new_s.groups@,
                name,
                j,
            ),
        Err(_) => !some_group_has(old_s.groups@, name) && new_s == old_s,
    }
}

/// What `move_to_group` does.
pub open spec fn move_to_group_outcome(
    old_s: Sector,
    new_s: Sector,
    name: String,
    target: Option<usize>,
    r: Result<usize, String>,
) -> bool {
    &&& new_s.position == old_s.position
    &&& match r {
        Ok(rid) => {
            ||| {
                &&& target is Some
                &&& rid == target->0
                &&& first_member_group(old_s.groups@, name@, rid as int)
                &&& new_s == old_s
            }
            ||| exists|j: int, mid: Seq<Vec<String>>|
                {
                    &&& #[trigger] first_member_group(old_s.groups@, name@, j)
                    &&& #[trigger] groups_add(old_s.groups@, mid, name, target, rid)
                    &&& groups_removed(mid, new_s.groups@, name@, j)
                }
        },
        Err(_) => !some_group_has(old_s.groups@, name@) && new_s == old_s,
    }
}

/// What `handle_event` does, case by case.
pub open spec fn sector_event_outcome(
    old_s: Sector,
    new_s: Sector,
    event: SectorEventType,
    r: SectorEvenReturnType,
) -> bool {
    match event {
        SectorEventType::External(ExternalSectorEventType::GetSectorState) => {
            &&& new_s == old_s
            &&& r matches SectorEvenReturnType::SectorState(state) && state.position
                == old_s.position && groups_views_eq(state.groups@, old_s.groups@)
        }
        SectorEventType::Internal(InternalSectorEventType::Enter(name, group_id)) => {
            &&& new_s.position == old_s.position
            &&& r matches SectorEvenReturnType::Entered(rid) && groups_add(
                old_s.groups@,
                new_s.groups@,
                name,
                group_id,
                rid,
            )
        }
        SectorEventType::Internal(InternalSectorEventType::Leave(name)) => {
            match r {
                SectorEvenReturnType::Approved => leave_sector_outcome(
                    old_s,
                    new_s,
                    name@,
                    Ok(()),
                ),
                SectorEvenReturnType::Denied(m) => leave_sector_outcome(
                    old_s,
                    new_s,
                    name@,
                    Err(m),
                ),
                _ => false,
            }
        }
        SectorEventType::External(ExternalSectorEventType::MoveToGroup(name, group_id)) => {
            match r {
                SectorEvenReturnType::Entered(rid) => move_to_group_outcome(
                    old_s,
                    new_s,
                    name,
                    group_id,
                    Ok(rid),
                ),
                SectorEvenReturnType::Denied(m) => move_to_group_outcome(
                    old_s,
                    new_s,
                    name,
                    group_id,
                    Err(m),
                ),
                _ => false,
            }
        }
    }
}

} // verus!
