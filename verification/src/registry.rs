//! The registry of selectable entities: which role each one plays, in the
//! order in which they were registered, and the label that a role shows.

use vstd::prelude::*;
use crate::error::ErrorKind;
use crate::text::{decimal, push_decimal};

verus! {

/// What an entity of the scene stands for.
#[derive(Clone, Copy, Debug, PartialEq, Eq, Structural)]
pub enum Role {
    /// The node of the input at this position, counted from zero.
    InputNode(usize),
    /// The node of the single output.
    OutputNode,
    /// The edge that carries the weight at this position of the weight
    /// vector.
    WeightEdge(usize),
}

/// A registered entity: its identifier and its role.
#[derive(Clone, Copy, Debug, PartialEq, Eq, Structural)]
pub struct EntityRecord {
    /// The identifier under which the scene knows the entity.
    pub id: u64,
    /// What the entity stands for.
    pub role: Role,
}

/// A role fits a model of `weight_count` weights if it names no weight
/// outside the weight vector.
pub open spec fn role_fits(role: Role, weight_count: nat) -> bool {
    role matches Role::WeightEdge(index) ==> index < weight_count
}

/// Whether some record carries `id`.
pub open spec fn has_id(records: Seq<EntityRecord>, id: u64) -> bool {
    exists|k: int| 0 <= k < records.len() && #[trigger] records[k].id == id
}

/// The position of a record that carries `id`, where there is one.
pub open spec fn slot(records: Seq<EntityRecord>, id: u64) -> int {
    choose|k: int| 0 <= k < records.len() && #[trigger] records[k].id == id
}

/// No identifier occurs in two records.
pub open spec fn distinct_ids(records: Seq<EntityRecord>) -> bool {
    forall|a: int, b: int|
        0 <= a < records.len() && 0 <= b < records.len() && a != b ==> #[trigger] records[a].id
            != #[trigger] records[b].id
}

/// The role registered for `id`, if any.
pub open spec fn lookup(records: Seq<EntityRecord>, id: u64) -> Option<Role> {
    if has_id(records, id) {
        Some(records[slot(records, id)].role)
    } else {
        None
    }
}

/// The records after `role` has been registered for `id`: a known identifier
/// keeps its place and takes the new role, a new one goes last.
pub open spec fn registered(records: Seq<EntityRecord>, id: u64, role: Role) -> Seq<EntityRecord> {
    if has_id(records, id) {
        records.update(slot(records, id), EntityRecord { id, role })
    } else {
        records.push(EntityRecord { id, role })
    }
}

/// The label that a role shows: a fixed name for a node, with inputs counted
/// from one, and for a weight edge the text of its weight.
pub open spec fn spec_label(role: Role, weight_texts: Seq<Seq<char>>) -> Seq<char> {
    match role {
        Role::InputNode(index) => "Input "@ + decimal(index as nat + 1),
        Role::OutputNode => "Output Node"@,
        Role::WeightEdge(index) => weight_texts[index as int],
    }
}

/// In records without a repeated identifier, the record that carries `id` is
/// the one at its slot.
pub proof fn slot_is_unique(records: Seq<EntityRecord>, id: u64, k: int)
    requires
        distinct_ids(records),
        0 <= k < records.len(),
        records[k].id == id,
    ensures
        has_id(records, id),
        slot(records, id) == k,
        lookup(records, id) == Some(records[k].role),
{
    let s = slot(records, id);
    assert(0 <= s < records.len() && records[s].id == id);
}

/// Registering keeps the registry in order: no identifier is repeated
/// afterwards, the entities that were there keep their places, and `id`
/// resolves to `role`.
pub proof fn registration_keeps_order(records: Seq<EntityRecord>, id: u64, role: Role)
    requires
        distinct_ids(records),
    ensures
        distinct_ids(registered(records, id, role)),
        lookup(registered(records, id, role), id) == Some(role),
        registered(records, id, role).len() == if has_id(records, id) {
            records.len()
        } else {
            records.len() + 1
        },
        forall|k: int|
            0 <= k < records.len() ==> #[trigger] registered(records, id, role)[k].id
                == records[k].id,
        forall|k: int|
            0 <= k < records.len() && records[k].id != id ==> #[trigger] registered(
                records,
                id,
                role,
            )[k] == records[k],
{
    let after = registered(records, id, role);
    let at: int = if has_id(records, id) {
        slot(records, id)
    } else {
        records.len() as int
    };
    assert(0 <= at < after.len());
    assert(after[at] == EntityRecord { id, role });
    assert(forall|k: int| 0 <= k < after.len() && k != at ==> after[k] == records[k]);
    assert(forall|k: int| 0 <= k < records.len() ==> after[k].id == records[k].id);
    assert(distinct_ids(after)) by {
        assert forall|a: int, b: int|
            0 <= a < after.len() && 0 <= b < after.len() && a != b implies #[trigger] after[a].id
            != #[trigger] after[b].id by {
            if a < records.len() && b < records.len() {
                assert(records[a].id != records[b].id);
            } else if a < records.len() {
                assert(records[a].id != id);
            } else {
                assert(records[b].id != id);
            }
        }
    }
    slot_is_unique(after, id, at);
}

/// The last registration wins and touches no other entity: after `role` is
/// registered for `id`, `id` resolves to `role` and every other identifier
/// resolves as before.
pub proof fn registration_wins(records: Seq<EntityRecord>, id: u64, role: Role, other: u64)
    requires
        distinct_ids(records),
        other != id,
    ensures
        lookup(registered(records, id, role), id) == Some(role),
        lookup(registered(records, id, role), other) == lookup(records, other),
{
    let after = registered(records, id, role);
    registration_keeps_order(records, id, role);
    if has_id(records, other) {
        let k = slot(records, other);
        slot_is_unique(records, other, k);
        assert(after[k] == records[k]);
        slot_is_unique(after, other, k);
    } else {
        if has_id(after, other) {
            let k = slot(after, other);
            assert(after[k].id == other);
            if k < records.len() {
                assert(records[k].id == other);
            }
        }
    }
}

/// The text of each weight of a model, in the order of the weight vector, as
/// the model's owner rendered it.
pub struct WeightTexts {
    texts: Vec<String>,
}

impl View for WeightTexts {
    type V = Seq<Seq<char>>;

    closed spec fn view(&self) -> Seq<Seq<char>> {
        Seq::new(self.texts@.len(), |i: int| self.texts@[i]@)
    }
}

impl WeightTexts {
    /// Takes the texts of a model's weights, first weight first.
    pub fn new(texts: Vec<String>) -> (w: WeightTexts)
        ensures
            w@.len() == texts@.len(),
            forall|i: int| 0 <= i < texts@.len() ==> #[trigger] w@[i] == texts@[i]@,
    {
        WeightTexts { texts }
    }

    /// The number of weights.
    pub fn len(&self) -> (n: usize)
        ensures
            n == self@.len(),
    {
        self.texts.len()
    }

    /// The text of the weight at `index`, where the model has one there.
    pub fn get(&self, index: usize) -> (t: Option<String>)
        ensures
            index < self@.len() ==> t.is_some() && t.unwrap()@ == self@[index as int],
            index >= self@.len() ==> t.is_none(),
    {
        if index < self.texts.len() {
            Some(self.texts[index].clone())
        } else {
            None
        }
    }
}

/// The entities of a scene, in the order in which they were registered.
pub struct EntityRegistry {
    records: Vec<EntityRecord>,
    weight_count: usize,
}

impl View for EntityRegistry {
    type V = Seq<EntityRecord>;

    closed spec fn view(&self) -> Seq<EntityRecord> {
        self.records@
    }
}

impl EntityRegistry {
    /// The number of weights of the model that the weight edges refer to.
    pub closed spec fn weight_count(&self) -> nat {
        self.weight_count as nat
    }

    /// No identifier is registered twice, and every role fits the model.
    pub open spec fn wf(&self) -> bool {
        &&& distinct_ids(self@)
        &&& forall|k: int|
            0 <= k < self@.len() ==> role_fits(#[trigger] self@[k].role, self.weight_count())
    }

    /// An empty registry for a scene around a model of `weight_count`
    /// weights.
    pub fn new(weight_count: usize) -> (registry: EntityRegistry)
        ensures
            registry.wf(),
            registry@ == Seq::<EntityRecord>::empty(),
            registry.weight_count() == weight_count,
    {
        EntityRegistry { records: Vec::new(), weight_count }
    }

    /// The number of registered entities.
    pub fn len(&self) -> (n: usize)
        ensures
            n == self@.len(),
    {
        self.records.len()
    }

    /// The number of weights that the registry was made for.
    pub fn model_weights(&self) -> (n: usize)
        ensures
            n == self.weight_count(),
    {
        self.weight_count
    }

    /// The entity at a place of the registration order.
    pub fn record_at(&self, place: usize) -> (record: Option<EntityRecord>)
        ensures
            place < self@.len() ==> record == Some(self@[place as int]),
            place >= self@.len() ==> record.is_none(),
    {
        if place < self.records.len() {
            Some(self.records[place])
        } else {
            None
        }
    }

    /// The place of `id` in the registration order, if it is registered.
    pub fn place_of(&self, id: u64) -> (place: Option<usize>)
        requires
            self.wf(),
        ensures
            has_id(self@, id) ==> place.is_some() && place.unwrap() == slot(self@, id),
            !has_id(self@, id) ==> place.is_none(),
            place.is_some() ==> place.unwrap() < self@.len(),
    {
        let mut k: usize = 0;
        while k < self.records.len()
            invariant
                k <= self.records@.len(),
                self.wf(),
                forall|j: int| 0 <= j < k ==> #[trigger] self.records@[j].id != id,
            decreases self.records@.len() - k,
        {
            if self.records[k].id == id {
                proof {
                    slot_is_unique(self@, id, k as int);
                }
                return Some(k);
            }
            k = k + 1;
        }
        None
    }

    /// Registers `role` for `id`, in place of any role that `id` had.
    ///
    /// A weight edge must name a weight of the model; one that does not is
    /// refused, and the registry stays as it was.
    pub fn register(&mut self, id: u64, role: Role) -> (r: Result<(), ErrorKind>)
        requires
            old(self).wf(),
        ensures
            final(self).wf(),
            final(self).weight_count() == old(self).weight_count(),
            role_fits(role, old(self).weight_count()) ==> r == Ok::<(), ErrorKind>(())
                && final(self)@ == registered(old(self)@, id, role),
            !role_fits(role, old(self).weight_count()) ==> r == Err::<(), ErrorKind>(
                ErrorKind::InvalidArgument,
            ) && final(self)@ == old(self)@,
    {
        match role {
            Role::WeightEdge(index) => {
                if index >= self.weight_count {
                    return Err(ErrorKind::InvalidArgument);
                }
            },
            _ => {},
        }
        proof {
            registration_keeps_order(self@, id, role);
        }
        match self.place_of(id) {
            Some(place) => {
                self.records.set(place, EntityRecord { id, role });
            },
            None => {
                self.records.push(EntityRecord { id, role });
            },
        }
        assert(self@ =~= registered(old(self)@, id, role));
        Ok(())
    }

    /// The role registered for `id`, if any.
    pub fn resolve(&self, id: u64) -> (role: Option<Role>)
        requires
            self.wf(),
        ensures
            role == lookup(self@, id),
    {
        match self.place_of(id) {
            Some(place) => Some(self.records[place].role),
            None => None,
        }
    }

    /// The label that `role` shows beside a model whose weights read
    /// `weights`.
    pub fn label_for(role: Role, weights: &WeightTexts) -> (label: String)
        requires
            role_fits(role, weights@.len()),
        ensures
            label@ == spec_label(role, weights@),
    {
        match role {
            Role::InputNode(index) => {
                let mut label = "Input ".to_string();
                push_decimal(&mut label, index as u128 + 1);
                label
            },
            Role::OutputNode => "Output Node".to_string(),
            Role::WeightEdge(index) => weights.texts[index].clone(),
        }
    }
}

} // verus!
