//! The selection state machine: at most one entity of the scene is selected,
//! and a pick either selects a registered entity or clears the selection.

use vstd::prelude::*;
use crate::registry::{
    distinct_ids, has_id, lookup, slot, slot_is_unique, spec_label, EntityRecord, EntityRegistry,
    WeightTexts,
};

verus! {

/// The outcome of one pointer press, as the scene reports it.
#[derive(Clone, Copy, Debug, PartialEq, Eq, Structural)]
pub enum PickResult {
    /// The pointer hit the entity with this identifier.
    Hit(u64),
    /// The pointer hit nothing.
    Miss,
}

/// How an entity is drawn.
#[derive(Clone, Copy, Debug, PartialEq, Eq, Structural)]
pub enum Highlight {
    /// The colour of the selected entity.
    Selected,
    /// The colour of every other entity.
    Neutral,
}

/// A selection as a mathematical value: the selected entity and its label,
/// or neither.
pub struct Selection {
    /// The identifier of the selected entity.
    pub selected: Option<u64>,
    /// The label shown for it.
    pub label: Option<Seq<char>>,
}

/// What the scene is told to show after an event.
#[derive(Clone, Debug)]
pub struct DisplayInstruction {
    /// The one entity to draw as selected; every other is drawn neutral.
    pub highlighted: Option<u64>,
    /// The label to show, if any.
    pub label: Option<String>,
}

impl View for DisplayInstruction {
    type V = Selection;

    open spec fn view(&self) -> Selection {
        Selection {
            selected: self.highlighted,
            label: match self.label {
                Some(text) => Some(text@),
                None => None,
            },
        }
    }
}

/// The selection with nothing selected.
pub open spec fn unselected() -> Selection {
    Selection { selected: None, label: None }
}

/// The selection after a pick. A miss clears it. A hit on a registered
/// entity selects that entity under the label of its role. A hit on an
/// identifier that is not registered clears it too. What was selected before
/// plays no part.
pub open spec fn next_selection(
    records: Seq<EntityRecord>,
    weight_texts: Seq<Seq<char>>,
    pick: PickResult,
) -> Selection {
    match pick {
        PickResult::Miss => unselected(),
        PickResult::Hit(id) => match lookup(records, id) {
            Some(role) => Selection {
                selected: Some(id),
                label: Some(spec_label(role, weight_texts)),
            },
            None => unselected(),
        },
    }
}

/// How the entity `id` is drawn under a selection.
pub open spec fn spec_highlight(selection: Selection, id: u64) -> Highlight {
    if selection.selected == Some(id) {
        Highlight::Selected
    } else {
        Highlight::Neutral
    }
}

/// Whether `place` holds the first registered entity that is among the
/// reported ones.
pub open spec fn is_first_hit(records: Seq<EntityRecord>, reported: Set<u64>, place: int) -> bool {
    &&& 0 <= place < records.len()
    &&& reported.contains(records[place].id)
    &&& forall|j: int| 0 <= j < place ==> !reported.contains(#[trigger] records[j].id)
}

/// Whether any registered entity is among the reported ones.
pub open spec fn any_hit(records: Seq<EntityRecord>, reported: Set<u64>) -> bool {
    exists|k: int| 0 <= k < records.len() && reported.contains(#[trigger] records[k].id)
}

/// The pick that a set of reported identifiers amounts to: a hit on the
/// first registered entity among them, or a miss where none of them is
/// registered.
pub open spec fn spec_resolve_pick(records: Seq<EntityRecord>, reported: Set<u64>) -> PickResult {
    if any_hit(records, reported) {
        PickResult::Hit(records[choose|k: int| is_first_hit(records, reported, k)].id)
    } else {
        PickResult::Miss
    }
}

/// There is only one first hit: where `place` holds it, the pick is a hit on
/// the entity there.
pub proof fn first_hit_is_the_pick(records: Seq<EntityRecord>, reported: Set<u64>, place: int)
    requires
        is_first_hit(records, reported, place),
    ensures
        any_hit(records, reported),
        spec_resolve_pick(records, reported) == PickResult::Hit(records[place].id),
{
    let chosen = choose|k: int| is_first_hit(records, reported, k);
    assert(is_first_hit(records, reported, chosen));
    if chosen < place {
        assert(!reported.contains(records[chosen].id));
    }
    if place < chosen {
        assert(!reported.contains(records[place].id));
    }
}

/// Where some registered entity is reported, one of them is the first.
pub proof fn some_hit_is_first(records: Seq<EntityRecord>, reported: Set<u64>, upto: int)
    requires
        0 <= upto < records.len(),
        reported.contains(records[upto].id),
    ensures
        exists|k: int| 0 <= k <= upto && is_first_hit(records, reported, k),
    decreases upto,
{
    if exists|j: int| 0 <= j < upto && reported.contains(#[trigger] records[j].id) {
        let j = choose|j: int| 0 <= j < upto && reported.contains(#[trigger] records[j].id);
        some_hit_is_first(records, reported, j);
    } else {
        assert(is_first_hit(records, reported, upto));
    }
}

/// Of two registered entities that both report a hit, the one registered
/// later is never the pick: the pick is a hit on an entity registered no
/// later than the earlier of the two.
pub proof fn earlier_entity_wins(
    records: Seq<EntityRecord>,
    reported: Set<u64>,
    earlier: int,
    later: int,
)
    requires
        distinct_ids(records),
        0 <= earlier < later < records.len(),
        reported.contains(records[earlier].id),
        reported.contains(records[later].id),
    ensures
        spec_resolve_pick(records, reported) matches PickResult::Hit(id) && has_id(records, id)
            && slot(records, id) <= earlier && id != records[later].id,
{
    some_hit_is_first(records, reported, earlier);
    let k = choose|k: int| 0 <= k <= earlier && is_first_hit(records, reported, k);
    first_hit_is_the_pick(records, reported, k);
    slot_is_unique(records, records[k].id, k);
    assert(records[k].id != records[later].id);
}

/// Where exactly two registered entities report a hit, the pick is the one
/// registered first.
pub proof fn first_of_two_wins(records: Seq<EntityRecord>, earlier: int, later: int)
    requires
        distinct_ids(records),
        0 <= earlier < later < records.len(),
    ensures
        spec_resolve_pick(records, set![records[earlier].id, records[later].id])
            == PickResult::Hit(records[earlier].id),
{
    let reported = set![records[earlier].id, records[later].id];
    assert forall|j: int| 0 <= j < earlier implies !reported.contains(
        #[trigger] records[j].id,
    ) by {
        assert(records[j].id != records[earlier].id);
        assert(records[j].id != records[later].id);
    }
    assert(is_first_hit(records, reported, earlier));
    first_hit_is_the_pick(records, reported, earlier);
}

/// A selection marks at most one entity of a registry as selected, and after
/// a hit on a registered entity it marks that one.
pub proof fn at_most_one_selected(
    records: Seq<EntityRecord>,
    weight_texts: Seq<Seq<char>>,
    pick: PickResult,
    a: int,
    b: int,
)
    requires
        distinct_ids(records),
        0 <= a < records.len(),
        0 <= b < records.len(),
        spec_highlight(next_selection(records, weight_texts, pick), records[a].id)
            == Highlight::Selected,
        spec_highlight(next_selection(records, weight_texts, pick), records[b].id)
            == Highlight::Selected,
    ensures
        a == b,
        pick == PickResult::Hit(records[a].id),
{
}

/// A pick leaves the label and the selected entity present together or
/// absent together, and selects nothing that is not registered.
pub proof fn label_goes_with_selection(
    records: Seq<EntityRecord>,
    weight_texts: Seq<Seq<char>>,
    pick: PickResult,
)
    ensures
        next_selection(records, weight_texts, pick).selected.is_some() == next_selection(
            records,
            weight_texts,
            pick,
        ).label.is_some(),
        next_selection(records, weight_texts, pick).selected matches Some(id) ==> has_id(
            records,
            id,
        ) && pick == PickResult::Hit(id),
{
}

/// A miss leaves nothing selected and no label, whatever was selected
/// before; on a controller with nothing selected it changes nothing.
pub proof fn miss_clears(records: Seq<EntityRecord>, weight_texts: Seq<Seq<char>>)
    ensures
        next_selection(records, weight_texts, PickResult::Miss) == unselected(),
        unselected().selected.is_none(),
        unselected().label.is_none(),
{
}

impl Highlight {
    /// The colour as red, green, blue and alpha: full red for the selected
    /// entity, mid grey at half alpha for the others.
    pub open spec fn spec_rgba(self) -> (u8, u8, u8, u8) {
        match self {
            Highlight::Selected => (255u8, 0u8, 0u8, 255u8),
            Highlight::Neutral => (128u8, 128u8, 128u8, 128u8),
        }
    }

    /// The colour as red, green, blue and alpha.
    pub fn rgba(self) -> (c: (u8, u8, u8, u8))
        ensures
            c == self.spec_rgba(),
    {
        match self {
            Highlight::Selected => (255, 0, 0, 255),
            Highlight::Neutral => (128, 128, 128, 128),
        }
    }
}

/// Whether `id` is among `reported`.
fn is_reported(reported: &Vec<u64>, id: u64) -> (found: bool)
    ensures
        found == reported@.to_set().contains(id),
{
    let mut i: usize = 0;
    while i < reported.len()
        invariant
            i <= reported@.len(),
            forall|j: int| 0 <= j < i ==> reported@[j] != id,
        decreases reported@.len() - i,
    {
        if reported[i] == id {
            assert(reported@.contains(id));
            return true;
        }
        i = i + 1;
    }
    assert(!reported@.contains(id));
    false
}

/// Resolves the identifiers that reported a hit for one pointer press to a
/// single pick: the first registered entity among them wins, in whatever
/// order they were reported, and identifiers that are not registered count
/// for nothing.
pub fn resolve_pick(registry: &EntityRegistry, reported: &Vec<u64>) -> (pick: PickResult)
    ensures
        pick == spec_resolve_pick(registry@, reported@.to_set()),
{
    let ghost hits = reported@.to_set();
    let n: usize = registry.len();
    let mut k: usize = 0;
    while k < n
        invariant
            n == registry@.len(),
            k <= n,
            hits == reported@.to_set(),
            forall|j: int| 0 <= j < k ==> !hits.contains(#[trigger] registry@[j].id),
        decreases n - k,
    {
        match registry.record_at(k) {
            Some(record) => {
                if is_reported(reported, record.id) {
                    proof {
                        first_hit_is_the_pick(registry@, hits, k as int);
                    }
                    return PickResult::Hit(record.id);
                }
            },
            None => {},
        }
        k = k + 1;
    }
    PickResult::Miss
}

/// The holder of the scene's one selection.
pub struct SelectionController {
    selected: Option<u64>,
    label: Option<String>,
}

impl View for SelectionController {
    type V = Selection;

    closed spec fn view(&self) -> Selection {
        Selection {
            selected: self.selected,
            label: match self.label {
                Some(text) => Some(text@),
                None => None,
            },
        }
    }
}

impl SelectionController {
    /// A label is shown exactly while an entity is selected.
    pub open spec fn wf(&self) -> bool {
        self@.selected.is_some() == self@.label.is_some()
    }

    /// A controller with nothing selected.
    pub fn new() -> (controller: SelectionController)
        ensures
            controller.wf(),
            controller@ == unselected(),
    {
        SelectionController { selected: None, label: None }
    }

    /// The identifier of the selected entity, if one is selected.
    pub fn selected(&self) -> (id: Option<u64>)
        ensures
            id == self@.selected,
    {
        self.selected
    }

    /// The label of the selected entity, if one is selected.
    pub fn label(&self) -> (label: Option<String>)
        ensures
            label.is_some() == self@.label.is_some(),
            label matches Some(text) ==> text@ == self@.label.unwrap(),
    {
        match &self.label {
            Some(text) => Some(text.clone()),
            None => None,
        }
    }

    /// How the entity `id` is to be drawn.
    pub fn highlight_of(&self, id: u64) -> (h: Highlight)
        ensures
            h == spec_highlight(self@, id),
    {
        match self.selected {
            Some(chosen) => {
                if chosen == id {
                    Highlight::Selected
                } else {
                    Highlight::Neutral
                }
            },
            None => Highlight::Neutral,
        }
    }

    /// How each entity of `registry` is to be drawn, in registration order.
    pub fn highlights(&self, registry: &EntityRegistry) -> (all: Vec<Highlight>)
        ensures
            all@.len() == registry@.len(),
            forall|k: int|
                0 <= k < registry@.len() ==> #[trigger] all@[k] == spec_highlight(
                    self@,
                    registry@[k].id,
                ),
    {
        let n: usize = registry.len();
        let mut all: Vec<Highlight> = Vec::new();
        let mut k: usize = 0;
        while k < n
            invariant
                n == registry@.len(),
                k <= n,
                all@.len() == k,
                forall|j: int|
                    0 <= j < k ==> #[trigger] all@[j] == spec_highlight(self@, registry@[j].id),
            decreases n - k,
        {
            match registry.record_at(k) {
                Some(record) => {
                    all.push(self.highlight_of(record.id));
                },
                None => {},
            }
            k = k + 1;
        }
        all
    }

    /// What the scene is to show for the selection as it stands.
    pub fn display(&self) -> (shown: DisplayInstruction)
        ensures
            shown@ == self@,
    {
        DisplayInstruction { highlighted: self.selected, label: self.label() }
    }

    /// Takes one pick and moves to the selection that follows from it.
    ///
    /// Every entity is first reset to neutral. A hit on a registered entity
    /// then selects it and computes its label; a miss, or a hit on an
    /// identifier that is not registered, leaves nothing selected. The
    /// answer is what the scene is to show.
    pub fn on_pick(
        &mut self,
        registry: &EntityRegistry,
        weights: &WeightTexts,
        pick: PickResult,
    ) -> (shown: DisplayInstruction)
        requires
            registry.wf(),
            registry.weight_count() <= weights@.len(),
        ensures
            final(self).wf(),
            final(self)@ == next_selection(registry@, weights@, pick),
            shown@ == final(self)@,
    {
        self.selected = None;
        self.label = None;
        match pick {
            PickResult::Hit(id) => {
                match registry.resolve(id) {
                    Some(role) => {
                        let text = EntityRegistry::label_for(role, weights);
                        self.selected = Some(id);
                        self.label = Some(text);
                    },
                    None => {},
                }
            },
            PickResult::Miss => {},
        }
        self.display()
    }
}

} // verus!
