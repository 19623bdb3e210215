use crate::models::ToolDefinition;
use crate::sequence::{keep_loaded, lemma_present_len, present, reversed};
use crate::text::{chars_of, decimal, push_decimal, push_text, same_chars, string_of};
use vstd::prelude::*;

verus! {

/// How many tools one agent can be given where the completion engine takes
/// a fixed number of tool bindings.
pub const SLOT_CAPACITY: usize = 10;

/// One tool bound for a turn: its place in the registry, its definition,
/// and whether it is given access to the knowledge repository.
#[derive(Clone, Debug)]
pub struct ToolSlot {
    pub position: usize,
    pub definition: ToolDefinition,
    pub graph_access: bool,
}

/// The definitions that get a slot: those that could be loaded, in the
/// order asked for, up to the capacity.
pub open spec fn bound_definitions(
    resolved: Seq<Option<ToolDefinition>>,
    capacity: nat,
) -> Seq<ToolDefinition> {
    let loaded = present(resolved);
    if loaded.len() <= capacity {
        loaded
    } else {
        loaded.take(capacity as int)
    }
}

/// Whether `slots` binds exactly the definitions `bound`, each at its own
/// place, with repository access for those that read the graph and for no
/// others.
pub open spec fn binds(slots: Seq<ToolSlot>, bound: Seq<ToolDefinition>) -> bool {
    &&& slots.len() == bound.len()
    &&& forall|i: int|
        0 <= i < slots.len() ==> {
            &&& (#[trigger] slots[i]).position == i
            &&& slots[i].definition == bound[i]
            &&& slots[i].graph_access == bound[i].implementation.needs_graph()
        }
}

/// Binds tools to slots for one turn. `resolved` holds, for each tool
/// identifier of the agent in order, the definition that was loaded for it,
/// or nothing where none could be. Identifiers without a definition are
/// passed over; of the others the first `capacity` get the slots 0, 1, 2 and
/// so on, and the rest are dropped. No input makes this fail.
pub fn bind(resolved: Vec<Option<ToolDefinition>>, capacity: usize) -> (r: Vec<ToolSlot>)
    ensures
        binds(r@, bound_definitions(resolved@, capacity as nat)),
        r@.len() <= capacity,
        r@.len() <= resolved@.len(),
{
    proof {
        lemma_present_len(resolved@);
    }
    let mut loaded: Vec<ToolDefinition> = keep_loaded(resolved);
    loaded.truncate(capacity);
    let ghost kept = loaded@;
    assert(kept =~= bound_definitions(resolved@, capacity as nat));
    let mut stack: Vec<ToolDefinition> = reversed(loaded);
    let mut slots: Vec<ToolSlot> = Vec::new();
    while stack.len() > 0
        invariant
            slots@.len() + stack@.len() == kept.len(),
            forall|j: int| 0 <= j < stack@.len() ==> stack@[j] == kept[kept.len() - 1 - j],
            binds(slots@, kept.take(slots@.len() as int)),
        decreases stack.len(),
    {
        let ghost before = slots@;
        let definition: ToolDefinition = stack.pop().unwrap();
        let graph_access: bool = definition.implementation.requires_graph_access();
        let position: usize = slots.len();
        slots.push(ToolSlot { position, definition, graph_access });
        assert forall|i: int| 0 <= i < slots@.len() implies {
            &&& (#[trigger] slots@[i]).position == i
            &&& slots@[i].definition == kept.take(slots@.len() as int)[i]
            &&& slots@[i].graph_access == kept.take(
                slots@.len() as int,
            )[i].implementation.needs_graph()
        } by {
            if i < before.len() {
                assert(slots@[i] == before[i]);
                assert(kept.take(before.len() as int)[i] == kept[i]);
            }
        }
    }
    assert(kept.take(kept.len() as int) =~= kept);
    slots
}

/// The name under which the slot at `position` is known to the model.
pub open spec fn slot_name_text(position: nat) -> Seq<char> {
    "tool_"@ + decimal(position)
}

/// How a bound tool is described to the model: its own name, the slot's
/// name, and its description.
pub open spec fn slot_description_text(slot: ToolSlot) -> Seq<char> {
    slot.definition.name@ + " (INTERNAL_ID: "@ + slot_name_text(slot.position as nat) + ") - "@
        + slot.definition.description@
}

impl ToolSlot {
    /// The name under which the slot is known to the model.
    pub fn name(&self) -> (r: String)
        ensures
            r@ == slot_name_text(self.position as nat),
    {
        let mut out: Vec<char> = chars_of("tool_");
        push_decimal(&mut out, self.position);
        string_of(&out)
    }

    /// How the tool is described to the model.
    pub fn description(&self) -> (r: String)
        ensures
            r@ == slot_description_text(*self),
    {
        let mut out: Vec<char> = chars_of(self.definition.name.as_str());
        push_text(&mut out, " (INTERNAL_ID: tool_");
        push_decimal(&mut out, self.position);
        push_text(&mut out, ") - ");
        push_text(&mut out, self.definition.description.as_str());
        proof {
            reveal_strlit(" (INTERNAL_ID: tool_");
            reveal_strlit(" (INTERNAL_ID: ");
            reveal_strlit("tool_");
            assert(" (INTERNAL_ID: tool_"@ =~= " (INTERNAL_ID: "@ + "tool_"@);
            assert(out@ =~= slot_description_text(*self));
        }
        string_of(&out)
    }
}

/// Whether the slot at index `i` is the first that is known to the model
/// under `name`.
pub open spec fn is_first_named(slots: Seq<ToolSlot>, name: Seq<char>, i: int) -> bool {
    &&& 0 <= i < slots.len()
    &&& slot_name_text(slots[i].position as nat) == name
    &&& forall|j: int| 0 <= j < i ==> slot_name_text(#[trigger] slots[j].position as nat) != name
}

/// Finds the slot that a call of the model is meant for: the first that is
/// known under the name the model gave. A name that no slot has finds none.
pub fn find_slot(slots: &Vec<ToolSlot>, name: &str) -> (r: Option<usize>)
    ensures
        match r {
            Some(i) => is_first_named(slots@, name@, i as int),
            None => forall|j: int|
                0 <= j < slots@.len() ==> slot_name_text(#[trigger] slots@[j].position as nat)
                    != name@,
        },
{
    let wanted: Vec<char> = chars_of(name);
    let mut i: usize = 0;
    while i < slots.len()
        invariant
            i <= slots.len(),
            wanted@ == name@,
            forall|j: int|
                0 <= j < i ==> slot_name_text(#[trigger] slots@[j].position as nat) != name@,
        decreases slots.len() - i,
    {
        let mut known: Vec<char> = chars_of("tool_");
        push_decimal(&mut known, slots[i].position);
        if same_chars(&known, &wanted) {
            return Some(i);
        }
        i = i + 1;
    }
    None
}

} // verus!
