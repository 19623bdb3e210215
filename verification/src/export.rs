use crate::models::GraphEntity;
use crate::search::{replace_all, replaced};
use crate::text::{chars_of, is_text, push_all, string_of};
use vstd::prelude::*;
use vstd::string::StringExecFns;

verus! {

/// The type under which an entity of the given category is exported: the
/// three clinical categories under their own names, all others as things.
pub open spec fn type_uri_text(category: Seq<char>) -> Seq<char> {
    if category == "Person"@ {
        "mhealth:Person"@
    } else if category == "Condition"@ {
        "mhealth:Condition"@
    } else if category == "Intervention"@ {
        "mhealth:Intervention"@
    } else {
        "schema:Thing"@
    }
}

/// The identifier under which an entity of the given name is exported: the
/// name with each space written as an underscore, in the export's own
/// namespace.
pub open spec fn node_id_text(name: Seq<char>) -> Seq<char> {
    "mhealth:"@ + replace_all(name, seq![' '], seq!['_'])
}

/// The type under which an entity of the given category is exported.
pub fn type_uri(category: &str) -> (r: String)
    ensures
        r@ == type_uri_text(category@),
{
    let c: Vec<char> = chars_of(category);
    if is_text(&c, "Person") {
        String::from_str("mhealth:Person")
    } else if is_text(&c, "Condition") {
        String::from_str("mhealth:Condition")
    } else if is_text(&c, "Intervention") {
        String::from_str("mhealth:Intervention")
    } else {
        String::from_str("schema:Thing")
    }
}

/// The identifier under which an entity of the given name is exported.
pub fn node_id(name: &str) -> (r: String)
    ensures
        r@ == node_id_text(name@),
{
    let v: Vec<char> = chars_of(name);
    let mut space: Vec<char> = Vec::new();
    space.push(' ');
    let mut underscore: Vec<char> = Vec::new();
    underscore.push('_');
    assert(space@ =~= seq![' ']);
    assert(underscore@ =~= seq!['_']);
    let tail: Vec<char> = replaced(&v, &space, &underscore);
    let mut out: Vec<char> = chars_of("mhealth:");
    push_all(&mut out, &tail);
    string_of(&out)
}

/// One node of the exported graph.
#[derive(Clone, Debug)]
pub struct ExportedNode {
    pub id: String,
    pub type_uri: String,
    pub name: String,
    pub category: String,
}

/// Whether `nodes` exports `entities`: one node for each entity, in order,
/// with its identifier, its type, its name and its category.
pub open spec fn exports(nodes: Seq<ExportedNode>, entities: Seq<GraphEntity>) -> bool {
    &&& nodes.len() == entities.len()
    &&& forall|i: int|
        0 <= i < nodes.len() ==> {
            &&& (#[trigger] nodes[i]).id@ == node_id_text(entities[i].name@)
            &&& nodes[i].type_uri@ == type_uri_text(entities[i].category@)
            &&& nodes[i].name@ == entities[i].name@
            &&& nodes[i].category@ == entities[i].category@
        }
}

/// The nodes of the exported graph.
pub fn export_nodes(entities: &Vec<GraphEntity>) -> (r: Vec<ExportedNode>)
    ensures
        exports(r@, entities@),
{
    let mut out: Vec<ExportedNode> = Vec::new();
    let mut i: usize = 0;
    while i < entities.len()
        invariant
            i <= entities.len(),
            exports(out@, entities@.take(i as int)),
        decreases entities.len() - i,
    {
        let ghost before = out@;
        let entity: &GraphEntity = &entities[i];
        out.push(
            ExportedNode {
                id: node_id(entity.name.as_str()),
                type_uri: type_uri(entity.category.as_str()),
                name: entity.name.clone(),
                category: entity.category.clone(),
            },
        );
        i = i + 1;
        proof {
            let upto = entities@.take(i as int);
            assert forall|j: int| 0 <= j < out@.len() implies {
                &&& (#[trigger] out@[j]).id@ == node_id_text(upto[j].name@)
                &&& out@[j].type_uri@ == type_uri_text(upto[j].category@)
                &&& out@[j].name@ == upto[j].name@
                &&& out@[j].category@ == upto[j].category@
            } by {
                if j < before.len() {
                    assert(out@[j] == before[j]);
                    assert(entities@.take(i - 1)[j] == upto[j]);
                }
            }
        }
    }
    assert(entities@.take(entities.len() as int) =~= entities@);
    out
}

} // verus!
