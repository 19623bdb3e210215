use agent_core::export::{export_nodes, node_id, type_uri};
use agent_core::models::GraphEntity;

#[test]
fn clinical_categories_keep_their_type() {
    assert_eq!(type_uri("Person"), "mhealth:Person");
    assert_eq!(type_uri("Condition"), "mhealth:Condition");
    assert_eq!(type_uri("Intervention"), "mhealth:Intervention");
}

#[test]
fn other_categories_are_things() {
    assert_eq!(type_uri("Outcome"), "schema:Thing");
    assert_eq!(type_uri("CommunityResource"), "schema:Thing");
    assert_eq!(type_uri("person"), "schema:Thing");
    assert_eq!(type_uri(""), "schema:Thing");
}

#[test]
fn identifier_writes_spaces_as_underscores() {
    assert_eq!(node_id("Club Social"), "mhealth:Club_Social");
    assert_eq!(node_id("Taller de Arte"), "mhealth:Taller_de_Arte");
    assert_eq!(node_id("Ana"), "mhealth:Ana");
    assert_eq!(node_id("a  b"), "mhealth:a__b");
    assert_eq!(node_id(""), "mhealth:");
}

#[test]
fn nodes_are_exported_in_order() {
    let entities = vec![
        GraphEntity { name: "Ana Ruiz".to_string(), category: "Person".to_string() },
        GraphEntity { name: "Hospital".to_string(), category: "CommunityResource".to_string() },
    ];
    let nodes = export_nodes(&entities);
    assert_eq!(nodes.len(), 2);
    assert_eq!(nodes[0].id, "mhealth:Ana_Ruiz");
    assert_eq!(nodes[0].type_uri, "mhealth:Person");
    assert_eq!(nodes[0].name, "Ana Ruiz");
    assert_eq!(nodes[0].category, "Person");
    assert_eq!(nodes[1].id, "mhealth:Hospital");
    assert_eq!(nodes[1].type_uri, "schema:Thing");
    assert!(export_nodes(&vec![]).is_empty());
}
