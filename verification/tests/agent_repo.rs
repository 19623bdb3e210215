use agent_core::agent_repo::{malformed_definition, missing_definition, FileAgentRepository};
use agent_core::sequence::keep_loaded;
use agent_core::errors::AppError;

#[test]
fn base_path_loses_its_trailing_slashes() {
    assert_eq!(FileAgentRepository::new("./config/").base_path(), "./config");
    assert_eq!(FileAgentRepository::new("./config///").base_path(), "./config");
    assert_eq!(FileAgentRepository::new("./config").base_path(), "./config");
    assert_eq!(FileAgentRepository::new("/").base_path(), "");
    assert_eq!(FileAgentRepository::new("").base_path(), "");
    assert_eq!(FileAgentRepository::new("/a/b").base_path(), "/a/b");
}

#[test]
fn definition_paths_lie_below_the_base() {
    let repo = FileAgentRepository::new("./config/");
    assert_eq!(repo.agent_path("helper"), "./config/agents/helper.yaml");
    assert_eq!(repo.tool_path("weather"), "./config/tools/weather.yaml");
    assert_eq!(repo.agents_pattern(), "./config/agents/*.yaml");
    assert_eq!(repo.tools_pattern(), "./config/tools/*.yaml");
}

#[test]
fn missing_file_is_a_not_found_error() {
    match missing_definition("Agent", "./config/agents/x.yaml") {
        AppError::NotFound(m) => assert_eq!(m, "Agent file not found: ./config/agents/x.yaml"),
        other => panic!("unexpected error {:?}", other),
    }
}

#[test]
fn malformed_file_is_a_parse_error() {
    match malformed_definition("./config/tools/x.yaml", "missing field `id`") {
        AppError::ParseError(m) => {
            assert_eq!(m, "YAML Error in ./config/tools/x.yaml: missing field `id`")
        }
        other => panic!("unexpected error {:?}", other),
    }
}

#[test]
fn loaded_definitions_are_kept_in_order() {
    assert_eq!(keep_loaded(vec![Some(1), None, Some(2), None, None, Some(3)]), vec![1, 2, 3]);
    assert_eq!(keep_loaded(vec![None::<u8>, None]), Vec::<u8>::new());
    assert_eq!(keep_loaded(Vec::<Option<u8>>::new()), Vec::<u8>::new());
    assert_eq!(keep_loaded(vec![Some("a"), Some("b")]), vec!["a", "b"]);
}
