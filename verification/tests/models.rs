use agent_core::dtos::{new_user, user_dto, user_dtos, CreateUserRequest};
use agent_core::errors::AppError;
use agent_core::models::{
    CliToolConfig, CypherToolConfig, HttpToolConfig, MessageRole, ToolType, User, UserRole,
};

#[test]
fn roles_have_their_names() {
    assert_eq!(UserRole::Admin.label(), "Admin");
    assert_eq!(UserRole::User.label(), "User");
    assert_eq!(MessageRole::User.to_string(), "user");
    assert_eq!(MessageRole::Assistant.to_string(), "assistant");
    assert_eq!(MessageRole::System.to_string(), "system");
}

#[test]
fn only_graph_tools_need_the_repository() {
    assert!(ToolType::Cypher(CypherToolConfig {}).requires_graph_access());
    assert!(!ToolType::Cli(CliToolConfig { command: "ls".to_string() }).requires_graph_access());
    let http = HttpToolConfig {
        method: "GET".to_string(),
        url: "u".to_string(),
        headers: Some(vec![("a".to_string(), "b".to_string())]),
        body_template: None,
    };
    assert!(!ToolType::Http(http).requires_graph_access());
}

#[test]
fn errors_have_their_texts() {
    assert_eq!(AppError::DatabaseError("x".to_string()).message(), "Database error: x");
    assert_eq!(AppError::AIError("x".to_string()).message(), "AI Provider error: x");
    assert_eq!(AppError::ConfigError("x".to_string()).message(), "Configuration error: x");
    assert_eq!(AppError::ValidationError("x".to_string()).message(), "Validation error: x");
    assert_eq!(AppError::ParseError("x".to_string()).message(), "Parsing error: x");
    assert_eq!(AppError::NotFound("x".to_string()).message(), "Not found: x");
    assert_eq!(AppError::SafetyGuardError.message(), "Admin operation requires force flag");
}

#[test]
fn errors_are_reported_with_their_status() {
    assert_eq!(AppError::ValidationError("x".to_string()).status_code(), 400);
    assert_eq!(AppError::SafetyGuardError.status_code(), 403);
    assert_eq!(AppError::NotFound("x".to_string()).status_code(), 404);
    assert_eq!(AppError::ConfigError("x".to_string()).status_code(), 500);
    assert_eq!(AppError::ParseError("x".to_string()).status_code(), 500);
    assert_eq!(AppError::DatabaseError("x".to_string()).status_code(), 500);
    assert_eq!(AppError::AIError("x".to_string()).status_code(), 502);
}

#[test]
fn inner_failures_are_not_shown_to_the_caller() {
    assert_eq!(AppError::DatabaseError("secret".to_string()).public_message(), "Internal Server Error");
    assert_eq!(AppError::AIError("secret".to_string()).public_message(), "Error de comunicación con IA");
    assert_eq!(AppError::ParseError("secret".to_string()).public_message(), "Error procesando datos");
}

#[test]
fn caller_faults_are_shown_in_full() {
    assert_eq!(AppError::ValidationError("x".to_string()).public_message(), "Validation error: x");
    assert_eq!(AppError::ConfigError("x".to_string()).public_message(), "Configuration error: x");
    assert_eq!(AppError::NotFound("x".to_string()).public_message(), "Not found: x");
    assert_eq!(AppError::SafetyGuardError.public_message(), "Admin operation requires force flag");
}

fn signup(username: &str, password: &str) -> CreateUserRequest {
    CreateUserRequest {
        username: username.to_string(),
        password: password.to_string(),
        role: UserRole::User,
    }
}

#[test]
fn user_request_is_checked_for_lengths() {
    assert!(signup("ana", "secret").validate().is_ok());
    assert!(signup("ñañ", "séçrét").validate().is_ok());
    match signup("an", "secret").validate() {
        Err(AppError::ValidationError(m)) => assert_eq!(m, "Username must be at least 3 chars"),
        other => panic!("unexpected result {:?}", other),
    }
    match signup("ana", "secre").validate() {
        Err(AppError::ValidationError(m)) => assert_eq!(m, "Password must be at least 6 chars"),
        other => panic!("unexpected result {:?}", other),
    }
    match signup("", "").validate() {
        Err(AppError::ValidationError(m)) => assert_eq!(m, "Username must be at least 3 chars"),
        other => panic!("unexpected result {:?}", other),
    }
}

#[test]
fn users_are_shown_without_their_hash() {
    let u = User {
        id: "7".to_string(),
        username: "ana".to_string(),
        password_hash: "h".to_string(),
        role: UserRole::Admin,
    };
    let d = user_dto(&u);
    assert_eq!((d.id.as_str(), d.username.as_str(), d.role.as_str()), ("7", "ana", "Admin"));
    let all = user_dtos(&vec![u.clone(), User { role: UserRole::User, ..u }]);
    assert_eq!(all.len(), 2);
    assert_eq!(all[1].role, "User");
    assert!(user_dtos(&vec![]).is_empty());
}

#[test]
fn new_user_takes_the_request_and_the_hash() {
    let u = new_user("id-1".to_string(), signup("ana", "secret"), "hash".to_string());
    assert_eq!(u.id, "id-1");
    assert_eq!(u.username, "ana");
    assert_eq!(u.password_hash, "hash");
    assert_eq!(u.role, UserRole::User);
}
