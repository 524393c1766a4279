//! Administrative operations on databases.

use rustbase_core::ast::{ASTNode, Keywords, Verbs};
use rustbase_core::engine::{Command, Core};
use rustbase_core::response::Status;

fn database_delete(args: Option<Vec<ASTNode>>) -> ASTNode {
    ASTNode::MonadicExpression { keyword: Keywords::Delete, verb: Verbs::Database, args }
}

#[test]
fn delete_a_named_database() {
    let core = Core::new("main".to_string(), None);
    let r = core.run_ast(database_delete(Some(vec![ASTNode::Identifier(
        "archive".to_string(),
    )])));
    assert_eq!(r, Ok(Command::DeleteDatabase { database: "archive".to_string() }));
}

#[test]
fn delete_defaults_to_the_current_database() {
    let core = Core::new("sessiondb".to_string(), None);
    let r = core.run_ast(database_delete(None));
    assert_eq!(r, Ok(Command::DeleteDatabase { database: "sessiondb".to_string() }));
}

#[test]
fn delete_with_empty_arguments_targets_the_current_database() {
    let core = Core::new("sessiondb".to_string(), None);
    let r = core.run_ast(database_delete(Some(Vec::new())));
    assert_eq!(r, Ok(Command::DeleteDatabase { database: "sessiondb".to_string() }));
}

#[test]
fn delete_with_non_identifier_argument_is_rejected() {
    let core = Core::new("main".to_string(), None);
    let r = core.run_ast(database_delete(Some(vec![ASTNode::Literal(
        rustbase_core::ast::Value::Int(1),
    )])));
    let e = r.unwrap_err();
    assert_eq!(e.status, Status::InvalidQuery);
    assert_eq!(e.message, "database name must be an identifier");
}
