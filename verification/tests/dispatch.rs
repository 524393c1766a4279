//! Shape validation: combinations outside the dispatch table are rejected.

use rustbase_core::ast::{ASTNode, Keywords, Value, Verbs};
use rustbase_core::engine::Core;
use rustbase_core::response::{Error, Status};

fn session() -> Core {
    Core::new("main".to_string(), Some("admin".to_string()))
}

fn invalid_query(message: &str) -> Error {
    Error {
        message: message.to_string(),
        query_message: None,
        status: Status::InvalidQuery,
    }
}

#[test]
fn top_level_literal_is_rejected() {
    let r = session().run_ast(ASTNode::Literal(Value::Null));
    assert_eq!(r, Err(invalid_query("Invalid query")));
}

#[test]
fn top_level_identifier_is_rejected() {
    let r = session().run_ast(ASTNode::Identifier("k".to_string()));
    assert_eq!(r, Err(invalid_query("Invalid query")));
}

#[test]
fn top_level_assignment_is_rejected() {
    let r = session().run_ast(ASTNode::AssignmentExpression {
        field_name: "password".to_string(),
        value: Box::new(ASTNode::Literal(Value::Str("x".to_string()))),
    });
    assert_eq!(r, Err(invalid_query("Invalid query")));
}

#[test]
fn delete_keyword_is_rejected_for_into_expression() {
    let r = session().run_ast(ASTNode::IntoExpression {
        keyword: Keywords::Delete,
        value: Box::new(ASTNode::Literal(Value::Null)),
        target: Box::new(ASTNode::Identifier("k".to_string())),
    });
    assert_eq!(r, Err(invalid_query("Delete is unexpected for into expression")));
}

#[test]
fn get_keyword_is_rejected_for_into_expression() {
    let r = session().run_ast(ASTNode::IntoExpression {
        keyword: Keywords::Get,
        value: Box::new(ASTNode::Literal(Value::Null)),
        target: Box::new(ASTNode::Identifier("k".to_string())),
    });
    assert_eq!(r, Err(invalid_query("Get is unexpected for into expression")));
}

#[test]
fn list_keyword_is_rejected_for_into_expression() {
    let r = session().run_ast(ASTNode::IntoExpression {
        keyword: Keywords::List,
        value: Box::new(ASTNode::Literal(Value::Null)),
        target: Box::new(ASTNode::Identifier("k".to_string())),
    });
    assert_eq!(r, Err(invalid_query("List is unexpected for into expression")));
}

#[test]
fn database_verb_is_rejected_for_insert_expression() {
    let r = session().run_ast(ASTNode::MonadicExpression {
        keyword: Keywords::Insert,
        verb: Verbs::Database,
        args: None,
    });
    assert_eq!(r, Err(invalid_query("Database is unexpected for insert expression")));
}

#[test]
fn database_verb_is_rejected_for_update_expression() {
    let r = session().run_ast(ASTNode::MonadicExpression {
        keyword: Keywords::Update,
        verb: Verbs::Database,
        args: None,
    });
    assert_eq!(r, Err(invalid_query("Database is unexpected for update expression")));
}

#[test]
fn get_keyword_is_rejected_for_monadic_expression() {
    let r = session().run_ast(ASTNode::MonadicExpression {
        keyword: Keywords::Get,
        verb: Verbs::User,
        args: None,
    });
    assert_eq!(r, Err(invalid_query("Get is unexpected for monadic expression")));
}

#[test]
fn list_keyword_is_rejected_for_monadic_expression() {
    let r = session().run_ast(ASTNode::MonadicExpression {
        keyword: Keywords::List,
        verb: Verbs::Database,
        args: None,
    });
    assert_eq!(r, Err(invalid_query("List is unexpected for monadic expression")));
}

#[test]
fn insert_keyword_is_rejected_for_single_expression() {
    let r = session().run_ast(ASTNode::SingleExpression {
        keyword: Keywords::Insert,
        target: Some(Box::new(ASTNode::Identifier("k".to_string()))),
    });
    assert_eq!(r, Err(invalid_query("Insert is unexpected for single expression")));
}

#[test]
fn update_keyword_is_rejected_for_single_expression() {
    let r = session().run_ast(ASTNode::SingleExpression {
        keyword: Keywords::Update,
        target: None,
    });
    assert_eq!(r, Err(invalid_query("Update is unexpected for single expression")));
}
