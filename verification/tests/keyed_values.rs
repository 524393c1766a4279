//! Key/value operations: insert, update, get, delete and list.

use rustbase_core::ast::{ASTNode, Keywords, Value};
use rustbase_core::engine::{respond, Command, Core, Outcome};
use rustbase_core::response::{Error, ResHeader, Response, Status};

fn session() -> Core {
    Core::new("main".to_string(), None)
}

fn invalid_query(message: &str) -> Error {
    Error {
        message: message.to_string(),
        query_message: None,
        status: Status::InvalidQuery,
    }
}

fn ok_header() -> ResHeader {
    ResHeader { is_error: false, messages: None, status: Status::Success }
}

fn sample_document() -> Value {
    Value::Document(vec![
        ("name".to_string(), Value::Str("peter".to_string())),
        ("age".to_string(), Value::Int(31)),
    ])
}

#[test]
fn insert_plans_exactly_one_insert_command() {
    let r = session().run_ast(ASTNode::IntoExpression {
        keyword: Keywords::Insert,
        value: Box::new(ASTNode::Literal(sample_document())),
        target: Box::new(ASTNode::Identifier("k".to_string())),
    });
    assert_eq!(
        r,
        Ok(Command::Insert { key: "k".to_string(), value: sample_document() })
    );
}

#[test]
fn insert_success_renders_empty_body_response() {
    let resp = respond(Ok(Outcome::Done));
    assert_eq!(resp, Ok(Response { body: None, header: ok_header() }));
}

#[test]
fn insert_key_must_be_an_identifier() {
    let r = session().run_ast(ASTNode::IntoExpression {
        keyword: Keywords::Insert,
        value: Box::new(ASTNode::Literal(sample_document())),
        target: Box::new(ASTNode::Literal(Value::Int(3))),
    });
    assert_eq!(r, Err(invalid_query("key must be an identifier")));
}

#[test]
fn insert_value_must_be_a_document_literal() {
    let r = session().run_ast(ASTNode::IntoExpression {
        keyword: Keywords::Insert,
        value: Box::new(ASTNode::Identifier("other".to_string())),
        target: Box::new(ASTNode::Identifier("k".to_string())),
    });
    assert_eq!(r, Err(invalid_query("value must be a json object")));
}

#[test]
fn update_plans_exactly_one_update_command() {
    let r = session().run_ast(ASTNode::IntoExpression {
        keyword: Keywords::Update,
        value: Box::new(ASTNode::Literal(Value::Bool(true))),
        target: Box::new(ASTNode::Identifier("flag".to_string())),
    });
    assert_eq!(
        r,
        Ok(Command::Update { key: "flag".to_string(), value: Value::Bool(true) })
    );
}

#[test]
fn update_key_must_be_an_identifier() {
    let r = session().run_ast(ASTNode::IntoExpression {
        keyword: Keywords::Update,
        value: Box::new(ASTNode::Literal(Value::Null)),
        target: Box::new(ASTNode::Literal(Value::Null)),
    });
    assert_eq!(r, Err(invalid_query("key must be an identifier")));
}

#[test]
fn get_plans_exactly_one_get_command() {
    let r = session().run_ast(ASTNode::SingleExpression {
        keyword: Keywords::Get,
        target: Some(Box::new(ASTNode::Identifier("k".to_string()))),
    });
    assert_eq!(r, Ok(Command::Get { key: "k".to_string() }));
}

#[test]
fn get_without_target_is_rejected() {
    let r = session().run_ast(ASTNode::SingleExpression { keyword: Keywords::Get, target: None });
    assert_eq!(r, Err(invalid_query("get must have an expression")));
}

#[test]
fn get_with_non_identifier_target_is_rejected() {
    let r = session().run_ast(ASTNode::SingleExpression {
        keyword: Keywords::Get,
        target: Some(Box::new(ASTNode::Literal(Value::Int(1)))),
    });
    assert_eq!(r, Err(invalid_query("get must have an expression")));
}

#[test]
fn get_success_returns_the_stored_value_as_body() {
    let resp = respond(Ok(Outcome::Record(sample_document())));
    assert_eq!(
        resp,
        Ok(Response { body: Some(sample_document()), header: ok_header() })
    );
}

#[test]
fn delete_plans_exactly_one_remove_command() {
    let r = session().run_ast(ASTNode::SingleExpression {
        keyword: Keywords::Delete,
        target: Some(Box::new(ASTNode::Identifier("k".to_string()))),
    });
    assert_eq!(r, Ok(Command::Remove { key: "k".to_string() }));
}

#[test]
fn delete_without_target_is_rejected() {
    let r = session().run_ast(ASTNode::SingleExpression { keyword: Keywords::Delete, target: None });
    assert_eq!(r, Err(invalid_query("delete must have an expression")));
}

#[test]
fn list_plans_the_key_listing() {
    let r = session().run_ast(ASTNode::SingleExpression { keyword: Keywords::List, target: None });
    assert_eq!(r, Ok(Command::ListKeys));
}

#[test]
fn list_produces_all_keys_in_storage_order() {
    let resp = respond(Ok(Outcome::Keys(vec!["a".to_string(), "b".to_string()])));
    assert_eq!(
        resp,
        Ok(Response {
            body: Some(Value::Array(vec![
                Value::Str("a".to_string()),
                Value::Str("b".to_string()),
            ])),
            header: ok_header(),
        })
    );
}

#[test]
fn list_of_no_keys_produces_an_empty_array() {
    let resp = respond(Ok(Outcome::Keys(Vec::new())));
    assert_eq!(
        resp,
        Ok(Response { body: Some(Value::Array(Vec::new())), header: ok_header() })
    );
}
