//! Laws of the executor: properties that relate planning a query,
//! performing the planned command, and rendering the outcome.

use vstd::prelude::*;

use crate::ast::{ASTNode, Keywords, Value, Verbs};
use crate::engine::{
    bad_permission_msg, field_present, is_query_err, ok_header, respond_post, run_ast_post,
    scan_spec, Command, Core, Outcome,
};
use crate::permission::permission_of;
use crate::response::{Error, ErrorCode, Response, Status, TransactionError};

verus! {

/// The dispatch table: the (node shape, keyword, verb) combinations that
/// denote an operation.
pub open spec fn in_dispatch_table(ast: ASTNode) -> bool {
    match ast {
        ASTNode::IntoExpression { keyword, .. } => keyword == Keywords::Insert || keyword
            == Keywords::Update,
        ASTNode::MonadicExpression { keyword, verb, .. } => (keyword == Keywords::Insert && verb
            == Verbs::User) || (keyword == Keywords::Update && verb == Verbs::User) || keyword
            == Keywords::Delete,
        ASTNode::SingleExpression { keyword, .. } => keyword == Keywords::Get || keyword
            == Keywords::Delete || keyword == Keywords::List,
        _ => false,
    }
}

/// Shape validation: for every (node shape, keyword, verb) combination
/// outside the dispatch table, planning rejects the query with status
/// `InvalidQuery` — no command is produced, so the storage interface is
/// never reached.
pub proof fn lemma_shape_validation(core: Core, ast: ASTNode, r: Result<Command, Error>)
    requires
        run_ast_post(core, ast, r),
        !in_dispatch_table(ast),
    ensures
        r matches Err(e) && e.status == Status::InvalidQuery && e.query_message is None,
{
}

/// Insert round-trip: inserting a document at an identifier plans exactly
/// `insert(key, value)`, and a plain success from storage renders as an
/// empty-body response with status `Success`.
pub proof fn lemma_insert_round_trip(
    core: Core,
    ast: ASTNode,
    key: String,
    doc: Value,
    r: Result<Command, Error>,
    resp: Result<Response, Error>,
)
    requires
        (ast matches ASTNode::IntoExpression { keyword, value, target } && keyword
            == Keywords::Insert && *value == ASTNode::Literal(doc) && *target
            == ASTNode::Identifier(key)),
        run_ast_post(core, ast, r),
        respond_post(Result::Ok(Outcome::Done), resp),
    ensures
        r == Result::<Command, Error>::Ok(Command::Insert { key, value: doc }),
        resp == Result::<Response, Error>::Ok(Response { body: None, header: ok_header() }),
{
}

/// Get-not-found: a storage failure with internal code `NotFound` renders as
/// an error with status `NotFound` and message "not found".
pub proof fn lemma_get_not_found(resp: Result<Response, Error>)
    requires
        respond_post(
            Result::Err(TransactionError::InternalError(ErrorCode::NotFound)),
            resp,
        ),
    ensures
        resp matches Err(e) && e.status == Status::NotFound && e.message@ == "not found"@,
{
}

/// User creation requires all three fields: when the argument list scans
/// cleanly but leaves the username, password or permission missing or empty,
/// planning rejects the query and no command reaches storage.
pub proof fn lemma_user_insert_requires_fields(
    core: Core,
    ast: ASTNode,
    nodes: Vec<ASTNode>,
    r: Result<Command, Error>,
)
    requires
        ast == (ASTNode::MonadicExpression {
            keyword: Keywords::Insert,
            verb: Verbs::User,
            args: Some(nodes),
        }),
        run_ast_post(core, ast, r),
        (match scan_spec(nodes@, true) {
            Result::Ok(f) => !(field_present(f.username) && field_present(f.password)
                && field_present(f.permission)),
            Result::Err(_) => false,
        }),
    ensures
        is_query_err(r, "username, password, and permission are required"@),
{
}

/// Invalid permission string: when user creation supplies all three fields
/// but the permission string parses to no level, planning rejects the query
/// with the message naming the four valid levels.
pub proof fn lemma_invalid_permission_rejected(
    core: Core,
    ast: ASTNode,
    nodes: Vec<ASTNode>,
    r: Result<Command, Error>,
)
    requires
        ast == (ASTNode::MonadicExpression {
            keyword: Keywords::Insert,
            verb: Verbs::User,
            args: Some(nodes),
        }),
        run_ast_post(core, ast, r),
        (match scan_spec(nodes@, true) {
            Result::Ok(f) => field_present(f.username) && field_present(f.password)
                && field_present(f.permission) && permission_of(f.permission->0@) is None,
            Result::Err(_) => false,
        }),
    ensures
        is_query_err(r, bad_permission_msg()),
{
}

/// Database delete defaults to current: deleting a database without naming
/// one plans the deletion of the session's current database, never of an
/// empty name.
pub proof fn lemma_database_delete_defaults_to_current(
    core: Core,
    ast: ASTNode,
    r: Result<Command, Error>,
)
    requires
        ast == (ASTNode::MonadicExpression {
            keyword: Keywords::Delete,
            verb: Verbs::Database,
            args: None,
        }),
        run_ast_post(core, ast, r),
    ensures
        r == Result::<Command, Error>::Ok(
            Command::DeleteDatabase { database: core.current_database },
        ),
{
}

/// List produces all keys: a list expression plans the key listing, and the
/// keys storage reports come back as the response body, one string value per
/// key, in storage order.
pub proof fn lemma_list_produces_all_keys(
    core: Core,
    ast: ASTNode,
    keys: Vec<String>,
    r: Result<Command, Error>,
    resp: Result<Response, Error>,
)
    requires
        ast == (ASTNode::SingleExpression { keyword: Keywords::List, target: None }),
        run_ast_post(core, ast, r),
        respond_post(Result::Ok(Outcome::Keys(keys)), resp),
    ensures
        r == Result::<Command, Error>::Ok(Command::ListKeys),
        ({
            &&& resp matches Ok(response)
            &&& response.header == ok_header()
            &&& response.body matches Some(b)
            &&& b matches Value::Array(items)
            &&& items@.len() == keys@.len()
            &&& forall|i: int| 0 <= i < keys@.len() ==> items@[i] == Value::Str(keys@[i])
        }),
{
}

} // verus!
