//! The query executor: shape validation, dispatch, and error translation.
//!
//! [`Core::run_ast`] consumes one AST and either rejects it as an invalid
//! query or plans exactly one storage [`Command`]. The surrounding program
//! performs the command against the storage interface and hands the outcome
//! to [`respond`], which produces the uniform response for the protocol
//! layer.

use vstd::prelude::*;

use crate::ast::{ASTNode, Keywords, Value, Verbs};
use crate::permission::{permission_of, str_eq, UserPermission};
use crate::response::{Error, ErrorCode, ResHeader, Response, Status, TransactionError};

verus! {

/// A fully validated storage operation, ready to be performed against the
/// storage interface.
#[derive(Debug, PartialEq)]
pub enum Command {
    Insert { key: String, value: Value },
    Update { key: String, value: Value },
    Get { key: String },
    Remove { key: String },
    ListKeys,
    CreateUser { username: String, password: String, permission: UserPermission },
    UpdateUser { username: String, password: Option<String>, permission: Option<UserPermission> },
    DeleteUser { username: String },
    DeleteDatabase { database: String },
}

/// What a successful storage call produced: nothing, one stored value, or the
/// keys of the current database.
#[derive(Debug, PartialEq)]
pub enum Outcome {
    Done,
    Record(Value),
    Keys(Vec<String>),
}

/// The session context the executor holds between calls: which database the
/// session addresses and which user, if any, it authenticated as.
#[derive(Debug, Clone)]
pub struct Core {
    pub current_database: String,
    pub current_user: Option<String>,
}

/// True when `r` is the query-shape error carrying `msg`: status
/// `InvalidQuery`, no secondary message.
pub open spec fn is_query_err<T>(r: Result<T, Error>, msg: Seq<char>) -> bool {
    match r {
        Result::Ok(_) => false,
        Result::Err(e) => e.status == Status::InvalidQuery && e.message@ == msg
            && e.query_message is None,
    }
}

/// The fixed translation table from storage error codes to wire status and
/// message.
///
/// Note an open question in the table: `KeyNotExists` (a missing key) shares
/// the `AlreadyExists` wire status with `KeyExists` instead of mapping to
/// `NotFound`. The pairing is kept here deliberately, not assumed to be
/// intended; if the wire protocol is ever to distinguish the two, change
/// this row and [`parse_dd_error_code`] together.
pub open spec fn code_status(code: ErrorCode) -> Status {
    match code {
        ErrorCode::KeyExists => Status::AlreadyExists,
        ErrorCode::KeyNotExists => Status::AlreadyExists,
        ErrorCode::NotFound => Status::NotFound,
    }
}

/// The diagnostic message paired with each storage error code.
pub open spec fn code_message(code: ErrorCode) -> Seq<char> {
    match code {
        ErrorCode::KeyExists => "key already exists"@,
        ErrorCode::KeyNotExists => "key not exists"@,
        ErrorCode::NotFound => "not found"@,
    }
}

/// How a storage-transaction failure is translated: internal codes go through
/// the fixed table, external failures pass through unchanged.
pub open spec fn transaction_err_post(e: TransactionError, r: Result<Response, Error>) -> bool {
    match e {
        TransactionError::InternalError(code) => {
            &&& r matches Err(err)
            &&& err.status == code_status(code)
            &&& err.message@ == code_message(code)
            &&& err.query_message is None
        },
        TransactionError::ExternalError(status, message) => r == Result::<Response, Error>::Err(
            Error { message, query_message: None, status },
        ),
    }
}

/// The header every successful response carries.
pub open spec fn ok_header() -> ResHeader {
    ResHeader { is_error: false, messages: None, status: Status::Success }
}

/// The keys of the current database rendered as the body of a list response:
/// one string value per key, in storage order.
pub open spec fn keys_as_values(ks: Seq<String>, items: Seq<Value>) -> bool {
    items.len() == ks.len() && (forall|i: int|
        0 <= i < ks.len() ==> items[i] == Value::Str(ks[i]))
}

/// How one storage outcome is rendered as a protocol-level result.
pub open spec fn respond_post(
    outcome: Result<Outcome, TransactionError>,
    r: Result<Response, Error>,
) -> bool {
    match outcome {
        Result::Ok(Outcome::Done) => r == Result::<Response, Error>::Ok(
            Response { body: None, header: ok_header() },
        ),
        Result::Ok(Outcome::Record(v)) => r == Result::<Response, Error>::Ok(
            Response { body: Some(v), header: ok_header() },
        ),
        Result::Ok(Outcome::Keys(ks)) => {
            &&& r matches Ok(resp)
            &&& resp.header == ok_header()
            &&& resp.body matches Some(b)
            &&& b matches Value::Array(items)
            &&& keys_as_values(ks@, items@)
        },
        Result::Err(e) => transaction_err_post(e, r),
    }
}

/// A query-shape error: status `InvalidQuery` with the given message.
fn query_error(msg: &str) -> (e: Error)
    ensures
        e.status == Status::InvalidQuery,
        e.message@ == msg@,
        e.query_message is None,
{
    Error { message: String::from_str(msg), query_message: None, status: Status::InvalidQuery }
}

/// Map one storage error code to its wire status and diagnostic message.
/// `KeyNotExists` keeps its surprising `AlreadyExists` status: see the note
/// on [`code_status`], the table this function realizes.
pub fn parse_dd_error_code(code: ErrorCode) -> (r: (Status, String))
    ensures
        r.0 == code_status(code),
        r.1@ == code_message(code),
{
    match code {
        ErrorCode::KeyExists => (Status::AlreadyExists, String::from_str("key already exists")),
        ErrorCode::KeyNotExists => (Status::AlreadyExists, String::from_str("key not exists")),
        ErrorCode::NotFound => (Status::NotFound, String::from_str("not found")),
    }
}

/// Translate a storage-transaction failure into the uniform error shape. This
/// is the single funnel for every operation's failure path.
pub fn dd_error(error: TransactionError) -> (r: Result<Response, Error>)
    ensures
        transaction_err_post(error, r),
        r is Err,
{
    match error {
        TransactionError::InternalError(code) => {
            let pair = parse_dd_error_code(code);
            Err(Error { message: pair.1, status: pair.0, query_message: None })
        },
        TransactionError::ExternalError(status, message) => Err(
            Error { message, status, query_message: None },
        ),
    }
}

/// Render the outcome of a performed command as the protocol-level result:
/// an empty-body `Ok` for plain success, the stored value for a get, the key
/// list for a list, and the translated error for any failure.
pub fn respond(outcome: Result<Outcome, TransactionError>) -> (r: Result<Response, Error>)
    ensures
        respond_post(outcome, r),
{
    match outcome {
        Ok(Outcome::Done) => Ok(Response { body: None, header: ok_response_header() }),
        Ok(Outcome::Record(v)) => Ok(Response { body: Some(v), header: ok_response_header() }),
        Ok(Outcome::Keys(ks)) => {
            let mut items: Vec<Value> = Vec::new();
            let mut i: usize = 0;
            while i < ks.len()
                invariant
                    i <= ks.len(),
                    items@.len() == i as int,
                    forall|j: int| 0 <= j < i as int ==> items@[j] == Value::Str(ks@[j]),
                decreases ks.len() - i,
            {
                items.push(Value::Str(ks[i].clone()));
                i += 1;
            }
            Ok(Response { body: Some(Value::Array(items)), header: ok_response_header() })
        },
        Err(e) => dd_error(e),
    }
}

/// The fields recognized while scanning an administrative argument list: at
/// most one bare identifier (the username) and the `password` and
/// `permission` assignments.
#[derive(Debug, PartialEq)]
pub struct UserArgs {
    pub username: Option<String>,
    pub password: Option<String>,
    pub permission: Option<String>,
}

/// How one argument node changes the recognized fields. A later node
/// overrides an earlier one; an assignment whose value is anything but a
/// string literal is a hard error in `strict` mode (user creation) and
/// otherwise (user update) treats the field as absent, clearing it; any
/// other field name or node kind is ignored.
pub open spec fn scan_step(f: UserArgs, node: ASTNode, strict: bool) -> Result<UserArgs, Seq<
    char,
>> {
    match node {
        ASTNode::Identifier(name) => Ok(
            UserArgs { username: Some(name), password: f.password, permission: f.permission },
        ),
        ASTNode::AssignmentExpression { field_name, value } => {
            if field_name@ == "password"@ {
                match *value {
                    ASTNode::Literal(Value::Str(s)) => Ok(
                        UserArgs {
                            username: f.username,
                            password: Some(s),
                            permission: f.permission,
                        },
                    ),
                    _ => if strict {
                        Err("password must be a string"@)
                    } else {
                        Ok(
                            UserArgs {
                                username: f.username,
                                password: None,
                                permission: f.permission,
                            },
                        )
                    },
                }
            } else if field_name@ == "permission"@ {
                match *value {
                    ASTNode::Literal(Value::Str(s)) => Ok(
                        UserArgs {
                            username: f.username,
                            password: f.password,
                            permission: Some(s),
                        },
                    ),
                    _ => if strict {
                        Err("permission must be a string"@)
                    } else {
                        Ok(
                            UserArgs {
                                username: f.username,
                                password: f.password,
                                permission: None,
                            },
                        )
                    },
                }
            } else {
                Ok(f)
            }
        },
        _ => Ok(f),
    }
}

/// The left-to-right scan of an administrative argument list: the fields the
/// whole list leaves recognized, or the error of its leftmost offending node.
pub open spec fn scan_spec(nodes: Seq<ASTNode>, strict: bool) -> Result<UserArgs, Seq<char>>
    decreases nodes.len(),
{
    if nodes.len() == 0 {
        Ok(UserArgs { username: None, password: None, permission: None })
    } else {
        match scan_spec(nodes.drop_last(), strict) {
            Ok(f) => scan_step(f, nodes.last(), strict),
            Err(m) => Err(m),
        }
    }
}

/// Once the scan of a prefix fails, the scan of the whole list fails with the
/// same message: later nodes are never reached.
proof fn lemma_scan_err_propagates(nodes: Seq<ASTNode>, strict: bool, i: int, m: Seq<char>)
    requires
        0 <= i < nodes.len(),
        scan_spec(nodes.subrange(0, i + 1), strict) == Result::<UserArgs, Seq<char>>::Err(m),
    ensures
        scan_spec(nodes, strict) == Result::<UserArgs, Seq<char>>::Err(m),
    decreases nodes.len() - i,
{
    if i + 1 == nodes.len() {
        assert(nodes.subrange(0, i + 1) =~= nodes);
    } else {
        assert(nodes.subrange(0, i + 2).drop_last() =~= nodes.subrange(0, i + 1));
        lemma_scan_err_propagates(nodes, strict, i + 1, m);
    }
}

/// The relation [`scan_user_args`] establishes between an argument list and
/// its result.
pub open spec fn scan_post(
    nodes: Seq<ASTNode>,
    strict: bool,
    r: Result<UserArgs, Error>,
) -> bool {
    match scan_spec(nodes, strict) {
        Ok(f) => r == Result::<UserArgs, Error>::Ok(f),
        Err(m) => is_query_err(r, m),
    }
}

/// Scan an administrative argument list once, left to right, extracting the
/// username and the `password`/`permission` assignments as [`scan_spec`]
/// describes.
fn scan_user_args(args: &Vec<ASTNode>, strict: bool) -> (r: Result<UserArgs, Error>)
    ensures
        scan_post(args@, strict, r),
{
    let mut fields = UserArgs { username: None, password: None, permission: None };
    let mut i: usize = 0;
    while i < args.len()
        invariant
            i <= args.len(),
            scan_spec(args@.subrange(0, i as int), strict) == Result::<UserArgs, Seq<char>>::Ok(
                fields,
            ),
        decreases args.len() - i,
    {
        let ghost prefix = args@.subrange(0, i as int);
        match &args[i] {
            ASTNode::Identifier(name) => {
                fields.username = Some(name.clone());
            },
            ASTNode::AssignmentExpression { field_name, value } => {
                if str_eq(field_name.as_str(), "password") {
                    match &**value {
                        ASTNode::Literal(Value::Str(s)) => {
                            fields.password = Some(s.clone());
                        },
                        _ => {
                            if strict {
                                proof {
                                    step_err(args@, strict, i as int, fields);
                                }
                                return Err(query_error("password must be a string"));
                            } else {
                                fields.password = None;
                            }
                        },
                    }
                } else if str_eq(field_name.as_str(), "permission") {
                    match &**value {
                        ASTNode::Literal(Value::Str(s)) => {
                            fields.permission = Some(s.clone());
                        },
                        _ => {
                            if strict {
                                proof {
                                    step_err(args@, strict, i as int, fields);
                                }
                                return Err(query_error("permission must be a string"));
                            } else {
                                fields.permission = None;
                            }
                        },
                    }
                }
            },
            _ => {},
        }
        proof {
            assert(args@.subrange(0, i + 1 as int).drop_last() =~= prefix);
            assert(args@.subrange(0, i + 1 as int).last() == args@[i as int]);
        }
        i += 1;
    }
    proof {
        assert(args@.subrange(0, i as int) =~= args@);
    }
    Ok(fields)
}

/// The scan of the whole list fails with the message `scan_step` gives for
/// node `i`, when the scan up to `i` had recognized `fields`.
proof fn step_err(nodes: Seq<ASTNode>, strict: bool, i: int, fields: UserArgs)
    requires
        0 <= i < nodes.len(),
        scan_spec(nodes.subrange(0, i), strict) == Result::<UserArgs, Seq<char>>::Ok(fields),
        scan_step(fields, nodes[i], strict) is Err,
    ensures
        scan_spec(nodes, strict) == Result::<UserArgs, Seq<char>>::Err(
            scan_step(fields, nodes[i], strict)->Err_0,
        ),
{
    assert(nodes.subrange(0, i + 1).drop_last() =~= nodes.subrange(0, i));
    assert(nodes.subrange(0, i + 1).last() == nodes[i]);
    lemma_scan_err_propagates(nodes, strict, i, scan_step(fields, nodes[i], strict)->Err_0);
}

/// True when the field was supplied and is not the empty string.
pub open spec fn field_present(s: Option<String>) -> bool {
    s matches Some(x) && x@.len() > 0
}

/// The message naming the four valid permission levels.
pub open spec fn bad_permission_msg() -> Seq<char> {
    "permission must be 'read' or 'write', 'read_and_write', or 'admin'"@
}

/// What planning a user creation returns: every field validated as
/// [`scan_spec`] describes, all three fields required non-empty, and the
/// permission string parsed into a level.
pub open spec fn user_insert_post(args: Option<Vec<ASTNode>>, r: Result<Command, Error>) -> bool {
    match args {
        None => is_query_err(r, "user insert must have an expression"@),
        Some(nodes) => match scan_spec(nodes@, true) {
            Err(m) => is_query_err(r, m),
            Ok(f) => {
                if !(field_present(f.username) && field_present(f.password) && field_present(
                    f.permission,
                )) {
                    is_query_err(r, "username, password, and permission are required"@)
                } else {
                    match permission_of(f.permission->0@) {
                        None => is_query_err(r, bad_permission_msg()),
                        Some(level) => r == Result::<Command, Error>::Ok(
                            Command::CreateUser {
                                username: f.username->0,
                                password: f.password->0,
                                permission: level,
                            },
                        ),
                    }
                }
            },
        },
    }
}

/// What planning a user update returns: the username required, the password
/// forwarded only if supplied, and a supplied permission string parsed into a
/// level.
pub open spec fn user_update_post(args: Option<Vec<ASTNode>>, r: Result<Command, Error>) -> bool {
    match args {
        None => is_query_err(r, "user update must have an expression"@),
        Some(nodes) => match scan_spec(nodes@, false) {
            Err(m) => is_query_err(r, m),
            Ok(f) => {
                if !field_present(f.username) {
                    is_query_err(r, "username is required"@)
                } else {
                    match f.permission {
                        None => r == Result::<Command, Error>::Ok(
                            Command::UpdateUser {
                                username: f.username->0,
                                password: f.password,
                                permission: None,
                            },
                        ),
                        Some(m) => match permission_of(m@) {
                            None => is_query_err(r, bad_permission_msg()),
                            Some(level) => r == Result::<Command, Error>::Ok(
                                Command::UpdateUser {
                                    username: f.username->0,
                                    password: f.password,
                                    permission: Some(level),
                                },
                            ),
                        },
                    }
                }
            },
        },
    }
}

/// What planning a user deletion returns: the argument list must hold a
/// leading identifier, the username.
pub open spec fn user_delete_post(args: Option<Vec<ASTNode>>, r: Result<Command, Error>) -> bool {
    match args {
        None => is_query_err(r, "user delete must have an expression"@),
        Some(nodes) => {
            if nodes@.len() == 0 {
                is_query_err(r, "user delete must have an expression"@)
            } else {
                match nodes@[0] {
                    ASTNode::Identifier(name) => r == Result::<Command, Error>::Ok(
                        Command::DeleteUser { username: name },
                    ),
                    _ => is_query_err(r, "user delete must have an expression"@),
                }
            }
        },
    }
}

/// What planning a database deletion returns: a supplied identifier names the
/// target, otherwise the session's current database is used.
pub open spec fn database_delete_post(
    current: String,
    args: Option<Vec<ASTNode>>,
    r: Result<Command, Error>,
) -> bool {
    match args {
        None => r == Result::<Command, Error>::Ok(Command::DeleteDatabase { database: current }),
        Some(nodes) => {
            if nodes@.len() == 0 {
                r == Result::<Command, Error>::Ok(Command::DeleteDatabase { database: current })
            } else {
                match nodes@[0] {
                    ASTNode::Identifier(name) => r == Result::<Command, Error>::Ok(
                        Command::DeleteDatabase { database: name },
                    ),
                    _ => is_query_err(r, "database name must be an identifier"@),
                }
            }
        },
    }
}

/// What planning an insert or update of a keyed value returns: the target
/// must be an identifier (the key) and the value a structured document
/// literal.
pub open spec fn into_post(
    is_update: bool,
    value: ASTNode,
    target: ASTNode,
    r: Result<Command, Error>,
) -> bool {
    match target {
        ASTNode::Identifier(key) => match value {
            ASTNode::Literal(doc) => r == Result::<Command, Error>::Ok(
                if is_update {
                    Command::Update { key, value: doc }
                } else {
                    Command::Insert { key, value: doc }
                },
            ),
            _ => is_query_err(r, "value must be a json object"@),
        },
        _ => is_query_err(r, "key must be an identifier"@),
    }
}

/// What planning a get returns: the target must be an identifier, the key.
pub open spec fn sgl_get_post(target: Option<Box<ASTNode>>, r: Result<Command, Error>) -> bool {
    match target {
        Some(node) => match *node {
            ASTNode::Identifier(key) => r == Result::<Command, Error>::Ok(Command::Get { key }),
            _ => is_query_err(r, "get must have an expression"@),
        },
        None => is_query_err(r, "get must have an expression"@),
    }
}

/// What planning a keyed-value deletion returns: the target must be an
/// identifier, the key.
pub open spec fn sgl_delete_post(target: Option<Box<ASTNode>>, r: Result<Command, Error>) -> bool {
    match target {
        Some(node) => match *node {
            ASTNode::Identifier(key) => r == Result::<Command, Error>::Ok(Command::Remove { key }),
            _ => is_query_err(r, "delete must have an expression"@),
        },
        None => is_query_err(r, "delete must have an expression"@),
    }
}

/// Dispatch of an into expression over its keyword.
pub open spec fn into_dispatch_post(
    keyword: Keywords,
    value: ASTNode,
    target: ASTNode,
    r: Result<Command, Error>,
) -> bool {
    match keyword {
        Keywords::Insert => into_post(false, value, target, r),
        Keywords::Update => into_post(true, value, target, r),
        Keywords::Delete => is_query_err(r, "Delete is unexpected for into expression"@),
        Keywords::Get => is_query_err(r, "Get is unexpected for into expression"@),
        Keywords::List => is_query_err(r, "List is unexpected for into expression"@),
    }
}

/// Dispatch of a monadic expression over its keyword and verb.
pub open spec fn monadic_post(
    keyword: Keywords,
    verb: Verbs,
    args: Option<Vec<ASTNode>>,
    current: String,
    r: Result<Command, Error>,
) -> bool {
    match keyword {
        Keywords::Insert => match verb {
            Verbs::User => user_insert_post(args, r),
            Verbs::Database => is_query_err(r, "Database is unexpected for insert expression"@),
        },
        Keywords::Update => match verb {
            Verbs::User => user_update_post(args, r),
            Verbs::Database => is_query_err(r, "Database is unexpected for update expression"@),
        },
        Keywords::Delete => match verb {
            Verbs::User => user_delete_post(args, r),
            Verbs::Database => database_delete_post(current, args, r),
        },
        Keywords::Get => is_query_err(r, "Get is unexpected for monadic expression"@),
        Keywords::List => is_query_err(r, "List is unexpected for monadic expression"@),
    }
}

/// Dispatch of a single expression over its keyword.
pub open spec fn sgl_post(
    keyword: Keywords,
    target: Option<Box<ASTNode>>,
    r: Result<Command, Error>,
) -> bool {
    match keyword {
        Keywords::Get => sgl_get_post(target, r),
        Keywords::Delete => sgl_delete_post(target, r),
        Keywords::List => r == Result::<Command, Error>::Ok(Command::ListKeys),
        Keywords::Insert => is_query_err(r, "Insert is unexpected for single expression"@),
        Keywords::Update => is_query_err(r, "Update is unexpected for single expression"@),
    }
}

/// The whole planning contract of [`Core::run_ast`]: a two/three-level
/// dispatch on node shape, then keyword, then verb, with every combination
/// outside the dispatch table rejected as an invalid query.
pub open spec fn run_ast_post(core: Core, ast: ASTNode, r: Result<Command, Error>) -> bool {
    match ast {
        ASTNode::IntoExpression { keyword, value, target } => into_dispatch_post(
            keyword,
            *value,
            *target,
            r,
        ),
        ASTNode::MonadicExpression { keyword, verb, args } => monadic_post(
            keyword,
            verb,
            args,
            core.current_database,
            r,
        ),
        ASTNode::SingleExpression { keyword, target } => sgl_post(keyword, target, r),
        _ => is_query_err(r, "Invalid query"@),
    }
}

impl Core {
    /// A session's executor: the database it addresses and the user it
    /// authenticated as, fixed at construction.
    pub fn new(current_database: String, current_user: Option<String>) -> (c: Core)
        ensures
            c.current_database == current_database,
            c.current_user == current_user,
    {
        Core { current_database, current_user }
    }

    /// Take one parsed query and either reject it as an invalid query or plan
    /// the single storage command it denotes, as [`run_ast_post`] describes.
    pub fn run_ast(&self, ast: ASTNode) -> (r: Result<Command, Error>)
        ensures
            run_ast_post(*self, ast, r),
    {
        match ast {
            ASTNode::IntoExpression { keyword, value, target } => self.expr_into(
                keyword,
                *value,
                *target,
            ),
            ASTNode::MonadicExpression { keyword, verb, args } => self.monadic_expr(
                keyword,
                verb,
                args,
            ),
            ASTNode::SingleExpression { keyword, target } => self.sgl_expr(keyword, target),
            _ => Err(query_error("Invalid query")),
        }
    }

    /// Plan an into expression: insert or update of a keyed value.
    fn expr_into(&self, keyword: Keywords, value: ASTNode, target: ASTNode) -> (r: Result<
        Command,
        Error,
    >)
        ensures
            into_dispatch_post(keyword, value, target, r),
    {
        match keyword {
            Keywords::Insert => self.ast_into_insert(value, target),
            Keywords::Update => self.ast_into_update(value, target),
            Keywords::Delete => Err(query_error("Delete is unexpected for into expression")),
            Keywords::Get => Err(query_error("Get is unexpected for into expression")),
            Keywords::List => Err(query_error("List is unexpected for into expression")),
        }
    }

    /// Plan a monadic expression: an administrative operation on users or
    /// databases.
    fn monadic_expr(&self, keyword: Keywords, verb: Verbs, args: Option<Vec<ASTNode>>) -> (r:
        Result<Command, Error>)
        ensures
            monadic_post(keyword, verb, args, self.current_database, r),
    {
        match keyword {
            Keywords::Insert => match verb {
                Verbs::User => self.ast_user_insert(args),
                Verbs::Database => Err(
                    query_error("Database is unexpected for insert expression"),
                ),
            },
            Keywords::Update => match verb {
                Verbs::User => self.ast_user_update(args),
                Verbs::Database => Err(
                    query_error("Database is unexpected for update expression"),
                ),
            },
            Keywords::Delete => match verb {
                Verbs::User => self.ast_user_delete(args),
                Verbs::Database => self.ast_database_delete(args),
            },
            Keywords::Get => Err(query_error("Get is unexpected for monadic expression")),
            Keywords::List => Err(query_error("List is unexpected for monadic expression")),
        }
    }

    /// Plan a single expression: get, delete or list of a keyed value.
    fn sgl_expr(&self, keyword: Keywords, target: Option<Box<ASTNode>>) -> (r: Result<
        Command,
        Error,
    >)
        ensures
            sgl_post(keyword, target, r),
    {
        match keyword {
            Keywords::Get => self.ast_sgl_get(target),
            Keywords::Delete => self.ast_sgl_delete(target),
            Keywords::List => self.ast_sgl_list(),
            Keywords::Insert => Err(query_error("Insert is unexpected for single expression")),
            Keywords::Update => Err(query_error("Update is unexpected for single expression")),
        }
    }

    /// Plan the insertion of a value at a key.
    fn ast_into_insert(&self, value: ASTNode, target: ASTNode) -> (r: Result<Command, Error>)
        ensures
            into_post(false, value, target, r),
    {
        let key = match target {
            ASTNode::Identifier(ident) => ident,
            _ => {
                return Err(query_error("key must be an identifier"));
            },
        };
        let doc = match value {
            ASTNode::Literal(doc) => doc,
            _ => {
                return Err(query_error("value must be a json object"));
            },
        };
        Ok(Command::Insert { key, value: doc })
    }

    /// Plan the update of the value at a key.
    fn ast_into_update(&self, value: ASTNode, target: ASTNode) -> (r: Result<Command, Error>)
        ensures
            into_post(true, value, target, r),
    {
        let key = match target {
            ASTNode::Identifier(ident) => ident,
            _ => {
                return Err(query_error("key must be an identifier"));
            },
        };
        let doc = match value {
            ASTNode::Literal(doc) => doc,
            _ => {
                return Err(query_error("value must be a json object"));
            },
        };
        Ok(Command::Update { key, value: doc })
    }

    /// Plan a user creation: username, password and permission all required.
    fn ast_user_insert(&self, args: Option<Vec<ASTNode>>) -> (r: Result<Command, Error>)
        ensures
            user_insert_post(args, r),
    {
        let nodes = match args {
            Some(nodes) => nodes,
            None => {
                return Err(query_error("user insert must have an expression"));
            },
        };
        let fields = match scan_user_args(&nodes, true) {
            Ok(fields) => fields,
            Err(e) => {
                return Err(e);
            },
        };
        match (fields.username, fields.password, fields.permission) {
            (Some(username), Some(password), Some(permission)) => {
                if username.as_str().is_empty() || password.as_str().is_empty()
                    || permission.as_str().is_empty() {
                    return Err(query_error("username, password, and permission are required"));
                }
                match UserPermission::from_str(permission.as_str()) {
                    Some(level) => Ok(
                        Command::CreateUser { username, password, permission: level },
                    ),
                    None => Err(
                        query_error(
                            "permission must be 'read' or 'write', 'read_and_write', or 'admin'",
                        ),
                    ),
                }
            },
            _ => Err(query_error("username, password, and permission are required")),
        }
    }

    /// Plan a user update: username required, password and permission each
    /// forwarded only if supplied.
    fn ast_user_update(&self, args: Option<Vec<ASTNode>>) -> (r: Result<Command, Error>)
        ensures
            user_update_post(args, r),
    {
        let nodes = match args {
            Some(nodes) => nodes,
            None => {
                return Err(query_error("user update must have an expression"));
            },
        };
        let fields = match scan_user_args(&nodes, false) {
            Ok(fields) => fields,
            Err(e) => {
                return Err(e);
            },
        };
        let username = match fields.username {
            Some(username) => username,
            None => {
                return Err(query_error("username is required"));
            },
        };
        if username.as_str().is_empty() {
            return Err(query_error("username is required"));
        }
        let permission = match fields.permission {
            Some(permission) => match UserPermission::from_str(permission.as_str()) {
                Some(level) => Some(level),
                None => {
                    return Err(
                        query_error(
                            "permission must be 'read' or 'write', 'read_and_write', or 'admin'",
                        ),
                    );
                },
            },
            None => None,
        };
        Ok(Command::UpdateUser { username, password: fields.password, permission })
    }

    /// Plan a user deletion: the argument list must hold the username as a
    /// leading identifier.
    fn ast_user_delete(&self, args: Option<Vec<ASTNode>>) -> (r: Result<Command, Error>)
        ensures
            user_delete_post(args, r),
    {
        match args {
            Some(nodes) => {
                if nodes.len() == 0 {
                    return Err(query_error("user delete must have an expression"));
                }
                match &nodes[0] {
                    ASTNode::Identifier(ident) => Ok(
                        Command::DeleteUser { username: ident.clone() },
                    ),
                    _ => Err(query_error("user delete must have an expression")),
                }
            },
            None => Err(query_error("user delete must have an expression")),
        }
    }

    /// Plan a database deletion: a supplied identifier names the target,
    /// otherwise the session's current database is deleted.
    fn ast_database_delete(&self, args: Option<Vec<ASTNode>>) -> (r: Result<Command, Error>)
        ensures
            database_delete_post(self.current_database, args, r),
    {
        match args {
            Some(nodes) => {
                if nodes.len() == 0 {
                    return Ok(
                        Command::DeleteDatabase { database: self.current_database.clone() },
                    );
                }
                match &nodes[0] {
                    ASTNode::Identifier(ident) => Ok(
                        Command::DeleteDatabase { database: ident.clone() },
                    ),
                    _ => Err(query_error("database name must be an identifier")),
                }
            },
            None => Ok(Command::DeleteDatabase { database: self.current_database.clone() }),
        }
    }

    /// Plan fetching the value at a key.
    fn ast_sgl_get(&self, target: Option<Box<ASTNode>>) -> (r: Result<Command, Error>)
        ensures
            sgl_get_post(target, r),
    {
        match target {
            Some(node) => match *node {
                ASTNode::Identifier(key) => Ok(Command::Get { key }),
                _ => Err(query_error("get must have an expression")),
            },
            None => Err(query_error("get must have an expression")),
        }
    }

    /// Plan deleting the value at a key.
    fn ast_sgl_delete(&self, target: Option<Box<ASTNode>>) -> (r: Result<Command, Error>)
        ensures
            sgl_delete_post(target, r),
    {
        match target {
            Some(node) => match *node {
                ASTNode::Identifier(key) => Ok(Command::Remove { key }),
                _ => Err(query_error("delete must have an expression")),
            },
            None => Err(query_error("delete must have an expression")),
        }
    }

    /// Plan listing all keys of the current database.
    fn ast_sgl_list(&self) -> (r: Result<Command, Error>)
        ensures
            r == Result::<Command, Error>::Ok(Command::ListKeys),
    {
        Ok(Command::ListKeys)
    }
}

/// The header of a successful response, as [`ok_header`] describes it.
fn ok_response_header() -> (h: ResHeader)
    ensures
        h == ok_header(),
{
    ResHeader { is_error: false, messages: None, status: Status::Success }
}

} // verus!
