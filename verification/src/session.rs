//! The native session: argument checks, commands, and the translation
//! of native return conventions into typed results.
//!
//! Every string that crosses the native boundary is checked for an
//! embedded null terminator before any native call is made. A native
//! call returns either a nullable heap string (copied out by the
//! application layer and handed here as `Option<String>`) or an integer
//! status; the functions in this module turn each convention into the
//! typed result model, preserving the engine's asymmetry between "no
//! data" (an empty collection for the listing calls, an error for
//! query, absence for get).

use vstd::prelude::*;
use vstd::string::*;

use crate::document::{json_empty_array, json_wf, parse_document, serialize_document};
use crate::error::ChronDBError;

verus! {

/// The text carried by the local rejection of a string argument that
/// holds an embedded null terminator.
pub open spec fn nul_text() -> Seq<char> {
    "nul byte found in provided data"@
}

/// A string is safe to hand across the C boundary: it holds no embedded
/// null terminator.
pub open spec fn nul_free(s: Seq<char>) -> bool {
    forall|i: int| 0 <= i < s.len() ==> s[i] != '\0'
}

/// Whether a string argument holds an embedded null terminator.
pub fn contains_nul(s: &str) -> (b: bool)
    ensures
        b == !nul_free(s@),
{
    let n: usize = s.unicode_len();
    let mut i: usize = 0;
    while i < n
        invariant
            n == s@.len(),
            i <= n,
            forall|j: int| 0 <= j < i ==> s@[j] != '\0',
        decreases n - i,
    {
        if s.get_char(i) == '\0' {
            return true;
        }
        i = i + 1;
    }
    false
}

/// Copies an optional string argument after checking it for an embedded
/// null terminator; a violation is rejected locally as
/// `OperationFailed`, before any native call.
pub fn optional_arg(s: Option<&str>) -> (r: Result<Option<String>, ChronDBError>)
    ensures
        match s {
            Some(v) => if nul_free(v@) {
                r matches Ok(o) && o matches Some(x) && x@ == v@
            } else {
                r matches Err(e) && e matches ChronDBError::OperationFailed(m) && m@ == nul_text()
            },
            None => r matches Ok(o) && o is None,
        },
{
    match s {
        Some(v) => {
            if contains_nul(v) {
                Err(ChronDBError::OperationFailed("nul byte found in provided data".to_owned()))
            } else {
                Ok(Some(v.to_owned()))
            }
        },
        None => Ok(None),
    }
}

/// A request against one native session. Arguments are owned copies,
/// since the request crosses an execution boundary; the reply path is
/// the application layer's concern.
pub enum Command {
    Put { id: String, doc: String, branch: Option<String> },
    Get { id: String, branch: Option<String> },
    Delete { id: String, branch: Option<String> },
    ListByPrefix { prefix: String, branch: Option<String> },
    ListByTable { table: String, branch: Option<String> },
    History { id: String, branch: Option<String> },
    Query { query: String, branch: Option<String> },
    LastError,
    Shutdown,
}

/// An optional branch argument is safe for the boundary.
pub open spec fn opt_nul_free(b: Option<String>) -> bool {
    match b {
        Some(s) => nul_free(s@),
        None => true,
    }
}

/// Every string argument of the command is safe for the boundary.
pub open spec fn command_args_nul_free(c: Command) -> bool {
    match c {
        Command::Put { id, doc, branch } => nul_free(id@) && nul_free(doc@) && opt_nul_free(
            branch,
        ),
        Command::Get { id, branch } => nul_free(id@) && opt_nul_free(branch),
        Command::Delete { id, branch } => nul_free(id@) && opt_nul_free(branch),
        Command::ListByPrefix { prefix, branch } => nul_free(prefix@) && opt_nul_free(branch),
        Command::ListByTable { table, branch } => nul_free(table@) && opt_nul_free(branch),
        Command::History { id, branch } => nul_free(id@) && opt_nul_free(branch),
        Command::Query { query, branch } => nul_free(query@) && opt_nul_free(branch),
        Command::LastError => true,
        Command::Shutdown => true,
    }
}

fn opt_string_has_nul(b: &Option<String>) -> (r: bool)
    ensures
        r == !opt_nul_free(*b),
{
    match b {
        Some(s) => contains_nul(s.as_str()),
        None => false,
    }
}

/// Checks every string argument of a command for an embedded null
/// terminator; a violation is rejected locally as `OperationFailed`,
/// before any native call is made.
pub fn validate_command(c: &Command) -> (r: Result<(), ChronDBError>)
    ensures
        r is Ok <==> command_args_nul_free(*c),
        r matches Err(e) ==> e matches ChronDBError::OperationFailed(m) && m@ == nul_text(),
{
    let bad: bool = match c {
        Command::Put { id, doc, branch } => contains_nul(id.as_str()) || contains_nul(
            doc.as_str(),
        ) || opt_string_has_nul(branch),
        Command::Get { id, branch } => contains_nul(id.as_str()) || opt_string_has_nul(branch),
        Command::Delete { id, branch } => contains_nul(id.as_str()) || opt_string_has_nul(branch),
        Command::ListByPrefix { prefix, branch } => contains_nul(prefix.as_str())
            || opt_string_has_nul(branch),
        Command::ListByTable { table, branch } => contains_nul(table.as_str())
            || opt_string_has_nul(branch),
        Command::History { id, branch } => contains_nul(id.as_str()) || opt_string_has_nul(branch),
        Command::Query { query, branch } => contains_nul(query.as_str()) || opt_string_has_nul(
            branch,
        ),
        Command::LastError => false,
        Command::Shutdown => false,
    };
    if bad {
        Err(ChronDBError::OperationFailed("nul byte found in provided data".to_owned()))
    } else {
        Ok(())
    }
}

/// Builds a put request, serializing the document value; building
/// always succeeds, with the given id and branch carried verbatim.
pub fn put_command(id: &str, doc: &serde_json::Value, branch: Option<&str>) -> (r: Result<
    Command,
    ChronDBError,
>)
    ensures
        r is Ok,
        r matches Ok(c) ==> c matches Command::Put { id: i, doc: d, branch: b } && i@ == id@
            && opt_matches(b, branch),
{
    match serialize_document(doc) {
        Ok(text) => Ok(
            Command::Put { id: id.to_owned(), doc: text, branch: copy_branch(branch) },
        ),
        Err(e) => Err(e),
    }
}

/// Builds a query request, serializing the query value; building
/// always succeeds, with the given branch carried verbatim.
pub fn query_command(query: &serde_json::Value, branch: Option<&str>) -> (r: Result<
    Command,
    ChronDBError,
>)
    ensures
        r is Ok,
        r matches Ok(c) ==> c matches Command::Query { query: q, branch: b } && opt_matches(
            b,
            branch,
        ),
{
    match serialize_document(query) {
        Ok(text) => Ok(Command::Query { query: text, branch: copy_branch(branch) }),
        Err(e) => Err(e),
    }
}

/// The owned branch holds the same text as the borrowed one.
pub open spec fn opt_matches(owned: Option<String>, borrowed: Option<&str>) -> bool {
    match borrowed {
        Some(s) => owned matches Some(t) && t@ == s@,
        None => owned is None,
    }
}

fn copy_branch(branch: Option<&str>) -> (r: Option<String>)
    ensures
        opt_matches(r, branch),
{
    match branch {
        Some(s) => Some(s.to_owned()),
        None => None,
    }
}

/// The text of a missing-result error: the engine's own diagnostic when
/// one could be retrieved, else the fixed fallback.
pub open spec fn missing_text(last_err: Option<String>, default: Seq<char>) -> Seq<char> {
    match last_err {
        Some(m) => m@,
        None => default,
    }
}

/// Wraps the engine's last-error text, or the given fallback, as
/// `OperationFailed`.
pub fn last_error_or(last_err: Option<String>, default: &str) -> (r: ChronDBError)
    ensures
        r matches ChronDBError::OperationFailed(m) && m@ == missing_text(last_err, default@),
{
    match last_err {
        Some(m) => ChronDBError::OperationFailed(m),
        None => ChronDBError::OperationFailed(default.to_owned()),
    }
}

/// A parse of the text `s` went as `r`: success exactly for well-formed
/// JSON, and a failure carries the parser diagnostic as `JsonError`.
pub open spec fn parsed_reply_matches(s: Seq<char>, r: Result<serde_json::Value, ChronDBError>) -> bool {
    (r is Ok <==> json_wf(s)) && (r matches Err(e) ==> e matches ChronDBError::JsonError(_))
}

/// The error reported for a missing native result: `OperationFailed`
/// carrying the engine's diagnostic, or the given fallback text.
pub open spec fn missing_reply_matches(
    last_err: Option<String>,
    default: Seq<char>,
    r: Result<serde_json::Value, ChronDBError>,
) -> bool {
    r matches Err(e) && e matches ChronDBError::OperationFailed(m) && m@ == missing_text(
        last_err,
        default,
    )
}

/// What the put translation returns: the parsed stored document, or
/// `OperationFailed` when the native call yielded nothing.
pub open spec fn put_reply_matches(
    payload: Option<String>,
    last_err: Option<String>,
    r: Result<serde_json::Value, ChronDBError>,
) -> bool {
    match payload {
        Some(s) => parsed_reply_matches(s@, r),
        None => missing_reply_matches(last_err, "null result"@, r),
    }
}

/// What the get translation returns: the parsed document, or `NotFound`
/// when the native call yielded nothing.
pub open spec fn get_reply_matches(
    payload: Option<String>,
    r: Result<serde_json::Value, ChronDBError>,
) -> bool {
    match payload {
        Some(s) => parsed_reply_matches(s@, r),
        None => r == Err::<serde_json::Value, ChronDBError>(ChronDBError::NotFound),
    }
}

/// What a listing translation returns: the parsed result, or — unlike
/// query — a successful empty collection when the native call yielded
/// nothing.
pub open spec fn list_reply_matches(
    payload: Option<String>,
    r: Result<serde_json::Value, ChronDBError>,
) -> bool {
    match payload {
        Some(s) => parsed_reply_matches(s@, r),
        None => r is Ok,
    }
}

/// What the query translation returns: the parsed result, or — unlike
/// the listing calls — `OperationFailed` when the native call yielded
/// nothing.
pub open spec fn query_reply_matches(
    payload: Option<String>,
    last_err: Option<String>,
    r: Result<serde_json::Value, ChronDBError>,
) -> bool {
    match payload {
        Some(s) => parsed_reply_matches(s@, r),
        None => missing_reply_matches(last_err, "query failed"@, r),
    }
}

/// What the delete translation returns for a native status code.
pub open spec fn delete_reply_matches(
    code: i32,
    last_err: Option<String>,
    r: Result<(), ChronDBError>,
) -> bool {
    if code == 0 {
        r matches Ok(())
    } else if code == 1 {
        r == Err::<(), ChronDBError>(ChronDBError::NotFound)
    } else {
        r matches Err(e) && e matches ChronDBError::OperationFailed(m) && m@ == missing_text(
            last_err,
            "delete failed"@,
        )
    }
}

/// Translates the native put result. The native call returns the stored
/// document as text, or null on failure; null surfaces as
/// `OperationFailed` carrying the engine's diagnostic.
pub fn put_result(payload: Option<String>, last_err: Option<String>) -> (r: Result<
    serde_json::Value,
    ChronDBError,
>)
    ensures
        put_reply_matches(payload, last_err, r),
{
    match payload {
        Some(s) => parse_document(s.as_str()),
        None => Err(last_error_or(last_err, "null result")),
    }
}

/// Translates the native get result: null means the document does not
/// exist and surfaces as `NotFound`.
pub fn get_result(payload: Option<String>) -> (r: Result<serde_json::Value, ChronDBError>)
    ensures
        get_reply_matches(payload, r),
{
    match payload {
        Some(s) => parse_document(s.as_str()),
        None => Err(ChronDBError::NotFound),
    }
}

/// Translates a native listing result: null means no matches and
/// surfaces as the empty collection, never as an error.
fn list_like_result(payload: Option<String>) -> (r: Result<serde_json::Value, ChronDBError>)
    ensures
        list_reply_matches(payload, r),
{
    match payload {
        Some(s) => parse_document(s.as_str()),
        None => Ok(json_empty_array()),
    }
}

/// Translates the native list-by-prefix result; no matches is an empty
/// collection, never an error.
pub fn list_by_prefix_result(payload: Option<String>) -> (r: Result<
    serde_json::Value,
    ChronDBError,
>)
    ensures
        list_reply_matches(payload, r),
{
    list_like_result(payload)
}

/// Translates the native list-by-table result; no matches is an empty
/// collection, never an error.
pub fn list_by_table_result(payload: Option<String>) -> (r: Result<
    serde_json::Value,
    ChronDBError,
>)
    ensures
        list_reply_matches(payload, r),
{
    list_like_result(payload)
}

/// Translates the native history result; no recorded history is an
/// empty collection, never an error.
pub fn history_result(payload: Option<String>) -> (r: Result<serde_json::Value, ChronDBError>)
    ensures
        list_reply_matches(payload, r),
{
    list_like_result(payload)
}

/// Translates the native query result. Unlike the listing calls, a
/// missing native result is an error — `OperationFailed` with the
/// engine's diagnostic — not an empty collection.
pub fn query_result(payload: Option<String>, last_err: Option<String>) -> (r: Result<
    serde_json::Value,
    ChronDBError,
>)
    ensures
        query_reply_matches(payload, last_err, r),
{
    match payload {
        Some(s) => parse_document(s.as_str()),
        None => Err(last_error_or(last_err, "query failed")),
    }
}

/// Translates the native delete status: 0 is success, 1 means the
/// document did not exist, anything else is a failure carrying the
/// engine's diagnostic.
pub fn delete_result(code: i32, last_err: Option<String>) -> (r: Result<(), ChronDBError>)
    ensures
        delete_reply_matches(code, last_err, r),
{
    if code == 0 {
        Ok(())
    } else if code == 1 {
        Err(ChronDBError::NotFound)
    } else {
        Err(last_error_or(last_err, "delete failed"))
    }
}

/// The state a worker keeps for its native session: the resource handle
/// returned by the native open call (negative once closed) and whether
/// the isolate is still standing.
#[derive(Debug, Clone, Copy, PartialEq, Eq, Structural)]
pub struct SessionState {
    pub handle: i32,
    pub has_isolate: bool,
}

/// The native teardown work one close step asks for.
#[derive(Debug, Clone, Copy, PartialEq, Eq, Structural)]
pub struct CloseActions {
    pub close_resource: bool,
    pub tear_down: bool,
}

/// A session with nothing left to release.
pub open spec fn closed_session() -> SessionState {
    SessionState { handle: -1i32, has_isolate: false }
}

/// The actions a close step takes from a given state: the resource is
/// closed only while its handle is still valid, the isolate torn down
/// only while it still stands.
pub open spec fn close_actions_spec(s: SessionState) -> CloseActions {
    CloseActions { close_resource: s.handle >= 0, tear_down: s.has_isolate }
}

/// The state after a close step, whatever the state before.
pub open spec fn close_next(s: SessionState) -> SessionState {
    closed_session()
}

/// Decides the teardown work for a close request and marks everything
/// released. The application layer performs exactly the actions asked
/// for, so a second close never releases anything twice.
pub fn close_step(s: &mut SessionState) -> (a: CloseActions)
    ensures
        a == close_actions_spec(*old(s)),
        *final(s) == close_next(*old(s)),
{
    let a = CloseActions { close_resource: s.handle >= 0, tear_down: s.has_isolate };
    s.handle = -1;
    s.has_isolate = false;
    a
}

/// Closing is idempotent: one close step fully closes the session, and
/// a second close step asks for no native action and leaves the session
/// as it was.
pub proof fn lemma_close_idempotent(s: SessionState)
    ensures
        close_next(close_next(s)) == close_next(s),
        close_actions_spec(close_next(s)) == (CloseActions {
            close_resource: false,
            tear_down: false,
        }),
{
}

/// Translates the status of the native isolate-creation call: zero is
/// success, anything else is `IsolateCreationFailed`.
pub fn isolate_result(ret: i32) -> (r: Result<(), ChronDBError>)
    ensures
        ret == 0 ==> r matches Ok(()),
        ret != 0 ==> r == Err::<(), ChronDBError>(ChronDBError::IsolateCreationFailed),
{
    if ret == 0 {
        Ok(())
    } else {
        Err(ChronDBError::IsolateCreationFailed)
    }
}

/// Checks the two storage paths for embedded null terminators before
/// the native open call; a violation is rejected as `OpenFailed`.
pub fn validate_open_paths(data_path: &str, index_path: &str) -> (r: Result<(), ChronDBError>)
    ensures
        r is Ok <==> nul_free(data_path@) && nul_free(index_path@),
        r matches Err(e) ==> e matches ChronDBError::OpenFailed(m) && m@ == nul_text(),
{
    if contains_nul(data_path) || contains_nul(index_path) {
        Err(ChronDBError::OpenFailed("nul byte found in provided data".to_owned()))
    } else {
        Ok(())
    }
}

/// Translates the handle returned by the native open call: a
/// non-negative handle opens the session, a negative one means failure
/// and surfaces as `OpenFailed` carrying the engine's diagnostic, or an
/// empty text when none could be retrieved.
pub fn open_result(handle: i32, last_err: Option<String>) -> (r: Result<
    SessionState,
    ChronDBError,
>)
    ensures
        handle >= 0 ==> r == Ok::<SessionState, ChronDBError>(
            SessionState { handle, has_isolate: true },
        ),
        handle < 0 ==> (r matches Err(e) && e matches ChronDBError::OpenFailed(m) && m@
            == missing_text(last_err, ""@)),
{
    if handle >= 0 {
        Ok(SessionState { handle, has_isolate: true })
    } else {
        match last_err {
            Some(m) => Err(ChronDBError::OpenFailed(m)),
            None => {
                let empty = String::new();
                proof {
                    reveal_strlit("");
                    assert(empty@ =~= ""@);
                }
                Err(ChronDBError::OpenFailed(empty))
            },
        }
    }
}

/// What one native call answered: a nullable heap string already copied
/// out, an integer status, or the nullable last-error text. The second
/// string of the first two forms is the engine's last-error text,
/// fetched only when the call yielded nothing.
pub enum NativeOutcome {
    Text { payload: Option<String>, last_err: Option<String> },
    Status { code: i32, last_err: Option<String> },
    ErrText { last_err: Option<String> },
}

/// The typed reply sent back for one command.
#[derive(Debug)]
pub enum Reply {
    Doc(Result<serde_json::Value, ChronDBError>),
    Unit(Result<(), ChronDBError>),
    Text(Option<String>),
}

/// Which native answer form each command's call produces.
pub open spec fn outcome_kind_matches(c: Command, o: NativeOutcome) -> bool {
    match c {
        Command::Delete { .. } => o matches NativeOutcome::Status { .. },
        Command::LastError => o matches NativeOutcome::ErrText { .. },
        Command::Shutdown => true,
        _ => o matches NativeOutcome::Text { .. },
    }
}

/// The local rejection of an argument holding an embedded null
/// terminator.
pub open spec fn nul_rejection(e: ChronDBError) -> bool {
    e matches ChronDBError::OperationFailed(m) && m@ == nul_text()
}

/// The reply owed for a command, given what the native side answered.
/// A command with an unsafe string argument is answered by the local
/// rejection whatever the native side would have said, since no native
/// call is made for it.
pub open spec fn reply_matches(c: Command, o: NativeOutcome, r: Reply) -> bool {
    if !command_args_nul_free(c) {
        match c {
            Command::Delete { .. } => r matches Reply::Unit(res) && res matches Err(e)
                && nul_rejection(e),
            _ => r matches Reply::Doc(res) && res matches Err(e) && nul_rejection(e),
        }
    } else {
        match (c, o) {
            (Command::Put { .. }, NativeOutcome::Text { payload, last_err }) => r
                matches Reply::Doc(res) && put_reply_matches(payload, last_err, res),
            (Command::Get { .. }, NativeOutcome::Text { payload, last_err }) => r
                matches Reply::Doc(res) && get_reply_matches(payload, res),
            (Command::Delete { .. }, NativeOutcome::Status { code, last_err }) => r
                matches Reply::Unit(res) && delete_reply_matches(code, last_err, res),
            (Command::ListByPrefix { .. }, NativeOutcome::Text { payload, last_err }) => r
                matches Reply::Doc(res) && list_reply_matches(payload, res),
            (Command::ListByTable { .. }, NativeOutcome::Text { payload, last_err }) => r
                matches Reply::Doc(res) && list_reply_matches(payload, res),
            (Command::History { .. }, NativeOutcome::Text { payload, last_err }) => r
                matches Reply::Doc(res) && list_reply_matches(payload, res),
            (Command::Query { .. }, NativeOutcome::Text { payload, last_err }) => r
                matches Reply::Doc(res) && query_reply_matches(payload, last_err, res),
            (Command::LastError, NativeOutcome::ErrText { last_err }) => r == Reply::Text(
                last_err,
            ),
            _ => false,
        }
    }
}

/// A command with an embedded null terminator in an argument is
/// answered by the local rejection independently of anything the
/// native side could answer: no native call is made for it.
pub proof fn lemma_nul_rejected_before_native(
    c: Command,
    o1: NativeOutcome,
    o2: NativeOutcome,
    r: Reply,
)
    requires
        !command_args_nul_free(c),
        reply_matches(c, o1, r),
    ensures
        reply_matches(c, o2, r),
{
}

/// The engine's asymmetry between "no data" outcomes: for the listing
/// calls a missing native result is a successful empty collection,
/// while for query it is an error.
pub proof fn lemma_missing_result_asymmetry(
    last_err: Option<String>,
    rl: Result<serde_json::Value, ChronDBError>,
    rq: Result<serde_json::Value, ChronDBError>,
)
    requires
        list_reply_matches(None, rl),
        query_reply_matches(None, last_err, rq),
    ensures
        rl is Ok,
        rq is Err,
{
}

fn clone_opt_string(o: &Option<String>) -> (r: Option<String>)
    ensures
        r == *o,
{
    match o {
        Some(s) => Some(s.clone()),
        None => None,
    }
}

fn expect_text(o: &NativeOutcome) -> (r: (Option<String>, Option<String>))
    requires
        *o matches NativeOutcome::Text { .. },
    ensures
        *o matches NativeOutcome::Text { payload, last_err } && r.0 == payload && r.1 == last_err,
{
    match o {
        NativeOutcome::Text { payload, last_err } => (
            clone_opt_string(payload),
            clone_opt_string(last_err),
        ),
        _ => {
            proof {
                assert(false);
            }
            (None, None)
        },
    }
}

fn expect_status(o: &NativeOutcome) -> (r: (i32, Option<String>))
    requires
        *o matches NativeOutcome::Status { .. },
    ensures
        *o matches NativeOutcome::Status { code, last_err } && r.0 == code && r.1 == last_err,
{
    match o {
        NativeOutcome::Status { code, last_err } => (*code, clone_opt_string(last_err)),
        _ => {
            proof {
                assert(false);
            }
            (0, None)
        },
    }
}

fn expect_err_text(o: &NativeOutcome) -> (r: Option<String>)
    requires
        *o matches NativeOutcome::ErrText { .. },
    ensures
        *o matches NativeOutcome::ErrText { last_err } && r == last_err,
{
    match o {
        NativeOutcome::ErrText { last_err } => clone_opt_string(last_err),
        _ => {
            proof {
                assert(false);
            }
            None
        },
    }
}

/// One step of the worker's command loop: checks the command's string
/// arguments, and translates the native answer into the typed reply.
/// The application layer performs the native call in between, only when
/// the check passed.
pub fn dispatch_command(c: &Command, o: &NativeOutcome) -> (r: Reply)
    requires
        !(*c is Shutdown),
        command_args_nul_free(*c) ==> outcome_kind_matches(*c, *o),
    ensures
        reply_matches(*c, *o, r),
{
    match validate_command(c) {
        Err(e) => match c {
            Command::Delete { .. } => Reply::Unit(Err(e)),
            _ => Reply::Doc(Err(e)),
        },
        Ok(()) => match c {
            Command::Put { .. } => {
                let (payload, last_err) = expect_text(o);
                Reply::Doc(put_result(payload, last_err))
            },
            Command::Get { .. } => {
                let (payload, _last_err) = expect_text(o);
                Reply::Doc(get_result(payload))
            },
            Command::Delete { .. } => {
                let (code, last_err) = expect_status(o);
                Reply::Unit(delete_result(code, last_err))
            },
            Command::ListByPrefix { .. } => {
                let (payload, _last_err) = expect_text(o);
                Reply::Doc(list_by_prefix_result(payload))
            },
            Command::ListByTable { .. } => {
                let (payload, _last_err) = expect_text(o);
                Reply::Doc(list_by_table_result(payload))
            },
            Command::History { .. } => {
                let (payload, _last_err) = expect_text(o);
                Reply::Doc(history_result(payload))
            },
            Command::Query { .. } => {
                let (payload, last_err) = expect_text(o);
                Reply::Doc(query_result(payload, last_err))
            },
            Command::LastError => {
                let last_err = expect_err_text(o);
                Reply::Text(last_err)
            },
            Command::Shutdown => {
                proof {
                    assert(false);
                }
                Reply::Text(None)
            },
        },
    }
}

/// The position of the first shutdown request in a queue, or the queue
/// length when there is none.
pub open spec fn first_shutdown(cmds: Seq<Command>) -> int
    decreases cmds.len(),
{
    if cmds.len() == 0 {
        0
    } else if cmds[0] is Shutdown {
        0
    } else {
        1 + first_shutdown(cmds.drop_first())
    }
}

proof fn lemma_first_shutdown_char(cmds: Seq<Command>, k: int)
    requires
        0 <= k <= cmds.len(),
        forall|j: int| 0 <= j < k ==> !(cmds[j] is Shutdown),
        k < cmds.len() ==> cmds[k] is Shutdown,
    ensures
        first_shutdown(cmds) == k,
    decreases cmds.len(),
{
    if cmds.len() == 0 {
    } else if cmds[0] is Shutdown {
        assert(k == 0);
    } else {
        assert(k >= 1);
        assert forall|j: int| 0 <= j < k - 1 implies !(cmds.drop_first()[j]
            is Shutdown) by {
            assert(cmds.drop_first()[j] == cmds[j + 1]);
        }
        if k - 1 < cmds.drop_first().len() {
            assert(cmds.drop_first()[k - 1] == cmds[k]);
        }
        lemma_first_shutdown_char(cmds.drop_first(), k - 1);
    }
}

fn is_shutdown(c: &Command) -> (b: bool)
    ensures
        b == (*c is Shutdown),
{
    match c {
        Command::Shutdown => true,
        _ => false,
    }
}

/// Replays a command queue against the native answers, exactly as the
/// worker's loop does: commands are dispatched strictly in arrival
/// order, each command before the first shutdown request is answered
/// exactly once — its reply standing at its own position — and nothing
/// at or after the first shutdown request is dispatched.
pub fn replay_commands(cmds: &Vec<Command>, outcomes: &Vec<NativeOutcome>) -> (r: Vec<Reply>)
    requires
        cmds@.len() == outcomes@.len(),
        forall|j: int|
            0 <= j < cmds@.len() && command_args_nul_free(cmds@[j]) && !(cmds@[j]
                is Shutdown) ==> outcome_kind_matches(cmds@[j], outcomes@[j]),
    ensures
        r@.len() == first_shutdown(cmds@),
        forall|j: int| 0 <= j < r@.len() ==> reply_matches(cmds@[j], outcomes@[j], r@[j]),
        forall|j: int| 0 <= j < r@.len() ==> !(cmds@[j] is Shutdown),
{
    let n: usize = cmds.len();
    let mut out: Vec<Reply> = Vec::new();
    let mut i: usize = 0;
    while i < n
        invariant_except_break
            n == cmds@.len(),
            cmds@.len() == outcomes@.len(),
            i <= n,
            out@.len() == i,
            forall|j: int| 0 <= j < i ==> !(cmds@[j] is Shutdown),
            forall|j: int| 0 <= j < i ==> reply_matches(cmds@[j], outcomes@[j], out@[j]),
            forall|j: int|
                0 <= j < cmds@.len() && command_args_nul_free(cmds@[j]) && !(cmds@[j]
                    is Shutdown) ==> outcome_kind_matches(cmds@[j], outcomes@[j]),
        ensures
            n == cmds@.len(),
            i <= n,
            out@.len() == i,
            forall|j: int| 0 <= j < i ==> !(cmds@[j] is Shutdown),
            forall|j: int| 0 <= j < i ==> reply_matches(cmds@[j], outcomes@[j], out@[j]),
            i < n ==> cmds@[i as int] is Shutdown,
        decreases n - i,
    {
        if is_shutdown(&cmds[i]) {
            break ;
        }
        let rep = dispatch_command(&cmds[i], &outcomes[i]);
        out.push(rep);
        i = i + 1;
    }
    proof {
        lemma_first_shutdown_char(cmds@, i as int);
    }
    out
}

} // verus!
