use vstd::prelude::*;

use crate::json::{int_json, members_model, push_member, Json, JsonValue};

verus! {

/// The code of a reply to a line that is not a JSON-RPC request.
pub const PARSE_ERROR: i32 = -32700;

/// The code of a reply to a method this server does not have.
pub const METHOD_NOT_FOUND: i32 = -32601;

/// The code of a reply to a call without the parameters it needs.
pub const INVALID_PARAMS: i32 = -32602;

/// A JSON-RPC request.
pub struct JsonRpcRequest {
    pub jsonrpc: String,
    pub id: JsonValue,
    pub method: String,
    pub params: Option<JsonValue>,
}

/// The error object of an error response.
pub struct JsonRpcError {
    pub code: i32,
    pub message: String,
}

/// A successful response.
pub struct JsonRpcSuccessResponse {
    pub jsonrpc: String,
    pub id: JsonValue,
    pub result: JsonValue,
}

/// An error response.
pub struct JsonRpcErrorResponse {
    pub jsonrpc: String,
    pub id: JsonValue,
    pub error: JsonRpcError,
}

/// A response of either kind.
pub enum JsonRpcResponse {
    Success(JsonRpcSuccessResponse),
    Error(JsonRpcErrorResponse),
}

/// The JSON of a successful response, members in the order in which they
/// are written.
pub open spec fn success_json(id: Json, result: Json) -> Json {
    success_json_as("2.0"@, id, result)
}

/// The JSON of an error response.
pub open spec fn error_json(id: Json, code: i32, message: Seq<char>) -> Json {
    error_json_as("2.0"@, id, code, message)
}

/// The JSON of a successful response that names protocol `version`.
pub open spec fn success_json_as(version: Seq<char>, id: Json, result: Json) -> Json {
    Json::Object(seq![("jsonrpc"@, Json::Str(version)), ("id"@, id), ("result"@, result)])
}

/// The JSON of an error response that names protocol `version`.
pub open spec fn error_json_as(version: Seq<char>, id: Json, code: i32, message: Seq<char>) -> Json {
    Json::Object(
        seq![
            ("jsonrpc"@, Json::Str(version)),
            ("id"@, id),
            ("error"@, Json::Object(seq![("code"@, int_json(code as int)), ("message"@, Json::Str(message))])),
        ],
    )
}

/// The JSON of a response.
pub open spec fn response_json(r: JsonRpcResponse) -> Json {
    match r {
        JsonRpcResponse::Success(s) => success_json_as(s.jsonrpc@, s.id@, s.result@),
        JsonRpcResponse::Error(e) => error_json_as(e.jsonrpc@, e.id@, e.error.code, e.error.message@),
    }
}

/// The id that a response answers.
pub open spec fn response_id(r: JsonRpcResponse) -> Json {
    match r {
        JsonRpcResponse::Success(s) => s.id@,
        JsonRpcResponse::Error(e) => e.id@,
    }
}

/// Whether a response carries the protocol version "2.0".
pub open spec fn speaks_v2(r: JsonRpcResponse) -> bool {
    match r {
        JsonRpcResponse::Success(s) => s.jsonrpc@ == "2.0"@,
        JsonRpcResponse::Error(e) => e.jsonrpc@ == "2.0"@,
    }
}

impl JsonRpcSuccessResponse {
    pub fn new(id: JsonValue, result: JsonValue) -> (r: Self)
        ensures
            r.jsonrpc@ == "2.0"@,
            r.id@ == id@,
            r.result@ == result@,
    {
        JsonRpcSuccessResponse { jsonrpc: "2.0".to_owned(), id, result }
    }
}

impl JsonRpcErrorResponse {
    pub fn new(id: JsonValue, code: i32, message: String) -> (r: Self)
        ensures
            r.jsonrpc@ == "2.0"@,
            r.id@ == id@,
            r.error.code == code,
            r.error.message@ == message@,
    {
        JsonRpcErrorResponse {
            jsonrpc: "2.0".to_owned(),
            id,
            error: JsonRpcError { code, message },
        }
    }
}

impl JsonRpcResponse {
    /// The response as a JSON document.
    pub fn to_json(self) -> (j: JsonValue)
        ensures
            j@ == response_json(self),
    {
        let mut members: Vec<(String, JsonValue)> = Vec::new();
        assert(members_model(members@) =~= Seq::empty());
        match self {
            JsonRpcResponse::Success(s) => {
                let ghost want = seq![("jsonrpc"@, Json::Str(s.jsonrpc@)), ("id"@, s.id@), ("result"@, s.result@)];
                push_member(&mut members, "jsonrpc", JsonValue::Str(s.jsonrpc));
                push_member(&mut members, "id", s.id);
                push_member(&mut members, "result", s.result);
                assert(members_model(members@) =~= want);
            },
            JsonRpcResponse::Error(e) => {
                let ghost inner = seq![("code"@, int_json(e.error.code as int)), ("message"@, Json::Str(e.error.message@))];
                let ghost want = seq![("jsonrpc"@, Json::Str(e.jsonrpc@)), ("id"@, e.id@), ("error"@, Json::Object(inner))];
                let mut error: Vec<(String, JsonValue)> = Vec::new();
                assert(members_model(error@) =~= Seq::empty());
                push_member(&mut error, "code", JsonValue::integer(e.error.code as i64));
                push_member(&mut error, "message", JsonValue::Str(e.error.message));
                assert(members_model(error@) =~= inner);
                push_member(&mut members, "jsonrpc", JsonValue::Str(e.jsonrpc));
                push_member(&mut members, "id", e.id);
                push_member(&mut members, "error", JsonValue::Object(error));
                assert(members_model(members@) =~= want);
            },
        }
        JsonValue::Object(members)
    }
}

/// The reply to a line that does not parse as a request.
pub fn parse_error_response() -> (r: JsonRpcResponse)
    ensures
        speaks_v2(r),
        response_id(r) == Json::Null,
        response_json(r) == error_json(Json::Null, PARSE_ERROR, "Parse error"@),
{
    JsonRpcResponse::Error(
        JsonRpcErrorResponse::new(JsonValue::Null, PARSE_ERROR, "Parse error".to_owned()),
    )
}

} // verus!
