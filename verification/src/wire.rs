//! What stands on the daemon's pipe: each request and each answer is one JSON
//! object on a line of its own.
use crate::fab_daemon::{Request, Response, ResponseView};
use crate::json;
use crate::json::{
    as_u64_spec, get_bool_spec, get_spec, get_str_spec, is_plain_object, json_text, number_view,
    parse_view, parsed_json, str_view, Json, JsonView,
};
use crate::text::{free_of, opt_text};
use vstd::prelude::*;

verus! {

/// The mathematical value of a [`Request`].
#[verifier::ext_equal]
pub enum RequestModel {
    Call { method: Seq<char>, path: Seq<char>, body: Option<Seq<char>> },
    Shutdown,
    Ping,
}

/// The value of the request `r`.
pub open spec fn request_model(r: Request) -> RequestModel {
    match r {
        Request::Call { method, path, body } => RequestModel::Call {
            method: method@,
            path: path@,
            body: opt_text(body),
        },
        Request::Shutdown => RequestModel::Shutdown,
        Request::Ping => RequestModel::Ping,
    }
}

/// A request, or what is wrong with it, by its value.
pub open spec fn request_result(r: Result<Request, String>) -> Result<RequestModel, Seq<char>> {
    match r {
        Ok(x) => Ok(request_model(x)),
        Err(e) => Err(e@),
    }
}

/// An answer, or what is wrong with it, by its value.
pub open spec fn response_result(r: Result<Response, String>) -> Result<ResponseView, Seq<char>> {
    match r {
        Ok(x) => Ok(x@),
        Err(e) => Err(e@),
    }
}

// ---------------------------------------------------------------------------
// Requests
// ---------------------------------------------------------------------------

/// The object that the request `r` is written as.
pub open spec fn request_json_spec(r: RequestModel) -> JsonView {
    match r {
        RequestModel::Call { method, path, body } => JsonView::Object(
            map![
                "op"@ => str_view("call"@),
                "method"@ => str_view(method),
                "path"@ => str_view(path),
                "body"@ => match body {
                    Some(b) => str_view(b),
                    None => JsonView::Null,
                },
            ],
        ),
        RequestModel::Shutdown => JsonView::Object(map!["op"@ => str_view("shutdown"@)]),
        RequestModel::Ping => JsonView::Object(map!["op"@ => str_view("ping"@)]),
    }
}

/// What is said of a field that is missing.
pub open spec fn missing_field(key: Seq<char>) -> Seq<char> {
    "missing field `"@ + key + "`"@
}

/// What is said of a field that is no text.
pub open spec fn wrong_field(key: Seq<char>) -> Seq<char> {
    "invalid type in field `"@ + key + "`, expected a string"@
}

/// The text under `key`, or what is wrong with it.
pub open spec fn text_field_spec(j: JsonView, key: Seq<char>) -> Result<Seq<char>, Seq<char>> {
    match get_spec(j, key) {
        None => Err(missing_field(key)),
        Some(JsonView::Str(s)) => Ok(s),
        Some(_) => Err(wrong_field(key)),
    }
}

/// The text that may stand under `key`: nothing where the field is missing or
/// null.
pub open spec fn opt_field_spec(
    j: JsonView,
    key: Seq<char>,
) -> Result<Option<Seq<char>>, Seq<char>> {
    match get_spec(j, key) {
        None => Ok(None),
        Some(JsonView::Null) => Ok(None),
        Some(JsonView::Str(s)) => Ok(Some(s)),
        Some(_) => Err(wrong_field(key)),
    }
}

/// The request that the object `j` stands for, or what is wrong with it. Fields
/// that a request does not have are passed over.
pub open spec fn request_of_spec(j: JsonView) -> Result<RequestModel, Seq<char>> {
    match text_field_spec(j, "op"@) {
        Err(e) => Err(e),
        Ok(op) => if op == "call"@ {
            match text_field_spec(j, "method"@) {
                Err(e) => Err(e),
                Ok(method) => match text_field_spec(j, "path"@) {
                    Err(e) => Err(e),
                    Ok(path) => match opt_field_spec(j, "body"@) {
                        Err(e) => Err(e),
                        Ok(body) => Ok(RequestModel::Call { method, path, body }),
                    },
                },
            }
        } else if op == "shutdown"@ {
            Ok(RequestModel::Shutdown)
        } else if op == "ping"@ {
            Ok(RequestModel::Ping)
        } else {
            Err(
                "unknown variant `"@ + op + "`, expected one of `call`, `shutdown`, `ping`"@,
            )
        },
    }
}

/// The request that the line `line` stands for, or what is wrong with it.
pub open spec fn read_request_spec(line: Seq<char>) -> Result<RequestModel, Seq<char>> {
    match parsed_json(line) {
        Ok(j) => request_of_spec(j),
        Err(e) => Err(e),
    }
}

fn text_field(j: &Json, key: &str) -> (r: Result<String, String>)
    ensures
        r matches Ok(s) ==> text_field_spec(j@, key@) == Ok::<Seq<char>, Seq<char>>(s@),
        r matches Err(e) ==> text_field_spec(j@, key@) == Err::<Seq<char>, Seq<char>>(e@),
{
    match j.get(key) {
        None => {
            let mut m = "missing field `".to_owned();
            m.append(key);
            m.append("`");
            Err(m)
        },
        Some(v) => match v.as_str() {
            Some(s) => Ok(s.to_owned()),
            None => Err(wrong_type(key)),
        },
    }
}

fn wrong_type(key: &str) -> (r: String)
    ensures
        r@ == wrong_field(key@),
{
    let mut m = "invalid type in field `".to_owned();
    m.append(key);
    m.append("`, expected a string");
    m
}

fn opt_field(j: &Json, key: &str) -> (r: Result<Option<String>, String>)
    ensures
        r matches Ok(s) ==> opt_field_spec(j@, key@) == Ok::<Option<Seq<char>>, Seq<char>>(
            opt_text(s),
        ),
        r matches Err(e) ==> opt_field_spec(j@, key@) == Err::<Option<Seq<char>>, Seq<char>>(e@),
{
    match j.get(key) {
        None => Ok(None),
        Some(v) => match v {
            Json::Null => Ok(None),
            Json::Str(s) => Ok(Some(s.clone())),
            _ => Err(wrong_type(key)),
        },
    }
}

/// The object that the request `r` is written as.
pub fn request_json(r: &Request) -> (j: Json)
    ensures
        j@ == request_json_spec(request_model(*r)),
        is_plain_object(j@),
{
    match r {
        Request::Call { method, path, body } => {
            let b = match body {
                Some(b) => Json::text(b.as_str()),
                None => Json::Null,
            };
            Json::object().with("op", Json::text("call")).with(
                "method",
                Json::text(method.as_str()),
            ).with("path", Json::text(path.as_str())).with("body", b)
        },
        Request::Shutdown => Json::object().with("op", Json::text("shutdown")),
        Request::Ping => Json::object().with("op", Json::text("ping")),
    }
}

/// The request that the object `j` stands for, or what is wrong with it.
pub fn request_of(j: &Json) -> (r: Result<Request, String>)
    ensures
        request_result(r) == request_of_spec(j@),
{
    let op = match text_field(j, "op") {
        Ok(op) => op,
        Err(e) => {
            return Err(e);
        },
    };
    if crate::text::same(op.as_str(), "call") {
        let method = match text_field(j, "method") {
            Ok(s) => s,
            Err(e) => {
                return Err(e);
            },
        };
        let path = match text_field(j, "path") {
            Ok(s) => s,
            Err(e) => {
                return Err(e);
            },
        };
        match opt_field(j, "body") {
            Ok(body) => Ok(Request::Call { method, path, body }),
            Err(e) => Err(e),
        }
    } else if crate::text::same(op.as_str(), "shutdown") {
        Ok(Request::Shutdown)
    } else if crate::text::same(op.as_str(), "ping") {
        Ok(Request::Ping)
    } else {
        let mut m = "unknown variant `".to_owned();
        m.append(op.as_str());
        m.append("`, expected one of `call`, `shutdown`, `ping`");
        Err(m)
    }
}

proof fn lemma_request_keys()
    ensures
        "op"@ != "method"@ && "op"@ != "path"@ && "op"@ != "body"@,
        "method"@ != "path"@ && "method"@ != "body"@ && "path"@ != "body"@,
        "call"@ != "shutdown"@ && "call"@ != "ping"@ && "shutdown"@ != "ping"@,
{
    reveal_strlit("op");
    reveal_strlit("method");
    reveal_strlit("path");
    reveal_strlit("body");
    reveal_strlit("call");
    reveal_strlit("shutdown");
    reveal_strlit("ping");
    assert("op"@.len() == 2 && "method"@.len() == 6 && "path"@.len() == 4 && "body"@.len() == 4);
    assert("call"@.len() == 4 && "shutdown"@.len() == 8 && "ping"@.len() == 4);
    assert("path"@[0] != "body"@[0]);
    assert("call"@[0] != "ping"@[0]);
}

/// The object that a request is written as stands for that request.
pub proof fn requests_read_back(r: RequestModel)
    ensures
        request_of_spec(request_json_spec(r)) == Ok::<RequestModel, Seq<char>>(r),
{
    lemma_request_keys();
}

/// The line that the request `r` is sent as, without its line feed. It reads
/// back as the request.
pub fn write_request(r: &Request) -> (line: String)
    ensures
        line@ == json_text(request_json_spec(request_model(*r))),
        free_of(line@, '\n'),
        read_request_spec(line@) == Ok::<RequestModel, Seq<char>>(request_model(*r)),
{
    let j = request_json(r);
    proof {
        requests_read_back(request_model(*r));
    }
    json::render(&j)
}

/// The request that the line `line` stands for, or what is wrong with it: it is
/// no JSON, or an object that is no request.
pub fn read_request(line: &str) -> (r: Result<Request, String>)
    ensures
        request_result(r) == read_request_spec(line@),
{
    let parsed = json::parse(line);
    assert(parse_view(parsed) == parsed_json(line@));
    match parsed {
        Ok(j) => request_of(&j),
        Err(e) => Err(e),
    }
}

// ---------------------------------------------------------------------------
// Answers
// ---------------------------------------------------------------------------

/// The object that the answer `r` is written as.
pub open spec fn response_json_spec(r: ResponseView) -> JsonView {
    match r {
        ResponseView::CallOk { ok, status, body } => JsonView::Object(
            map![
                "ok"@ => JsonView::Bool(ok),
                "status"@ => number_view(status as u64),
                "body"@ => str_view(body),
            ],
        ),
        ResponseView::Pong { ok, pong } => JsonView::Object(
            map!["ok"@ => JsonView::Bool(ok), "pong"@ => JsonView::Bool(pong)],
        ),
        ResponseView::Failed { ok, error } => JsonView::Object(
            map!["ok"@ => JsonView::Bool(ok), "error"@ => str_view(error)],
        ),
    }
}

/// The HTTP status under `status`.
pub open spec fn status_field(j: JsonView) -> Option<u16> {
    match get_spec(j, "status"@) {
        Some(v) => match as_u64_spec(v) {
            Some(n) => if n <= u16::MAX {
                Some(n as u16)
            } else {
                None
            },
            None => None,
        },
        None => None,
    }
}

/// The answer that the object `j` stands for: the first of the three kinds
/// whose fields it has.
pub open spec fn response_of_spec(j: JsonView) -> Result<ResponseView, Seq<char>> {
    let ok = get_bool_spec(j, "ok"@);
    let status = status_field(j);
    let body = get_str_spec(j, "body"@);
    let pong = get_bool_spec(j, "pong"@);
    let error = get_str_spec(j, "error"@);
    if ok is Some && status is Some && body is Some {
        Ok(ResponseView::CallOk { ok: ok->0, status: status->0, body: body->0 })
    } else if ok is Some && pong is Some {
        Ok(ResponseView::Pong { ok: ok->0, pong: pong->0 })
    } else if ok is Some && error is Some {
        Ok(ResponseView::Failed { ok: ok->0, error: error->0 })
    } else {
        Err("data did not match any variant of untagged enum Response"@)
    }
}

/// The answer that the line `line` stands for, or what is wrong with it.
pub open spec fn read_response_spec(line: Seq<char>) -> Result<ResponseView, Seq<char>> {
    match parsed_json(line) {
        Ok(j) => response_of_spec(j),
        Err(e) => Err(e),
    }
}

/// The object that the answer `r` is written as.
pub fn response_json(r: &Response) -> (j: Json)
    ensures
        j@ == response_json_spec(r@),
        is_plain_object(j@),
{
    match r {
        Response::CallOk { ok, status, body } => Json::object().with("ok", Json::Bool(*ok)).with(
            "status",
            Json::number(*status as u64),
        ).with("body", Json::text(body.as_str())),
        Response::Pong { ok, pong } => Json::object().with("ok", Json::Bool(*ok)).with(
            "pong",
            Json::Bool(*pong),
        ),
        Response::Failed { ok, error } => Json::object().with("ok", Json::Bool(*ok)).with(
            "error",
            Json::text(error.as_str()),
        ),
    }
}

/// The answer that the object `j` stands for.
pub fn response_of(j: &Json) -> (r: Result<Response, String>)
    ensures
        response_result(r) == response_of_spec(j@),
{
    let status: Option<u16> = match j.get("status") {
        Some(v) => match v.as_u64() {
            Some(n) => {
                if n <= u16::MAX as u64 {
                    Some(n as u16)
                } else {
                    None
                }
            },
            None => None,
        },
        None => None,
    };
    if let Some(ok) = j.get_bool("ok") {
        if let Some(status) = status {
            if let Some(body) = j.get_str("body") {
                return Ok(Response::CallOk { ok, status, body: body.to_owned() });
            }
        }
        if let Some(pong) = j.get_bool("pong") {
            return Ok(Response::Pong { ok, pong });
        }
        if let Some(error) = j.get_str("error") {
            return Ok(Response::Failed { ok, error: error.to_owned() });
        }
    }
    Err("data did not match any variant of untagged enum Response".to_owned())
}

/// The object that an answer is written as stands for that answer.
pub proof fn answers_read_back(r: ResponseView)
    ensures
        response_of_spec(response_json_spec(r)) == Ok::<ResponseView, Seq<char>>(r),
{
    reveal_strlit("ok");
    reveal_strlit("status");
    reveal_strlit("body");
    reveal_strlit("pong");
    reveal_strlit("error");
    assert("ok"@.len() == 2 && "status"@.len() == 6 && "body"@.len() == 4 && "pong"@.len() == 4
        && "error"@.len() == 5);
}

/// The line that the answer `r` is sent as, without its line feed. It reads
/// back as the answer.
pub fn write_response(r: &Response) -> (line: String)
    ensures
        line@ == json_text(response_json_spec(r@)),
        free_of(line@, '\n'),
        read_response_spec(line@) == Ok::<ResponseView, Seq<char>>(r@),
{
    let j = response_json(r);
    proof {
        answers_read_back(r@);
    }
    json::render(&j)
}

/// The answer that the line `line` stands for, or what is wrong with it: it is
/// no JSON, or no answer.
pub fn read_response(line: &str) -> (r: Result<Response, String>)
    ensures
        response_result(r) == read_response_spec(line@),
{
    let parsed = json::parse(line);
    assert(parse_view(parsed) == parsed_json(line@));
    match parsed {
        Ok(j) => response_of(&j),
        Err(e) => Err(e),
    }
}

// ---------------------------------------------------------------------------
// What stands on a line
// ---------------------------------------------------------------------------

proof fn lemma_line_keys()
    ensures
        "op"@ != "method"@,
        "op"@ != "path"@,
        "op"@ != "body"@,
        "op"@ != "ok"@,
        "op"@ != "status"@,
        "op"@ != "pong"@,
        "op"@ != "error"@,
        "method"@ != "path"@,
        "method"@ != "body"@,
        "method"@ != "ok"@,
        "method"@ != "status"@,
        "method"@ != "pong"@,
        "method"@ != "error"@,
        "path"@ != "body"@,
        "path"@ != "ok"@,
        "path"@ != "status"@,
        "path"@ != "pong"@,
        "path"@ != "error"@,
        "body"@ != "ok"@,
        "body"@ != "status"@,
        "body"@ != "pong"@,
        "body"@ != "error"@,
        "ok"@ != "status"@,
        "ok"@ != "pong"@,
        "ok"@ != "error"@,
        "status"@ != "pong"@,
        "status"@ != "error"@,
        "pong"@ != "error"@,
{
    reveal_strlit("op");
    reveal_strlit("method");
    reveal_strlit("path");
    reveal_strlit("body");
    reveal_strlit("ok");
    reveal_strlit("status");
    reveal_strlit("pong");
    reveal_strlit("error");
    assert("op"@.len() == 2);
    assert("method"@.len() == 6);
    assert("path"@.len() == 4);
    assert("body"@.len() == 4);
    assert("ok"@.len() == 2);
    assert("status"@.len() == 6);
    assert("pong"@.len() == 4);
    assert("error"@.len() == 5);
    assert("op"@[1] != "ok"@[1]);
    assert("method"@[0] != "status"@[0]);
    assert("path"@[0] != "body"@[0]);
    assert("path"@[1] != "pong"@[1]);
    assert("body"@[0] != "pong"@[0]);
}

/// A request's line names what is asked for, and of a request to the
/// marketplace its method, path and body, null where there is none.
pub proof fn requests_are_written_by_name(
    method: Seq<char>,
    path: Seq<char>,
    body: Option<Seq<char>>,
)
    ensures
        get_spec(request_json_spec(RequestModel::Call { method, path, body }), "op"@) == Some(
            JsonView::Str("call"@),
        ),
        get_spec(request_json_spec(RequestModel::Call { method, path, body }), "method"@) == Some(
            JsonView::Str(method),
        ),
        get_spec(request_json_spec(RequestModel::Call { method, path, body }), "path"@) == Some(
            JsonView::Str(path),
        ),
        get_spec(request_json_spec(RequestModel::Call { method, path, body }), "body"@) == Some(
            match body {
                Some(b) => JsonView::Str(b),
                None => JsonView::Null,
            },
        ),
        get_spec(request_json_spec(RequestModel::Shutdown), "op"@) == Some(
            JsonView::Str("shutdown"@),
        ),
        get_spec(request_json_spec(RequestModel::Ping), "op"@) == Some(JsonView::Str("ping"@)),
{
    lemma_line_keys();
}

/// An answer's line says whether all went well, and holds status and body, the
/// sign of life, or the error.
pub proof fn answers_are_written_by_name(
    ok: bool,
    status: u16,
    body: Seq<char>,
    pong: bool,
)
    ensures
        get_spec(response_json_spec(ResponseView::CallOk { ok, status, body }), "ok"@) == Some(
            JsonView::Bool(ok),
        ),
        get_spec(response_json_spec(ResponseView::CallOk { ok, status, body }), "status"@) == Some(
            JsonView::Number(crate::json::NumberView::Unsigned(status as u64)),
        ),
        get_spec(response_json_spec(ResponseView::CallOk { ok, status, body }), "body"@) == Some(
            JsonView::Str(body),
        ),
        get_spec(response_json_spec(ResponseView::Pong { ok, pong }), "ok"@) == Some(
            JsonView::Bool(ok),
        ),
        get_spec(response_json_spec(ResponseView::Pong { ok, pong }), "pong"@) == Some(
            JsonView::Bool(pong),
        ),
        get_spec(response_json_spec(ResponseView::Failed { ok, error: body }), "ok"@) == Some(
            JsonView::Bool(ok),
        ),
        get_spec(response_json_spec(ResponseView::Failed { ok, error: body }), "error"@) == Some(
            JsonView::Str(body),
        ),
{
    lemma_line_keys();
}

/// A line is a request exactly where it names one of the three operations and,
/// for a request to the marketplace, has method and path as text and a body that
/// is text, null or missing.
pub proof fn requests_need_their_fields(j: JsonView)
    ensures
        request_of_spec(j) is Ok <==> {
            ||| get_spec(j, "op"@) == Some(JsonView::Str("shutdown"@))
            ||| get_spec(j, "op"@) == Some(JsonView::Str("ping"@))
            ||| get_spec(j, "op"@) == Some(JsonView::Str("call"@)) && (get_spec(j, "method"@)
                matches Some(JsonView::Str(_))) && (get_spec(j, "path"@) matches Some(
                JsonView::Str(_),
            )) && (get_spec(j, "body"@) is None || get_spec(j, "body"@) == Some(JsonView::Null) || (
            get_spec(j, "body"@) matches Some(JsonView::Str(_))))
        },
        request_of_spec(j) matches Ok(RequestModel::Call { method, path, body }) ==> {
            &&& get_spec(j, "method"@) == Some(JsonView::Str(method))
            &&& get_spec(j, "path"@) == Some(JsonView::Str(path))
            &&& body matches Some(b) ==> get_spec(j, "body"@) == Some(JsonView::Str(b))
        },
{
    reveal_strlit("call");
    reveal_strlit("ping");
    reveal_strlit("shutdown");
    assert("call"@.len() == 4 && "ping"@.len() == 4 && "shutdown"@.len() == 8);
    assert("call"@[0] != "ping"@[0]);
}

/// A line is read as the marketplace's answer wherever it has success, status
/// and body; else as a sign of life where it has that; else as a failure where
/// it has an error; and else not at all. Other fields count for nothing.
pub proof fn answers_are_read_by_their_fields(
    j: JsonView,
    ok: bool,
    status: u16,
    body: Seq<char>,
    pong: bool,
)
    ensures
        get_spec(j, "ok"@) == Some(JsonView::Bool(ok)) ==> {
            &&& get_spec(j, "status"@) == Some(
                JsonView::Number(crate::json::NumberView::Unsigned(status as u64)),
            ) && get_spec(j, "body"@) == Some(JsonView::Str(body)) ==> response_of_spec(j) == Ok::<
                ResponseView,
                Seq<char>,
            >(ResponseView::CallOk { ok, status, body })
            &&& !(get_spec(j, "body"@) matches Some(JsonView::Str(_))) && get_spec(j, "pong"@)
                == Some(JsonView::Bool(pong)) ==> response_of_spec(j) == Ok::<
                ResponseView,
                Seq<char>,
            >(ResponseView::Pong { ok, pong })
            &&& !(get_spec(j, "status"@) matches Some(JsonView::Number(_))) && get_spec(j, "pong"@)
                == Some(JsonView::Bool(pong)) ==> response_of_spec(j) == Ok::<
                ResponseView,
                Seq<char>,
            >(ResponseView::Pong { ok, pong })
            &&& !(get_spec(j, "status"@) matches Some(JsonView::Number(_))) && !(get_spec(
                j,
                "pong"@,
            ) matches Some(JsonView::Bool(_))) && get_spec(j, "error"@) == Some(JsonView::Str(body))
                ==> response_of_spec(j) == Ok::<ResponseView, Seq<char>>(
                ResponseView::Failed { ok, error: body },
            )
        },
        !(get_spec(j, "ok"@) matches Some(JsonView::Bool(_))) ==> response_of_spec(j) is Err,
        !(get_spec(j, "status"@) matches Some(JsonView::Number(_))) && !(get_spec(j, "pong"@)
            matches Some(JsonView::Bool(_))) && !(get_spec(j, "error"@) matches Some(
            JsonView::Str(_),
        )) ==> response_of_spec(j) is Err,
{
}

} // verus!
