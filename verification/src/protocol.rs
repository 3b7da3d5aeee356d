//! The JSON-RPC dispatcher: a stateless request-to-response function over
//! three recognized methods, routing `tools/call` into the tool catalog and
//! the calculator, and shaping every failure into the error envelope.

use vstd::prelude::*;
use vstd::string::StringExecFns;
use crate::calc::{
    calculate,
    decimal_of,
    empty_expr_msg,
    eval_error_msg,
    eval_of,
    finite_bits,
    has_nonspace,
    invalid_result_msg,
};
use crate::json::{json_get, str_eq, JsonModel, JsonValue};
use crate::normalize::{normalize, spec_normalize};
use crate::tools::{handle_list_tools, tools_list_model};

verus! {

/// A request as read off the wire: the version text is echoed, never
/// interpreted, and so is the id.
#[derive(Debug, PartialEq)]
pub struct RpcRequest {
    pub jsonrpc: String,
    pub method: String,
    pub params: Option<JsonValue>,
    pub id: Option<JsonValue>,
}

/// The error member of a response envelope.
#[derive(Debug, PartialEq)]
pub struct RpcError {
    pub code: i32,
    pub message: String,
    pub data: Option<JsonValue>,
}

/// A response envelope: exactly one of `result` and `error` is present, and
/// the id is copied from the request.
#[derive(Debug, PartialEq)]
pub struct RpcResponse {
    pub jsonrpc: String,
    pub result: Option<JsonValue>,
    pub error: Option<RpcError>,
    pub id: Option<JsonValue>,
}

pub open spec fn opt_model(o: Option<JsonValue>) -> Option<JsonModel> {
    match o {
        Some(v) => Some(v@),
        None => None,
    }
}

/// The mathematical shape of a request.
#[verifier::ext_equal]
pub struct RequestModel {
    pub jsonrpc: Seq<char>,
    pub method: Seq<char>,
    pub params: Option<JsonModel>,
    pub id: Option<JsonModel>,
}

/// The mathematical shape of the error member.
#[verifier::ext_equal]
pub struct ErrorModel {
    pub code: int,
    pub message: Seq<char>,
    pub data: Option<JsonModel>,
}

/// The mathematical shape of a response.
#[verifier::ext_equal]
pub struct ResponseModel {
    pub jsonrpc: Seq<char>,
    pub result: Option<JsonModel>,
    pub error: Option<ErrorModel>,
    pub id: Option<JsonModel>,
}

impl View for RpcRequest {
    type V = RequestModel;

    open spec fn view(&self) -> RequestModel {
        RequestModel {
            jsonrpc: self.jsonrpc@,
            method: self.method@,
            params: opt_model(self.params),
            id: opt_model(self.id),
        }
    }
}

impl View for RpcError {
    type V = ErrorModel;

    open spec fn view(&self) -> ErrorModel {
        ErrorModel { code: self.code as int, message: self.message@, data: opt_model(self.data) }
    }
}

impl View for RpcResponse {
    type V = ResponseModel;

    open spec fn view(&self) -> ResponseModel {
        ResponseModel {
            jsonrpc: self.jsonrpc@,
            result: match self.result {
                Some(v) => Some(v@),
                None => None,
            },
            error: match self.error {
                Some(e) => Some(e@),
                None => None,
            },
            id: opt_model(self.id),
        }
    }
}

/// A success envelope carrying `result`.
pub open spec fn ok_model(result: JsonModel, id: Option<JsonModel>) -> ResponseModel {
    ResponseModel { jsonrpc: "2.0"@, result: Some(result), error: None, id }
}

/// A failure envelope carrying `error` and no data.
pub open spec fn err_model(code: int, message: Seq<char>, id: Option<JsonModel>) -> ResponseModel {
    ResponseModel {
        jsonrpc: "2.0"@,
        result: None,
        error: Some(ErrorModel { code, message, data: None }),
        id,
    }
}

/// The fixed announcement `initialize` returns.
pub open spec fn initialize_model() -> JsonModel {
    JsonModel::Obj(
        seq![
            ("protocolVersion"@, JsonModel::Text("2024-11-05"@)),
            (
                "serverInfo"@,
                JsonModel::Obj(
                    seq![
                        ("name"@, JsonModel::Text("mcp-math-server"@)),
                        ("version"@, JsonModel::Text("0.1.0"@)),
                    ],
                ),
            ),
            (
                "capabilities"@,
                JsonModel::Obj(seq![("tools"@, JsonModel::Obj(Seq::empty()))]),
            ),
        ],
    )
}

/// A tool reply carrying one text block.
pub open spec fn content_model(text: Seq<char>) -> JsonModel {
    JsonModel::Obj(
        seq![
            (
                "content"@,
                JsonModel::Arr(
                    seq![
                        JsonModel::Obj(
                            seq![
                                ("type"@, JsonModel::Text("text"@)),
                                ("text"@, JsonModel::Text(text)),
                            ],
                        ),
                    ],
                ),
            ),
        ],
    )
}

/// A tool reply carrying one text block and the failure mark.
pub open spec fn error_content_model(text: Seq<char>) -> JsonModel {
    JsonModel::Obj(
        seq![
            (
                "content"@,
                JsonModel::Arr(
                    seq![
                        JsonModel::Obj(
                            seq![
                                ("type"@, JsonModel::Text("text"@)),
                                ("text"@, JsonModel::Text(text)),
                            ],
                        ),
                    ],
                ),
            ),
            ("isError"@, JsonModel::Bool(true)),
        ],
    )
}

/// The text reported on a successful calculation.
pub open spec fn calc_report(expr: Seq<char>, value: Seq<char>, norm: Seq<char>) -> Seq<char> {
    "expression: "@ + expr + "\nresult: "@ + value + "\nconverted expression: "@ + norm
}

/// The text reported on a failed calculation.
pub open spec fn calc_failure_report(e: Seq<char>) -> Seq<char> {
    "calculation error: "@ + e
}

/// The text reported by the conversion tool.
pub open spec fn latex_report(latex: Seq<char>, norm: Seq<char>) -> Seq<char> {
    "LaTeX: "@ + latex + "\nconverted expression: "@ + norm
}

/// What a `calculate_math` call replies for the expression `e`: a success
/// block quoting the expression, the value and the normalized text, or a
/// failure block quoting the calculator's message.
pub open spec fn spec_calc_content(e: Seq<char>) -> JsonModel {
    if !has_nonspace(spec_normalize(e)) {
        error_content_model(calc_failure_report(empty_expr_msg()))
    } else {
        match eval_of(spec_normalize(e)) {
            Ok(bits) => if finite_bits(bits) {
                content_model(calc_report(e, decimal_of(bits), spec_normalize(e)))
            } else {
                error_content_model(calc_failure_report(invalid_result_msg()))
            },
            Err(em) => error_content_model(calc_failure_report(eval_error_msg(em))),
        }
    }
}

/// What `tools/call` replies once a tool name and arguments are in hand: a
/// payload for the two known tools when their one string argument is
/// present. A known tool whose required argument is absent or not a string
/// answers inside a success envelope whose content signals the failure — a
/// tool-level error, never a protocol error. Only an unknown name is
/// refused.
pub open spec fn spec_call_tool(name: Seq<char>, args: JsonModel) -> Result<JsonModel, Seq<char>> {
    if name == "calculate_math"@ {
        match json_get(args, "expression"@) {
            Some(JsonModel::Text(e)) => Ok(spec_calc_content(e)),
            _ => Ok(error_content_model("math expression must not be empty"@)),
        }
    } else if name == "latex_to_expr"@ {
        match json_get(args, "latex"@) {
            Some(JsonModel::Text(l)) => Ok(content_model(latex_report(l, spec_normalize(l)))),
            _ => Ok(error_content_model("LaTeX expression must not be empty"@)),
        }
    } else {
        Err("unknown tool"@)
    }
}

/// The whole dispatch: the three recognized methods, the errors of
/// `tools/call` resolution, and the unknown-method error, each shaped into
/// an envelope that echoes the request's id.
pub open spec fn spec_handle_request(r: RequestModel) -> ResponseModel {
    if r.method == "initialize"@ {
        ok_model(initialize_model(), r.id)
    } else if r.method == "tools/list"@ {
        ok_model(tools_list_model(), r.id)
    } else if r.method == "tools/call"@ {
        match r.params {
            Some(p) => match json_get(p, "name"@) {
                Some(JsonModel::Text(name)) => match json_get(p, "arguments"@) {
                    Some(args) => match spec_call_tool(name, args) {
                        Ok(v) => ok_model(v, r.id),
                        Err(m) => err_model(-32602, m, r.id),
                    },
                    None => err_model(-32602, "tool arguments must not be empty"@, r.id),
                },
                _ => err_model(-32602, "tool name must not be empty"@, r.id),
            },
            None => err_model(-32602, "missing tool parameters"@, r.id),
        }
    } else {
        err_model(-32602, "unknown method: "@ + r.method, r.id)
    }
}

/// The response to one stdio line: the dispatch on a parsed request, or the
/// parse-error envelope, with a null id, on a line that is not JSON.
pub open spec fn parse_error_model(e: Seq<char>) -> ResponseModel {
    err_model(-32700, "failed to parse JSON: "@ + e, None)
}

/// Listing is idempotent: any two `tools/list` requests, with no state in
/// between, are answered with the same payload — the fixed catalog of
/// exactly two tools, in the same order.
pub proof fn lemma_tools_list_idempotent(r1: RequestModel, r2: RequestModel)
    requires
        r1.method == "tools/list"@,
        r2.method == "tools/list"@,
    ensures
        spec_handle_request(r1).result == spec_handle_request(r2).result,
        spec_handle_request(r1).result == Some(tools_list_model()),
        tools_list_model()->Obj_0[0].1->Arr_0.len() == 2,
{
    reveal_strlit("initialize");
    reveal_strlit("tools/list");
    assert("tools/list"@[0] != "initialize"@[0]);
}

/// A request with an unrecognized method is answered with an error
/// envelope: an error present, no result, the request's id echoed.
pub proof fn lemma_unknown_method(r: RequestModel)
    requires
        r.method != "initialize"@,
        r.method != "tools/list"@,
        r.method != "tools/call"@,
    ensures
        spec_handle_request(r).result is None,
        spec_handle_request(r).error is Some,
        spec_handle_request(r).id == r.id,
{
}

/// Every response the dispatcher shapes carries exactly one of `result`
/// and `error`, echoes the request's id, and announces version "2.0".
pub proof fn lemma_response_envelope(r: RequestModel)
    ensures
        (spec_handle_request(r).result is Some) != (spec_handle_request(r).error is Some),
        spec_handle_request(r).id == r.id,
        spec_handle_request(r).jsonrpc == "2.0"@,
{
}

fn content_json(text: String) -> (r: JsonValue)
    ensures
        r@ == content_model(text@),
{
    let mut inner: Vec<(String, JsonValue)> = Vec::new();
    inner.push((String::from_str("type"), JsonValue::Text(String::from_str("text"))));
    inner.push((String::from_str("text"), JsonValue::Text(text)));
    let block = JsonValue::Obj(inner);
    let mut items: Vec<JsonValue> = Vec::new();
    items.push(block);
    let arr = JsonValue::Arr(items);
    let mut fields: Vec<(String, JsonValue)> = Vec::new();
    fields.push((String::from_str("content"), arr));
    let r = JsonValue::Obj(fields);
    proof {
        reveal_with_fuel(JsonValue::model, 8);
        let ghost tm = text@;
        assert(block@->Obj_0 =~~= seq![
            ("type"@, JsonModel::Text("text"@)),
            ("text"@, JsonModel::Text(tm)),
        ]);
        assert(block@ =~~= JsonModel::Obj(
            seq![("type"@, JsonModel::Text("text"@)), ("text"@, JsonModel::Text(tm))],
        ));
        assert(arr@->Arr_0 =~~= seq![block@]);
        assert(arr@ =~~= JsonModel::Arr(seq![block@]));
        assert(r@->Obj_0 =~~= content_model(tm)->Obj_0);
        assert(r@ =~~= content_model(tm));
    }
    r
}

fn error_content_json(text: String) -> (r: JsonValue)
    ensures
        r@ == error_content_model(text@),
{
    let mut inner: Vec<(String, JsonValue)> = Vec::new();
    inner.push((String::from_str("type"), JsonValue::Text(String::from_str("text"))));
    inner.push((String::from_str("text"), JsonValue::Text(text)));
    let block = JsonValue::Obj(inner);
    let mut items: Vec<JsonValue> = Vec::new();
    items.push(block);
    let arr = JsonValue::Arr(items);
    let mut fields: Vec<(String, JsonValue)> = Vec::new();
    fields.push((String::from_str("content"), arr));
    fields.push((String::from_str("isError"), JsonValue::Bool(true)));
    let r = JsonValue::Obj(fields);
    proof {
        reveal_with_fuel(JsonValue::model, 8);
        let ghost tm = text@;
        assert(block@->Obj_0 =~~= seq![
            ("type"@, JsonModel::Text("text"@)),
            ("text"@, JsonModel::Text(tm)),
        ]);
        assert(block@ =~~= JsonModel::Obj(
            seq![("type"@, JsonModel::Text("text"@)), ("text"@, JsonModel::Text(tm))],
        ));
        assert(arr@->Arr_0 =~~= seq![block@]);
        assert(arr@ =~~= JsonModel::Arr(seq![block@]));
        assert(r@->Obj_0 =~~= error_content_model(tm)->Obj_0);
        assert(r@ =~~= error_content_model(tm));
    }
    r
}

fn initialize_json() -> (r: JsonValue)
    ensures
        r@ == initialize_model(),
{
    let mut info_fields: Vec<(String, JsonValue)> = Vec::new();
    info_fields.push(
        (String::from_str("name"), JsonValue::Text(String::from_str("mcp-math-server"))),
    );
    info_fields.push((String::from_str("version"), JsonValue::Text(String::from_str("0.1.0"))));
    let info = JsonValue::Obj(info_fields);
    let mut cap_fields: Vec<(String, JsonValue)> = Vec::new();
    cap_fields.push((String::from_str("tools"), JsonValue::Obj(Vec::new())));
    let caps = JsonValue::Obj(cap_fields);
    let mut fields: Vec<(String, JsonValue)> = Vec::new();
    fields.push(
        (String::from_str("protocolVersion"), JsonValue::Text(String::from_str("2024-11-05"))),
    );
    fields.push((String::from_str("serverInfo"), info));
    fields.push((String::from_str("capabilities"), caps));
    let r = JsonValue::Obj(fields);
    proof {
        reveal_with_fuel(JsonValue::model, 8);
        assert(info@->Obj_0 =~~= seq![
            ("name"@, JsonModel::Text("mcp-math-server"@)),
            ("version"@, JsonModel::Text("0.1.0"@)),
        ]);
        assert(info@ =~~= JsonModel::Obj(
            seq![
                ("name"@, JsonModel::Text("mcp-math-server"@)),
                ("version"@, JsonModel::Text("0.1.0"@)),
            ],
        ));
        assert(caps@->Obj_0[0].1->Obj_0 =~~= Seq::<(Seq<char>, JsonModel)>::empty());
        assert(caps@->Obj_0 =~~= seq![("tools"@, JsonModel::Obj(Seq::empty()))]);
        assert(caps@ =~~= JsonModel::Obj(seq![("tools"@, JsonModel::Obj(Seq::empty()))]));
        assert(r@->Obj_0 =~~= initialize_model()->Obj_0);
        assert(r@ =~~= initialize_model());
    }
    r
}

/// Routes a `tools/call` with a resolved name and arguments: the two known
/// tools answer with a text payload, and a missing or non-string argument
/// of a known tool answers with a failure-marked payload rather than an
/// error; only an unknown name is refused.
pub fn handle_call_tool(name: &str, args: &JsonValue) -> (r: Result<JsonValue, String>)
    ensures
        match r {
            Ok(v) => spec_call_tool(name@, args@) == Ok::<JsonModel, Seq<char>>(v@),
            Err(m) => spec_call_tool(name@, args@) matches Err(e) && m@ == e,
        },
{
    if str_eq(name, "calculate_math") {
        let expr = match args.get("expression") {
            Some(v) => match v.as_text() {
                Some(s) => s,
                None => {
                    return Ok(
                        error_content_json(String::from_str("math expression must not be empty")),
                    );
                },
            },
            None => {
                return Ok(
                    error_content_json(String::from_str("math expression must not be empty")),
                );
            },
        };
        match calculate(expr.as_str()) {
            Ok(v) => {
                let norm = normalize(expr.as_str());
                let mut text = String::from_str("expression: ");
                text.append(expr.as_str());
                text.append("\nresult: ");
                text.append(v.text.as_str());
                text.append("\nconverted expression: ");
                text.append(norm.as_str());
                assert(text@ == calc_report(expr@, decimal_of(v.bits), spec_normalize(expr@)));
                Ok(content_json(text))
            },
            Err(m) => {
                let mut text = String::from_str("calculation error: ");
                text.append(m.as_str());
                Ok(error_content_json(text))
            },
        }
    } else if str_eq(name, "latex_to_expr") {
        let latex = match args.get("latex") {
            Some(v) => match v.as_text() {
                Some(s) => s,
                None => {
                    return Ok(
                        error_content_json(String::from_str("LaTeX expression must not be empty")),
                    );
                },
            },
            None => {
                return Ok(
                    error_content_json(String::from_str("LaTeX expression must not be empty")),
                );
            },
        };
        let norm = normalize(latex.as_str());
        let mut text = String::from_str("LaTeX: ");
        text.append(latex.as_str());
        text.append("\nconverted expression: ");
        text.append(norm.as_str());
        Ok(content_json(text))
    } else {
        Err(String::from_str("unknown tool"))
    }
}

fn ok_response(result: JsonValue, id: Option<JsonValue>) -> (r: RpcResponse)
    ensures
        r@ == ok_model(result@, opt_model(id)),
{
    RpcResponse { jsonrpc: String::from_str("2.0"), result: Some(result), error: None, id }
}

fn err_response(code: i32, message: String, id: Option<JsonValue>) -> (r: RpcResponse)
    ensures
        r@ == err_model(code as int, message@, opt_model(id)),
{
    RpcResponse {
        jsonrpc: String::from_str("2.0"),
        result: None,
        error: Some(RpcError { code, message, data: None }),
        id,
    }
}

/// The dispatcher: every request yields exactly one response, whose id is
/// copied from the request.
pub fn handle_request(req: RpcRequest) -> (r: RpcResponse)
    ensures
        r@ == spec_handle_request(req@),
{
    let RpcRequest { jsonrpc: _, method, params, id } = req;
    if str_eq(method.as_str(), "initialize") {
        ok_response(initialize_json(), id)
    } else if str_eq(method.as_str(), "tools/list") {
        ok_response(handle_list_tools(), id)
    } else if str_eq(method.as_str(), "tools/call") {
        match &params {
            Some(p) => {
                let name = match p.get("name") {
                    Some(v) => match v.as_text() {
                        Some(s) => s,
                        None => {
                            return err_response(
                                -32602,
                                String::from_str("tool name must not be empty"),
                                id,
                            );
                        },
                    },
                    None => {
                        return err_response(
                            -32602,
                            String::from_str("tool name must not be empty"),
                            id,
                        );
                    },
                };
                match p.get("arguments") {
                    Some(args) => match handle_call_tool(name.as_str(), args) {
                        Ok(v) => ok_response(v, id),
                        Err(m) => err_response(-32602, m, id),
                    },
                    None => err_response(
                        -32602,
                        String::from_str("tool arguments must not be empty"),
                        id,
                    ),
                }
            },
            None => err_response(-32602, String::from_str("missing tool parameters"), id),
        }
    } else {
        let mut msg = String::from_str("unknown method: ");
        msg.append(method.as_str());
        err_response(-32602, msg, id)
    }
}

/// The answer to one stdio line, after the transport has tried to parse it:
/// a parsed request is dispatched; a line that is not JSON is answered with
/// the parse-error envelope and a null id, and the loop goes on.
pub fn handle_line(parsed: Result<RpcRequest, String>) -> (r: RpcResponse)
    ensures
        match parsed {
            Ok(req) => r@ == spec_handle_request(req@),
            Err(e) => r@ == parse_error_model(e@),
        },
{
    match parsed {
        Ok(req) => handle_request(req),
        Err(e) => {
            let mut m = String::from_str("failed to parse JSON: ");
            m.append(e.as_str());
            err_response(-32700, m, None)
        },
    }
}

} // verus!
