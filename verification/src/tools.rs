//! The tool registry: the fixed catalog of the two invocable tools, with
//! their parameter schemas, as `tools/list` advertises them.

use vstd::prelude::*;
use vstd::string::StringExecFns;
use crate::json::{JsonModel, JsonValue};

verus! {

/// The mathematical shape of a tool definition.
#[verifier::ext_equal]
pub struct ToolModel {
    pub name: Seq<char>,
    pub description: Seq<char>,
    pub input_schema: JsonModel,
}

/// A tool the dispatcher can route a `tools/call` to: a name, a
/// human-readable description, and a schema describing its one required
/// string parameter.
#[derive(Debug, PartialEq)]
pub struct ToolDef {
    pub name: String,
    pub description: String,
    pub input_schema: JsonValue,
}

impl View for ToolDef {
    type V = ToolModel;

    open spec fn view(&self) -> ToolModel {
        ToolModel {
            name: self.name@,
            description: self.description@,
            input_schema: self.input_schema@,
        }
    }
}

/// The schema of a tool taking one required string parameter named `param`,
/// with the given description.
pub open spec fn param_schema_model(param: Seq<char>, description: Seq<char>) -> JsonModel {
    JsonModel::Obj(
        seq![
            ("type"@, JsonModel::Text("object"@)),
            (
                "properties"@,
                JsonModel::Obj(
                    seq![
                        (
                            param,
                            JsonModel::Obj(
                                seq![
                                    ("type"@, JsonModel::Text("string"@)),
                                    ("description"@, JsonModel::Text(description)),
                                ],
                            ),
                        ),
                    ],
                ),
            ),
            ("required"@, JsonModel::Arr(seq![JsonModel::Text(param)])),
        ],
    )
}

/// The calculation tool: evaluates an expression handed over under the
/// `expression` argument.
pub open spec fn calc_tool_model() -> ToolModel {
    ToolModel {
        name: "calculate_math"@,
        description: "Evaluates a math expression, in LaTeX or plain syntax"@,
        input_schema: param_schema_model(
            "expression"@,
            "A math expression, in LaTeX or plain syntax. For example: '\\frac{1}{2} + \\sqrt{4}' or '2 + 3 * 4'"@,
        ),
    }
}

/// The conversion tool: rewrites the LaTeX handed over under the `latex`
/// argument without evaluating it.
pub open spec fn latex_tool_model() -> ToolModel {
    ToolModel {
        name: "latex_to_expr"@,
        description: "Converts a LaTeX math expression to a plain computable expression"@,
        input_schema: param_schema_model(
            "latex"@,
            "A LaTeX math expression. For example: '\\frac{1}{2} + \\sqrt{4}'"@,
        ),
    }
}

/// Builds the schema value for one required string parameter.
fn param_schema(param: &str, description: &str) -> (r: JsonValue)
    ensures
        r@ == param_schema_model(param@, description@),
{
    let mut prop_fields: Vec<(String, JsonValue)> = Vec::new();
    prop_fields.push((String::from_str("type"), JsonValue::Text(String::from_str("string"))));
    prop_fields.push(
        (String::from_str("description"), JsonValue::Text(String::from_str(description))),
    );
    let prop = JsonValue::Obj(prop_fields);
    let mut props_fields: Vec<(String, JsonValue)> = Vec::new();
    props_fields.push((String::from_str(param), prop));
    let props = JsonValue::Obj(props_fields);
    let mut req_items: Vec<JsonValue> = Vec::new();
    req_items.push(JsonValue::Text(String::from_str(param)));
    let required = JsonValue::Arr(req_items);
    let mut fields: Vec<(String, JsonValue)> = Vec::new();
    fields.push((String::from_str("type"), JsonValue::Text(String::from_str("object"))));
    fields.push((String::from_str("properties"), props));
    fields.push((String::from_str("required"), required));
    let r = JsonValue::Obj(fields);
    proof {
        reveal_with_fuel(JsonValue::model, 8);
        assert(prop@->Obj_0[0] =~~= ("type"@, JsonModel::Text("string"@)));
        assert(prop@->Obj_0[1] =~~= ("description"@, JsonModel::Text(description@)));
        assert(prop@->Obj_0 =~~= seq![
            ("type"@, JsonModel::Text("string"@)),
            ("description"@, JsonModel::Text(description@)),
        ]);
        assert(prop@ =~~= JsonModel::Obj(
            seq![
                ("type"@, JsonModel::Text("string"@)),
                ("description"@, JsonModel::Text(description@)),
            ],
        ));
        assert(props@->Obj_0 =~~= seq![(param@, prop@)]);
        assert(props@ =~~= JsonModel::Obj(seq![(param@, prop@)]));
        assert(required@->Arr_0 =~~= seq![JsonModel::Text(param@)]);
        assert(required@ =~~= JsonModel::Arr(seq![JsonModel::Text(param@)]));
        let n = param_schema_model(param@, description@)->Obj_0;
        let m = r@->Obj_0;
        assert(m[0] =~~= n[0]);
        assert(m[1] =~~= n[1]);
        assert(m[2] =~~= n[2]);
        assert(m =~~= n);
    }
    assert(r@ =~~= param_schema_model(param@, description@));
    r
}

/// The fixed, ordered catalog of the two tools.
pub fn list_tools() -> (r: Vec<ToolDef>)
    ensures
        r@.len() == 2,
        r@[0]@ == calc_tool_model(),
        r@[1]@ == latex_tool_model(),
{
    let calc = ToolDef {
        name: String::from_str("calculate_math"),
        description: String::from_str("Evaluates a math expression, in LaTeX or plain syntax"),
        input_schema: param_schema(
            "expression",
            "A math expression, in LaTeX or plain syntax. For example: '\\frac{1}{2} + \\sqrt{4}' or '2 + 3 * 4'",
        ),
    };
    let latex = ToolDef {
        name: String::from_str("latex_to_expr"),
        description: String::from_str(
            "Converts a LaTeX math expression to a plain computable expression",
        ),
        input_schema: param_schema(
            "latex",
            "A LaTeX math expression. For example: '\\frac{1}{2} + \\sqrt{4}'",
        ),
    };
    let mut r: Vec<ToolDef> = Vec::new();
    r.push(calc);
    r.push(latex);
    assert(r@[0]@ =~~= calc_tool_model());
    assert(r@[1]@ =~~= latex_tool_model());
    r
}

/// The JSON shape of one tool definition inside the `tools/list` payload.
pub open spec fn tool_json_model(t: ToolModel) -> JsonModel {
    JsonModel::Obj(
        seq![
            ("name"@, JsonModel::Text(t.name)),
            ("description"@, JsonModel::Text(t.description)),
            ("inputSchema"@, t.input_schema),
        ],
    )
}

fn tool_json(t: ToolDef) -> (r: JsonValue)
    ensures
        r@ == tool_json_model(t@),
{
    let ToolDef { name, description, input_schema } = t;
    let mut fields: Vec<(String, JsonValue)> = Vec::new();
    fields.push((String::from_str("name"), JsonValue::Text(name)));
    fields.push((String::from_str("description"), JsonValue::Text(description)));
    fields.push((String::from_str("inputSchema"), input_schema));
    let r = JsonValue::Obj(fields);
    proof {
        reveal_with_fuel(JsonValue::model, 8);
        let m = r@->Obj_0;
        let n = tool_json_model(t@)->Obj_0;
        assert(m[0] =~~= n[0]);
        assert(m[1] =~~= n[1]);
        assert(m[2] =~~= n[2]);
        assert(m =~~= n);
    }
    assert(r@ =~~= tool_json_model(t@));
    r
}

/// The whole `tools/list` payload: the two definitions, in catalog order.
pub open spec fn tools_list_model() -> JsonModel {
    JsonModel::Obj(
        seq![
            (
                "tools"@,
                JsonModel::Arr(
                    seq![tool_json_model(calc_tool_model()), tool_json_model(latex_tool_model())],
                ),
            ),
        ],
    )
}

/// Builds the `tools/list` payload from the catalog.
pub fn handle_list_tools() -> (r: JsonValue)
    ensures
        r@ == tools_list_model(),
{
    let mut defs = list_tools();
    let second = defs.pop().unwrap();
    let first = defs.pop().unwrap();
    let mut items: Vec<JsonValue> = Vec::new();
    items.push(tool_json(first));
    items.push(tool_json(second));
    let mut fields: Vec<(String, JsonValue)> = Vec::new();
    fields.push((String::from_str("tools"), JsonValue::Arr(items)));
    let r = JsonValue::Obj(fields);
    proof {
        reveal_with_fuel(JsonValue::model, 8);
        let m = r@->Obj_0;
        let n = tools_list_model()->Obj_0;
        assert(m[0].1->Arr_0[0] =~~= tool_json_model(calc_tool_model()));
        assert(m[0].1->Arr_0[1] =~~= tool_json_model(latex_tool_model()));
        assert(m[0].1->Arr_0 =~~= seq![
            tool_json_model(calc_tool_model()),
            tool_json_model(latex_tool_model()),
        ]);
        assert(m[0].1 =~~= n[0].1);
        assert(m[0] =~~= n[0]);
        assert(m =~~= n);
    }
    assert(r@ =~~= tools_list_model());
    r
}

} // verus!
