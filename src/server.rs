//! The extraction tool server: a JSON-RPC 2.0 responder over a fixed set of
//! HTML-extraction tools.
use vstd::prelude::*;
use crate::html::{
    analyze_page_structure, extract_by_selectors, extract_clean_text, query_view, CleanText,
    PlatformMatch, SelectedText, SelectorHit,
};
use crate::json::{
    field_of, json_str, member_value, push_member, str_eq, str_field_of, take_field, JsonMember,
    JsonValue,
};
use crate::product::{extract_product_data, ProductData, ProductFields};
use crate::text::concat;

verus! {

pub const METHOD_NOT_FOUND: i32 = -32601;

pub const INVALID_PARAMS: i32 = -32602;

pub const INTERNAL_ERROR: i32 = -32603;

/// One callable tool as the manifest describes it.
#[derive(Debug)]
pub struct ToolInfo {
    pub name: String,
    pub description: String,
    pub input_schema: JsonValue,
}

#[derive(Debug)]
pub struct MCPRequest {
    pub jsonrpc: String,
    pub id: Option<JsonValue>,
    pub method: String,
    pub params: Option<JsonValue>,
}

#[derive(Debug)]
pub struct MCPError {
    pub code: i32,
    pub message: String,
    pub data: Option<JsonValue>,
}

#[derive(Debug)]
pub struct MCPResponse {
    pub jsonrpc: String,
    pub id: Option<JsonValue>,
    pub result: Option<JsonValue>,
    pub error: Option<MCPError>,
}

/// The tools, in manifest order.
pub open spec fn tool_names() -> Seq<Seq<char>> {
    seq![
        "extract_clean_text"@,
        "extract_product_data"@,
        "extract_by_selectors"@,
        "analyze_page_structure"@,
    ]
}

fn tool_name(i: usize) -> (r: &'static str)
    requires
        i < 4,
    ensures
        r@ == tool_names()[i as int],
{
    if i == 0 {
        "extract_clean_text"
    } else if i == 1 {
        "extract_product_data"
    } else if i == 2 {
        "extract_by_selectors"
    } else {
        "analyze_page_structure"
    }
}

/// The tools' descriptions, in manifest order.
pub open spec fn tool_descriptions() -> Seq<Seq<char>> {
    seq![
        "Extract clean, readable text content from HTML"@,
        "Extract structured product information using CSS selectors"@,
        "Extract specific content using CSS selectors"@,
        "Analyze HTML structure and suggest extraction strategies"@,
    ]
}

/// The arguments that tool `i` requires: the page's HTML, and for the
/// selector tool the selector map too.
pub open spec fn required_args(i: int) -> Seq<Seq<char>> {
    if i == 2 {
        seq!["html_content"@, "selectors"@]
    } else {
        seq!["html_content"@]
    }
}

/// `v` is the argument schema of tool `i`: an object schema whose
/// `required` list is `required_args(i)`, each of them a declared property.
pub open spec fn is_schema_of(v: JsonValue, i: int) -> bool {
    &&& str_field_of(v, "type"@) == Some("object"@)
    &&& match field_of(v, "required"@) {
        Some(JsonValue::Array(req)) => req@.len() == required_args(i).len() && forall|k: int|
            0 <= k < req@.len() ==> (match #[trigger] req@[k] {
                JsonValue::Str(x) => x@ == required_args(i)[k],
                _ => false,
            }),
        _ => false,
    }
    &&& match field_of(v, "properties"@) {
        Some(p) => forall|k: int|
            0 <= k < required_args(i).len() ==> #[trigger] field_of(p, required_args(i)[k]) is Some,
        None => false,
    }
}

/// The member name of the schema in a tool description.
pub open spec fn schema_key(camel_case: bool) -> Seq<char> {
    if camel_case {
        "inputSchema"@
    } else {
        "input_schema"@
    }
}

/// `v` describes tool `i`: its name, its description and its schema under `key`.
pub open spec fn describes_tool(v: JsonValue, i: int, key: Seq<char>) -> bool {
    &&& str_field_of(v, "name"@) == Some(tool_names()[i])
    &&& str_field_of(v, "description"@) == Some(tool_descriptions()[i])
    &&& match field_of(v, key) {
        Some(s) => is_schema_of(s, i),
        None => false,
    }
}

fn tool_description(i: usize) -> (r: &'static str)
    requires
        i < 4,
    ensures
        r@ == tool_descriptions()[i as int],
{
    if i == 0 {
        "Extract clean, readable text content from HTML"
    } else if i == 1 {
        "Extract structured product information using CSS selectors"
    } else if i == 2 {
        "Extract specific content using CSS selectors"
    } else {
        "Analyze HTML structure and suggest extraction strategies"
    }
}

fn string_prop(description: &str) -> JsonValue {
    let mut m: Vec<JsonMember> = Vec::new();
    push_member(&mut m, "type", json_str("string"));
    push_member(&mut m, "description", json_str(description));
    JsonValue::Object(m)
}

/// The JSON schema of the arguments of tool `i`.
fn tool_schema(i: usize) -> (r: JsonValue)
    requires
        i < 4,
    ensures
        is_schema_of(r, i as int),
{
    proof {
        reveal_strlit("html_content");
        reveal_strlit("url");
        reveal_strlit("selectors");
        reveal_strlit("type");
        reveal_strlit("properties");
        reveal_strlit("required");
        assert("html_content"@.len() == 12 && "url"@.len() == 3 && "selectors"@.len() == 9);
        assert("type"@.len() == 4 && "properties"@.len() == 10 && "required"@.len() == 8);
    }
    let mut props: Vec<JsonMember> = Vec::new();
    let mut required: Vec<JsonValue> = vec![json_str("html_content")];
    if i == 0 {
        push_member(&mut props, "html_content", string_prop("Raw HTML content to clean"));
    } else if i == 1 {
        push_member(&mut props, "html_content", string_prop("HTML content to parse"));
        push_member(&mut props, "url", string_prop("Source URL for context"));
    } else if i == 2 {
        push_member(&mut props, "html_content", string_prop("HTML content to parse"));
        let mut sel: Vec<JsonMember> = Vec::new();
        push_member(&mut sel, "type", json_str("object"));
        push_member(&mut sel, "description", json_str("CSS selectors to extract data"));
        let mut extra: Vec<JsonMember> = Vec::new();
        push_member(&mut extra, "type", json_str("string"));
        push_member(&mut sel, "additionalProperties", JsonValue::Object(extra));
        push_member(&mut props, "selectors", JsonValue::Object(sel));
        required.push(json_str("selectors"));
    } else {
        push_member(&mut props, "html_content", string_prop("HTML content to analyze"));
    }
    let ghost pv = JsonValue::Object(props);
    let ghost rv = required@;
    let mut m: Vec<JsonMember> = Vec::new();
    push_member(&mut m, "type", json_str("object"));
    push_member(&mut m, "properties", JsonValue::Object(props));
    push_member(&mut m, "required", JsonValue::Array(required));
    proof {
        assert(field_of(pv, "html_content"@) is Some);
        if i == 2 {
            assert(field_of(pv, "selectors"@) is Some);
        }
        assert(forall|k: int|
            0 <= k < required_args(i as int).len() ==> #[trigger] field_of(pv, required_args(i as int)[k]) is Some);
    }
    JsonValue::Object(m)
}

/// The tool list: for each tool its name, description and argument schema,
/// the schema under `inputSchema` or `input_schema`.
pub fn describe_tools(camel_case: bool) -> (r: Vec<JsonValue>)
    ensures
        r@.len() == 4,
        forall|i: int| 0 <= i < 4 ==> describes_tool(#[trigger] r@[i], i, schema_key(camel_case)),
{
    proof {
        reveal_strlit("name");
        reveal_strlit("description");
        reveal_strlit("inputSchema");
        reveal_strlit("input_schema");
        assert("name"@.len() == 4 && "description"@.len() == 11 && "inputSchema"@.len() == 11
            && "input_schema"@.len() == 12);
        assert("description"@[0] != "inputSchema"@[0]);
    }
    let key = if camel_case {
        "inputSchema"
    } else {
        "input_schema"
    };
    let mut out: Vec<JsonValue> = Vec::new();
    let mut i: usize = 0;
    while i < 4
        invariant
            i <= 4,
            out@.len() == i,
            key@ == schema_key(camel_case),
            key@ != "name"@ && key@ != "description"@ && "name"@ != "description"@,
            forall|j: int| 0 <= j < i ==> describes_tool(#[trigger] out@[j], j, schema_key(camel_case)),
        decreases 4 - i,
    {
        let mut m: Vec<JsonMember> = Vec::new();
        push_member(&mut m, "name", json_str(tool_name(i)));
        push_member(&mut m, "description", json_str(tool_description(i)));
        push_member(&mut m, key, tool_schema(i));
        out.push(JsonValue::Object(m));
        i = i + 1;
    }
    out
}

/// The tool set that the server offers; static for the process lifetime.
pub struct MCPServerState {
    pub tools: Vec<ToolInfo>,
}

impl MCPServerState {
    /// The four extraction tools, each with its name, description and argument schema.
    pub fn new() -> (r: MCPServerState)
        ensures
            r.tools@.len() == 4,
            forall|i: int|
                0 <= i < 4 ==> (#[trigger] r.tools@[i]).name@ == tool_names()[i]
                    && r.tools@[i].description@ == tool_descriptions()[i]
                    && is_schema_of(r.tools@[i].input_schema, i),
    {
        let mut tools: Vec<ToolInfo> = Vec::new();
        let mut i: usize = 0;
        while i < 4
            invariant
                i <= 4,
                tools@.len() == i,
                forall|j: int|
                    0 <= j < i ==> (#[trigger] tools@[j]).name@ == tool_names()[j]
                        && tools@[j].description@ == tool_descriptions()[j]
                        && is_schema_of(tools@[j].input_schema, j),
            decreases 4 - i,
        {
            tools.push(
                ToolInfo {
                    name: String::from_str(tool_name(i)),
                    description: String::from_str(tool_description(i)),
                    input_schema: tool_schema(i),
                },
            );
            i = i + 1;
        }
        MCPServerState { tools }
    }

    /// The manifest document: server name, version, description and tools.
    pub fn manifest(&self) -> (r: JsonValue)
        ensures
            match field_of(r, "tools"@) {
                Some(JsonValue::Array(t)) => t@.len() == 4 && forall|i: int|
                    0 <= i < 4 ==> describes_tool(#[trigger] t@[i], i, "input_schema"@),
                _ => false,
            },
    {
        let mut m: Vec<JsonMember> = Vec::new();
        push_member(&mut m, "name", json_str("web-content-extractor"));
        push_member(&mut m, "version", json_str("1.0.0"));
        push_member(
            &mut m,
            "description",
            json_str("Specialized tools for web content extraction and parsing"),
        );
        proof {
            reveal_strlit("name");
            reveal_strlit("version");
            reveal_strlit("description");
            reveal_strlit("tools");
            assert("tools"@.len() != "name"@.len() && "tools"@.len() != "version"@.len()
                && "tools"@.len() != "description"@.len());
        }
        push_member(&mut m, "tools", JsonValue::Array(describe_tools(false)));
        JsonValue::Object(m)
    }
}

/// A validated `tools/call`: the tool and its arguments.
#[derive(Debug)]
pub enum ToolRequest {
    CleanText { html: String },
    ProductData { html: String, url: Option<String> },
    BySelectors { html: String, selectors: Vec<JsonMember> },
    PageStructure { html: String },
}

#[derive(Debug)]
pub enum ToolCallError {
    /// Missing or malformed `name`, `arguments` or a required argument.
    InvalidParams,
    /// A tool name that the server does not offer.
    UnknownTool(String),
}

pub open spec fn html_arg(args: JsonValue) -> Option<String> {
    match field_of(args, "html_content"@) {
        Some(JsonValue::Str(h)) => Some(h),
        _ => None,
    }
}

/// The tool call that `params` describes, checked against the tool's schema.
pub open spec fn tool_request_of(params: JsonValue) -> Result<ToolRequest, ToolCallError> {
    match (field_of(params, "name"@), field_of(params, "arguments"@)) {
        (Some(JsonValue::Str(name)), Some(args)) => if name@ == tool_names()[0] {
            match html_arg(args) {
                Some(h) => Ok(ToolRequest::CleanText { html: h }),
                None => Err(ToolCallError::InvalidParams),
            }
        } else if name@ == tool_names()[1] {
            match html_arg(args) {
                Some(h) => Ok(
                    ToolRequest::ProductData {
                        html: h,
                        url: match field_of(args, "url"@) {
                            Some(JsonValue::Str(u)) => Some(u),
                            _ => None,
                        },
                    },
                ),
                None => Err(ToolCallError::InvalidParams),
            }
        } else if name@ == tool_names()[2] {
            match (html_arg(args), field_of(args, "selectors"@)) {
                (Some(h), Some(JsonValue::Object(m))) => Ok(
                    ToolRequest::BySelectors { html: h, selectors: m },
                ),
                _ => Err(ToolCallError::InvalidParams),
            }
        } else if name@ == tool_names()[3] {
            match html_arg(args) {
                Some(h) => Ok(ToolRequest::PageStructure { html: h }),
                None => Err(ToolCallError::InvalidParams),
            }
        } else {
            Err(ToolCallError::UnknownTool(name))
        },
        _ => Err(ToolCallError::InvalidParams),
    }
}

fn take_html(args: JsonValue) -> (r: (JsonValue, Option<String>))
    ensures
        r.1 == html_arg(args),
        forall|k: Seq<char>| k != "html_content"@ ==> #[trigger] field_of(r.0, k) == field_of(args, k),
{
    let (rest, h) = take_field(args, "html_content");
    match h {
        Some(JsonValue::Str(s)) => (rest, Some(s)),
        _ => (rest, None),
    }
}

/// Checks a `tools/call` request's params: a string `name` of a known tool and
/// `arguments` that hold what its schema requires.
pub fn parse_tool_call(params: JsonValue) -> (r: Result<ToolRequest, ToolCallError>)
    ensures
        r == tool_request_of(params),
{
    proof {
        reveal_strlit("name");
        reveal_strlit("arguments");
        reveal_strlit("html_content");
        reveal_strlit("url");
        reveal_strlit("selectors");
        assert("name"@.len() != "arguments"@.len());
        assert("html_content"@.len() != "url"@.len());
        assert("html_content"@.len() != "selectors"@.len());
    }
    let ghost p0 = params;
    let (params, name) = take_field(params, "name");
    let (_params, args) = take_field(params, "arguments");
    assert(args == field_of(p0, "arguments"@));
    match (name, args) {
        (Some(JsonValue::Str(name)), Some(args)) => {
            let ghost a0 = args;
            if str_eq(name.as_str(), "extract_clean_text") {
                match take_html(args).1 {
                    Some(h) => Ok(ToolRequest::CleanText { html: h }),
                    None => Err(ToolCallError::InvalidParams),
                }
            } else if str_eq(name.as_str(), "extract_product_data") {
                let (args, h) = take_html(args);
                match h {
                    Some(h) => {
                        let url = match take_field(args, "url").1 {
                            Some(JsonValue::Str(u)) => Some(u),
                            _ => None,
                        };
                        Ok(ToolRequest::ProductData { html: h, url })
                    },
                    None => Err(ToolCallError::InvalidParams),
                }
            } else if str_eq(name.as_str(), "extract_by_selectors") {
                let (args, h) = take_html(args);
                let sel = take_field(args, "selectors").1;
                match (h, sel) {
                    (Some(h), Some(JsonValue::Object(m))) => Ok(
                        ToolRequest::BySelectors { html: h, selectors: m },
                    ),
                    _ => Err(ToolCallError::InvalidParams),
                }
            } else if str_eq(name.as_str(), "analyze_page_structure") {
                match take_html(args).1 {
                    Some(h) => Ok(ToolRequest::PageStructure { html: h }),
                    None => Err(ToolCallError::InvalidParams),
                }
            } else {
                Err(ToolCallError::UnknownTool(name))
            }
        },
        _ => Err(ToolCallError::InvalidParams),
    }
}


/// The text of a string value, empty for any other value.
pub open spec fn str_or_empty(v: JsonValue) -> Seq<char> {
    match v {
        JsonValue::Str(s) => s@,
        _ => Seq::empty(),
    }
}

/// The `(key, selector)` pairs of a selector map; a selector that is no string is empty.
pub fn selector_queries(m: &Vec<JsonMember>) -> (r: Vec<(String, String)>)
    ensures
        r@.map_values(|q: (String, String)| query_view(q)) == m@.map_values(
            |x: JsonMember| (x.key@, str_or_empty(x.value)),
        ),
{
    let mut out: Vec<(String, String)> = Vec::new();
    let mut i: usize = 0;
    while i < m.len()
        invariant
            i <= m.len(),
            out@.map_values(|q: (String, String)| query_view(q)) == m@.take(i as int).map_values(
                |x: JsonMember| (x.key@, str_or_empty(x.value)),
            ),
        decreases m.len() - i,
    {
        let sel = match &m[i].value {
            JsonValue::Str(s) => s.clone(),
            _ => String::new(),
        };
        assert(sel@ == str_or_empty(m@[i as int].value));
        let ghost before = out@;
        out.push((m[i].key.clone(), sel));
        assert(query_view(out@.last()) == (m@[i as int].key@, str_or_empty(m@[i as int].value)));
        assert(out@.drop_last() == before);
        assert(out@.map_values(|q: (String, String)| query_view(q)) =~= before.map_values(
            |q: (String, String)| query_view(q),
        ).push(query_view(out@.last())));
        assert(m@.take(i + 1).map_values(|x: JsonMember| (x.key@, str_or_empty(x.value)))
            =~= m@.take(i as int).map_values(|x: JsonMember| (x.key@, str_or_empty(x.value))).push(
            (m@[i as int].key@, str_or_empty(m@[i as int].value)),
        ));
        i = i + 1;
    }
    assert(m@.take(m.len() as int) =~= m@);
    out
}

/// `{clean_text, length, extraction_method}`.
pub fn clean_text_json(c: CleanText) -> (r: JsonValue)
    ensures
        field_of(r, "clean_text"@) == Some(JsonValue::Str(c.clean_text)),
        field_of(r, "length"@) == Some(JsonValue::Integer(c.length as i128)),
{
    proof {
        reveal_strlit("clean_text");
        reveal_strlit("length");
        assert("clean_text"@.len() != "length"@.len());
    }
    let mut m: Vec<JsonMember> = Vec::new();
    push_member(&mut m, "clean_text", JsonValue::Str(c.clean_text));
    push_member(&mut m, "length", JsonValue::Integer(c.length as i128));
    push_member(&mut m, "extraction_method", json_str("semantic_selectors"));
    JsonValue::Object(m)
}

fn push_present(m: &mut Vec<JsonMember>, key: &str, value: Option<JsonValue>)
    ensures
        forall|k: Seq<char>|
            #[trigger] member_value(final(m)@, k) == match member_value(old(m)@, k) {
                Some(v) => Some(v),
                None => if k == key@ {
                    value
                } else {
                    None
                },
            },
{
    match value {
        Some(v) => push_member(m, key, v),
        None => {},
    }
}

/// The members of the extracted fields that are present.
pub open spec fn fields_json(ed: JsonValue, f: ProductFields) -> bool {
    &&& field_of(ed, "name"@) == f.name
    &&& field_of(ed, "price"@) == f.price
    &&& field_of(ed, "description"@) == f.description
    &&& field_of(ed, "availability"@) == f.availability
    &&& field_of(ed, "brand"@) == f.brand
    &&& field_of(ed, "rating"@) == f.rating
    &&& field_of(ed, "image"@) == f.image
    &&& field_of(ed, "image_url"@) == f.image_url
}

fn fields_to_json(f: ProductFields) -> (r: JsonValue)
    ensures
        fields_json(r, f),
{
    proof {
        reveal_strlit("name");
        reveal_strlit("price");
        reveal_strlit("description");
        reveal_strlit("availability");
        reveal_strlit("brand");
        reveal_strlit("rating");
        reveal_strlit("image");
        reveal_strlit("image_url");
        assert("name"@.len() == 4 && "price"@.len() == 5 && "description"@.len() == 11
            && "availability"@.len() == 12 && "brand"@.len() == 5 && "rating"@.len() == 6
            && "image"@.len() == 5 && "image_url"@.len() == 9);
        assert("price"@[0] == 'p' && "brand"@[0] == 'b' && "image"@[0] == 'i');
    }
    let ghost g = f;
    let mut m: Vec<JsonMember> = Vec::new();
    push_present(&mut m, "name", f.name);
    push_present(&mut m, "price", f.price);
    push_present(&mut m, "description", f.description);
    push_present(&mut m, "availability", f.availability);
    push_present(&mut m, "brand", f.brand);
    push_present(&mut m, "rating", f.rating);
    push_present(&mut m, "image", f.image);
    push_present(&mut m, "image_url", f.image_url);
    JsonValue::Object(m)
}

/// `{url, extracted_data, extraction_timestamp, extraction_method}`.
pub fn product_data_json(d: ProductData) -> (r: JsonValue)
    ensures
        field_of(r, "url"@) == Some(JsonValue::Str(d.url)),
        field_of(r, "extraction_timestamp"@) == Some(JsonValue::Str(d.extraction_timestamp)),
        match field_of(r, "extracted_data"@) {
            Some(ed) => fields_json(ed, d.extracted_data),
            None => false,
        },
{
    proof {
        reveal_strlit("url");
        reveal_strlit("extracted_data");
        reveal_strlit("extraction_timestamp");
        assert("url"@.len() == 3 && "extracted_data"@.len() == 14 && "extraction_timestamp"@.len() == 20);
    }
    let mut m: Vec<JsonMember> = Vec::new();
    push_member(&mut m, "url", JsonValue::Str(d.url));
    push_member(&mut m, "extracted_data", fields_to_json(d.extracted_data));
    push_member(&mut m, "extraction_timestamp", JsonValue::Str(d.extraction_timestamp));
    push_member(&mut m, "extraction_method", json_str("css_selectors_and_jsonld"));
    JsonValue::Object(m)
}

/// The JSON form of a hit's texts: a string for one, an array of strings for several.
pub open spec fn is_texts_json(v: JsonValue, t: SelectedText) -> bool {
    match t {
        SelectedText::One(s) => v == JsonValue::Str(s),
        SelectedText::Many(xs) => match v {
            JsonValue::Array(items) => items@.len() == xs@.len() && forall|k: int|
                0 <= k < xs@.len() ==> #[trigger] items@[k] == JsonValue::Str(xs@[k]),
            _ => false,
        },
    }
}

fn texts_json(t: SelectedText) -> (r: JsonValue)
    ensures
        is_texts_json(r, t),
{
    let ghost t0 = t;
    match t {
        SelectedText::One(s) => JsonValue::Str(s),
        SelectedText::Many(v) => {
            let ghost all = v@;
            let mut items: Vec<JsonValue> = Vec::new();
            let mut v = v;
            let mut k: usize = 0;
            let n = v.len();
            assert(all.skip(0) =~= all);
            while v.len() > 0
                invariant
                    all.len() == n,
                    k <= n,
                    v@ == all.skip(k as int),
                    items@.len() == k,
                    forall|j: int| 0 <= j < k ==> #[trigger] items@[j] == JsonValue::Str(all[j]),
                decreases v.len(),
            {
                let x = v.remove(0);
                assert(x == all[k as int]);
                items.push(JsonValue::Str(x));
                k = k + 1;
                assert(v@ =~= all.skip(k as int));
            }
            JsonValue::Array(items)
        },
    }
}

/// One member per hit, in order, keyed by the hit's key.
pub fn hits_json(hits: Vec<SelectorHit>) -> (r: JsonValue)
    ensures
        match r {
            JsonValue::Object(m) => m@.len() == hits@.len() && forall|i: int|
                0 <= i < m@.len() ==> (#[trigger] m@[i]).key == hits@[i].key && is_texts_json(
                    m@[i].value,
                    hits@[i].value,
                ),
            _ => false,
        },
{
    let ghost all = hits@;
    let mut m: Vec<JsonMember> = Vec::new();
    let mut hits = hits;
    let mut k: usize = 0;
    let n = hits.len();
    assert(all.skip(0) =~= all);
    while hits.len() > 0
        invariant
            all.len() == n,
            k <= n,
            hits@ == all.skip(k as int),
            m@.len() == k,
            forall|i: int|
                0 <= i < k ==> (#[trigger] m@[i]).key == all[i].key && is_texts_json(
                    m@[i].value,
                    all[i].value,
                ),
        decreases hits.len(),
    {
        let h = hits.remove(0);
        assert(h == all[k as int]);
        let value = texts_json(h.value);
        m.push(JsonMember { key: h.key, value });
        k = k + 1;
        assert(hits@ =~= all.skip(k as int));
    }
    JsonValue::Object(m)
}

/// The JSON form of a detected platform.
pub open spec fn is_pattern_json(v: JsonValue, f: PlatformMatch) -> bool {
    &&& field_of(v, "platform"@) == Some(JsonValue::Str(f.platform))
    &&& field_of(v, "matched"@) == Some(JsonValue::Integer(f.matched as i128))
    &&& field_of(v, "total"@) == Some(JsonValue::Integer(f.total as i128))
    &&& field_of(v, "confidence"@) == Some(
        JsonValue::Integer(
            (if f.total > 0 {
                (f.matched as int) * 100 / (f.total as int)
            } else {
                0
            }) as i128,
        ),
    )
}

/// `{detected_patterns, suggested_selectors, content_sections}`; each pattern
/// gives the platform, the whole-number percentage of its indicators present,
/// and the two counts.
pub fn page_structure_json(found: Vec<PlatformMatch>) -> (r: JsonValue)
    ensures
        match field_of(r, "detected_patterns"@) {
            Some(JsonValue::Array(p)) => p@.len() == found@.len() && forall|i: int|
                0 <= i < p@.len() ==> is_pattern_json(#[trigger] p@[i], found@[i]),
            _ => false,
        },
{
    let ghost all = found@;
    let n = found.len();
    let mut patterns: Vec<JsonValue> = Vec::new();
    let mut found = found;
    let mut k: usize = 0;
    assert(all.skip(0) =~= all);
    while found.len() > 0
        invariant
            all.len() == n,
            k <= n,
            found@ == all.skip(k as int),
            patterns@.len() == k,
            forall|i: int| 0 <= i < k ==> is_pattern_json(#[trigger] patterns@[i], all[i]),
        decreases found.len(),
    {
        let f = found.remove(0);
        assert(f == all[k as int]);
        let confidence: i128 = if f.total > 0 {
            assert((f.matched as i128) * 100 <= usize::MAX as i128 * 100) by (nonlinear_arith)
                requires f.matched <= usize::MAX;
            (f.matched as i128) * 100 / (f.total as i128)
        } else {
            0
        };
        let ghost g = f;
        let mut p: Vec<JsonMember> = Vec::new();
        push_member(&mut p, "platform", JsonValue::Str(f.platform));
        push_member(&mut p, "confidence", JsonValue::Integer(confidence));
        push_member(&mut p, "matched", JsonValue::Integer(f.matched as i128));
        push_member(&mut p, "total", JsonValue::Integer(f.total as i128));
        proof {
            reveal_strlit("platform");
            reveal_strlit("confidence");
            reveal_strlit("matched");
            reveal_strlit("total");
            assert("platform"@.len() == 8 && "confidence"@.len() == 10 && "matched"@.len() == 7
                && "total"@.len() == 5);
            let o = JsonValue::Object(p);
            assert(field_of(o, "platform"@) == Some(JsonValue::Str(g.platform)));
            assert(field_of(o, "matched"@) == Some(JsonValue::Integer(g.matched as i128)));
            assert(field_of(o, "total"@) == Some(JsonValue::Integer(g.total as i128)));
            assert(field_of(o, "confidence"@) == Some(JsonValue::Integer(confidence)));
            assert(confidence as int == (if g.total > 0 {
                (g.matched as int) * 100 / (g.total as int)
            } else {
                0
            }));
        }
        patterns.push(JsonValue::Object(p));
        assert(is_pattern_json(patterns@[k as int], g));
        k = k + 1;
        assert(found@ =~= all.skip(k as int));
    }
    proof {
        reveal_strlit("detected_patterns");
    }
    let mut m: Vec<JsonMember> = Vec::new();
    push_member(&mut m, "detected_patterns", JsonValue::Array(patterns));
    push_member(&mut m, "suggested_selectors", JsonValue::Object(Vec::new()));
    push_member(&mut m, "content_sections", JsonValue::Array(Vec::new()));
    JsonValue::Object(m)
}

/// The texts that a hit's JSON form holds.
pub open spec fn texts_view(v: JsonValue) -> Seq<Seq<char>> {
    match v {
        JsonValue::Str(s) => seq![s@],
        JsonValue::Array(items) => items@.map_values(
            |x: JsonValue| match x {
                JsonValue::Str(s) => s@,
                _ => Seq::empty(),
            },
        ),
        _ => Seq::empty(),
    }
}

/// The selector results as `(key, texts)` pairs, in the order of the queries.
pub open spec fn selector_result_view(r: JsonValue) -> Seq<(Seq<char>, Seq<Seq<char>>)> {
    match r {
        JsonValue::Object(m) => m@.map_values(|e: JsonMember| (e.key@, texts_view(e.value))),
        _ => Seq::empty(),
    }
}

/// A detected platform as its JSON form gives it: name, indicators present, indicators in all.
pub open spec fn pattern_view(v: JsonValue) -> (Seq<char>, nat, nat) {
    match (field_of(v, "platform"@), field_of(v, "matched"@), field_of(v, "total"@)) {
        (Some(JsonValue::Str(p)), Some(JsonValue::Integer(m)), Some(JsonValue::Integer(t))) => (
            p@,
            m as nat,
            t as nat,
        ),
        _ => (Seq::empty(), 0, 0),
    }
}

/// What each tool's result says of the page it was given.
pub open spec fn tool_result_ok(req: ToolRequest, r: JsonValue) -> bool {
    &&& (req matches ToolRequest::CleanText { html } ==> (match field_of(r, "clean_text"@) {
            Some(JsonValue::Str(t)) => t@ == crate::html::clean_text_of(html@),
            _ => false,
        }))
    &&& (req matches ToolRequest::ProductData { html, url } ==> (match field_of(
            r,
            "extracted_data"@,
        ) {
            Some(ed) => exists|f: ProductFields|
                crate::product::product_fields_of(f, html@) && #[trigger] fields_json(ed, f),
            None => false,
        }))
    &&& (req matches ToolRequest::BySelectors { html, selectors } ==> selector_result_view(r)
            == crate::html::hits_of(
            html@,
            selectors@.map_values(|x: JsonMember| (x.key@, str_or_empty(x.value))),
        ))
    &&& (req matches ToolRequest::PageStructure { html } ==> (match field_of(
            r,
            "detected_patterns"@,
        ) {
            Some(JsonValue::Array(p)) => p@.map_values(|v: JsonValue| pattern_view(v))
                == crate::html::detected_upto(html@, 4),
            _ => false,
        }))
}

/// Runs a validated tool call; `timestamp` is the time stamped on product data.
pub fn run_tool(req: ToolRequest, timestamp: String) -> (r: JsonValue)
    ensures
        tool_result_ok(req, r),
{
    match req {
        ToolRequest::CleanText { html } => clean_text_json(extract_clean_text(html.as_str())),
        ToolRequest::ProductData { html, url } => {
            let url = match url {
                Some(u) => u,
                None => String::new(),
            };
            let d = extract_product_data(html.as_str(), url.as_str(), timestamp);
            let ghost f = d.extracted_data;
            let r = product_data_json(d);
            assert(crate::product::product_fields_of(f, html@));
            r
        },
        ToolRequest::BySelectors { html, selectors } => {
            let queries = selector_queries(&selectors);
            let hits = extract_by_selectors(html.as_str(), &queries);
            let ghost hs = hits@;
            let r = hits_json(hits);
            proof {
                if r is Object {
                    let m = r->Object_0;
                    assert forall|i: int| 0 <= i < m@.len() implies (m@[i].key@, texts_view(m@[i].value))
                        == crate::html::hit_view(hs[i]) by {
                        match hs[i].value {
                            SelectedText::One(s) => {},
                            SelectedText::Many(xs) => {
                                assert(texts_view(m@[i].value) =~= xs@.map_values(|x: String| x@));
                            },
                        }
                    }
                    assert(selector_result_view(r) =~= hs.map_values(|h: SelectorHit| crate::html::hit_view(h)));
                }
            }
            r
        },
        ToolRequest::PageStructure { html } => {
            let found = analyze_page_structure(html.as_str());
            let ghost fs = found@;
            let r = page_structure_json(found);
            proof {
                if let Some(JsonValue::Array(p)) = field_of(r, "detected_patterns"@) {
                    assert forall|i: int| 0 <= i < p@.len() implies pattern_view(p@[i]) == crate::html::platform_view(fs[i]) by {
                        assert(is_pattern_json(p@[i], fs[i]));
                    }
                    assert(p@.map_values(|v: JsonValue| pattern_view(v)) =~= fs.map_values(
                        |m: PlatformMatch| crate::html::platform_view(m),
                    ));
                }
            }
            r
        },
    }
}


/// The JSON-RPC answer to `req`, whatever time stamp a product result carries.
pub open spec fn answers(req: MCPRequest, r: MCPResponse) -> bool {
    &&& r.jsonrpc@ == "2.0"@
    &&& r.id == req.id
    &&& if req.method@ == "initialize"@ {
        r.error is None && match r.result {
            Some(v) => is_capabilities(v),
            None => false,
        }
    } else if req.method@ == "tools/list"@ {
        r.error is None && match r.result {
            Some(v) => match field_of(v, "tools"@) {
                Some(JsonValue::Array(t)) => t@.len() == 4 && forall|i: int|
                    0 <= i < 4 ==> describes_tool(#[trigger] t@[i], i, "inputSchema"@),
                _ => false,
            },
            None => false,
        }
    } else if req.method@ == "tools/call"@ {
        match req.params {
            None => fails_with(r, INVALID_PARAMS),
            Some(p) => match tool_request_of(p) {
                Ok(t) => r.error is None && match r.result {
                    Some(v) => tool_result_ok(t, v),
                    None => false,
                },
                Err(ToolCallError::InvalidParams) => fails_with(r, INVALID_PARAMS),
                Err(ToolCallError::UnknownTool(n)) => fails_with(r, INTERNAL_ERROR)
                    && error_message(r) == "Unknown tool: "@ + n@,
            },
        }
    } else {
        fails_with(r, METHOD_NOT_FOUND) && error_message(r) == "Method not found"@
    }
}

/// An error response with this code, no result and no error data.
pub open spec fn fails_with(r: MCPResponse, code: i32) -> bool {
    r.result is None && match r.error {
        Some(e) => e.code == code && e.data is None,
        None => false,
    }
}

/// The capability descriptor: tools offered, resources and prompts not; the
/// server's name and version.
pub open spec fn is_capabilities(v: JsonValue) -> bool {
    &&& match field_of(v, "capabilities"@) {
        Some(c) => field_of(c, "tools"@) == Some(JsonValue::Bool(true)) && field_of(c, "resources"@)
            == Some(JsonValue::Bool(false)) && field_of(c, "prompts"@) == Some(JsonValue::Bool(false)),
        None => false,
    }
    &&& match field_of(v, "serverInfo"@) {
        Some(i) => str_field_of(i, "name"@) == Some("web-content-extractor"@) && str_field_of(
            i,
            "version"@,
        ) == Some("1.0.0"@),
        None => false,
    }
}

pub open spec fn error_message(r: MCPResponse) -> Seq<char> {
    match r.error {
        Some(e) => e.message@,
        None => Seq::empty(),
    }
}

fn failure(id: Option<JsonValue>, code: i32, message: String) -> (r: MCPResponse)
    ensures
        r.jsonrpc@ == "2.0"@,
        r.id == id,
        r.result is None,
        fails_with(r, code),
        error_message(r) == message@,
{
    MCPResponse {
        jsonrpc: String::from_str("2.0"),
        id,
        result: None,
        error: Some(MCPError { code, message, data: None }),
    }
}

fn success(id: Option<JsonValue>, result: JsonValue) -> (r: MCPResponse)
    ensures
        r.jsonrpc@ == "2.0"@,
        r.id == id,
        r.result == Some(result),
        r.error is None,
{
    MCPResponse { jsonrpc: String::from_str("2.0"), id, result: Some(result), error: None }
}

fn capabilities() -> (r: JsonValue)
    ensures
        is_capabilities(r),
{
    proof {
        reveal_strlit("tools");
        reveal_strlit("resources");
        reveal_strlit("prompts");
        reveal_strlit("name");
        reveal_strlit("version");
        reveal_strlit("capabilities");
        reveal_strlit("serverInfo");
        assert("tools"@.len() == 5 && "resources"@.len() == 9 && "prompts"@.len() == 7);
        assert("name"@.len() == 4 && "version"@.len() == 7);
        assert("capabilities"@.len() == 12 && "serverInfo"@.len() == 10);
    }
    let mut caps: Vec<JsonMember> = Vec::new();
    push_member(&mut caps, "tools", JsonValue::Bool(true));
    push_member(&mut caps, "resources", JsonValue::Bool(false));
    push_member(&mut caps, "prompts", JsonValue::Bool(false));
    let mut info: Vec<JsonMember> = Vec::new();
    push_member(&mut info, "name", json_str("web-content-extractor"));
    push_member(&mut info, "version", json_str("1.0.0"));
    let mut m: Vec<JsonMember> = Vec::new();
    push_member(&mut m, "capabilities", JsonValue::Object(caps));
    push_member(&mut m, "serverInfo", JsonValue::Object(info));
    JsonValue::Object(m)
}

/// Answers one JSON-RPC request; `timestamp` is stamped on product data.
pub fn handle_request_at(req: MCPRequest, timestamp: String) -> (r: MCPResponse)
    ensures
        answers(req, r),
{
    let ghost req0 = req;
    let MCPRequest { jsonrpc: _, id, method, params } = req;
    if str_eq(method.as_str(), "initialize") {
        success(id, capabilities())
    } else if str_eq(method.as_str(), "tools/list") {
        proof {
            reveal_strlit("tools");
        }
        let mut m: Vec<JsonMember> = Vec::new();
        push_member(&mut m, "tools", JsonValue::Array(describe_tools(true)));
        success(id, JsonValue::Object(m))
    } else if str_eq(method.as_str(), "tools/call") {
        match params {
            None => failure(id, INVALID_PARAMS, String::from_str("Invalid params")),
            Some(p) => match parse_tool_call(p) {
                Ok(call) => success(id, run_tool(call, timestamp)),
                Err(ToolCallError::InvalidParams) => failure(
                    id,
                    INVALID_PARAMS,
                    String::from_str("Invalid params"),
                ),
                Err(ToolCallError::UnknownTool(n)) => failure(
                    id,
                    INTERNAL_ERROR,
                    concat("Unknown tool: ", n.as_str()),
                ),
            },
        }
    } else {
        failure(id, METHOD_NOT_FOUND, String::from_str("Method not found"))
    }
}

/// Relies on `chrono::Utc::now` and `DateTime::to_rfc3339`: the current time
/// as RFC 3339 text. Nothing is promised of its value.
#[verifier::external_body]
fn now_rfc3339() -> String {
    chrono::Utc::now().to_rfc3339()
}

/// Answers one JSON-RPC request, stamping product data with the current time.
pub fn handle_mcp_request(req: MCPRequest) -> (r: MCPResponse)
    ensures
        answers(req, r),
{
    handle_request_at(req, now_rfc3339())
}

} // verus!
