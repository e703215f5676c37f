//! The tool-calling loop: a bounded conversation with a language model that
//! may call the extraction tools, ending in a product or a fixed fallback.
use vstd::prelude::*;
use crate::json::{
    member_value, field_of, json_str, parse_json, parsed_json, push_member, str_field_of, take_field,
    to_pretty_json, JsonMember, JsonValue,
};
use crate::text::{
    chars_of, contains, contains_chars, find_char, first_index, last_index,
    lemma_first_index_bounds, lemma_last_index_bounds, rfind_char, slice_chars, split_chars,
    split_on, deep_view, string_from, to_lowercase, lowercase, trim, trim_chars,
};
use crate::types::ProductInfo;
use vstd::utf8::{encode_scalar, encode_utf8};

verus! {

/// The text from the first `{` to the last `}`, where the first comes no later.
pub open spec fn json_span(c: Seq<char>) -> Option<Seq<char>> {
    match (first_index(c, '{'), last_index(c, '}')) {
        (Some(a), Some(b)) => if a <= b {
            Some(c.subrange(a, b + 1))
        } else {
            None
        },
        _ => None,
    }
}

/// The texts of a `ProductInfo`.
pub struct InfoView {
    pub name: Option<Seq<char>>,
    pub description: Option<Seq<char>>,
    pub price: Option<Seq<char>>,
    pub availability: Option<Seq<char>>,
    pub brand: Option<Seq<char>>,
    pub rating: Option<Seq<char>>,
    pub image_url: Option<Seq<char>>,
    pub raw_data: Option<Seq<char>>,
    pub raw_llm_response: Option<Seq<char>>,
}

pub open spec fn ov(o: Option<String>) -> Option<Seq<char>> {
    crate::json::opt_view(o)
}

pub open spec fn info_view(p: ProductInfo) -> InfoView {
    InfoView {
        name: ov(p.name),
        description: ov(p.description),
        price: ov(p.price),
        availability: ov(p.availability),
        brand: ov(p.brand),
        rating: ov(p.rating),
        image_url: ov(p.image_url),
        raw_data: ov(p.raw_data),
        raw_llm_response: ov(p.raw_llm_response),
    }
}

/// Each field the string member of the same name, if any; the reply kept whole.
pub open spec fn info_from_json(v: JsonValue, content: Seq<char>) -> InfoView {
    InfoView {
        name: str_field_of(v, "name"@),
        description: str_field_of(v, "description"@),
        price: str_field_of(v, "price"@),
        availability: str_field_of(v, "availability"@),
        brand: str_field_of(v, "brand"@),
        rating: str_field_of(v, "rating"@),
        image_url: str_field_of(v, "image_url"@),
        raw_data: Some(content),
        raw_llm_response: Some(content),
    }
}

/// The trimmed text between the first `:` of a line and the next `:` or its end.
pub open spec fn label_value(t: Seq<char>) -> Option<Seq<char>> {
    match first_index(t, ':') {
        Some(i) => {
            let rest = t.subrange(i + 1, t.len() as int);
            Some(
                trim(
                    match first_index(rest, ':') {
                        Some(j) => rest.subrange(0, j),
                        None => rest,
                    },
                ),
            )
        },
        None => None,
    }
}

pub struct TextFields {
    pub name: Option<Seq<char>>,
    pub price: Option<Seq<char>>,
    pub brand: Option<Seq<char>>,
    pub description: Option<Seq<char>>,
}

/// One line of a `label: value` reply: a line whose lower-cased text holds a
/// known label sets that field, the first label in the order name (or product),
/// price, brand, description.
pub open spec fn apply_line(f: TextFields, line: Seq<char>) -> TextFields {
    let t = trim(line);
    let low = lowercase(t);
    let v = label_value(t);
    if v is None {
        f
    } else {
        match label_of(low) {
            Some(Label::Name) => TextFields { name: v, ..f },
            Some(Label::Price) => TextFields { price: v, ..f },
            Some(Label::Brand) => TextFields { brand: v, ..f },
            Some(Label::Description) => TextFields { description: v, ..f },
            None => f,
        }
    }
}

/// A field that a `label: value` line may set.
#[derive(Debug, Clone, Copy, PartialEq, Eq, Structural)]
pub enum Label {
    Name,
    Price,
    Brand,
    Description,
}

/// The label of a lower-cased line: the first that it holds in the order
/// `name:` or `product:`, `price:`, `brand:`, `description:`.
pub open spec fn label_of(low: Seq<char>) -> Option<Label> {
    if contains(low, "name:"@) || contains(low, "product:"@) {
        Some(Label::Name)
    } else if contains(low, "price:"@) {
        Some(Label::Price)
    } else if contains(low, "brand:"@) {
        Some(Label::Brand)
    } else if contains(low, "description:"@) {
        Some(Label::Description)
    } else {
        None
    }
}

/// The label of a lower-cased line.
pub fn line_label(lowered: &str) -> (r: Option<Label>)
    ensures
        r == label_of(lowered@),
{
    let low = chars_of(lowered);
    if has(&low, "name:") || has(&low, "product:") {
        Some(Label::Name)
    } else if has(&low, "price:") {
        Some(Label::Price)
    } else if has(&low, "brand:") {
        Some(Label::Brand)
    } else if has(&low, "description:") {
        Some(Label::Description)
    } else {
        None
    }
}

/// The fields that the lines give, later lines overriding earlier ones.
pub open spec fn text_fields(lines: Seq<Seq<char>>) -> TextFields
    decreases lines.len(),
{
    if lines.len() == 0 {
        TextFields { name: None, price: None, brand: None, description: None }
    } else {
        apply_line(text_fields(lines.drop_last()), lines.last())
    }
}

pub open spec fn info_from_text(content: Seq<char>) -> InfoView {
    let f = text_fields(split_on(content, '\n'));
    InfoView {
        name: f.name,
        description: f.description,
        price: f.price,
        availability: None,
        brand: f.brand,
        rating: None,
        image_url: None,
        raw_data: Some(content),
        raw_llm_response: Some(content),
    }
}

/// The product that a final model reply describes: its JSON object where it
/// holds one, else its `label: value` lines.
pub open spec fn reply_product(content: Seq<char>) -> InfoView {
    match json_span(content) {
        Some(j) => match parsed_json(j) {
            Some(v) => info_from_json(v, content),
            None => info_from_text(content),
        },
        None => info_from_text(content),
    }
}

/// The fixed result of a run that found nothing.
pub open spec fn is_fallback(p: ProductInfo) -> bool {
    &&& ov(p.name) == Some("Unable to extract product name with MCP tools"@)
    &&& ov(p.description) == Some("Product information extraction failed using Llama + MCP"@)
    &&& p.price is None && p.availability is None && p.brand is None && p.rating is None
    &&& p.image_url is None && p.raw_data is None
    &&& ov(p.raw_llm_response) == Some("Fallback mode - MCP extraction failed"@)
}

pub fn create_fallback_product_info() -> (r: ProductInfo)
    ensures
        is_fallback(r),
{
    ProductInfo {
        name: Some(String::from_str("Unable to extract product name with MCP tools")),
        description: Some(String::from_str("Product information extraction failed using Llama + MCP")),
        price: None,
        availability: None,
        brand: None,
        rating: None,
        image_url: None,
        raw_data: None,
        raw_llm_response: Some(String::from_str("Fallback mode - MCP extraction failed")),
    }
}

fn label_value_of(t: &Vec<char>) -> (r: Option<String>)
    ensures
        ov(r) == label_value(t@),
{
    let n = t.len();
    match find_char(t, ':') {
        Some(i) => {
            proof {
                lemma_first_index_bounds(t@, ':');
            }
            let rest = slice_chars(t, i + 1, t.len());
            let piece = match find_char(&rest, ':') {
                Some(j) => {
                    proof {
                        lemma_first_index_bounds(rest@, ':');
                    }
                    slice_chars(&rest, 0, j)
                },
                None => rest,
            };
            Some(string_from(trim_chars(&piece).as_slice()))
        },
        None => None,
    }
}

fn has(hay: &Vec<char>, needle: &str) -> (r: bool)
    ensures
        r == contains(hay@, needle@),
{
    contains_chars(hay, &chars_of(needle))
}

/// Reads the `label: value` lines of a reply.
pub fn parse_text_response(content: &str) -> (r: ProductInfo)
    ensures
        info_view(r) == info_from_text(content@),
{
    let chars = chars_of(content);
    let lines = split_chars(&chars, '\n');
    let ghost all = deep_view(lines@);
    let mut name: Option<String> = None;
    let mut price: Option<String> = None;
    let mut brand: Option<String> = None;
    let mut description: Option<String> = None;
    let mut i: usize = 0;
    while i < lines.len()
        invariant
            i <= lines.len(),
            all == deep_view(lines@),
            all == split_on(content@, '\n'),
            (TextFields { name: ov(name), price: ov(price), brand: ov(brand), description: ov(description) })
                == text_fields(all.take(i as int)),
        decreases lines.len() - i,
    {
        let t = trim_chars(&lines[i]);
        let lowered = to_lowercase(string_from(t.as_slice()).as_str());
        let v = label_value_of(&t);
        proof {
            assert(all.take(i + 1).drop_last() =~= all.take(i as int));
            assert(all.take(i + 1).last() == lines@[i as int]@);
        }
        if v.is_some() {
            match line_label(lowered.as_str()) {
                Some(Label::Name) => name = v,
                Some(Label::Price) => price = v,
                Some(Label::Brand) => brand = v,
                Some(Label::Description) => description = v,
                None => {},
            }
        }
        i = i + 1;
    }
    assert(all.take(lines.len() as int) =~= all);
    ProductInfo {
        name,
        description,
        price,
        availability: None,
        brand,
        rating: None,
        image_url: None,
        raw_data: Some(String::from_str(content)),
        raw_llm_response: Some(String::from_str(content)),
    }
}

/// The text of the JSON object in a reply, if it has one.
pub fn json_span_of(c: &Vec<char>) -> (r: Option<Vec<char>>)
    ensures
        crate::html::opt_chars(r) == json_span(c@),
{
    let n = c.len();
    match (find_char(c, '{'), rfind_char(c, '}')) {
        (Some(a), Some(b)) => {
            proof {
                lemma_first_index_bounds(c@, '{');
                lemma_last_index_bounds(c@, '}');
            }
            if a <= b {
                Some(slice_chars(c, a, b + 1))
            } else {
                None
            }
        },
        _ => None,
    }
}

/// The product that a final model reply describes: each field read from its
/// JSON object where the text from the first `{` to the last `}` parses, else
/// from its `label: value` lines. The reply itself is kept in `raw_data` and
/// `raw_llm_response`.
pub fn parse_final_product_response(content: &str) -> (r: ProductInfo)
    ensures
        info_view(r) == reply_product(content@),
{
    let chars = chars_of(content);
    match json_span_of(&chars) {
        Some(span) => {
            let text = string_from(span.as_slice());
            match parse_json(text.as_str()) {
                Some(v) => ProductInfo {
                    name: v.get_str("name"),
                    description: v.get_str("description"),
                    price: v.get_str("price"),
                    availability: v.get_str("availability"),
                    brand: v.get_str("brand"),
                    rating: v.get_str("rating"),
                    image_url: v.get_str("image_url"),
                    raw_data: Some(String::from_str(content)),
                    raw_llm_response: Some(String::from_str(content)),
                },
                None => parse_text_response(content),
            }
        },
        None => parse_text_response(content),
    }
}


/// The number of model calls a run may make.
pub const MAX_TURNS: usize = 5;

#[derive(Debug, Clone)]
pub struct ToolCallFunction {
    pub name: String,
    /// The arguments as the model wrote them: JSON text.
    pub arguments: String,
}

#[derive(Debug, Clone)]
pub struct ToolCall {
    pub id: Option<String>,
    pub call_type: Option<String>,
    pub function: ToolCallFunction,
}

/// One message of the conversation.
#[derive(Debug)]
pub struct Message {
    pub role: String,
    pub content: String,
    pub tool_calls: Option<Vec<ToolCall>>,
}

/// What the model answered.
#[derive(Debug)]
pub struct ModelReply {
    pub content: Option<String>,
    pub tool_calls: Option<Vec<ToolCall>>,
}

/// A tool offered to the model.
#[derive(Debug)]
pub struct ToolFunction {
    pub name: String,
    pub description: String,
    pub parameters: JsonValue,
}

/// What the driver reports back after doing what the run asked.
#[derive(Debug)]
pub enum LoopEvent {
    ManifestLoaded(JsonValue),
    ManifestFailed,
    ModelReplied(ModelReply),
    ModelFailed,
    ToolReplied(JsonValue),
    ToolFailed,
}

/// What the run asks the driver to do next.
#[derive(Debug)]
pub enum LoopAction {
    /// Fetch the tool manifest.
    FetchManifest,
    /// Send the conversation and the tools to the model.
    CallModel,
    /// Post this JSON-RPC request to the tool server.
    CallTool(JsonValue),
    /// The run is over.
    Finish(ProductInfo),
}

#[derive(Debug, Clone, Copy, PartialEq, Eq, Structural)]
pub enum Phase {
    AwaitManifest,
    AwaitModel,
    AwaitTool,
    Done,
}

pub open spec fn rank(p: Phase) -> int {
    match p {
        Phase::AwaitManifest => 2,
        Phase::AwaitModel => 1,
        Phase::AwaitTool => 0,
        Phase::Done => 0,
    }
}

/// Lexicographic order on progress triples.
pub open spec fn lex_lt(a: (int, int, int), b: (int, int, int)) -> bool {
    a.0 < b.0 || (a.0 == b.0 && (a.1 < b.1 || (a.1 == b.1 && a.2 < b.2)))
}

/// The system prompt of a product extraction run.
pub open spec fn extraction_system_text() -> Seq<char> {
    "You are an expert web scraping assistant with access to specialized HTML parsing tools. Your job is to extract product information from e-commerce websites using the available tools.\n\nAvailable tools:\n- analyze_page_structure: Identifies the type of e-commerce platform and suggests extraction strategies\n- extract_product_data: Uses CSS selectors and JSON-LD to extract structured product information\n- extract_clean_text: Removes clutter and extracts clean, readable content\n- extract_by_selectors: Extract specific data using custom CSS selectors\n\nBest practices:\n1. Always start by analyzing the page structure to understand the website type\n2. Use extract_product_data for comprehensive product extraction\n3. If extract_product_data doesn't work well, use extract_by_selectors with specific selectors\n4. Focus on extracting: name, price, description, availability, brand, rating, image URL\n5. Return results in a clear, structured format\n\nWork step by step and use the most appropriate tools for each task."@
}

pub fn extraction_system_prompt() -> (r: String)
    ensures
        r@ == extraction_system_text(),
{
    String::from_str(
        "You are an expert web scraping assistant with access to specialized HTML parsing tools. Your job is to extract product information from e-commerce websites using the available tools.\n\nAvailable tools:\n- analyze_page_structure: Identifies the type of e-commerce platform and suggests extraction strategies\n- extract_product_data: Uses CSS selectors and JSON-LD to extract structured product information\n- extract_clean_text: Removes clutter and extracts clean, readable content\n- extract_by_selectors: Extract specific data using custom CSS selectors\n\nBest practices:\n1. Always start by analyzing the page structure to understand the website type\n2. Use extract_product_data for comprehensive product extraction\n3. If extract_product_data doesn't work well, use extract_by_selectors with specific selectors\n4. Focus on extracting: name, price, description, availability, brand, rating, image URL\n5. Return results in a clear, structured format\n\nWork step by step and use the most appropriate tools for each task.",
    )
}

/// The user prompt of a product extraction run for `url`.
pub fn extraction_user_prompt(url: &str) -> (r: String)
    ensures
        r@ == "I need to extract product information from this web page. The URL is: "@ + url@
            + "\n\nI have the raw HTML content available. Please use the appropriate tools to:\n1. First analyze the page structure to understand what kind of site this is\n2. Extract clean, structured product data\n3. Return the product information in a clear format\n\nStart by analyzing the page structure."@,
{
    let a = crate::text::concat(
        "I need to extract product information from this web page. The URL is: ",
        url,
    );
    crate::text::concat(
        a.as_str(),
        "\n\nI have the raw HTML content available. Please use the appropriate tools to:\n1. First analyze the page structure to understand what kind of site this is\n2. Extract clean, structured product data\n3. Return the product information in a clear format\n\nStart by analyzing the page structure.",
    )
}

fn message(role: &str, content: String) -> (r: Message)
    ensures
        r.role@ == role@,
        r.content == content,
        r.tool_calls is None,
{
    Message { role: String::from_str(role), content, tool_calls: None }
}

/// The tools of a manifest entry that has a string name, a string description
/// and an input schema.
pub open spec fn listed(entry: JsonValue) -> bool {
    &&& str_field_of(entry, "name"@) is Some
    &&& str_field_of(entry, "description"@) is Some
    &&& field_of(entry, "input_schema"@) is Some
}

/// Name and description of each usable manifest entry, in order.
pub open spec fn listed_tools(entries: Seq<JsonValue>) -> Seq<(Seq<char>, Seq<char>)>
    decreases entries.len(),
{
    if entries.len() == 0 {
        Seq::empty()
    } else {
        let p = listed_tools(entries.drop_last());
        let e = entries.last();
        if listed(e) {
            p.push((str_field_of(e, "name"@)->0, str_field_of(e, "description"@)->0))
        } else {
            p
        }
    }
}

pub open spec fn manifest_entries(m: JsonValue) -> Seq<JsonValue> {
    match field_of(m, "tools"@) {
        Some(JsonValue::Array(a)) => a@,
        _ => Seq::empty(),
    }
}

pub open spec fn tool_view(t: ToolFunction) -> (Seq<char>, Seq<char>) {
    (t.name@, t.description@)
}

/// The tools that a manifest offers, each with its name, description and schema.
pub fn tools_from_manifest(manifest: JsonValue) -> (r: Vec<ToolFunction>)
    ensures
        r@.map_values(|t: ToolFunction| tool_view(t)) == listed_tools(manifest_entries(manifest)),
{
    let ghost entries = manifest_entries(manifest);
    let mut out: Vec<ToolFunction> = Vec::new();
    match take_field(manifest, "tools").1 {
        Some(JsonValue::Array(a)) => {
            let mut a = a;
            let mut k: usize = 0;
            let n = a.len();
            assert(entries.skip(0) =~= entries);
            assert(entries.take(0) =~= Seq::<JsonValue>::empty());
            while a.len() > 0
                invariant
                    entries.len() == n,
                    k <= n,
                    a@ == entries.skip(k as int),
                    out@.map_values(|t: ToolFunction| tool_view(t)) == listed_tools(entries.take(k as int)),
                decreases a.len(),
            {
                let e = a.remove(0);
                proof {
                    assert(e == entries[k as int]);
                    assert(entries.take(k + 1).drop_last() =~= entries.take(k as int));
                    assert(entries.take(k + 1).last() == e);
                }
                let name = e.get_str("name");
                let description = e.get_str("description");
                let has_schema = e.get("input_schema").is_some();
                if name.is_some() && description.is_some() && has_schema {
                    let schema = take_field(e, "input_schema").1.unwrap();
                    let ghost before = out@;
                    out.push(
                        ToolFunction {
                            name: name.unwrap(),
                            description: description.unwrap(),
                            parameters: schema,
                        },
                    );
                    assert(out@.map_values(|t: ToolFunction| tool_view(t)) =~= before.map_values(
                        |t: ToolFunction| tool_view(t),
                    ).push(tool_view(out@.last())));
                }
                k = k + 1;
                assert(a@ =~= entries.skip(k as int));
            }
            assert(entries.take(k as int) =~= entries);
        },
        _ => {
            assert(entries =~= Seq::<JsonValue>::empty());
        },
    }
    out
}

/// The arguments the model wrote: the members of the object its text parses
/// to, none where it parses to no object.
pub open spec fn model_args(text: Seq<char>) -> Seq<JsonMember> {
    match parsed_json(text) {
        Some(JsonValue::Object(m)) => m@,
        _ => Seq::empty(),
    }
}

/// A member that keeps the model's value where it gave one, else holds `dflt`.
pub open spec fn filled(actual: Option<JsonValue>, given: Option<JsonValue>, dflt: Seq<char>) -> bool {
    match given {
        Some(v) => actual == Some(v),
        None => match actual {
            Some(JsonValue::Str(x)) => x@ == dflt,
            _ => false,
        },
    }
}

/// The arguments sent: the model's own, with `html_content` and `url` added
/// where it left them out.
pub open spec fn args_filled(a: Seq<JsonMember>, given: Seq<JsonMember>, html: Seq<char>, url: Seq<char>) -> bool {
    &&& forall|k: Seq<char>|
        k != "html_content"@ && k != "url"@ ==> #[trigger] member_value(a, k) == member_value(given, k)
    &&& filled(member_value(a, "html_content"@), member_value(given, "html_content"@), html)
    &&& filled(member_value(a, "url"@), member_value(given, "url"@), url)
}

/// `req` is the JSON-RPC `tools/call` request that runs `call` on the page.
pub open spec fn is_tool_request_for(req: JsonValue, call: ToolCall, html: Seq<char>, url: Seq<char>) -> bool {
    &&& str_field_of(req, "jsonrpc"@) == Some("2.0"@)
    &&& str_field_of(req, "method"@) == Some("tools/call"@)
    &&& match field_of(req, "params"@) {
        Some(p) => str_field_of(p, "name"@) == Some(call.function.name@) && match field_of(
            p,
            "arguments"@,
        ) {
            Some(JsonValue::Object(a)) => args_filled(a@, model_args(call.function.arguments@), html, url),
            _ => false,
        },
        None => false,
    }
}

/// The JSON-RPC request that runs `call`; the page's HTML and URL are added to
/// its arguments where the model left them out, and arguments that are no JSON
/// object count as none.
pub fn tool_request(call: &ToolCall, html: &str, url: &str) -> (r: JsonValue)
    ensures
        is_tool_request_for(r, *call, html@, url@),
{
    proof {
        reveal_strlit("html_content");
        reveal_strlit("url");
        reveal_strlit("name");
        reveal_strlit("arguments");
        reveal_strlit("jsonrpc");
        reveal_strlit("id");
        reveal_strlit("method");
        reveal_strlit("params");
        assert("html_content"@.len() != "url"@.len());
        assert("name"@.len() != "arguments"@.len());
        assert("jsonrpc"@.len() == 7 && "id"@.len() == 2 && "method"@.len() == 6 && "params"@.len() == 6);
        assert("method"@[0] != "params"@[0]);
    }
    let mut args: Vec<JsonMember> = match parse_json(call.function.arguments.as_str()) {
        Some(JsonValue::Object(m)) => m,
        _ => Vec::new(),
    };
    let ghost given = args@;
    assert(given == model_args(call.function.arguments@));
    if crate::json::find_member(&args, "html_content").is_none() {
        push_member(&mut args, "html_content", json_str(html));
    }
    let ghost a1 = args@;
    if crate::json::find_member(&args, "url").is_none() {
        push_member(&mut args, "url", json_str(url));
    }
    proof {
        assert(forall|k: Seq<char>| k != "html_content"@ ==> #[trigger] member_value(a1, k) == member_value(given, k));
        assert(forall|k: Seq<char>| k != "url"@ ==> #[trigger] member_value(args@, k) == member_value(a1, k));
        assert(member_value(a1, "url"@) == member_value(given, "url"@));
        assert(member_value(args@, "html_content"@) == member_value(a1, "html_content"@));
        assert(args_filled(args@, given, html@, url@));
    }
    let mut params: Vec<JsonMember> = Vec::new();
    push_member(&mut params, "name", JsonValue::Str(call.function.name.clone()));
    push_member(&mut params, "arguments", JsonValue::Object(args));
    let mut m: Vec<JsonMember> = Vec::new();
    push_member(&mut m, "jsonrpc", json_str("2.0"));
    push_member(&mut m, "id", JsonValue::Integer(1));
    push_member(&mut m, "method", json_str("tools/call"));
    push_member(&mut m, "params", JsonValue::Object(params));
    JsonValue::Object(m)
}

/// What a tool server response contributes to the conversation: the
/// pretty-printed `result`, or `None` where the response holds an `error` or no result.
pub open spec fn tool_output(resp: JsonValue) -> Option<Seq<char>> {
    if field_of(resp, "error"@) is Some {
        None
    } else {
        match field_of(resp, "result"@) {
            Some(v) => Some(crate::json::pretty_json(v)),
            None => None,
        }
    }
}

pub fn tool_output_of(resp: JsonValue) -> (r: Option<String>)
    ensures
        ov(r) == tool_output(resp),
{
    if resp.get("error").is_some() {
        None
    } else {
        match take_field(resp, "result").1 {
            Some(v) => Some(to_pretty_json(&v)),
            None => None,
        }
    }
}


/// The text of a model reply that calls no tool.
pub open spec fn final_reply(e: LoopEvent) -> Option<Seq<char>> {
    match e {
        LoopEvent::ModelReplied(rep) => if rep.tool_calls is None {
            match rep.content {
                Some(c) => Some(c@),
                None => None,
            }
        } else {
            None
        },
        _ => None,
    }
}

/// The output that a tool reply contributes, for a `ToolReplied` event.
pub open spec fn tool_reply_output(e: LoopEvent) -> Option<Seq<char>> {
    match e {
        LoopEvent::ToolReplied(resp) => tool_output(resp),
        _ => None,
    }
}

/// The manifest of a `ManifestLoaded` event.
pub open spec fn loaded_manifest(e: LoopEvent) -> Option<JsonValue> {
    match e {
        LoopEvent::ManifestLoaded(m) => Some(m),
        _ => None,
    }
}

/// The tool calls of a model reply that calls tools.
pub open spec fn reply_calls(e: LoopEvent) -> Option<Seq<ToolCall>> {
    match e {
        LoopEvent::ModelReplied(rep) => match rep.tool_calls {
            Some(calls) => Some(calls@),
            None => None,
        },
        _ => None,
    }
}

/// The text of a model reply, empty where it has none.
pub open spec fn reply_text(e: LoopEvent) -> Seq<char> {
    match e {
        LoopEvent::ModelReplied(rep) => match rep.content {
            Some(c) => c@,
            None => Seq::empty(),
        },
        _ => Seq::empty(),
    }
}

/// `new` is `old` followed by the assistant turn that made `call` (with the
/// reply's text) and the tool message holding `output`.
pub open spec fn appended_tool_turn(
    old: Seq<Message>,
    new: Seq<Message>,
    reply: Seq<char>,
    call: ToolCall,
    output: Seq<char>,
) -> bool {
    &&& new.len() == old.len() + 2
    &&& new.take(old.len() as int) == old
    &&& new[old.len() as int].role@ == "assistant"@
    &&& new[old.len() as int].content@ == reply
    &&& (match new[old.len() as int].tool_calls {
        Some(v) => v@ == seq![call],
        None => false,
    })
    &&& new[old.len() as int + 1].role@ == "tool"@
    &&& new[old.len() as int + 1].content@ == output
    &&& new[old.len() as int + 1].tool_calls is None
}

/// One product extraction run: the conversation so far, the tools, the turns
/// taken and what the run waits for.
pub struct ProductExtraction {
    url: String,
    html: String,
    messages: Vec<Message>,
    tools: Vec<ToolFunction>,
    turns: usize,
    max_turns: usize,
    reply_content: String,
    pending: Vec<ToolCall>,
    phase: Phase,
    model_calls: Ghost<nat>,
}

impl ProductExtraction {
    pub closed spec fn spec_phase(&self) -> Phase {
        self.phase
    }

    /// Model calls asked for so far.
    pub closed spec fn model_calls(&self) -> nat {
        self.model_calls@
    }

    pub closed spec fn spec_max_turns(&self) -> nat {
        self.max_turns as nat
    }

    pub closed spec fn spec_url(&self) -> Seq<char> {
        self.url@
    }

    /// The tool calls of the last reply not yet answered, in order.
    pub closed spec fn spec_pending(&self) -> Seq<ToolCall> {
        self.pending@
    }

    pub closed spec fn spec_html(&self) -> Seq<char> {
        self.html@
    }

    /// The tools offered to the model: name and description.
    pub closed spec fn spec_tools(&self) -> Seq<(Seq<char>, Seq<char>)> {
        self.tools@.map_values(|t: ToolFunction| tool_view(t))
    }

    /// The conversation so far, in order.
    pub closed spec fn spec_messages(&self) -> Seq<Message> {
        self.messages@
    }

    /// The text of the last reply that called tools.
    pub closed spec fn spec_reply_content(&self) -> Seq<char> {
        self.reply_content@
    }

    /// Progress: turns left, then the phase, then the tool calls left; every
    /// step that does not finish the run makes it smaller.
    pub closed spec fn progress(&self) -> (int, int, int) {
        (self.max_turns - self.turns, rank(self.phase), self.pending@.len() as int)
    }

    pub closed spec fn wf(&self) -> bool {
        &&& self.turns <= self.max_turns
        &&& self.model_calls@ <= self.max_turns
        &&& match self.phase {
            Phase::AwaitManifest => self.model_calls@ == 0 && self.turns == 0,
            Phase::AwaitModel => self.model_calls@ == self.turns + 1 && self.turns < self.max_turns,
            Phase::AwaitTool => self.model_calls@ == self.turns + 1 && self.turns < self.max_turns
                && self.pending@.len() > 0,
            Phase::Done => true,
        }
    }

    /// A run for the page at `url` with HTML `html` that may call the model at
    /// most `max_turns` times. The conversation starts with the system and user prompts.
    pub fn new(url: &str, html: String, max_turns: usize) -> (r: ProductExtraction)
        ensures
            r.wf(),
            r.spec_phase() == Phase::AwaitManifest,
            r.model_calls() == 0,
            r.spec_max_turns() == max_turns,
            r.spec_url() == url@,
            r.spec_html() == html@,
            r.spec_messages().len() == 2,
            r.spec_messages()[0].role@ == "system"@,
            r.spec_messages()[0].content@ == extraction_system_text(),
            r.spec_messages()[1].role@ == "user"@,
            r.spec_messages()[1].content@ == "I need to extract product information from this web page. The URL is: "@ + url@
                + "\n\nI have the raw HTML content available. Please use the appropriate tools to:\n1. First analyze the page structure to understand what kind of site this is\n2. Extract clean, structured product data\n3. Return the product information in a clear format\n\nStart by analyzing the page structure."@,
    {
        let messages = vec![
            message("system", extraction_system_prompt()),
            message("user", extraction_user_prompt(url)),
        ];
        ProductExtraction {
            url: String::from_str(url),
            html,
            messages,
            tools: Vec::new(),
            turns: 0,
            max_turns,
            reply_content: String::new(),
            pending: Vec::new(),
            phase: Phase::AwaitManifest,
            model_calls: Ghost(0),
        }
    }

    /// The first thing to do: fetch the tool manifest.
    pub fn start(&self) -> (r: LoopAction)
        ensures
            r is FetchManifest,
    {
        LoopAction::FetchManifest
    }

    pub fn messages(&self) -> (r: &Vec<Message>)
        ensures
            r@ == self.spec_messages(),
    {
        &self.messages
    }

    pub fn tools(&self) -> (r: &Vec<ToolFunction>)
        ensures
            r@.map_values(|t: ToolFunction| tool_view(t)) == self.spec_tools(),
    {
        &self.tools
    }

    pub fn phase(&self) -> (r: Phase)
        ensures
            r == self.spec_phase(),
    {
        self.phase
    }

    fn finish(&mut self, p: ProductInfo) -> (r: LoopAction)
        requires
            old(self).wf(),
        ensures
            final(self).wf(),
            final(self).phase == Phase::Done,
            final(self).model_calls@ == old(self).model_calls@,
            final(self).max_turns == old(self).max_turns,
            final(self).url == old(self).url,
            final(self).html == old(self).html,
            final(self).turns == old(self).turns,
            final(self).pending == old(self).pending,
            final(self).messages == old(self).messages,
            final(self).tools == old(self).tools,
            final(self).reply_content == old(self).reply_content,
            r == LoopAction::Finish(p),
    {
        self.phase = Phase::Done;
        LoopAction::Finish(p)
    }

    fn give_up(&mut self) -> (r: LoopAction)
        requires
            old(self).wf(),
        ensures
            final(self).wf(),
            final(self).phase == Phase::Done,
            final(self).model_calls@ == old(self).model_calls@,
            final(self).max_turns == old(self).max_turns,
            final(self).url == old(self).url,
            final(self).html == old(self).html,
            final(self).turns == old(self).turns,
            final(self).pending == old(self).pending,
            final(self).messages == old(self).messages,
            final(self).tools == old(self).tools,
            final(self).reply_content == old(self).reply_content,
            r matches LoopAction::Finish(p) && is_fallback(p),
    {
        self.finish(create_fallback_product_info())
    }

    /// Ends a turn: the model is asked again while turns are left.
    fn next_turn(&mut self) -> (r: LoopAction)
        requires
            old(self).turns < old(self).max_turns,
            old(self).model_calls@ == old(self).turns + 1,
        ensures
            final(self).wf(),
            final(self).max_turns == old(self).max_turns,
            final(self).url == old(self).url,
            final(self).turns == old(self).turns + 1,
            final(self).html == old(self).html,
            final(self).pending == old(self).pending,
            final(self).messages == old(self).messages,
            final(self).tools == old(self).tools,
            final(self).reply_content == old(self).reply_content,
            r is CallModel ==> final(self).model_calls@ == old(self).model_calls@ + 1
                && final(self).phase == Phase::AwaitModel,
            !(r is CallModel) ==> final(self).model_calls@ == old(self).model_calls@
                && final(self).phase == Phase::Done && (r matches LoopAction::Finish(p)
                && is_fallback(p)),
    {
        self.turns = self.turns + 1;
        if self.turns < self.max_turns {
            self.phase = Phase::AwaitModel;
            self.model_calls = Ghost(self.model_calls@ + 1);
            LoopAction::CallModel
        } else {
            self.phase = Phase::Done;
            self.give_up()
        }
    }

    /// Advances the run by what the driver reports. Any failure of the model
    /// or the tools, and any report the run did not ask for, ends the run with
    /// the fallback product.
    pub fn step(&mut self, event: LoopEvent) -> (r: LoopAction)
        requires
            old(self).wf(),
        ensures
            final(self).wf(),
            final(self).spec_max_turns() == old(self).spec_max_turns(),
            final(self).spec_url() == old(self).spec_url(),
            final(self).spec_html() == old(self).spec_html(),
            r matches LoopAction::Finish(p) ==> (is_fallback(p) || (old(self).spec_phase() == Phase::AwaitModel
                && final_reply(event) is Some && info_view(p) == reply_product(final_reply(event)->0))),
            (old(self).spec_phase() == Phase::AwaitTool && tool_reply_output(event) is Some) ==> appended_tool_turn(
                old(self).spec_messages(),
                final(self).spec_messages(),
                old(self).spec_reply_content(),
                old(self).spec_pending()[0],
                tool_reply_output(event)->0,
            ) && final(self).spec_pending() == old(self).spec_pending().drop_first(),
            !(old(self).spec_phase() == Phase::AwaitTool && tool_reply_output(event) is Some) ==> final(self).spec_messages()
                == old(self).spec_messages(),
            (old(self).spec_phase() == Phase::AwaitModel && reply_calls(event) is Some) ==> final(self).spec_pending()
                == reply_calls(event)->0 && final(self).spec_reply_content() == reply_text(event),
            (old(self).spec_phase() == Phase::AwaitManifest && loaded_manifest(event) is Some) ==> final(self).spec_tools()
                == listed_tools(manifest_entries(loaded_manifest(event)->0)),
            r is CallModel ==> final(self).model_calls() == old(self).model_calls() + 1,
            !(r is CallModel) ==> final(self).model_calls() == old(self).model_calls(),
            (r is Finish) == (final(self).spec_phase() == Phase::Done),
            !(r is Finish) ==> lex_lt(final(self).progress(), old(self).progress()),
            r is FetchManifest ==> false,
            (event is ManifestFailed || event is ModelFailed || event is ToolFailed) ==> (r matches LoopAction::Finish(p) && is_fallback(p)),
            old(self).spec_phase() == Phase::Done ==> (r matches LoopAction::Finish(p) && is_fallback(p)),
            (old(self).spec_phase() == Phase::AwaitModel && final_reply(event) is Some) ==> (r matches LoopAction::Finish(p)
                && info_view(p) == reply_product(final_reply(event)->0)),
            r matches LoopAction::CallTool(req) ==> final(self).spec_pending().len() > 0
                && is_tool_request_for(req, final(self).spec_pending()[0], final(self).spec_html(), final(self).spec_url()),
    {
        let phase = self.phase;
        match event {
            LoopEvent::ManifestLoaded(m) => {
                if phase == Phase::AwaitManifest {
                    self.tools = tools_from_manifest(m);
                    if self.max_turns > 0 {
                        self.phase = Phase::AwaitModel;
                        self.model_calls = Ghost(1);
                        LoopAction::CallModel
                    } else {
                        self.give_up()
                    }
                } else {
                    self.give_up()
                }
            },
            LoopEvent::ModelReplied(reply) => {
                if phase == Phase::AwaitModel {
                    match reply.tool_calls {
                        Some(calls) => {
                            self.reply_content = match reply.content {
                                Some(c) => c,
                                None => String::new(),
                            };
                            self.pending = calls;
                            if self.pending.len() > 0 {
                                self.phase = Phase::AwaitTool;
                                let req = tool_request(&self.pending[0], self.html.as_str(), self.url.as_str());
                                LoopAction::CallTool(req)
                            } else {
                                self.next_turn()
                            }
                        },
                        None => match reply.content {
                            Some(c) => {
                                let p = parse_final_product_response(c.as_str());
                                self.finish(p)
                            },
                            None => self.next_turn(),
                        },
                    }
                } else {
                    self.give_up()
                }
            },
            LoopEvent::ToolReplied(resp) => {
                if phase == Phase::AwaitTool {
                    match tool_output_of(resp) {
                        Some(text) => {
                            let ghost before = self.messages@;
                            let ghost first = self.pending@[0];
                            let call = self.pending.remove(0);
                            let calls = vec![call];
                            assert(calls@ =~= seq![first]);
                            self.messages.push(
                                Message {
                                    role: String::from_str("assistant"),
                                    content: self.reply_content.clone(),
                                    tool_calls: Some(calls),
                                },
                            );
                            self.messages.push(message("tool", text));
                            assert(self.messages@.take(before.len() as int) =~= before);
                            if self.pending.len() > 0 {
                                let req = tool_request(&self.pending[0], self.html.as_str(), self.url.as_str());
                                LoopAction::CallTool(req)
                            } else {
                                self.next_turn()
                            }
                        },
                        None => self.give_up(),
                    }
                } else {
                    self.give_up()
                }
            },
            _ => self.give_up(),
        }
    }
}

/// However the model and the tools answer, a run never asks for more model
/// calls than its turn bound.
pub proof fn lemma_turn_bound(run: ProductExtraction)
    requires
        run.wf(),
    ensures
        run.model_calls() <= run.spec_max_turns(),
{
}


/// How much of a page a single-shot extraction prompt quotes, in UTF-8 bytes.
pub const PROMPT_HTML_LIMIT: usize = 8000;

/// The system prompt of a single-shot extraction (no tools).
pub fn product_extraction_system_prompt() -> String {
    String::from_str(
        "You are a product information extraction assistant. Analyze the HTML content of an e-commerce page and extract the product's name, a brief description, price (with currency if available), availability, brand, rating and main image URL.\n\nReturn the information as a JSON object with the members name, description, price, availability, brand, rating and image_url. Use null for anything that is not available. Focus on the main product of the page.",
    )
}

/// The number of bytes of `c` in UTF-8.
pub open spec fn char_width(c: char) -> int {
    let u = c as u32;
    if u <= 0x7F {
        1
    } else if u <= 0x7FF {
        2
    } else if u <= 0xFFFF {
        3
    } else {
        4
    }
}

/// How many leading characters of `s` fit in `limit` UTF-8 bytes: the
/// length of the longest prefix whose encoding is at most `limit` bytes.
pub open spec fn fit_count(s: Seq<char>, limit: int) -> nat
    decreases s.len(),
{
    if s.len() == 0 {
        0
    } else if char_width(s[0]) <= limit {
        1 + fit_count(s.drop_first(), limit - char_width(s[0]))
    } else {
        0
    }
}

/// The page as quoted in a prompt: whole where its UTF-8 encoding is at most
/// the limit, else the longest prefix that fits the limit followed by a
/// truncation mark.
pub open spec fn quoted_html(html: Seq<char>) -> Seq<char> {
    if encode_utf8(html).len() > PROMPT_HTML_LIMIT {
        html.take(fit_count(html, PROMPT_HTML_LIMIT as int) as int) + "...[truncated]"@
    } else {
        html
    }
}

proof fn lemma_scalar_width(c: char)
    ensures
        encode_scalar(c as u32).len() == char_width(c),
        encode_utf8(seq![c]).len() == char_width(c),
{
    vstd::utf8::char_is_scalar(c);
    let s1 = seq![c];
    assert(s1[0] == c);
    assert(s1.drop_first() =~= Seq::<char>::empty());
    assert(encode_utf8(s1.drop_first()) =~= Seq::<u8>::empty());
    assert(encode_utf8(s1) == encode_scalar(s1[0] as u32) + encode_utf8(s1.drop_first()));
    assert(encode_utf8(s1) =~= encode_scalar(c as u32));
}

proof fn lemma_encode_concat(a: Seq<char>, b: Seq<char>)
    ensures
        encode_utf8(a + b) == encode_utf8(a) + encode_utf8(b),
    decreases a.len(),
{
    if a.len() > 0 {
        assert((a + b).drop_first() =~= a.drop_first() + b);
        lemma_encode_concat(a.drop_first(), b);
        assert(encode_utf8(a + b) =~= encode_utf8(a) + encode_utf8(b));
    } else {
        assert(a + b =~= b);
        assert(encode_utf8(a) =~= Seq::<u8>::empty());
    }
}

fn width_of(c: char) -> (r: usize)
    ensures
        r == char_width(c),
        1 <= r <= 4,
{
    let u = c as u32;
    if u <= 0x7F {
        1
    } else if u <= 0x7FF {
        2
    } else if u <= 0xFFFF {
        3
    } else {
        4
    }
}

/// The user prompt of a single-shot extraction of the page at `url`.
pub fn product_extraction_prompt(url: &str, html: &str) -> (r: String)
    ensures
        r@ == "URL: "@ + url@ + "\n\nHTML Content:\n"@ + quoted_html(html@)
            + "\n\nPlease extract the product information from this HTML content and return it as JSON."@,
{
    let chars = chars_of(html);
    let ghost h = html@;
    let limit: usize = PROMPT_HTML_LIMIT;
    let mut i: usize = 0;
    let mut used: usize = 0;
    assert(h.skip(0) =~= h);
    assert(h.take(0) =~= Seq::<char>::empty());
    while i < chars.len() && used + width_of(chars[i]) <= limit
        invariant
            chars@ == h,
            limit == PROMPT_HTML_LIMIT,
            i <= chars.len(),
            used <= limit,
            used == encode_utf8(h.take(i as int)).len(),
            fit_count(h, limit as int) == i + fit_count(h.skip(i as int), limit - used),
        decreases chars.len() - i,
    {
        let w = width_of(chars[i]);
        proof {
            let rest = h.skip(i as int);
            assert(rest[0] == h[i as int]);
            assert(rest.drop_first() =~= h.skip(i + 1));
            assert(h.take(i + 1) =~= h.take(i as int) + seq![h[i as int]]);
            lemma_encode_concat(h.take(i as int), seq![h[i as int]]);
            lemma_scalar_width(h[i as int]);
        }
        used = used + w;
        i = i + 1;
    }
    proof {
        assert(h.take(i as int) + h.skip(i as int) =~= h);
        lemma_encode_concat(h.take(i as int), h.skip(i as int));
        if i < chars.len() {
            let rest = h.skip(i as int);
            lemma_scalar_width(rest[0]);
            assert(rest[0] == h[i as int]);
            assert(fit_count(rest, limit - used) == 0);
            vstd::utf8::char_is_scalar(rest[0]);
            assert(encode_utf8(rest) == encode_scalar(rest[0] as u32) + encode_utf8(rest.drop_first()));
            assert(encode_utf8(h).len() > limit);
        } else {
            assert(h.take(i as int) =~= h);
            assert(h.skip(i as int) =~= Seq::<char>::empty());
        }
    }
    let quoted = if i < chars.len() {
        let head = string_from(slice_chars(&chars, 0, i).as_slice());
        crate::text::concat(head.as_str(), "...[truncated]")
    } else {
        String::from_str(html)
    };
    let a = crate::text::concat(crate::text::concat("URL: ", url).as_str(), "\n\nHTML Content:\n");
    let b = crate::text::concat(a.as_str(), quoted.as_str());
    let r = crate::text::concat(
        b.as_str(),
        "\n\nPlease extract the product information from this HTML content and return it as JSON.",
    );
    proof {
        assert(chars@.subrange(0, i as int) =~= h.take(i as int));
    }
    r
}

} // verus!
