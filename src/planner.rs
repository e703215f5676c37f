//! Automation planning: a task plan read from a model's reply, or a fixed
//! plan where the reply holds none.
use vstd::prelude::*;
use crate::codec::{action_from_json, action_of_json, is_action_json, string_field};
use crate::conversation::{json_span, ModelReply, ToolCall};
use crate::json::{field_of, json_str, parse_json, parsed_json, push_member, str_eq, JsonMember, JsonValue};
use crate::text::{chars_of, concat, string_from};
use crate::types::{AutomationRequest, BrowserAction, TaskPlan, TaskStep};

verus! {

/// Pause after the fallback plan's navigation.
pub const FALLBACK_WAIT_MS: u64 = 3000;

/// The plan used where no plan could be had from the model: navigate to the
/// target URL and wait for it where there is one, then take a screenshot.
pub open spec fn is_fallback_plan(p: TaskPlan, req: AutomationRequest) -> bool {
    &&& p.description@ == "Fallback plan for: "@ + req.task_description@
    &&& match req.target_url {
        Some(u) => {
            &&& p.steps@.len() == 3
            &&& p.steps@[0].id@ == "navigate"@
            &&& (match p.steps@[0].action {
                BrowserAction::ExecuteScript { script } => script@ == "window.location.href = '"@
                    + u@ + "'"@,
                _ => false,
            })
            &&& p.steps@[0].description@ == "Navigate to "@ + u@
            &&& p.steps@[1].id@ == "wait_load"@
            &&& p.steps@[1].action == BrowserAction::Wait { duration_ms: FALLBACK_WAIT_MS }
            &&& p.steps@[2].id@ == "screenshot"@
            &&& p.steps@[2].action == BrowserAction::Screenshot
        },
        None => {
            &&& p.steps@.len() == 1
            &&& p.steps@[0].id@ == "screenshot"@
            &&& p.steps@[0].action == BrowserAction::Screenshot
        },
    }
}

fn step(id: &str, action: BrowserAction, description: String, outcome: &str) -> (r: TaskStep)
    ensures
        r.id@ == id@,
        r.action == action,
        r.description == description,
{
    TaskStep {
        id: String::from_str(id),
        action,
        description,
        expected_outcome: Some(String::from_str(outcome)),
    }
}

pub fn create_fallback_plan(request: &AutomationRequest) -> (r: TaskPlan)
    ensures
        is_fallback_plan(r, *request),
{
    let mut steps: Vec<TaskStep> = Vec::new();
    match &request.target_url {
        Some(url) => {
            let script = concat(concat("window.location.href = '", url.as_str()).as_str(), "'");
            steps.push(
                step(
                    "navigate",
                    BrowserAction::ExecuteScript { script },
                    concat("Navigate to ", url.as_str()),
                    "Page should load",
                ),
            );
            steps.push(
                step(
                    "wait_load",
                    BrowserAction::Wait { duration_ms: FALLBACK_WAIT_MS },
                    String::from_str("Wait for page to load"),
                    "Page elements should be available",
                ),
            );
        },
        None => {},
    }
    steps.push(
        step(
            "screenshot",
            BrowserAction::Screenshot,
            String::from_str("Take a screenshot for reference"),
            "Screenshot captured",
        ),
    );
    TaskPlan {
        description: concat("Fallback plan for: ", request.task_description.as_str()),
        steps,
    }
}

/// An optional string: absent or `null` is `None`; any other non-string is invalid.
pub open spec fn opt_str_of(f: Option<JsonValue>) -> Option<Option<String>> {
    match f {
        None => Some(None),
        Some(JsonValue::Null) => Some(None),
        Some(JsonValue::Str(s)) => Some(Some(s)),
        _ => None,
    }
}

/// The step that `v` describes: `id`, `action` and `description` required,
/// `expected_outcome` optional.
pub open spec fn step_of_json(v: JsonValue) -> Option<TaskStep> {
    match (field_of(v, "id"@), field_of(v, "action"@), field_of(v, "description"@)) {
        (Some(JsonValue::Str(id)), Some(a), Some(JsonValue::Str(d))) => match (
            action_of_json(a),
            opt_str_of(field_of(v, "expected_outcome"@)),
        ) {
            (Some(act), Some(eo)) => Some(
                TaskStep { id, action: act, description: d, expected_outcome: eo },
            ),
            _ => None,
        },
        _ => None,
    }
}

/// `v` holds a plan: a string `description` and a `steps` array of steps.
pub open spec fn plan_decodes(v: JsonValue) -> bool {
    match (field_of(v, "description"@), field_of(v, "steps"@)) {
        (Some(JsonValue::Str(_)), Some(JsonValue::Array(items))) => forall|i: int|
            0 <= i < items@.len() ==> (#[trigger] step_of_json(items@[i])) is Some,
        _ => false,
    }
}

/// `p` is the plan that `v` holds.
pub open spec fn is_plan_json(v: JsonValue, p: TaskPlan) -> bool {
    &&& field_of(v, "description"@) == Some(JsonValue::Str(p.description))
    &&& match field_of(v, "steps"@) {
        Some(JsonValue::Array(items)) => items@.len() == p.steps@.len() && forall|i: int|
            0 <= i < items@.len() ==> #[trigger] step_of_json(items@[i]) == Some(p.steps@[i]),
        _ => false,
    }
}

fn opt_str_from(f: Option<&JsonValue>) -> (r: Option<Option<String>>)
    ensures
        r == opt_str_of(
            match f {
                Some(v) => Some(*v),
                None => None,
            },
        ),
{
    match f {
        None => Some(None),
        Some(JsonValue::Null) => Some(None),
        Some(JsonValue::Str(s)) => Some(Some(s.clone())),
        _ => None,
    }
}

pub fn step_from_json(v: &JsonValue) -> (r: Option<TaskStep>)
    ensures
        r == step_of_json(*v),
{
    let id = string_field(v, "id");
    let description = string_field(v, "description");
    match (id, v.get("action"), description) {
        (Some(id), Some(a), Some(d)) => match (action_from_json(a), opt_str_from(v.get("expected_outcome"))) {
            (Some(act), Some(eo)) => Some(
                TaskStep { id, action: act, description: d, expected_outcome: eo },
            ),
            _ => None,
        },
        _ => None,
    }
}

/// The plan that a JSON value holds, or `None` where it holds none.
pub fn plan_from_json(v: &JsonValue) -> (r: Option<TaskPlan>)
    ensures
        match r {
            Some(p) => is_plan_json(*v, p),
            None => !plan_decodes(*v),
        },
{
    match (string_field(v, "description"), v.get("steps")) {
        (Some(description), Some(JsonValue::Array(items))) => {
            let mut steps: Vec<TaskStep> = Vec::new();
            let mut i: usize = 0;
            while i < items.len()
                invariant
                    i <= items.len(),
                    field_of(*v, "steps"@) == Some(JsonValue::Array(*items)),
                    steps@.len() == i,
                    forall|j: int| 0 <= j < i ==> #[trigger] step_of_json(items@[j]) == Some(steps@[j]),
                decreases items.len() - i,
            {
                match step_from_json(&items[i]) {
                    Some(s) => steps.push(s),
                    None => {
                        assert(step_of_json(items@[i as int]) is None);
                        return None;
                    },
                }
                i = i + 1;
            }
            Some(TaskPlan { steps, description })
        },
        _ => None,
    }
}

/// The plan in a JSON text, where the text parses and holds one.
pub open spec fn doc_plan(text: Seq<char>) -> Option<JsonValue> {
    match parsed_json(text) {
        Some(v) => if plan_decodes(v) {
            Some(v)
        } else {
            None
        },
        None => None,
    }
}

/// The arguments of the first call of the plan tool.
pub open spec fn plan_call_args(calls: Seq<ToolCall>) -> Option<Seq<char>>
    decreases calls.len(),
{
    if calls.len() == 0 {
        None
    } else if calls[0].function.name@ == "create_task_plan"@ {
        Some(calls[0].function.arguments@)
    } else {
        plan_call_args(calls.drop_first())
    }
}

/// The document that a reply's plan comes from: the arguments of its plan tool
/// call where they hold a plan, else the JSON object in its text.
pub open spec fn reply_plan_doc(reply: ModelReply) -> Option<JsonValue> {
    let from_call = match reply.tool_calls {
        Some(calls) => match plan_call_args(calls@) {
            Some(a) => doc_plan(a),
            None => None,
        },
        None => None,
    };
    match from_call {
        Some(v) => Some(v),
        None => match reply.content {
            Some(c) => match json_span(c@) {
                Some(j) => doc_plan(j),
                None => None,
            },
            None => None,
        },
    }
}

fn plan_call(calls: &Vec<ToolCall>) -> (r: Option<String>)
    ensures
        crate::json::opt_view(r) == plan_call_args(calls@),
{
    let mut i: usize = 0;
    assert(calls@.subrange(0, calls@.len() as int) =~= calls@);
    while i < calls.len()
        invariant
            i <= calls.len(),
            plan_call_args(calls@) == plan_call_args(calls@.subrange(i as int, calls@.len() as int)),
        decreases calls.len() - i,
    {
        let ghost rest = calls@.subrange(i as int, calls@.len() as int);
        assert(rest.drop_first() =~= calls@.subrange(i + 1, calls@.len() as int));
        assert(rest[0] == calls@[i as int]);
        if str_eq(calls[i].function.name.as_str(), "create_task_plan") {
            return Some(calls[i].function.arguments.clone());
        }
        i = i + 1;
    }
    None
}

fn plan_in_text(text: &str) -> (r: Option<TaskPlan>)
    ensures
        match r {
            Some(p) => doc_plan(text@) matches Some(v) && is_plan_json(v, p),
            None => doc_plan(text@) is None,
        },
{
    match parse_json(text) {
        Some(v) => plan_from_json(&v),
        None => None,
    }
}

/// The plan of a model's reply: from its plan tool call, else from the JSON
/// object in its text, else the fallback plan.
pub fn plan_from_reply(reply: &ModelReply, request: &AutomationRequest) -> (r: TaskPlan)
    ensures
        match reply_plan_doc(*reply) {
            Some(v) => is_plan_json(v, r),
            None => is_fallback_plan(r, *request),
        },
{
    let from_call = match &reply.tool_calls {
        Some(calls) => match plan_call(calls) {
            Some(args) => plan_in_text(args.as_str()),
            None => None,
        },
        None => None,
    };
    match from_call {
        Some(p) => p,
        None => {
            let from_text = match &reply.content {
                Some(c) => {
                    let chars = chars_of(c.as_str());
                    match crate::conversation::json_span_of(&chars) {
                        Some(span) => plan_in_text(string_from(span.as_slice()).as_str()),
                        None => None,
                    }
                },
                None => None,
            };
            match from_text {
                Some(p) => p,
                None => create_fallback_plan(request),
            }
        },
    }
}


/// The system prompt of automation planning.
pub fn automation_system_prompt() -> String {
    String::from_str(
        "You are a web automation assistant. Your job is to create detailed task plans for browser automation.\n\nGiven a user's automation request, break it down into specific browser actions.\n\nAvailable browser actions: Click, Type, Wait, WaitForElement, Scroll, Screenshot, GetPageSource, ExecuteScript.\n\nAlways provide step-by-step instructions with clear CSS selectors and expected outcomes. Include wait steps when necessary to ensure page elements are loaded.\n\nReturn your plan as a JSON object.",
    )
}

/// The instructions that close every planning request: the expected JSON shape.
pub open spec fn plan_format_note() -> Seq<char> {
    "\n\nPlease create a detailed task plan for this automation request. Return your response as a JSON object: {\"description\": \"Overall task description\", \"steps\": [{\"id\": \"unique_step_id\", \"action\": {\"type\": \"Click\", \"params\": {\"selector\": \"css_selector\"}}, \"description\": \"What this step does\", \"expected_outcome\": \"What should happen\"}]}"@
}

/// The string members of the request's context as `key: value` lines.
pub open spec fn context_lines(m: Seq<JsonMember>) -> Seq<char>
    decreases m.len(),
{
    if m.len() == 0 {
        Seq::empty()
    } else {
        let p = context_lines(m.drop_last());
        match m.last().value {
            JsonValue::Str(v) => p + "\n"@ + m.last().key@ + ": "@ + v@,
            _ => p,
        }
    }
}

/// The user prompt of a planning request: the task, the target URL where
/// there is one, the context's string members, and the expected plan format.
pub open spec fn automation_prompt_text(req: AutomationRequest) -> Seq<char> {
    "Task: "@ + req.task_description@ + match req.target_url {
        Some(u) => "\nTarget URL: "@ + u@,
        None => Seq::empty(),
    } + match req.context {
        Some(c) => "\nAdditional context:"@ + context_lines(c@),
        None => Seq::empty(),
    } + plan_format_note()
}

fn context_text(m: &Vec<JsonMember>) -> (r: String)
    ensures
        r@ == context_lines(m@),
{
    let mut out = String::new();
    let mut i: usize = 0;
    while i < m.len()
        invariant
            i <= m.len(),
            out@ == context_lines(m@.take(i as int)),
        decreases m.len() - i,
    {
        proof {
            assert(m@.take(i + 1).drop_last() =~= m@.take(i as int));
            assert(m@.take(i + 1).last() == m@[i as int]);
        }
        match &m[i].value {
            JsonValue::Str(v) => {
                let line = concat(concat("\n", m[i].key.as_str()).as_str(), ": ");
                let line = concat(line.as_str(), v.as_str());
                out = concat(out.as_str(), line.as_str());
                assert(out@ =~= context_lines(m@.take(i as int)) + "\n"@ + m@[i as int].key@ + ": "@ + v@);
            },
            _ => {},
        }
        i = i + 1;
    }
    assert(m@.take(m.len() as int) =~= m@);
    out
}

pub fn automation_user_prompt(request: &AutomationRequest) -> (r: String)
    ensures
        r@ == automation_prompt_text(*request),
{
    let mut prompt = concat("Task: ", request.task_description.as_str());
    match &request.target_url {
        Some(u) => {
            prompt = concat(concat(prompt.as_str(), "\nTarget URL: ").as_str(), u.as_str());
        },
        None => {},
    }
    match &request.context {
        Some(c) => {
            prompt = concat(concat(prompt.as_str(), "\nAdditional context:").as_str(), context_text(c).as_str());
        },
        None => {},
    }
    let r = concat(
        prompt.as_str(),
        "\n\nPlease create a detailed task plan for this automation request. Return your response as a JSON object: {\"description\": \"Overall task description\", \"steps\": [{\"id\": \"unique_step_id\", \"action\": {\"type\": \"Click\", \"params\": {\"selector\": \"css_selector\"}}, \"description\": \"What this step does\", \"expected_outcome\": \"What should happen\"}]}",
    );
    proof {
        let req = *request;
        assert(r@ =~= automation_prompt_text(req));
    }
    r
}


/// The tool through which a model may hand back a plan: its name, purpose and
/// argument schema, in the shape a chat API lists tools.
pub fn plan_tool() -> (r: JsonValue)
    ensures
        r is Object,
{
    let mut step_props: Vec<JsonMember> = Vec::new();
    push_member(&mut step_props, "id", type_only("string"));
    push_member(&mut step_props, "action", type_only("object"));
    push_member(&mut step_props, "description", type_only("string"));
    push_member(&mut step_props, "expected_outcome", type_only("string"));
    let mut item: Vec<JsonMember> = Vec::new();
    push_member(&mut item, "type", json_str("object"));
    push_member(&mut item, "properties", JsonValue::Object(step_props));
    let mut steps: Vec<JsonMember> = Vec::new();
    push_member(&mut steps, "type", json_str("array"));
    push_member(&mut steps, "items", JsonValue::Object(item));
    let mut description: Vec<JsonMember> = Vec::new();
    push_member(&mut description, "type", json_str("string"));
    push_member(&mut description, "description", json_str("Overall description of the task"));
    let mut props: Vec<JsonMember> = Vec::new();
    push_member(&mut props, "description", JsonValue::Object(description));
    push_member(&mut props, "steps", JsonValue::Object(steps));
    let mut params: Vec<JsonMember> = Vec::new();
    push_member(&mut params, "type", json_str("object"));
    push_member(&mut params, "properties", JsonValue::Object(props));
    push_member(
        &mut params,
        "required",
        JsonValue::Array(vec![json_str("description"), json_str("steps")]),
    );
    let mut function: Vec<JsonMember> = Vec::new();
    push_member(&mut function, "name", json_str("create_task_plan"));
    push_member(&mut function, "description", json_str("Create a browser automation task plan"));
    push_member(&mut function, "parameters", JsonValue::Object(params));
    let mut tool: Vec<JsonMember> = Vec::new();
    push_member(&mut tool, "type", json_str("function"));
    push_member(&mut tool, "function", JsonValue::Object(function));
    JsonValue::Object(tool)
}

fn type_only(t: &str) -> JsonValue {
    let mut m: Vec<JsonMember> = Vec::new();
    push_member(&mut m, "type", json_str(t));
    JsonValue::Object(m)
}


/// `v` is the JSON form of step `s`; an absent outcome is `null`.
pub open spec fn is_step_json(v: JsonValue, s: TaskStep) -> bool {
    &&& field_of(v, "id"@) == Some(JsonValue::Str(s.id))
    &&& match field_of(v, "action"@) {
        Some(a) => is_action_json(a, s.action),
        None => false,
    }
    &&& field_of(v, "description"@) == Some(JsonValue::Str(s.description))
    &&& field_of(v, "expected_outcome"@) == Some(
        match s.expected_outcome {
            Some(o) => JsonValue::Str(o),
            None => JsonValue::Null,
        },
    )
}

/// `v` is the JSON form of plan `p`.
pub open spec fn is_plan_encoding(v: JsonValue, p: TaskPlan) -> bool {
    &&& field_of(v, "description"@) == Some(JsonValue::Str(p.description))
    &&& match field_of(v, "steps"@) {
        Some(JsonValue::Array(items)) => items@.len() == p.steps@.len() && forall|i: int|
            0 <= i < items@.len() ==> #[trigger] is_step_json(items@[i], p.steps@[i]),
        _ => false,
    }
}

/// The JSON form of a step.
pub fn step_to_json(s: &TaskStep) -> (r: JsonValue)
    ensures
        is_step_json(r, *s),
{
    proof {
        reveal_strlit("id");
        reveal_strlit("action");
        reveal_strlit("description");
        reveal_strlit("expected_outcome");
        assert("id"@.len() == 2 && "action"@.len() == 6 && "description"@.len() == 11
            && "expected_outcome"@.len() == 16);
    }
    let outcome = match &s.expected_outcome {
        Some(o) => JsonValue::Str(o.clone()),
        None => JsonValue::Null,
    };
    let mut m: Vec<JsonMember> = Vec::new();
    push_member(&mut m, "id", JsonValue::Str(s.id.clone()));
    push_member(&mut m, "action", crate::codec::action_to_json(&s.action));
    push_member(&mut m, "description", JsonValue::Str(s.description.clone()));
    push_member(&mut m, "expected_outcome", outcome);
    JsonValue::Object(m)
}

/// The JSON form of a plan.
pub fn plan_to_json(p: &TaskPlan) -> (r: JsonValue)
    ensures
        is_plan_encoding(r, *p),
{
    proof {
        reveal_strlit("description");
        reveal_strlit("steps");
        assert("description"@.len() == 11 && "steps"@.len() == 5);
    }
    let mut items: Vec<JsonValue> = Vec::new();
    let mut i: usize = 0;
    while i < p.steps.len()
        invariant
            i <= p.steps@.len(),
            items@.len() == i,
            forall|j: int| 0 <= j < i ==> #[trigger] is_step_json(items@[j], p.steps@[j]),
        decreases p.steps@.len() - i,
    {
        items.push(step_to_json(&p.steps[i]));
        i = i + 1;
    }
    let mut m: Vec<JsonMember> = Vec::new();
    push_member(&mut m, "description", JsonValue::Str(p.description.clone()));
    push_member(&mut m, "steps", JsonValue::Array(items));
    JsonValue::Object(m)
}

/// Reading back the JSON form of a plan gives the plan itself: its
/// description and each of its steps, actions included.
pub proof fn lemma_plan_json_round_trip(p: TaskPlan, v: JsonValue)
    requires
        is_plan_encoding(v, p),
    ensures
        plan_decodes(v),
        is_plan_json(v, p),
        forall|q: TaskPlan| #[trigger] is_plan_json(v, q) ==> q.description == p.description && q.steps@ == p.steps@,
{
    if let Some(JsonValue::Array(items)) = field_of(v, "steps"@) {
        assert forall|i: int| 0 <= i < items@.len() implies #[trigger] step_of_json(items@[i]) == Some(p.steps@[i]) by {
            assert(is_step_json(items@[i], p.steps@[i]));
            let a = field_of(items@[i], "action"@)->0;
            crate::codec::lemma_action_json_round_trip(p.steps@[i].action, a);
        }
        assert forall|q: TaskPlan| #[trigger] is_plan_json(v, q) implies q.description == p.description && q.steps@ == p.steps@ by {
            assert forall|i: int| 0 <= i < q.steps@.len() implies q.steps@[i] == p.steps@[i] by {
                assert(step_of_json(items@[i]) == Some(q.steps@[i]));
            }
            assert(q.steps@ =~= p.steps@);
        }
    }
}

} // verus!
