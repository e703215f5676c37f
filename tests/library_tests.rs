use llm_web_agent::conversation::{
    parse_final_product_response, tool_request, LoopAction, LoopEvent, ModelReply,
    ProductExtraction, ToolCall, ToolCallFunction, MAX_TURNS,
};
use llm_web_agent::engine::{collect_results, TaskRun};
use llm_web_agent::executor::{
    ActionRun, ActionStep, DriverEvent, DriverOp,
    action_outcome, decimal_string, page_creation_step, poll_step, screenshot_data_uri,
    scroll_offset, scroll_script, ActionError, DriverReport, PageCreation, PollStep,
};
use llm_web_agent::html::{analyze_page_structure, extract_by_selectors, extract_clean_text, SelectedText};
use llm_web_agent::json::{parse_json, to_pretty_json, JsonMember, JsonValue};
use llm_web_agent::planner::{create_fallback_plan, plan_from_json, plan_from_reply, plan_to_json};
use llm_web_agent::conversation::{line_label, product_extraction_prompt, Label};
use llm_web_agent::product::extract_product_data;
use llm_web_agent::registry::SessionRegistry;
use llm_web_agent::server::{handle_request_at, MCPRequest, MCPServerState};
use llm_web_agent::types::{AppError, AutomationRequest, BrowserAction, ScrollDirection, TaskPlan, TaskStep};

fn step(id: &str, action: BrowserAction) -> TaskStep {
    TaskStep { id: id.to_string(), action, description: String::new(), expected_outcome: None }
}

fn json(text: &str) -> JsonValue {
    parse_json(text).expect("valid JSON")
}

fn str_of(v: Option<&JsonValue>) -> Option<String> {
    match v {
        Some(JsonValue::Str(s)) => Some(s.clone()),
        _ => None,
    }
}

#[test]
fn plan_gives_one_result_per_step_in_order() {
    let plan = TaskPlan {
        description: "three steps".to_string(),
        steps: vec![
            step("a", BrowserAction::Screenshot),
            step("b", BrowserAction::Click { selector: "#missing".to_string() }),
            step("c", BrowserAction::GetPageSource),
        ],
    };
    let outcomes = vec![
        Ok("data:image/png;base64,AA==".to_string()),
        Err("Element not found #missing: none".to_string()),
        Ok("<html></html>".to_string()),
    ];
    let results = collect_results(plan, outcomes);
    assert_eq!(results.len(), 3);
    assert_eq!(results[0].step_id, "a");
    assert!(results[0].success);
    assert_eq!(results[1].step_id, "b");
    assert!(!results[1].success);
    assert_eq!(results[1].output, None);
    assert_eq!(results[1].error.as_deref(), Some("Element not found #missing: none"));
    assert_eq!(results[2].step_id, "c");
    assert_eq!(results[2].output.as_deref(), Some("<html></html>"));
}

#[test]
fn task_run_hands_out_actions_in_order() {
    let plan = TaskPlan {
        description: String::new(),
        steps: vec![step("x", BrowserAction::Wait { duration_ms: 5 }), step("y", BrowserAction::Screenshot)],
    };
    let mut run = TaskRun::new(plan);
    assert!(matches!(run.next_action(), Some(BrowserAction::Wait { duration_ms: 5 })));
    run.record(Err("boom".to_string()));
    assert!(matches!(run.next_action(), Some(BrowserAction::Screenshot)));
    run.record(Ok("shot".to_string()));
    assert!(run.is_finished());
    assert!(run.next_action().is_none());
    let results = run.into_results();
    assert_eq!(results.len(), 2);
    assert_eq!(results[0].error.as_deref(), Some("boom"));
}

#[test]
fn empty_plan_gives_no_results() {
    let plan = TaskPlan { description: String::new(), steps: vec![] };
    assert!(collect_results(plan, vec![]).is_empty());
}

#[test]
fn json_ld_fills_fields_when_no_selector_matches() {
    let html = r#"<html><head><script type="application/ld+json">
        {"@type": "Product", "name": "Widget", "description": "A fine widget",
         "brand": {"name": "Acme"}, "offers": {"price": "19.99", "availability": "InStock"},
         "aggregateRating": {"ratingValue": "4.5"}, "image": ["https://x/img.png"]}
        </script></head><body><p>nothing here</p></body></html>"#;
    let d = extract_product_data(html, "https://shop/x", "2024-01-01T00:00:00Z".to_string());
    let f = d.extracted_data;
    assert_eq!(str_of(f.name.as_ref()).as_deref(), Some("Widget"));
    assert_eq!(str_of(f.description.as_ref()).as_deref(), Some("A fine widget"));
    assert_eq!(str_of(f.brand.as_ref()).as_deref(), Some("Acme"));
    assert_eq!(str_of(f.price.as_ref()).as_deref(), Some("19.99"));
    assert_eq!(str_of(f.availability.as_ref()).as_deref(), Some("InStock"));
    assert_eq!(str_of(f.rating.as_ref()).as_deref(), Some("4.5"));
    assert_eq!(str_of(f.image_url.as_ref()).as_deref(), Some("https://x/img.png"));
    assert!(f.image.is_none());
    assert_eq!(d.url, "https://shop/x");
    assert_eq!(d.extraction_timestamp, "2024-01-01T00:00:00Z");
}

#[test]
fn selectors_take_precedence_over_json_ld() {
    let html = r#"<html><body><h1 id="productTitle">  Real Name  </h1>
        <img id="landingImage" src="/a.png">
        <script type="application/ld+json">[{"@type": "Thing"}, {"@type": "Product", "name": "LD Name", "offers": {"price": 5}}]</script>
        </body></html>"#;
    let f = extract_product_data(html, "", String::new()).extracted_data;
    assert_eq!(str_of(f.name.as_ref()).as_deref(), Some("Real Name"));
    assert_eq!(str_of(f.image.as_ref()).as_deref(), Some("/a.png"));
    assert!(matches!(f.price, Some(JsonValue::Integer(5))));
}

#[test]
fn non_product_json_ld_is_ignored() {
    let html = r#"<script type="application/ld+json">{"@type": "Organization", "name": "Org"}</script>"#;
    let f = extract_product_data(html, "", String::new()).extracted_data;
    assert!(f.name.is_none());
}

#[test]
fn selector_with_three_matches_gives_three_texts_in_order() {
    let html = "<ul><li class='i'> one </li><li class='i'>two</li><li class='i'>\n three\t</li></ul>";
    let hits = extract_by_selectors(html, &vec![("items".to_string(), "li.i".to_string())]);
    assert_eq!(hits.len(), 1);
    assert_eq!(hits[0].key, "items");
    match &hits[0].value {
        SelectedText::Many(v) => assert_eq!(v, &vec!["one".to_string(), "two".to_string(), "three".to_string()]),
        _ => panic!("expected several texts"),
    }
}

#[test]
fn selector_single_match_is_scalar_and_no_match_is_absent() {
    let html = "<p id='a'>alpha</p>";
    let hits = extract_by_selectors(
        html,
        &vec![
            ("a".to_string(), "#a".to_string()),
            ("none".to_string(), "#nothing".to_string()),
            ("bad".to_string(), "[[".to_string()),
        ],
    );
    assert_eq!(hits.len(), 1);
    assert!(matches!(&hits[0].value, SelectedText::One(s) if s == "alpha"));
}

#[test]
fn clean_text_prefers_main_and_collapses_whitespace() {
    let html = "<html><body><nav>menu</nav><main>  Hello \n\n   world  </main></body></html>";
    let c = extract_clean_text(html);
    assert_eq!(c.clean_text, "Hello world");
    assert_eq!(c.length, 11);
}

#[test]
fn clean_text_falls_back_to_body() {
    let html = "<html><body><div>Caf\u{e9}   au  lait</div></body></html>";
    let c = extract_clean_text(html);
    assert_eq!(c.clean_text, "Caf\u{e9} au lait");
    assert_eq!(c.length, 13);
}

#[test]
fn page_structure_reports_platforms_with_indicators() {
    let html = "<div class='price'>1</div><h1 class='product-title'>t</h1><div class='woocommerce'></div>";
    let found = analyze_page_structure(html);
    let names: Vec<(&str, usize)> = found.iter().map(|m| (m.platform.as_str(), m.matched)).collect();
    assert_eq!(names, vec![("shopify", 2), ("woocommerce", 2), ("magento", 1)]);
    assert!(found.iter().all(|m| m.total == 3));
}

#[test]
fn page_structure_empty_page() {
    assert!(analyze_page_structure("<html></html>").is_empty());
}

fn request(method: &str, params: Option<JsonValue>) -> MCPRequest {
    MCPRequest { jsonrpc: "2.0".to_string(), id: Some(JsonValue::Integer(7)), method: method.to_string(), params }
}

#[test]
fn rpc_unknown_method_is_method_not_found() {
    let r = handle_request_at(request("nope", None), String::new());
    let e = r.error.expect("error");
    assert_eq!(e.code, -32601);
    assert_eq!(e.message, "Method not found");
    assert!(r.result.is_none());
    assert!(matches!(r.id, Some(JsonValue::Integer(7))));
}

#[test]
fn rpc_tools_call_without_params_is_invalid_params() {
    let r = handle_request_at(request("tools/call", None), String::new());
    assert_eq!(r.error.expect("error").code, -32602);
}

#[test]
fn rpc_tools_call_missing_html_is_invalid_params() {
    let p = json(r#"{"name": "extract_clean_text", "arguments": {}}"#);
    let r = handle_request_at(request("tools/call", Some(p)), String::new());
    assert_eq!(r.error.expect("error").code, -32602);
}

#[test]
fn rpc_unknown_tool_is_internal_error() {
    let p = json(r#"{"name": "fly", "arguments": {"html_content": "<p></p>"}}"#);
    let r = handle_request_at(request("tools/call", Some(p)), String::new());
    let e = r.error.expect("error");
    assert_eq!(e.code, -32603);
    assert_eq!(e.message, "Unknown tool: fly");
}

#[test]
fn rpc_tools_call_runs_clean_text() {
    let p = json(r#"{"name": "extract_clean_text", "arguments": {"html_content": "<article>Hi  there</article>"}}"#);
    let r = handle_request_at(request("tools/call", Some(p)), String::new());
    assert!(r.error.is_none());
    let result = r.result.expect("result");
    assert_eq!(str_of(result.get("clean_text")).as_deref(), Some("Hi there"));
    assert!(matches!(result.get("length"), Some(JsonValue::Integer(8))));
}

#[test]
fn rpc_tools_list_and_initialize() {
    let r = handle_request_at(request("tools/list", None), String::new());
    match r.result.expect("result").get("tools") {
        Some(JsonValue::Array(t)) => {
            assert_eq!(t.len(), 4);
            assert_eq!(str_of(t[2].get("name")).as_deref(), Some("extract_by_selectors"));
        }
        _ => panic!("tools expected"),
    }
    let init = handle_request_at(request("initialize", None), String::new());
    assert!(init.result.expect("result").get("serverInfo").is_some());
    let state = MCPServerState::new();
    assert_eq!(state.tools.len(), 4);
    assert_eq!(state.tools[0].name, "extract_clean_text");
    assert!(matches!(state.manifest().get("tools"), Some(JsonValue::Array(t)) if t.len() == 4));
}

fn reply(content: Option<&str>, calls: Option<Vec<ToolCall>>) -> LoopEvent {
    LoopEvent::ModelReplied(ModelReply { content: content.map(|s| s.to_string()), tool_calls: calls })
}

fn manifest() -> JsonValue {
    json(r#"{"tools": [{"name": "extract_product_data", "description": "d", "input_schema": {}}, {"name": "broken"}]}"#)
}

#[test]
fn loop_falls_back_when_model_is_unreachable() {
    let mut run = ProductExtraction::new("https://x", "<html></html>".to_string(), MAX_TURNS);
    assert!(matches!(run.start(), LoopAction::FetchManifest));
    assert!(matches!(run.step(LoopEvent::ManifestLoaded(manifest())), LoopAction::CallModel));
    assert_eq!(run.tools().len(), 1);
    match run.step(LoopEvent::ModelFailed) {
        LoopAction::Finish(p) => {
            assert_eq!(p.name.as_deref(), Some("Unable to extract product name with MCP tools"));
            assert!(p.price.is_none());
        }
        _ => panic!("run should finish"),
    }
}

#[test]
fn loop_falls_back_when_manifest_fails() {
    let mut run = ProductExtraction::new("https://x", String::new(), MAX_TURNS);
    assert!(matches!(run.step(LoopEvent::ManifestFailed), LoopAction::Finish(_)));
}

#[test]
fn loop_never_exceeds_turn_bound() {
    let mut run = ProductExtraction::new("https://x", String::new(), MAX_TURNS);
    let mut action = run.step(LoopEvent::ManifestLoaded(manifest()));
    let mut model_calls = 0;
    loop {
        match action {
            LoopAction::CallModel => {
                model_calls += 1;
                action = run.step(reply(None, None));
            }
            LoopAction::Finish(p) => {
                assert!(p.raw_llm_response.is_some());
                break;
            }
            _ => panic!("unexpected action"),
        }
    }
    assert_eq!(model_calls, MAX_TURNS);
}

#[test]
fn loop_runs_tool_calls_then_parses_answer() {
    let mut run = ProductExtraction::new("https://shop/p", "<h1>x</h1>".to_string(), MAX_TURNS);
    run.step(LoopEvent::ManifestLoaded(manifest()));
    let call = ToolCall {
        id: None,
        call_type: None,
        function: ToolCallFunction { name: "extract_product_data".to_string(), arguments: "{}".to_string() },
    };
    match run.step(reply(Some(""), Some(vec![call]))) {
        LoopAction::CallTool(req) => {
            assert_eq!(str_of(req.get("method")).as_deref(), Some("tools/call"));
            let params = req.get("params").expect("params");
            let args = params.get("arguments").expect("arguments");
            assert_eq!(str_of(args.get("html_content")).as_deref(), Some("<h1>x</h1>"));
            assert_eq!(str_of(args.get("url")).as_deref(), Some("https://shop/p"));
        }
        _ => panic!("tool call expected"),
    }
    let resp = json(r#"{"jsonrpc": "2.0", "id": 1, "result": {"extracted_data": {"name": "W"}}}"#);
    assert!(matches!(run.step(LoopEvent::ToolReplied(resp)), LoopAction::CallModel));
    assert_eq!(run.messages().len(), 4);
    assert!(run.messages()[3].content.contains("\"name\": \"W\""));
    match run.step(reply(Some("Here: {\"name\": \"Widget\", \"price\": \"$5\"} done"), None)) {
        LoopAction::Finish(p) => {
            assert_eq!(p.name.as_deref(), Some("Widget"));
            assert_eq!(p.price.as_deref(), Some("$5"));
            assert!(p.brand.is_none());
        }
        _ => panic!("finish expected"),
    }
}

#[test]
fn tool_request_keeps_model_arguments() {
    let call = ToolCall {
        id: None,
        call_type: None,
        function: ToolCallFunction { name: "t".to_string(), arguments: r#"{"url": "given"}"#.to_string() },
    };
    let req = tool_request(&call, "<p/>", "page");
    let args = req.get("params").unwrap().get("arguments").unwrap();
    assert_eq!(str_of(args.get("url")).as_deref(), Some("given"));
    assert_eq!(str_of(args.get("html_content")).as_deref(), Some("<p/>"));
}

#[test]
fn text_reply_is_read_line_by_line() {
    let p = parse_final_product_response("NAME: Gadget\nPrice: 10 USD\nbrand:  Acme Corp \nDescription: small: handy");
    assert_eq!(p.name.as_deref(), Some("Gadget"));
    assert_eq!(p.price.as_deref(), Some("10 USD"));
    assert_eq!(p.brand.as_deref(), Some("Acme Corp"));
    assert_eq!(p.description.as_deref(), Some("small"));
    assert_eq!(p.raw_data.as_deref(), Some("NAME: Gadget\nPrice: 10 USD\nbrand:  Acme Corp \nDescription: small: handy"));
}

#[test]
fn reply_with_braces_out_of_order_is_read_as_text() {
    let p = parse_final_product_response("} product: Thing {");
    assert_eq!(p.name.as_deref(), Some("Thing {"));
}

#[test]
fn fallback_plan_with_and_without_url() {
    let req = AutomationRequest {
        session_id: "s".to_string(),
        task_description: "Take a screenshot of the page".to_string(),
        target_url: Some("https://httpbin.org/get".to_string()),
        context: None,
    };
    let plan = create_fallback_plan(&req);
    assert_eq!(plan.description, "Fallback plan for: Take a screenshot of the page");
    assert_eq!(plan.steps.len(), 3);
    match &plan.steps[0].action {
        BrowserAction::ExecuteScript { script } => {
            assert_eq!(script, "window.location.href = 'https://httpbin.org/get'")
        }
        _ => panic!("navigation expected"),
    }
    assert!(matches!(plan.steps[1].action, BrowserAction::Wait { duration_ms: 3000 }));
    assert!(matches!(plan.steps[2].action, BrowserAction::Screenshot));
    let bare = AutomationRequest { target_url: None, ..req };
    assert_eq!(create_fallback_plan(&bare).steps.len(), 1);
}

#[test]
fn plan_is_read_from_reply_or_falls_back() {
    let req = AutomationRequest {
        session_id: "s".to_string(),
        task_description: "t".to_string(),
        target_url: None,
        context: Some(vec![JsonMember { key: "k".to_string(), value: JsonValue::Null }]),
    };
    let text = r#"Plan: {"description": "d", "steps": [{"id": "1", "action": {"type": "Wait", "params": {"duration_ms": 10}}, "description": "w"}]}"#;
    let plan = plan_from_reply(&ModelReply { content: Some(text.to_string()), tool_calls: None }, &req);
    assert_eq!(plan.description, "d");
    assert_eq!(plan.steps.len(), 1);
    assert!(matches!(plan.steps[0].action, BrowserAction::Wait { duration_ms: 10 }));
    let bad = plan_from_reply(&ModelReply { content: Some("no plan".to_string()), tool_calls: None }, &req);
    assert_eq!(bad.description, "Fallback plan for: t");
}

#[test]
fn script_result_is_returned_as_is() {
    let a = BrowserAction::ExecuteScript { script: "document.title".to_string() };
    let r = action_outcome(&a, DriverReport::Text("X".to_string()));
    assert_eq!(r.expect("ok"), "X");
}

#[test]
fn wait_for_missing_element_times_out() {
    assert_eq!(poll_step(false, 100, 200), PollStep::RetryAfter(100));
    assert_eq!(poll_step(false, 201, 200), PollStep::TimedOut);
    assert_eq!(poll_step(true, 500, 200), PollStep::Found);
    let a = BrowserAction::WaitForElement { selector: "#never".to_string(), timeout_ms: Some(200) };
    match action_outcome(&a, DriverReport::TimedOut) {
        Err(e) => {
            assert!(matches!(e, ActionError::Timeout { timeout_ms: 200 }));
            assert_eq!(e.message(), "Element not found within 200ms");
        }
        Ok(_) => panic!("timeout expected"),
    }
}

#[test]
fn unknown_session_is_not_found() {
    let mut registry: SessionRegistry<u32> = SessionRegistry::new();
    let id = registry.create(1).expect("fresh id");
    assert_eq!(id.len(), 36);
    assert!(registry.contains(&id));
    match registry.require("invalid-session-id") {
        Err(e) => {
            assert_eq!(e.status(), 404);
            assert!(e.response_message().contains("Session"));
            assert!(matches!(e, AppError::SessionNotFound(ref s) if s == "invalid-session-id"));
        }
        Ok(_) => panic!("should be missing"),
    }
}

#[test]
fn registry_insert_remove_clear() {
    let mut registry: SessionRegistry<&str> = SessionRegistry::new();
    assert!(registry.insert("a".to_string(), "first").is_ok());
    assert_eq!(registry.insert("a".to_string(), "second"), Err("second"));
    assert_eq!(registry.get("a"), Some(&"first"));
    assert!(registry.insert("b".to_string(), "b").is_ok());
    assert!(registry.remove("a"));
    assert!(!registry.remove("a"));
    assert_eq!(registry.len(), 1);
    assert_eq!(registry.clear(), 1);
    assert_eq!(registry.len(), 0);
}

#[test]
fn scroll_offsets_and_script() {
    assert_eq!(scroll_offset(ScrollDirection::Up, None), (0, -100));
    assert_eq!(scroll_offset(ScrollDirection::Left, Some(30)), (-30, 0));
    assert_eq!(scroll_offset(ScrollDirection::Down, Some(i32::MIN)), (0, i32::MIN as i64));
    assert_eq!(scroll_offset(ScrollDirection::Up, Some(i32::MIN)), (0, 2147483648));
    assert_eq!(scroll_script(-30, 0), "window.scrollBy(-30, 0)");
    let a = BrowserAction::Scroll { direction: ScrollDirection::Right, pixels: Some(7) };
    assert_eq!(action_outcome(&a, DriverReport::Done).expect("ok"), "Scrolled by (7, 0)");
    assert_eq!(decimal_string(i64::MIN), "-9223372036854775808");
    assert_eq!(decimal_string(0), "0");
}

#[test]
fn screenshot_is_a_base64_data_uri() {
    assert_eq!(screenshot_data_uri(&vec![1, 2, 3]), "data:image/png;base64,AQID");
    let r = action_outcome(&BrowserAction::Screenshot, DriverReport::Image(vec![255]));
    assert_eq!(r.expect("ok"), "data:image/png;base64,/w==");
}

#[test]
fn click_failures_name_the_cause() {
    let a = BrowserAction::Click { selector: "#b".to_string() };
    let e = action_outcome(&a, DriverReport::ElementMissing("gone".to_string())).unwrap_err();
    assert_eq!(e.message(), "Element not found #b: gone");
    let t = BrowserAction::Type { selector: "#i".to_string(), text: "x".to_string() };
    let e = action_outcome(&t, DriverReport::FocusFailed("blur".to_string())).unwrap_err();
    assert_eq!(e.message(), "Failed to focus element: blur");
    assert!(matches!(action_outcome(&a, DriverReport::Image(vec![])), Err(ActionError::UnexpectedReport)));
}

#[test]
fn page_creation_retries_once() {
    assert_eq!(page_creation_step(1, false), PageCreation::RetryAfter(1000));
    assert_eq!(page_creation_step(2, false), PageCreation::GiveUp);
    assert_eq!(page_creation_step(2, true), PageCreation::Ready);
}

#[test]
fn json_text_round_trip_and_pretty_output() {
    let v = json(r#"{"b": [1, 2.5, "x", null, true], "a": 18446744073709551615}"#);
    assert!(matches!(v.get("a"), Some(JsonValue::Integer(n)) if *n == u64::MAX as i128));
    assert!(matches!(v.get("b"), Some(JsonValue::Array(items)) if matches!(&items[1], JsonValue::Decimal(d) if d == "2.5")));
    let text = to_pretty_json(&v);
    assert!(text.contains("\n"));
    assert!(text.contains("18446744073709551615"));
    assert!(parse_json("{not json").is_none());
}

#[test]
fn unknown_action_tag_is_rejected() {
    let v = json(r#"{"type": "Fly", "params": {}}"#);
    assert!(llm_web_agent::codec::action_from_json(&v).is_none());
    let w = json(r#"{"type": "Wait", "params": {"duration_ms": -1}}"#);
    assert!(llm_web_agent::codec::action_from_json(&w).is_none());
    let s = json(r##"{"type": "WaitForElement", "params": {"selector": "#a"}}"##);
    assert!(matches!(
        llm_web_agent::codec::action_from_json(&s),
        Some(BrowserAction::WaitForElement { timeout_ms: None, .. })
    ));
}

#[test]
fn typing_finds_focuses_then_types() {
    let a = BrowserAction::Type { selector: "#email".to_string(), text: "me@x.org".to_string() };
    let (mut run, op) = ActionRun::start(a);
    assert!(matches!(op, DriverOp::FindElement { ref selector } if selector == "#email"));
    assert!(matches!(run.step(DriverEvent::ElementFound, 1), ActionStep::Perform(DriverOp::ClickElement)));
    assert!(matches!(run.step(DriverEvent::Clicked, 2), ActionStep::Perform(DriverOp::TypeText { ref text }) if text == "me@x.org"));
    match run.step(DriverEvent::Typed, 3) {
        ActionStep::Complete(Ok(s)) => assert_eq!(s, "Text input successful"),
        _ => panic!("should complete"),
    }
}

#[test]
fn typing_reports_focus_failure_apart_from_input_failure() {
    let a = BrowserAction::Type { selector: "#e".to_string(), text: "t".to_string() };
    let (mut run, _) = ActionRun::start(a);
    run.step(DriverEvent::ElementFound, 0);
    assert!(matches!(run.step(DriverEvent::ClickFailed("covered".to_string()), 0), ActionStep::Complete(Err(ActionError::FocusFailed(_)))));
}

#[test]
fn element_wait_polls_until_timeout() {
    let a = BrowserAction::WaitForElement { selector: "#never".to_string(), timeout_ms: Some(200) };
    let (mut run, op) = ActionRun::start(a);
    assert!(matches!(op, DriverOp::FindElement { .. }));
    assert!(matches!(run.step(DriverEvent::ElementMissing("no".to_string()), 50), ActionStep::Perform(DriverOp::Sleep { ms: 100 })));
    assert!(matches!(run.step(DriverEvent::Slept, 150), ActionStep::Perform(DriverOp::FindElement { ref selector }) if selector == "#never"));
    assert!(matches!(run.step(DriverEvent::ElementMissing("no".to_string()), 160), ActionStep::Perform(DriverOp::Sleep { ms: 100 })));
    run.step(DriverEvent::Slept, 260);
    match run.step(DriverEvent::ElementMissing("no".to_string()), 261) {
        ActionStep::Complete(Err(e)) => assert_eq!(e.message(), "Element not found within 200ms"),
        _ => panic!("should time out"),
    }
}

#[test]
fn script_run_returns_the_value_text() {
    let (mut run, op) = ActionRun::start(BrowserAction::ExecuteScript { script: "document.title".to_string() });
    assert!(matches!(op, DriverOp::Evaluate { ref script } if script == "document.title"));
    match run.step(DriverEvent::Evaluated("X".to_string()), 5) {
        ActionStep::Complete(Ok(s)) => assert_eq!(s, "X"),
        _ => panic!("should complete"),
    }
}

#[test]
fn prompt_truncates_by_utf8_bytes() {
    let fits = "\u{e9}".repeat(4000);
    let p = product_extraction_prompt("u", &fits);
    assert!(p.contains(&fits));
    assert!(!p.contains("...[truncated]"));
    let over = "\u{e9}".repeat(4001);
    let p = product_extraction_prompt("u", &over);
    assert!(p.starts_with("URL: u\n\nHTML Content:\n"));
    assert!(p.contains(&format!("{}...[truncated]", "\u{e9}".repeat(4000))));
    assert!(!p.contains(&"\u{e9}".repeat(4001)));
    let straddle = format!("{}\u{20ac}", "a".repeat(7999));
    let p = product_extraction_prompt("u", &straddle);
    assert!(p.contains(&format!("{}...[truncated]", "a".repeat(7999))));
    assert!(!p.contains('\u{20ac}'));
}

#[test]
fn registry_create_on_empty_registry_succeeds() {
    let mut registry: SessionRegistry<u8> = SessionRegistry::new();
    let id = registry.create(9).expect("empty registry stores the session");
    assert_eq!(registry.get(&id), Some(&9));
    assert_eq!(registry.len(), 1);
}

#[test]
fn plan_round_trips_through_json_text() {
    let plan = TaskPlan {
        description: "d".to_string(),
        steps: vec![
            TaskStep {
                id: "s1".to_string(),
                action: BrowserAction::Scroll { direction: ScrollDirection::Left, pixels: None },
                description: "scroll".to_string(),
                expected_outcome: Some("moved".to_string()),
            },
            step("s2", BrowserAction::WaitForElement { selector: "#x".to_string(), timeout_ms: Some(5) }),
        ],
    };
    let text = to_pretty_json(&plan_to_json(&plan));
    let back = plan_from_json(&parse_json(&text).unwrap()).expect("plan");
    assert_eq!(back.description, "d");
    assert_eq!(back.steps.len(), 2);
    assert_eq!(back.steps[0].expected_outcome.as_deref(), Some("moved"));
    assert!(matches!(back.steps[0].action, BrowserAction::Scroll { direction: ScrollDirection::Left, pixels: None }));
    assert!(back.steps[1].expected_outcome.is_none());
    assert!(matches!(&back.steps[1].action, BrowserAction::WaitForElement { selector, timeout_ms: Some(5) } if selector == "#x"));
}

#[test]
fn tool_schemas_require_their_arguments() {
    let state = MCPServerState::new();
    for (i, tool) in state.tools.iter().enumerate() {
        let required = match tool.input_schema.get("required") {
            Some(JsonValue::Array(r)) => r.iter().map(|v| str_of(Some(v)).unwrap()).collect::<Vec<_>>(),
            _ => panic!("required list"),
        };
        if i == 2 {
            assert_eq!(required, vec!["html_content", "selectors"]);
        } else {
            assert_eq!(required, vec!["html_content"]);
        }
    }
    assert_eq!(state.tools[3].description, "Analyze HTML structure and suggest extraction strategies");
}

#[test]
fn rpc_errors_carry_no_data() {
    let r = handle_request_at(request("bogus", None), String::new());
    assert!(r.error.expect("error").data.is_none());
}

#[test]
fn line_labels_follow_their_order() {
    assert_eq!(line_label("product: price: 3"), Some(Label::Name));
    assert_eq!(line_label("the price: 3"), Some(Label::Price));
    assert_eq!(line_label("brand: x"), Some(Label::Brand));
    assert_eq!(line_label("description: y"), Some(Label::Description));
    assert_eq!(line_label("nothing here"), None);
}
