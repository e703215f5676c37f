use llm_web_agent::codec::{action_from_json, action_to_json};
use llm_web_agent::json::{parse_json, to_pretty_json};
use llm_web_agent::types::{AppError, BrowserAction, ScrollDirection, TaskPlan, TaskResult, TaskStep};

const TEST_SELECTOR: &str = "#submit-button";
const TEST_EMAIL_SELECTOR: &str = "#email";
const TEST_EMAIL: &str = "test@example.com";
const TEST_SCRIPT: &str = "document.title";
const TEST_WAIT_DURATION: u64 = 1000;
const TEST_SCROLL_PIXELS: i32 = 200;

fn click(selector: &str) -> BrowserAction {
    BrowserAction::Click { selector: selector.to_string() }
}

fn wait(duration_ms: u64) -> BrowserAction {
    BrowserAction::Wait { duration_ms }
}

fn scroll(direction: ScrollDirection, pixels: Option<i32>) -> BrowserAction {
    BrowserAction::Scroll { direction, pixels }
}

/// Writes the action as JSON text and reads it back.
fn test_action_serialization(action: BrowserAction) -> BrowserAction {
    let serialized = to_pretty_json(&action_to_json(&action));
    let value = parse_json(&serialized).expect("Should deserialize");
    action_from_json(&value).expect("Should deserialize")
}

#[test]
fn test_click_action_serialization() {
    let deserialized = test_action_serialization(click(TEST_SELECTOR));
    match deserialized {
        BrowserAction::Click { selector } => {
            assert_eq!(selector, TEST_SELECTOR);
        }
        _ => panic!("Wrong action type"),
    }
}

#[test]
fn test_type_action_serialization() {
    let action = BrowserAction::Type {
        selector: TEST_EMAIL_SELECTOR.to_string(),
        text: TEST_EMAIL.to_string(),
    };
    match test_action_serialization(action) {
        BrowserAction::Type { selector, text } => {
            assert_eq!(selector, TEST_EMAIL_SELECTOR);
            assert_eq!(text, TEST_EMAIL);
        }
        _ => panic!("Wrong action type"),
    }
}

#[test]
fn test_wait_action_serialization() {
    match test_action_serialization(wait(TEST_WAIT_DURATION)) {
        BrowserAction::Wait { duration_ms } => {
            assert_eq!(duration_ms, TEST_WAIT_DURATION);
        }
        _ => panic!("Wrong action type"),
    }
}

#[test]
fn test_scroll_action_serialization() {
    match test_action_serialization(scroll(ScrollDirection::Down, Some(TEST_SCROLL_PIXELS))) {
        BrowserAction::Scroll { direction, pixels } => {
            assert!(matches!(direction, ScrollDirection::Down));
            assert_eq!(pixels, Some(TEST_SCROLL_PIXELS));
        }
        _ => panic!("Wrong action type"),
    }
}

#[test]
fn test_screenshot_action_serialization() {
    let deserialized = test_action_serialization(BrowserAction::Screenshot);
    assert!(matches!(deserialized, BrowserAction::Screenshot));
}

#[test]
fn test_execute_script_action_serialization() {
    let action = BrowserAction::ExecuteScript { script: TEST_SCRIPT.to_string() };
    match test_action_serialization(action) {
        BrowserAction::ExecuteScript { script } => {
            assert_eq!(script, TEST_SCRIPT);
        }
        _ => panic!("Wrong action type"),
    }
}

#[test]
fn test_scroll_direction_variants() {
    let directions = vec![
        ScrollDirection::Up,
        ScrollDirection::Down,
        ScrollDirection::Left,
        ScrollDirection::Right,
    ];
    for direction in directions {
        let action = scroll(direction.clone(), Some(100));
        match test_action_serialization(action) {
            BrowserAction::Scroll { direction: d, pixels } => {
                assert_eq!(format!("{d:?}"), format!("{:?}", direction));
                assert_eq!(pixels, Some(100));
            }
            _ => panic!("Wrong action type"),
        }
    }
}

#[test]
fn test_task_plan_creation() {
    let task_plan = TaskPlan {
        description: "Test automation task".to_string(),
        steps: vec![
            TaskStep {
                id: "step1".to_string(),
                action: click("#submit"),
                description: "Click submit button".to_string(),
                expected_outcome: Some("Form submitted".to_string()),
            },
            TaskStep {
                id: "step2".to_string(),
                action: wait(TEST_WAIT_DURATION),
                description: "Wait for response".to_string(),
                expected_outcome: Some("Page loads".to_string()),
            },
        ],
    };

    assert_eq!(task_plan.description, "Test automation task");
    assert_eq!(task_plan.steps.len(), 2);
    assert_eq!(task_plan.steps[0].id, "step1");
    assert_eq!(task_plan.steps[1].id, "step2");

    match &task_plan.steps[0].action {
        BrowserAction::Click { selector } => {
            assert_eq!(selector, "#submit");
        }
        _ => panic!("Wrong action type for step1"),
    }

    match &task_plan.steps[1].action {
        BrowserAction::Wait { duration_ms } => {
            assert_eq!(*duration_ms, TEST_WAIT_DURATION);
        }
        _ => panic!("Wrong action type for step2"),
    }
}

#[test]
fn test_task_result_success() {
    let task_result = TaskResult {
        step_id: "step1".to_string(),
        success: true,
        output: Some("Button clicked successfully".to_string()),
        error: None,
    };

    assert_eq!(task_result.step_id, "step1");
    assert!(task_result.success);
    assert!(task_result.output.is_some());
    assert!(task_result.error.is_none());
    assert_eq!(task_result.output.unwrap(), "Button clicked successfully");
}

#[test]
fn test_task_result_failure() {
    let failed_result = TaskResult {
        step_id: "step2".to_string(),
        success: false,
        output: None,
        error: Some("Element not found".to_string()),
    };

    assert_eq!(failed_result.step_id, "step2");
    assert!(!failed_result.success);
    assert!(failed_result.output.is_none());
    assert!(failed_result.error.is_some());
    assert_eq!(failed_result.error.unwrap(), "Element not found");
}

#[test]
fn test_app_error_browser_error() {
    let browser_error = AppError::BrowserError("Failed to click".to_string());
    let error_string = browser_error.to_string();

    assert!(error_string.contains("Browser error"));
    assert!(error_string.contains("Failed to click"));
}

#[test]
fn test_app_error_session_not_found() {
    let session_error = AppError::SessionNotFound("session-123".to_string());
    let error_string = session_error.to_string();

    assert!(error_string.contains("Session not found"));
    assert!(error_string.contains("session-123"));
}

#[test]
fn test_app_error_mcp_error() {
    let mcp_error = AppError::MCPError("API key invalid".to_string());
    let error_string = mcp_error.to_string();

    assert!(error_string.contains("MCP error"));
    assert!(error_string.contains("API key invalid"));
}
