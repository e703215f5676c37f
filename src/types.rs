//! The data exchanged with callers: actions, plans, results, products, errors.
use vstd::prelude::*;
use crate::json::JsonMember;
use crate::text::concat;

verus! {

/// Which way a `Scroll` action moves the page.
#[derive(Debug, Clone, Copy, PartialEq, Eq, Structural)]
pub enum ScrollDirection {
    Up,
    Down,
    Left,
    Right,
}

/// One primitive browser operation.
#[derive(Debug, Clone)]
pub enum BrowserAction {
    Click { selector: String },
    Type { selector: String, text: String },
    Wait { duration_ms: u64 },
    WaitForElement { selector: String, timeout_ms: Option<u64> },
    Scroll { direction: ScrollDirection, pixels: Option<i32> },
    Screenshot,
    GetPageSource,
    ExecuteScript { script: String },
}

#[derive(Debug, Clone)]
pub struct TaskStep {
    pub id: String,
    pub action: BrowserAction,
    pub description: String,
    pub expected_outcome: Option<String>,
}

#[derive(Debug, Clone)]
pub struct TaskPlan {
    pub steps: Vec<TaskStep>,
    pub description: String,
}

/// The outcome of one step: `output` on success, `error` on failure.
#[derive(Debug, Clone)]
pub struct TaskResult {
    pub step_id: String,
    pub success: bool,
    pub output: Option<String>,
    pub error: Option<String>,
}

/// Product fields as far as extraction found them.
#[derive(Debug, Clone)]
pub struct ProductInfo {
    pub name: Option<String>,
    pub description: Option<String>,
    pub price: Option<String>,
    pub availability: Option<String>,
    pub brand: Option<String>,
    pub rating: Option<String>,
    pub image_url: Option<String>,
    pub raw_data: Option<String>,
    pub raw_llm_response: Option<String>,
}

#[derive(Debug, Clone, Copy, PartialEq, Eq, Structural)]
pub enum LlamaMode {
    Local,
}

#[derive(Debug, Clone, Copy, PartialEq, Eq, Structural)]
pub enum MistralMode {
    Local,
    Cloud,
}

#[derive(Debug)]
pub struct CreateSessionResponse {
    pub session_id: String,
}

#[derive(Debug)]
pub struct SessionStatusResponse {
    pub session_id: String,
    pub active: bool,
    pub current_url: Option<String>,
}

#[derive(Debug)]
pub struct NavigateRequest {
    pub session_id: String,
    pub url: String,
}

#[derive(Debug)]
pub struct NavigateResponse {
    pub success: bool,
    pub current_url: String,
}

#[derive(Debug)]
pub struct InteractionRequest {
    pub session_id: String,
    pub action: BrowserAction,
}

#[derive(Debug)]
pub struct InteractionResponse {
    pub success: bool,
    pub result: Option<String>,
}

#[derive(Debug)]
pub struct ExtractRequest {
    pub session_id: String,
    pub selector: String,
}

/// What a selector extraction found: free-form members, `elements` and `count` among them.
#[derive(Debug)]
pub struct ExtractResponse {
    pub success: bool,
    pub data: Vec<JsonMember>,
}

#[derive(Debug)]
pub struct AutomationRequest {
    pub session_id: String,
    pub task_description: String,
    pub target_url: Option<String>,
    pub context: Option<Vec<JsonMember>>,
}

#[derive(Debug)]
pub struct AutomationResponse {
    pub success: bool,
    pub task_id: String,
    pub results: Vec<TaskResult>,
}

#[derive(Debug)]
pub struct ProductExtractionRequest {
    pub url: String,
    pub session_id: Option<String>,
}

#[derive(Debug)]
pub struct ProductExtractionResponse {
    pub success: bool,
    pub product: Option<ProductInfo>,
    pub error: Option<String>,
    pub extraction_time_ms: u64,
}

/// The failures that reach a caller of the service.
#[derive(Debug)]
pub enum AppError {
    BrowserError(String),
    SessionNotFound(String),
    MCPError(String),
    SerializationError(String),
    InternalError(String),
}

impl AppError {
    /// The HTTP status that reports this failure.
    pub open spec fn spec_status(&self) -> u16 {
        match self {
            AppError::BrowserError(_) => 400,
            AppError::SessionNotFound(_) => 404,
            AppError::MCPError(_) => 500,
            AppError::SerializationError(_) => 400,
            AppError::InternalError(_) => 500,
        }
    }

    pub fn status(&self) -> (r: u16)
        ensures
            r == self.spec_status(),
    {
        match self {
            AppError::BrowserError(_) => 400,
            AppError::SessionNotFound(_) => 404,
            AppError::MCPError(_) => 500,
            AppError::SerializationError(_) => 400,
            AppError::InternalError(_) => 500,
        }
    }

    /// The description of this failure: its kind, then its detail.
    pub open spec fn spec_message(&self) -> Seq<char> {
        match self {
            AppError::BrowserError(m) => "Browser error: "@ + m@,
            AppError::SessionNotFound(m) => "Session not found: "@ + m@,
            AppError::MCPError(m) => "MCP error: "@ + m@,
            AppError::SerializationError(m) => "Serialization error: "@ + m@,
            AppError::InternalError(m) => "Internal server error: "@ + m@,
        }
    }

    pub fn to_string(&self) -> (r: String)
        ensures
            r@ == self.spec_message(),
    {
        match self {
            AppError::BrowserError(m) => concat("Browser error: ", m.as_str()),
            AppError::SessionNotFound(m) => concat("Session not found: ", m.as_str()),
            AppError::MCPError(m) => concat("MCP error: ", m.as_str()),
            AppError::SerializationError(m) => concat("Serialization error: ", m.as_str()),
            AppError::InternalError(m) => concat("Internal server error: ", m.as_str()),
        }
    }

    /// The text of the `error` member of the response envelope.
    pub open spec fn spec_response_message(&self) -> Seq<char> {
        match self {
            AppError::SessionNotFound(id) => "Session "@ + id@ + " not found"@,
            AppError::SerializationError(m) => "Serialization error: "@ + m@,
            AppError::BrowserError(m) => m@,
            AppError::MCPError(m) => m@,
            AppError::InternalError(m) => m@,
        }
    }

    pub fn response_message(&self) -> (r: String)
        ensures
            r@ == self.spec_response_message(),
    {
        match self {
            AppError::SessionNotFound(id) => {
                let s = concat("Session ", id.as_str());
                concat(s.as_str(), " not found")
            },
            AppError::SerializationError(m) => concat("Serialization error: ", m.as_str()),
            AppError::BrowserError(m) => m.clone(),
            AppError::MCPError(m) => m.clone(),
            AppError::InternalError(m) => m.clone(),
        }
    }
}

} // verus!
