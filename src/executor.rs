//! The action executor's decisions: what each action asks of the page, how
//! long to wait, and what each outcome reports.
use vstd::prelude::*;
use crate::text::{concat, string_from};
use crate::types::{BrowserAction, ScrollDirection};

verus! {

/// Element-wait timeout where the action names none.
pub const DEFAULT_ELEMENT_TIMEOUT_MS: u64 = 30000;

/// Interval between two element lookups while waiting for one.
pub const POLL_INTERVAL_MS: u64 = 100;

/// Scroll distance where the action names none.
pub const DEFAULT_SCROLL_PIXELS: i32 = 100;

/// Pause before the one retry of a failed page creation.
pub const PAGE_RETRY_DELAY_MS: u64 = 1000;

/// Hard limit on one navigation.
pub const NAVIGATION_TIMEOUT_MS: u64 = 30000;

/// Pause after a navigation so that the page starts loading.
pub const NAVIGATION_SETTLE_MS: u64 = 2000;

pub open spec fn digit(d: int) -> char {
    if d == 0 { '0' } else if d == 1 { '1' } else if d == 2 { '2' } else if d == 3 { '3' }
    else if d == 4 { '4' } else if d == 5 { '5' } else if d == 6 { '6' } else if d == 7 { '7' }
    else if d == 8 { '8' } else { '9' }
}

/// The decimal digits of `n`.
pub open spec fn digits(n: nat) -> Seq<char>
    decreases n,
{
    if n < 10 {
        seq![digit(n as int)]
    } else {
        digits(n / 10).push(digit((n % 10) as int))
    }
}

/// `n` in decimal, with a `-` where it is negative.
pub open spec fn decimal(n: int) -> Seq<char> {
    if n < 0 {
        seq!['-'] + digits((-n) as nat)
    } else {
        digits(n as nat)
    }
}

fn digit_char(d: u64) -> (r: char)
    requires
        d < 10,
    ensures
        r == digit(d as int),
{
    if d == 0 { '0' } else if d == 1 { '1' } else if d == 2 { '2' } else if d == 3 { '3' }
    else if d == 4 { '4' } else if d == 5 { '5' } else if d == 6 { '6' } else if d == 7 { '7' }
    else if d == 8 { '8' } else { '9' }
}

fn push_digits(n: u64, out: &mut Vec<char>)
    ensures
        final(out)@ == old(out)@ + digits(n as nat),
    decreases n,
{
    if n >= 10 {
        push_digits(n / 10, out);
    }
    out.push(digit_char(n % 10));
    proof {
        if n >= 10 {
            assert(digits(n as nat) == digits((n / 10) as nat).push(digit((n % 10) as int)));
        }
    }
}

/// `n` in decimal.
pub fn decimal_string(n: i64) -> (r: String)
    ensures
        r@ == decimal(n as int),
{
    let mut out: Vec<char> = Vec::new();
    if n < 0 {
        out.push('-');
        let m: u64 = (0i128 - n as i128) as u64;
        push_digits(m, &mut out);
    } else {
        push_digits(n as u64, &mut out);
    }
    string_from(out.as_slice())
}

/// The page offset of a scroll: up and left are negative.
pub open spec fn scroll_offset_of(direction: ScrollDirection, pixels: Option<i32>) -> (int, int) {
    let p: int = match pixels {
        Some(p) => p as int,
        None => DEFAULT_SCROLL_PIXELS as int,
    };
    match direction {
        ScrollDirection::Up => (0, -p),
        ScrollDirection::Down => (0, p),
        ScrollDirection::Left => (-p, 0),
        ScrollDirection::Right => (p, 0),
    }
}

pub fn scroll_offset(direction: ScrollDirection, pixels: Option<i32>) -> (r: (i64, i64))
    ensures
        (r.0 as int, r.1 as int) == scroll_offset_of(direction, pixels),
{
    let p: i64 = match pixels {
        Some(p) => p as i64,
        None => DEFAULT_SCROLL_PIXELS as i64,
    };
    match direction {
        ScrollDirection::Up => (0, -p),
        ScrollDirection::Down => (0, p),
        ScrollDirection::Left => (-p, 0),
        ScrollDirection::Right => (p, 0),
    }
}

/// `(x, y)` as the scroll script and report write it.
pub open spec fn pair_text(x: int, y: int) -> Seq<char> {
    decimal(x) + ", "@ + decimal(y)
}

fn pair_string(x: i64, y: i64) -> (r: String)
    ensures
        r@ == pair_text(x as int, y as int),
{
    let a = concat(decimal_string(x).as_str(), ", ");
    concat(a.as_str(), decimal_string(y).as_str())
}

/// The script that scrolls the page by `(x, y)`.
pub fn scroll_script(x: i64, y: i64) -> (r: String)
    ensures
        r@ == "window.scrollBy("@ + pair_text(x as int, y as int) + ")"@,
{
    let a = concat("window.scrollBy(", pair_string(x, y).as_str());
    concat(a.as_str(), ")")
}

/// The report of a scroll by `(x, y)`.
pub fn scroll_report(x: i64, y: i64) -> (r: String)
    ensures
        r@ == "Scrolled by ("@ + pair_text(x as int, y as int) + ")"@,
{
    let a = concat("Scrolled by (", pair_string(x, y).as_str());
    concat(a.as_str(), ")")
}

pub fn effective_timeout(timeout_ms: Option<u64>) -> (r: u64)
    ensures
        r == match timeout_ms {
            Some(t) => t,
            None => DEFAULT_ELEMENT_TIMEOUT_MS,
        },
{
    match timeout_ms {
        Some(t) => t,
        None => DEFAULT_ELEMENT_TIMEOUT_MS,
    }
}

/// What to do after one element lookup while waiting for an element.
#[derive(Debug, Clone, Copy, PartialEq, Eq, Structural)]
pub enum PollStep {
    Found,
    TimedOut,
    RetryAfter(u64),
}

/// The element was found: done. Else, once more than `timeout_ms` have
/// passed since the wait began: time out. Else look again after the interval.
pub fn poll_step(found: bool, elapsed_ms: u64, timeout_ms: u64) -> (r: PollStep)
    ensures
        found ==> r == PollStep::Found,
        !found && elapsed_ms > timeout_ms ==> r == PollStep::TimedOut,
        !found && elapsed_ms <= timeout_ms ==> r == PollStep::RetryAfter(POLL_INTERVAL_MS),
{
    if found {
        PollStep::Found
    } else if elapsed_ms > timeout_ms {
        PollStep::TimedOut
    } else {
        PollStep::RetryAfter(POLL_INTERVAL_MS)
    }
}

/// What to do after an attempt to open a page.
#[derive(Debug, Clone, Copy, PartialEq, Eq, Structural)]
pub enum PageCreation {
    Ready,
    RetryAfter(u64),
    GiveUp,
}

/// A failed first attempt is retried once after a pause; a failed second one is final.
pub fn page_creation_step(attempt: u32, succeeded: bool) -> (r: PageCreation)
    ensures
        succeeded ==> r == PageCreation::Ready,
        !succeeded && attempt <= 1 ==> r == PageCreation::RetryAfter(PAGE_RETRY_DELAY_MS),
        !succeeded && attempt > 1 ==> r == PageCreation::GiveUp,
{
    if succeeded {
        PageCreation::Ready
    } else if attempt <= 1 {
        PageCreation::RetryAfter(PAGE_RETRY_DELAY_MS)
    } else {
        PageCreation::GiveUp
    }
}

/// Why an action, a navigation or a session creation failed.
#[derive(Debug)]
pub enum ActionError {
    ElementNotFound { selector: String, detail: String },
    FocusFailed(String),
    ClickFailed(String),
    InputFailed(String),
    Timeout { timeout_ms: u64 },
    ScrollFailed(String),
    ScreenshotFailed(String),
    PageSourceFailed(String),
    ScriptFailed(String),
    NavigationTimeout,
    NavigationFailed { url: String, detail: String },
    SessionCreationFailed(String),
    /// The driver reported something that the action cannot produce.
    UnexpectedReport,
}

/// What the driver did for an action.
#[derive(Debug)]
pub enum DriverReport {
    /// The action completed with nothing to return.
    Done,
    /// The selector resolved to no element.
    ElementMissing(String),
    /// Focusing the element (a click before typing) failed.
    FocusFailed(String),
    ClickFailed(String),
    InputFailed(String),
    /// The element did not appear in time.
    TimedOut,
    /// The page returned this text: page source, or a script value's debug form.
    Text(String),
    /// The screenshot's PNG bytes.
    Image(Vec<u8>),
    /// Any other driver failure.
    Failed(String),
}

/// What `base64`'s standard engine writes for the bytes.
pub uninterp spec fn base64_text(b: Seq<u8>) -> Seq<char>;

/// Relies on `base64::engine::general_purpose::STANDARD.encode`: standard
/// alphabet with padding, a function of the bytes alone.
#[verifier::external_body]
fn base64_encode(b: &Vec<u8>) -> (r: String)
    ensures
        r@ == base64_text(b@),
{
    base64::Engine::encode(&base64::engine::general_purpose::STANDARD, b)
}

/// A PNG image as a `data:` URI.
pub fn screenshot_data_uri(png: &Vec<u8>) -> (r: String)
    ensures
        r@ == "data:image/png;base64,"@ + base64_text(png@),
{
    concat("data:image/png;base64,", base64_encode(png).as_str())
}

/// The report of a successful action, where the action has a fixed one.
pub open spec fn success_text(a: BrowserAction) -> Option<Seq<char>> {
    match a {
        BrowserAction::Click { .. } => Some("Click successful"@),
        BrowserAction::Type { .. } => Some("Text input successful"@),
        BrowserAction::Wait { .. } => Some("Wait completed"@),
        BrowserAction::WaitForElement { .. } => Some("Element found"@),
        BrowserAction::Scroll { direction, pixels } => {
            let o = scroll_offset_of(direction, pixels);
            Some("Scrolled by ("@ + pair_text(o.0, o.1) + ")"@)
        },
        _ => None,
    }
}

/// The result of an action given what the driver reported: `Ok` with the
/// action's report, or the error that names what failed.
pub open spec fn outcome_of(a: BrowserAction, report: DriverReport) -> Result<Seq<char>, ActionError> {
    match (a, report) {
        (BrowserAction::Click { .. }, DriverReport::Done) => Ok(success_text(a)->0),
        (BrowserAction::Type { .. }, DriverReport::Done) => Ok(success_text(a)->0),
        (BrowserAction::Wait { .. }, DriverReport::Done) => Ok(success_text(a)->0),
        (BrowserAction::WaitForElement { .. }, DriverReport::Done) => Ok(success_text(a)->0),
        (BrowserAction::Scroll { .. }, DriverReport::Done) => Ok(success_text(a)->0),
        (BrowserAction::Click { selector }, DriverReport::ElementMissing(e)) => Err(
            ActionError::ElementNotFound { selector, detail: e },
        ),
        (BrowserAction::Type { selector, .. }, DriverReport::ElementMissing(e)) => Err(
            ActionError::ElementNotFound { selector, detail: e },
        ),
        (BrowserAction::Click { .. }, DriverReport::ClickFailed(e)) => Err(ActionError::ClickFailed(e)),
        (BrowserAction::Type { .. }, DriverReport::FocusFailed(e)) => Err(ActionError::FocusFailed(e)),
        (BrowserAction::Type { .. }, DriverReport::InputFailed(e)) => Err(ActionError::InputFailed(e)),
        (BrowserAction::WaitForElement { timeout_ms, .. }, DriverReport::TimedOut) => Err(
            ActionError::Timeout {
                timeout_ms: match timeout_ms {
                    Some(t) => t,
                    None => DEFAULT_ELEMENT_TIMEOUT_MS,
                },
            },
        ),
        (BrowserAction::Scroll { .. }, DriverReport::Failed(e)) => Err(ActionError::ScrollFailed(e)),
        (BrowserAction::Screenshot, DriverReport::Image(b)) => Ok(
            "data:image/png;base64,"@ + base64_text(b@),
        ),
        (BrowserAction::Screenshot, DriverReport::Failed(e)) => Err(ActionError::ScreenshotFailed(e)),
        (BrowserAction::GetPageSource, DriverReport::Text(t)) => Ok(t@),
        (BrowserAction::GetPageSource, DriverReport::Failed(e)) => Err(ActionError::PageSourceFailed(e)),
        (BrowserAction::ExecuteScript { .. }, DriverReport::Text(t)) => Ok(t@),
        (BrowserAction::ExecuteScript { .. }, DriverReport::Failed(e)) => Err(ActionError::ScriptFailed(e)),
        _ => Err(ActionError::UnexpectedReport),
    }
}

/// Turns what the driver reported for an action into the action's result.
pub fn action_outcome(a: &BrowserAction, report: DriverReport) -> (r: Result<String, ActionError>)
    ensures
        match (r, outcome_of(*a, report)) {
            (Ok(s), Ok(t)) => s@ == t,
            (Err(e), Err(f)) => e == f,
            _ => false,
        },
{
    match (a, report) {
        (BrowserAction::Click { .. }, DriverReport::Done) => Ok(String::from_str("Click successful")),
        (BrowserAction::Type { .. }, DriverReport::Done) => Ok(String::from_str("Text input successful")),
        (BrowserAction::Wait { .. }, DriverReport::Done) => Ok(String::from_str("Wait completed")),
        (BrowserAction::WaitForElement { .. }, DriverReport::Done) => Ok(String::from_str("Element found")),
        (BrowserAction::Scroll { direction, pixels }, DriverReport::Done) => {
            let (x, y) = scroll_offset(*direction, *pixels);
            Ok(scroll_report(x, y))
        },
        (BrowserAction::Click { selector }, DriverReport::ElementMissing(e)) => Err(
            ActionError::ElementNotFound { selector: selector.clone(), detail: e },
        ),
        (BrowserAction::Type { selector, .. }, DriverReport::ElementMissing(e)) => Err(
            ActionError::ElementNotFound { selector: selector.clone(), detail: e },
        ),
        (BrowserAction::Click { .. }, DriverReport::ClickFailed(e)) => Err(ActionError::ClickFailed(e)),
        (BrowserAction::Type { .. }, DriverReport::FocusFailed(e)) => Err(ActionError::FocusFailed(e)),
        (BrowserAction::Type { .. }, DriverReport::InputFailed(e)) => Err(ActionError::InputFailed(e)),
        (BrowserAction::WaitForElement { timeout_ms, .. }, DriverReport::TimedOut) => Err(
            ActionError::Timeout { timeout_ms: effective_timeout(*timeout_ms) },
        ),
        (BrowserAction::Scroll { .. }, DriverReport::Failed(e)) => Err(ActionError::ScrollFailed(e)),
        (BrowserAction::Screenshot, DriverReport::Image(b)) => Ok(screenshot_data_uri(&b)),
        (BrowserAction::Screenshot, DriverReport::Failed(e)) => Err(ActionError::ScreenshotFailed(e)),
        (BrowserAction::GetPageSource, DriverReport::Text(t)) => Ok(t),
        (BrowserAction::GetPageSource, DriverReport::Failed(e)) => Err(ActionError::PageSourceFailed(e)),
        (BrowserAction::ExecuteScript { .. }, DriverReport::Text(t)) => Ok(t),
        (BrowserAction::ExecuteScript { .. }, DriverReport::Failed(e)) => Err(ActionError::ScriptFailed(e)),
        _ => Err(ActionError::UnexpectedReport),
    }
}

/// The outcome of a navigation: `None` where it did not end within the limit.
pub fn navigation_outcome(url: &str, result: Option<Result<(), String>>) -> (r: Result<(), ActionError>)
    ensures
        match result {
            None => r == Err::<(), ActionError>(ActionError::NavigationTimeout),
            Some(Ok(())) => r is Ok,
            Some(Err(e)) => r matches Err(ActionError::NavigationFailed { url: u, detail: d }) && u@ == url@ && d == e,
        },
{
    match result {
        None => Err(ActionError::NavigationTimeout),
        Some(Ok(())) => Ok(()),
        Some(Err(e)) => Err(ActionError::NavigationFailed { url: String::from_str(url), detail: e }),
    }
}

impl ActionError {
    /// The description of the failure.
    pub open spec fn spec_message(&self) -> Seq<char> {
        match self {
            ActionError::ElementNotFound { selector, detail } => "Element not found "@ + selector@
                + ": "@ + detail@,
            ActionError::FocusFailed(e) => "Failed to focus element: "@ + e@,
            ActionError::ClickFailed(e) => "Failed to click element: "@ + e@,
            ActionError::InputFailed(e) => "Failed to type text: "@ + e@,
            ActionError::Timeout { timeout_ms } => "Element not found within "@ + decimal(
                *timeout_ms as int,
            ) + "ms"@,
            ActionError::ScrollFailed(e) => "Failed to scroll: "@ + e@,
            ActionError::ScreenshotFailed(e) => "Failed to take screenshot: "@ + e@,
            ActionError::PageSourceFailed(e) => "Failed to get page source: "@ + e@,
            ActionError::ScriptFailed(e) => "Failed to execute script: "@ + e@,
            ActionError::NavigationTimeout => "Navigation timeout after 30 seconds"@,
            ActionError::NavigationFailed { url, detail } => "Failed to navigate to "@ + url@ + ": "@
                + detail@,
            ActionError::SessionCreationFailed(e) => "Failed to create new page after retry: "@ + e@,
            ActionError::UnexpectedReport => "Unexpected driver report"@,
        }
    }

    pub fn message(&self) -> (r: String)
        ensures
            r@ == self.spec_message(),
    {
        match self {
            ActionError::ElementNotFound { selector, detail } => {
                let a = concat("Element not found ", selector.as_str());
                concat(concat(a.as_str(), ": ").as_str(), detail.as_str())
            },
            ActionError::FocusFailed(e) => concat("Failed to focus element: ", e.as_str()),
            ActionError::ClickFailed(e) => concat("Failed to click element: ", e.as_str()),
            ActionError::InputFailed(e) => concat("Failed to type text: ", e.as_str()),
            ActionError::Timeout { timeout_ms } => {
                let digits = decimal_u64(*timeout_ms);
                concat(concat("Element not found within ", digits.as_str()).as_str(), "ms")
            },
            ActionError::ScrollFailed(e) => concat("Failed to scroll: ", e.as_str()),
            ActionError::ScreenshotFailed(e) => concat("Failed to take screenshot: ", e.as_str()),
            ActionError::PageSourceFailed(e) => concat("Failed to get page source: ", e.as_str()),
            ActionError::ScriptFailed(e) => concat("Failed to execute script: ", e.as_str()),
            ActionError::NavigationTimeout => String::from_str("Navigation timeout after 30 seconds"),
            ActionError::NavigationFailed { url, detail } => {
                let a = concat("Failed to navigate to ", url.as_str());
                concat(concat(a.as_str(), ": ").as_str(), detail.as_str())
            },
            ActionError::SessionCreationFailed(e) => concat(
                "Failed to create new page after retry: ",
                e.as_str(),
            ),
            ActionError::UnexpectedReport => String::from_str("Unexpected driver report"),
        }
    }
}

/// `n` in decimal.
pub fn decimal_u64(n: u64) -> (r: String)
    ensures
        r@ == decimal(n as int),
{
    let mut out: Vec<char> = Vec::new();
    push_digits(n, &mut out);
    assert(out@ =~= digits(n as nat));
    string_from(out.as_slice())
}


/// One primitive operation on the page.
#[derive(Debug)]
pub enum DriverOp {
    /// Resolve the selector to one element and keep it.
    FindElement { selector: String },
    /// Click the element found last.
    ClickElement,
    /// Type into the element found last.
    TypeText { text: String },
    Sleep { ms: u64 },
    /// Run a script in the page.
    Evaluate { script: String },
    CaptureScreenshot,
    ReadSource,
}

/// What a primitive operation gave.
#[derive(Debug)]
pub enum DriverEvent {
    ElementFound,
    ElementMissing(String),
    Clicked,
    ClickFailed(String),
    Typed,
    TypeFailed(String),
    Slept,
    /// The script's value as text.
    Evaluated(String),
    EvaluationFailed(String),
    Captured(Vec<u8>),
    CaptureFailed(String),
    SourceRead(String),
    SourceFailed(String),
}

#[derive(Debug)]
pub enum ActionStep {
    Perform(DriverOp),
    Complete(Result<String, ActionError>),
}

/// Where an action's run stands.
#[derive(Debug, Clone, Copy, PartialEq, Eq, Structural)]
pub enum Stage {
    /// Looking up the element to click or type into.
    Finding,
    /// Clicking the element before typing.
    Focusing,
    Typing,
    Clicking,
    Sleeping,
    /// Looking up the element waited for.
    Polling,
    /// Pausing between two lookups.
    PollSleeping,
    Evaluating,
    Capturing,
    Reading,
    Finished,
}

/// The report that ends an action, given the stage and what the page gave;
/// `None` where the event does not end it.
pub open spec fn final_report(a: BrowserAction, stage: Stage, e: DriverEvent, elapsed_ms: u64) -> Option<DriverReport> {
    match (stage, e) {
        (Stage::Finding, DriverEvent::ElementMissing(m)) => Some(DriverReport::ElementMissing(m)),
        (Stage::Focusing, DriverEvent::ClickFailed(m)) => Some(DriverReport::FocusFailed(m)),
        (Stage::Clicking, DriverEvent::ClickFailed(m)) => Some(DriverReport::ClickFailed(m)),
        (Stage::Clicking, DriverEvent::Clicked) => Some(DriverReport::Done),
        (Stage::Typing, DriverEvent::TypeFailed(m)) => Some(DriverReport::InputFailed(m)),
        (Stage::Typing, DriverEvent::Typed) => Some(DriverReport::Done),
        (Stage::Sleeping, DriverEvent::Slept) => Some(DriverReport::Done),
        (Stage::Polling, DriverEvent::ElementFound) => Some(DriverReport::Done),
        (Stage::Polling, DriverEvent::ElementMissing(_)) => match a {
            BrowserAction::WaitForElement { timeout_ms, .. } => if elapsed_ms > match timeout_ms {
                Some(t) => t,
                None => DEFAULT_ELEMENT_TIMEOUT_MS,
            } {
                Some(DriverReport::TimedOut)
            } else {
                None
            },
            _ => None,
        },
        (Stage::Evaluating, DriverEvent::Evaluated(v)) => if a is Scroll {
            Some(DriverReport::Done)
        } else {
            Some(DriverReport::Text(v))
        },
        (Stage::Evaluating, DriverEvent::EvaluationFailed(m)) => Some(DriverReport::Failed(m)),
        (Stage::Capturing, DriverEvent::Captured(b)) => Some(DriverReport::Image(b)),
        (Stage::Capturing, DriverEvent::CaptureFailed(m)) => Some(DriverReport::Failed(m)),
        (Stage::Reading, DriverEvent::SourceRead(t)) => Some(DriverReport::Text(t)),
        (Stage::Reading, DriverEvent::SourceFailed(m)) => Some(DriverReport::Failed(m)),
        _ => None,
    }
}

/// The result an action ends with for a report, as `action_outcome` gives it.
pub open spec fn result_is(r: Result<String, ActionError>, expected: Result<Seq<char>, ActionError>) -> bool {
    match (r, expected) {
        (Ok(s), Ok(t)) => s@ == t,
        (Err(e), Err(f)) => e == f,
        _ => false,
    }
}

/// One action's run against the page: the operations it asks for, in order,
/// and its result.
pub struct ActionRun {
    action: BrowserAction,
    stage: Stage,
}

impl ActionRun {
    pub closed spec fn spec_action(&self) -> BrowserAction {
        self.action
    }

    pub closed spec fn spec_stage(&self) -> Stage {
        self.stage
    }

    /// Each stage belongs to the actions that pass through it.
    pub closed spec fn wf(&self) -> bool {
        match self.stage {
            Stage::Finding => self.action is Click || self.action is Type,
            Stage::Focusing | Stage::Typing => self.action is Type,
            Stage::Clicking => self.action is Click || self.action is Type,
            Stage::Sleeping => self.action is Wait,
            Stage::Polling | Stage::PollSleeping => self.action is WaitForElement,
            Stage::Evaluating => self.action is Scroll || self.action is ExecuteScript,
            Stage::Capturing => self.action is Screenshot,
            Stage::Reading => self.action is GetPageSource,
            Stage::Finished => true,
        }
    }

    /// Starts `action`: a click or a typing first finds its element, a wait
    /// sleeps, an element wait looks the element up, a scroll or a script is
    /// evaluated, a screenshot is captured, the page source is read.
    pub fn start(action: BrowserAction) -> (r: (ActionRun, DriverOp))
        ensures
            r.0.wf(),
            r.0.spec_action() == action,
            match (action, r.1) {
                (BrowserAction::Click { selector }, DriverOp::FindElement { selector: s }) => s == selector && r.0.spec_stage() == Stage::Finding,
                (BrowserAction::Type { selector, .. }, DriverOp::FindElement { selector: s }) => s == selector && r.0.spec_stage() == Stage::Finding,
                (BrowserAction::Wait { duration_ms }, DriverOp::Sleep { ms }) => ms == duration_ms && r.0.spec_stage() == Stage::Sleeping,
                (BrowserAction::WaitForElement { selector, .. }, DriverOp::FindElement { selector: s }) => s == selector && r.0.spec_stage() == Stage::Polling,
                (BrowserAction::Scroll { direction, pixels }, DriverOp::Evaluate { script }) => {
                    let o = scroll_offset_of(direction, pixels);
                    script@ == "window.scrollBy("@ + pair_text(o.0, o.1) + ")"@ && r.0.spec_stage() == Stage::Evaluating
                },
                (BrowserAction::Screenshot, DriverOp::CaptureScreenshot) => r.0.spec_stage() == Stage::Capturing,
                (BrowserAction::GetPageSource, DriverOp::ReadSource) => r.0.spec_stage() == Stage::Reading,
                (BrowserAction::ExecuteScript { script }, DriverOp::Evaluate { script: s }) => s == script && r.0.spec_stage() == Stage::Evaluating,
                _ => false,
            },
    {
        let (stage, op) = match &action {
            BrowserAction::Click { selector } => (Stage::Finding, DriverOp::FindElement { selector: selector.clone() }),
            BrowserAction::Type { selector, .. } => (Stage::Finding, DriverOp::FindElement { selector: selector.clone() }),
            BrowserAction::Wait { duration_ms } => (Stage::Sleeping, DriverOp::Sleep { ms: *duration_ms }),
            BrowserAction::WaitForElement { selector, .. } => (Stage::Polling, DriverOp::FindElement { selector: selector.clone() }),
            BrowserAction::Scroll { direction, pixels } => {
                let (x, y) = scroll_offset(*direction, *pixels);
                (Stage::Evaluating, DriverOp::Evaluate { script: scroll_script(x, y) })
            },
            BrowserAction::Screenshot => (Stage::Capturing, DriverOp::CaptureScreenshot),
            BrowserAction::GetPageSource => (Stage::Reading, DriverOp::ReadSource),
            BrowserAction::ExecuteScript { script } => (Stage::Evaluating, DriverOp::Evaluate { script: script.clone() }),
        };
        (ActionRun { action, stage }, op)
    }

    fn complete(&mut self, report: DriverReport) -> (r: ActionStep)
        ensures
            final(self).action == old(self).action,
            final(self).stage == Stage::Finished,
            r matches ActionStep::Complete(res) && result_is(res, outcome_of(old(self).action, report)),
    {
        let res = action_outcome(&self.action, report);
        self.stage = Stage::Finished;
        ActionStep::Complete(res)
    }

    /// Advances the run by what the last operation gave; `elapsed_ms` is the
    /// time since the action started. Typing happens only into an element
    /// that was found and focused; an element wait ends in a timeout only once
    /// more than its timeout has passed, and else looks again after the poll
    /// interval.
    pub fn step(&mut self, event: DriverEvent, elapsed_ms: u64) -> (r: ActionStep)
        requires
            old(self).wf(),
        ensures
            final(self).wf(),
            final(self).spec_action() == old(self).spec_action(),
            (r is Complete) == (final(self).spec_stage() == Stage::Finished),
            match final_report(old(self).spec_action(), old(self).spec_stage(), event, elapsed_ms) {
                Some(report) => r matches ActionStep::Complete(res) && result_is(
                    res,
                    outcome_of(old(self).spec_action(), report),
                ),
                None => true,
            },
            r matches ActionStep::Perform(DriverOp::TypeText { text }) ==> old(self).spec_stage() == Stage::Focusing
                && event is Clicked && (old(self).spec_action() matches BrowserAction::Type { text: t, .. } && t == text),
            r matches ActionStep::Perform(DriverOp::ClickElement) ==> old(self).spec_stage() == Stage::Finding
                && event is ElementFound,
            (old(self).spec_stage() == Stage::Finding && event is ElementFound) ==> r
                == ActionStep::Perform(DriverOp::ClickElement) && final(self).spec_stage() == (if old(
                self,
            ).spec_action() is Type {
                Stage::Focusing
            } else {
                Stage::Clicking
            }),
            (old(self).spec_stage() == Stage::Focusing && event is Clicked) ==> (r matches ActionStep::Perform(DriverOp::TypeText { text })
                && (old(self).spec_action() matches BrowserAction::Type { text: t, .. } && t == text)
                && final(self).spec_stage() == Stage::Typing),
            (old(self).spec_stage() == Stage::Polling && event is ElementMissing && final_report(
                old(self).spec_action(),
                old(self).spec_stage(),
                event,
                elapsed_ms,
            ) is None) ==> r == ActionStep::Perform(DriverOp::Sleep { ms: POLL_INTERVAL_MS }),
            old(self).spec_stage() == Stage::PollSleeping && event is Slept ==> (r matches ActionStep::Perform(DriverOp::FindElement { selector: s })
                && (old(self).spec_action() matches BrowserAction::WaitForElement { selector, .. } && s == selector)),
    {
        let stage = self.stage;
        match (stage, event) {
            (Stage::Finding, DriverEvent::ElementFound) => {
                if matches!(self.action, BrowserAction::Type { .. }) {
                    self.stage = Stage::Focusing;
                } else {
                    self.stage = Stage::Clicking;
                }
                ActionStep::Perform(DriverOp::ClickElement)
            },
            (Stage::Finding, DriverEvent::ElementMissing(m)) => self.complete(DriverReport::ElementMissing(m)),
            (Stage::Focusing, DriverEvent::Clicked) => match &self.action {
                BrowserAction::Type { text, .. } => {
                    let t = text.clone();
                    self.stage = Stage::Typing;
                    ActionStep::Perform(DriverOp::TypeText { text: t })
                },
                _ => self.complete(DriverReport::Failed(String::new())),
            },
            (Stage::Focusing, DriverEvent::ClickFailed(m)) => self.complete(DriverReport::FocusFailed(m)),
            (Stage::Clicking, DriverEvent::Clicked) => self.complete(DriverReport::Done),
            (Stage::Clicking, DriverEvent::ClickFailed(m)) => self.complete(DriverReport::ClickFailed(m)),
            (Stage::Typing, DriverEvent::Typed) => self.complete(DriverReport::Done),
            (Stage::Typing, DriverEvent::TypeFailed(m)) => self.complete(DriverReport::InputFailed(m)),
            (Stage::Sleeping, DriverEvent::Slept) => self.complete(DriverReport::Done),
            (Stage::Polling, DriverEvent::ElementFound) => self.complete(DriverReport::Done),
            (Stage::Polling, DriverEvent::ElementMissing(m)) => {
                let timeout = match &self.action {
                    BrowserAction::WaitForElement { timeout_ms, .. } => effective_timeout(*timeout_ms),
                    _ => 0,
                };
                if !matches!(self.action, BrowserAction::WaitForElement { .. }) {
                    self.complete(DriverReport::ElementMissing(m))
                } else {
                    match poll_step(false, elapsed_ms, timeout) {
                        PollStep::TimedOut => self.complete(DriverReport::TimedOut),
                        _ => {
                            self.stage = Stage::PollSleeping;
                            ActionStep::Perform(DriverOp::Sleep { ms: POLL_INTERVAL_MS })
                        },
                    }
                }
            },
            (Stage::PollSleeping, DriverEvent::Slept) => match &self.action {
                BrowserAction::WaitForElement { selector, .. } => {
                    let s = selector.clone();
                    self.stage = Stage::Polling;
                    ActionStep::Perform(DriverOp::FindElement { selector: s })
                },
                _ => self.complete(DriverReport::Failed(String::new())),
            },
            (Stage::Evaluating, DriverEvent::Evaluated(v)) => {
                if matches!(self.action, BrowserAction::Scroll { .. }) {
                    self.complete(DriverReport::Done)
                } else {
                    self.complete(DriverReport::Text(v))
                }
            },
            (Stage::Evaluating, DriverEvent::EvaluationFailed(m)) => self.complete(DriverReport::Failed(m)),
            (Stage::Capturing, DriverEvent::Captured(b)) => self.complete(DriverReport::Image(b)),
            (Stage::Capturing, DriverEvent::CaptureFailed(m)) => self.complete(DriverReport::Failed(m)),
            (Stage::Reading, DriverEvent::SourceRead(t)) => self.complete(DriverReport::Text(t)),
            (Stage::Reading, DriverEvent::SourceFailed(m)) => self.complete(DriverReport::Failed(m)),
            _ => {
                self.stage = Stage::Finished;
                ActionStep::Complete(Err(ActionError::UnexpectedReport))
            },
        }
    }
}

} // verus!
