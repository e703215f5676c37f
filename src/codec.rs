//! The JSON form of actions and plans: an action is an object whose `type`
//! member names the variant and whose `params` member holds its fields.
use vstd::prelude::*;
use crate::json::{field_of, str_field_of, str_eq, JsonMember, JsonValue};
use crate::types::{BrowserAction, ScrollDirection, TaskPlan, TaskStep};

verus! {

pub open spec fn tag_of(a: BrowserAction) -> Seq<char> {
    match a {
        BrowserAction::Click { .. } => "Click"@,
        BrowserAction::Type { .. } => "Type"@,
        BrowserAction::Wait { .. } => "Wait"@,
        BrowserAction::WaitForElement { .. } => "WaitForElement"@,
        BrowserAction::Scroll { .. } => "Scroll"@,
        BrowserAction::Screenshot => "Screenshot"@,
        BrowserAction::GetPageSource => "GetPageSource"@,
        BrowserAction::ExecuteScript { .. } => "ExecuteScript"@,
    }
}

pub open spec fn direction_tag(d: ScrollDirection) -> Seq<char> {
    match d {
        ScrollDirection::Up => "Up"@,
        ScrollDirection::Down => "Down"@,
        ScrollDirection::Left => "Left"@,
        ScrollDirection::Right => "Right"@,
    }
}

pub open spec fn member_count(v: JsonValue) -> int {
    match v {
        JsonValue::Object(m) => m@.len() as int,
        _ => -1,
    }
}

pub open spec fn opt_u64_json(o: Option<u64>) -> JsonValue {
    match o {
        Some(n) => JsonValue::Integer(n as i128),
        None => JsonValue::Null,
    }
}

pub open spec fn opt_i32_json(o: Option<i32>) -> JsonValue {
    match o {
        Some(n) => JsonValue::Integer(n as i128),
        None => JsonValue::Null,
    }
}

/// `p` is the `params` object of `a`: one member per field, an absent option as `null`.
pub open spec fn is_params_json(p: JsonValue, a: BrowserAction) -> bool {
    match a {
        BrowserAction::Click { selector } => member_count(p) == 1 && field_of(p, "selector"@)
            == Some(JsonValue::Str(selector)),
        BrowserAction::Type { selector, text } => member_count(p) == 2 && field_of(p, "selector"@)
            == Some(JsonValue::Str(selector)) && field_of(p, "text"@) == Some(JsonValue::Str(text)),
        BrowserAction::Wait { duration_ms } => member_count(p) == 1 && field_of(p, "duration_ms"@)
            == Some(JsonValue::Integer(duration_ms as i128)),
        BrowserAction::WaitForElement { selector, timeout_ms } => member_count(p) == 2 && field_of(
            p,
            "selector"@,
        ) == Some(JsonValue::Str(selector)) && field_of(p, "timeout_ms"@) == Some(
            opt_u64_json(timeout_ms),
        ),
        BrowserAction::Scroll { direction, pixels } => member_count(p) == 2 && str_field_of(
            p,
            "direction"@,
        ) == Some(direction_tag(direction)) && field_of(p, "pixels"@) == Some(
            opt_i32_json(pixels),
        ),
        BrowserAction::ExecuteScript { script } => member_count(p) == 1 && field_of(p, "script"@)
            == Some(JsonValue::Str(script)),
        _ => true,
    }
}

pub open spec fn has_params(a: BrowserAction) -> bool {
    !(a is Screenshot || a is GetPageSource)
}

/// `v` is the JSON form of `a`.
pub open spec fn is_action_json(v: JsonValue, a: BrowserAction) -> bool {
    &&& str_field_of(v, "type"@) == Some(tag_of(a))
    &&& if has_params(a) {
        member_count(v) == 2 && match field_of(v, "params"@) {
            Some(p) => is_params_json(p, a),
            None => false,
        }
    } else {
        member_count(v) == 1
    }
}

/// A present integer in the range of `u64`.
pub open spec fn u64_of(f: Option<JsonValue>) -> Option<u64> {
    match f {
        Some(JsonValue::Integer(n)) => if 0 <= n <= u64::MAX {
            Some(n as u64)
        } else {
            None
        },
        _ => None,
    }
}

/// An optional `u64`: absent or `null` is `None`; anything else but such an integer is invalid.
pub open spec fn opt_u64_of(f: Option<JsonValue>) -> Option<Option<u64>> {
    match f {
        None => Some(None),
        Some(JsonValue::Null) => Some(None),
        Some(JsonValue::Integer(n)) => if 0 <= n <= u64::MAX {
            Some(Some(n as u64))
        } else {
            None
        },
        _ => None,
    }
}

pub open spec fn opt_i32_of(f: Option<JsonValue>) -> Option<Option<i32>> {
    match f {
        None => Some(None),
        Some(JsonValue::Null) => Some(None),
        Some(JsonValue::Integer(n)) => if i32::MIN <= n <= i32::MAX {
            Some(Some(n as i32))
        } else {
            None
        },
        _ => None,
    }
}

pub open spec fn direction_of(t: Option<Seq<char>>) -> Option<ScrollDirection> {
    match t {
        Some(t) => if t == "Up"@ {
            Some(ScrollDirection::Up)
        } else if t == "Down"@ {
            Some(ScrollDirection::Down)
        } else if t == "Left"@ {
            Some(ScrollDirection::Left)
        } else if t == "Right"@ {
            Some(ScrollDirection::Right)
        } else {
            None
        },
        None => None,
    }
}

/// The action of variant `t` whose fields `p` holds, if they are all there with their types.
pub open spec fn params_of(t: Seq<char>, p: JsonValue) -> Option<BrowserAction> {
    if t == "Click"@ {
        match field_of(p, "selector"@) {
            Some(JsonValue::Str(s)) => Some(BrowserAction::Click { selector: s }),
            _ => None,
        }
    } else if t == "Type"@ {
        match (field_of(p, "selector"@), field_of(p, "text"@)) {
            (Some(JsonValue::Str(s)), Some(JsonValue::Str(x))) => Some(
                BrowserAction::Type { selector: s, text: x },
            ),
            _ => None,
        }
    } else if t == "Wait"@ {
        match u64_of(field_of(p, "duration_ms"@)) {
            Some(d) => Some(BrowserAction::Wait { duration_ms: d }),
            None => None,
        }
    } else if t == "WaitForElement"@ {
        match (field_of(p, "selector"@), opt_u64_of(field_of(p, "timeout_ms"@))) {
            (Some(JsonValue::Str(s)), Some(o)) => Some(
                BrowserAction::WaitForElement { selector: s, timeout_ms: o },
            ),
            _ => None,
        }
    } else if t == "Scroll"@ {
        match (direction_of(str_field_of(p, "direction"@)), opt_i32_of(field_of(p, "pixels"@))) {
            (Some(d), Some(px)) => Some(BrowserAction::Scroll { direction: d, pixels: px }),
            _ => None,
        }
    } else if t == "ExecuteScript"@ {
        match field_of(p, "script"@) {
            Some(JsonValue::Str(s)) => Some(BrowserAction::ExecuteScript { script: s }),
            _ => None,
        }
    } else {
        None
    }
}

/// The action that `v` describes, or `None` where it describes none.
pub open spec fn action_of_json(v: JsonValue) -> Option<BrowserAction> {
    match str_field_of(v, "type"@) {
        Some(t) => if t == "Screenshot"@ {
            Some(BrowserAction::Screenshot)
        } else if t == "GetPageSource"@ {
            Some(BrowserAction::GetPageSource)
        } else {
            match field_of(v, "params"@) {
                Some(p) => params_of(t, p),
                None => None,
            }
        },
        None => None,
    }
}

fn member(key: &str, value: JsonValue) -> (r: JsonMember)
    ensures
        r.key@ == key@,
        r.value == value,
{
    JsonMember { key: String::from_str(key), value }
}

fn opt_u64_to_json(o: Option<u64>) -> (r: JsonValue)
    ensures
        r == opt_u64_json(o),
{
    match o {
        Some(n) => JsonValue::Integer(n as i128),
        None => JsonValue::Null,
    }
}

fn direction_name(d: ScrollDirection) -> (r: &'static str)
    ensures
        r@ == direction_tag(d),
{
    match d {
        ScrollDirection::Up => "Up",
        ScrollDirection::Down => "Down",
        ScrollDirection::Left => "Left",
        ScrollDirection::Right => "Right",
    }
}

fn tagged(tag: &str, params: Option<JsonValue>) -> (r: JsonValue)
    ensures
        str_field_of(r, "type"@) == Some(tag@),
        match params {
            Some(p) => member_count(r) == 2 && field_of(r, "params"@) == Some(p),
            None => member_count(r) == 1,
        },
{
    proof {
        reveal_strlit("type");
        reveal_strlit("params");
    }
    let t = member("type", JsonValue::Str(String::from_str(tag)));
    match params {
        Some(p) => {
            assert("type"@.len() != "params"@.len());
            let m = vec![t, member("params", p)];
            assert(m@.drop_first()[0] == m@[1]);
            assert(crate::json::member_value(m@.drop_first(), "params"@) == Some(p));
            JsonValue::Object(m)
        },
        None => JsonValue::Object(vec![t]),
    }
}

fn object1(k: &str, v: JsonValue) -> (r: JsonValue)
    ensures
        member_count(r) == 1,
        field_of(r, k@) == Some(v),
{
    JsonValue::Object(vec![member(k, v)])
}

fn object2(k1: &str, v1: JsonValue, k2: &str, v2: JsonValue) -> (r: JsonValue)
    requires
        k1@ != k2@,
    ensures
        member_count(r) == 2,
        field_of(r, k1@) == Some(v1),
        field_of(r, k2@) == Some(v2),
{
    let m = vec![member(k1, v1), member(k2, v2)];
    assert(m@.drop_first()[0] == m@[1]);
    assert(crate::json::member_value(m@.drop_first(), k2@) == Some(v2));
    JsonValue::Object(m)
}

/// The JSON form of an action.
pub fn action_to_json(a: &BrowserAction) -> (r: JsonValue)
    ensures
        is_action_json(r, *a),
{
    proof {
        reveal_strlit("selector");
        reveal_strlit("text");
        reveal_strlit("timeout_ms");
        reveal_strlit("direction");
        reveal_strlit("pixels");
        assert("selector"@.len() != "text"@.len());
        assert("selector"@.len() != "timeout_ms"@.len());
        assert("direction"@.len() != "pixels"@.len());
    }
    match a {
        BrowserAction::Click { selector } => tagged(
            "Click",
            Some(object1("selector", JsonValue::Str(selector.clone()))),
        ),
        BrowserAction::Type { selector, text } => tagged(
            "Type",
            Some(
                object2(
                    "selector",
                    JsonValue::Str(selector.clone()),
                    "text",
                    JsonValue::Str(text.clone()),
                ),
            ),
        ),
        BrowserAction::Wait { duration_ms } => tagged(
            "Wait",
            Some(object1("duration_ms", JsonValue::Integer(*duration_ms as i128))),
        ),
        BrowserAction::WaitForElement { selector, timeout_ms } => tagged(
            "WaitForElement",
            Some(
                object2(
                    "selector",
                    JsonValue::Str(selector.clone()),
                    "timeout_ms",
                    opt_u64_to_json(*timeout_ms),
                ),
            ),
        ),
        BrowserAction::Scroll { direction, pixels } => {
            let px = match pixels {
                Some(n) => JsonValue::Integer(*n as i128),
                None => JsonValue::Null,
            };
            let d = JsonValue::Str(String::from_str(direction_name(*direction)));
            tagged("Scroll", Some(object2("direction", d, "pixels", px)))
        },
        BrowserAction::Screenshot => tagged("Screenshot", None),
        BrowserAction::GetPageSource => tagged("GetPageSource", None),
        BrowserAction::ExecuteScript { script } => tagged(
            "ExecuteScript",
            Some(object1("script", JsonValue::Str(script.clone()))),
        ),
    }
}

fn u64_from(f: Option<&JsonValue>) -> (r: Option<u64>)
    ensures
        r == u64_of(
            match f {
                Some(v) => Some(*v),
                None => None,
            },
        ),
{
    match f {
        Some(JsonValue::Integer(n)) => if 0 <= *n && *n <= u64::MAX as i128 {
            Some(*n as u64)
        } else {
            None
        },
        _ => None,
    }
}

fn opt_u64_from(f: Option<&JsonValue>) -> (r: Option<Option<u64>>)
    ensures
        r == opt_u64_of(
            match f {
                Some(v) => Some(*v),
                None => None,
            },
        ),
{
    match f {
        None => Some(None),
        Some(JsonValue::Null) => Some(None),
        Some(JsonValue::Integer(n)) => if 0 <= *n && *n <= u64::MAX as i128 {
            Some(Some(*n as u64))
        } else {
            None
        },
        _ => None,
    }
}

fn opt_i32_from(f: Option<&JsonValue>) -> (r: Option<Option<i32>>)
    ensures
        r == opt_i32_of(
            match f {
                Some(v) => Some(*v),
                None => None,
            },
        ),
{
    match f {
        None => Some(None),
        Some(JsonValue::Null) => Some(None),
        Some(JsonValue::Integer(n)) => if i32::MIN as i128 <= *n && *n <= i32::MAX as i128 {
            Some(Some(*n as i32))
        } else {
            None
        },
        _ => None,
    }
}

fn direction_from(t: Option<String>) -> (r: Option<ScrollDirection>)
    ensures
        r == direction_of(crate::json::opt_view(t)),
{
    match t {
        Some(t) => if str_eq(t.as_str(), "Up") {
            Some(ScrollDirection::Up)
        } else if str_eq(t.as_str(), "Down") {
            Some(ScrollDirection::Down)
        } else if str_eq(t.as_str(), "Left") {
            Some(ScrollDirection::Left)
        } else if str_eq(t.as_str(), "Right") {
            Some(ScrollDirection::Right)
        } else {
            None
        },
        None => None,
    }
}

pub fn string_field(p: &JsonValue, key: &str) -> (r: Option<String>)
    ensures
        match r {
            Some(s) => field_of(*p, key@) == Some(JsonValue::Str(s)),
            None => !(field_of(*p, key@) matches Some(JsonValue::Str(_))),
        },
{
    match p.get(key) {
        Some(JsonValue::Str(s)) => Some(s.clone()),
        _ => None,
    }
}

fn params_from(t: &str, p: &JsonValue) -> (r: Option<BrowserAction>)
    ensures
        r == params_of(t@, *p),
{
    if str_eq(t, "Click") {
        match string_field(p, "selector") {
            Some(s) => Some(BrowserAction::Click { selector: s }),
            None => None,
        }
    } else if str_eq(t, "Type") {
        match (string_field(p, "selector"), string_field(p, "text")) {
            (Some(s), Some(x)) => Some(BrowserAction::Type { selector: s, text: x }),
            _ => None,
        }
    } else if str_eq(t, "Wait") {
        match u64_from(p.get("duration_ms")) {
            Some(d) => Some(BrowserAction::Wait { duration_ms: d }),
            None => None,
        }
    } else if str_eq(t, "WaitForElement") {
        match (string_field(p, "selector"), opt_u64_from(p.get("timeout_ms"))) {
            (Some(s), Some(o)) => Some(BrowserAction::WaitForElement { selector: s, timeout_ms: o }),
            _ => None,
        }
    } else if str_eq(t, "Scroll") {
        match (direction_from(p.get_str("direction")), opt_i32_from(p.get("pixels"))) {
            (Some(d), Some(px)) => Some(BrowserAction::Scroll { direction: d, pixels: px }),
            _ => None,
        }
    } else if str_eq(t, "ExecuteScript") {
        match string_field(p, "script") {
            Some(s) => Some(BrowserAction::ExecuteScript { script: s }),
            None => None,
        }
    } else {
        None
    }
}

/// The action that a JSON value describes; `None` where the tag is unknown or
/// a field is missing or of the wrong type.
pub fn action_from_json(v: &JsonValue) -> (r: Option<BrowserAction>)
    ensures
        r == action_of_json(*v),
{
    match v.get_str("type") {
        Some(t) => if str_eq(t.as_str(), "Screenshot") {
            Some(BrowserAction::Screenshot)
        } else if str_eq(t.as_str(), "GetPageSource") {
            Some(BrowserAction::GetPageSource)
        } else {
            match v.get("params") {
                Some(p) => params_from(t.as_str(), p),
                None => None,
            }
        },
        None => None,
    }
}

/// Reading back the JSON form of an action gives the action itself.
pub proof fn lemma_action_json_round_trip(a: BrowserAction, v: JsonValue)
    requires
        is_action_json(v, a),
    ensures
        action_of_json(v) == Some(a),
{
    reveal_strlit("Click");
    reveal_strlit("Type");
    reveal_strlit("Wait");
    reveal_strlit("WaitForElement");
    reveal_strlit("Scroll");
    reveal_strlit("Screenshot");
    reveal_strlit("GetPageSource");
    reveal_strlit("ExecuteScript");
    reveal_strlit("Up");
    reveal_strlit("Down");
    reveal_strlit("Left");
    reveal_strlit("Right");
    assert("Click"@[0] == 'C' && "Type"@[0] == 'T' && "Wait"@[0] == 'W' && "WaitForElement"@[0]
        == 'W' && "Scroll"@[0] == 'S' && "Screenshot"@[1] == 'c' && "GetPageSource"@[0] == 'G'
        && "ExecuteScript"@[0] == 'E' && "Scroll"@[1] == 'c' && "Screenshot"@[0] == 'S');
    assert("Wait"@.len() != "WaitForElement"@.len() && "Scroll"@.len() != "Screenshot"@.len());
    assert("Up"@[0] == 'U' && "Down"@[0] == 'D' && "Left"@[0] == 'L' && "Right"@[0] == 'R');
    let t = tag_of(a);
    assert(str_field_of(v, "type"@) == Some(t));
    if has_params(a) {
        let p = field_of(v, "params"@)->0;
        assert(is_params_json(p, a));
        assert(t != "Screenshot"@ && t != "GetPageSource"@);
        match a {
            BrowserAction::Scroll { direction, pixels } => {
                assert(direction_of(str_field_of(p, "direction"@)) == Some(direction));
                assert(params_of(t, p) == Some(a));
            },
            _ => {
                assert(params_of(t, p) == Some(a));
            },
        }
    }
}

} // verus!
