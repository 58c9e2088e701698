//! Phone controls: each control message becomes a short script of CDP
//! commands on the active tab, run one reply at a time, ending in one answer.

use vstd::prelude::*;
use crate::cdp::CdpReply;
use crate::config::{
    clamp_height, clamp_viewport, clamp_width, device_metrics, device_metrics_json,
    screencast_params, screencast_params_json, StreamSettings, INITIAL_VIEWPORT_HEIGHT,
    INITIAL_VIEWPORT_WIDTH,
};
use crate::input::{cdp_key, cdp_key_spec, navigation_target, navigation_url};
use crate::json::{json_bool, json_string, push_json_bool, push_json_string};
use crate::text::{has_prefix, push_decimal, push_signed_decimal, push_str, signed_decimal, decimal, string_of};

verus! {

/// A coordinate from the phone: its JSON number text and its display text.
#[derive(Debug)]
pub struct Coordinate {
    pub json: String,
    pub text: String,
}

/// A control message from the phone.
#[derive(Debug)]
pub enum Control {
    Tap { x: Coordinate, y: Coordinate },
    Scroll { x: Coordinate, y: Coordinate, delta_y: Coordinate },
    Resize { width: u32, height: u32 },
    Back,
    Forward,
    Reload,
    Navigate { url: String },
    Go { text: String },
    Key { key: String },
    InsertText { text: String },
    Screencast { enabled: bool },
    SelectTab { id: String },
}

/// One CDP command of a script, as plain values.
pub struct StepSpec {
    pub method: Seq<char>,
    pub params: Seq<char>,
    /// A failure of this command ends the script with that failure.
    pub must_succeed: bool,
    /// A viewport to record just before this command is sent.
    pub record_viewport: Option<(u32, u32)>,
}

/// One CDP command of a script.
#[derive(Debug)]
pub struct Step {
    method: String,
    params: String,
    must_succeed: bool,
    record_viewport: Option<(u32, u32)>,
}

impl Step {
    pub closed spec fn view(&self) -> StepSpec {
        StepSpec {
            method: self.method@,
            params: self.params@,
            must_succeed: self.must_succeed,
            record_viewport: self.record_viewport,
        }
    }
}

/// What the last reply of a script turns into.
#[derive(Debug)]
pub enum Finale {
    /// The reply itself is the result.
    LastReply,
    /// Whether the tapped element takes text input.
    TextInputProbe,
    /// Navigate to the history entry this far from the current one.
    HistoryJump(i64),
}

/// What the host must do next for a control.
#[derive(Debug)]
pub enum ControlAction {
    /// Send this command to the active tab (after recording the viewport,
    /// when one is given) and report its outcome.
    Command { method: String, params: String, record_viewport: Option<(u32, u32)> },
    /// The control is done: the result as JSON text, or the error message.
    Finish(Result<String, String>),
}

pub open spec fn spec_step(method: Seq<char>, params: Seq<char>, must_succeed: bool) -> StepSpec {
    StepSpec { method, params, must_succeed, record_viewport: None }
}

/// Mouse button parameters of `Input.dispatchMouseEvent`.
pub open spec fn mouse_json(kind: Seq<char>, x: Seq<char>, y: Seq<char>) -> Seq<char> {
    "{\"button\":\"left\",\"clickCount\":1,\"type\":"@ + json_string(kind) + ",\"x\":"@ + x + ",\"y\":"@
        + y + "}"@
}

/// The script that asks whether the element at a point takes text.
pub open spec fn probe_expression(x: Seq<char>, y: Seq<char>) -> Seq<char> {
    "(()=>{const e=document.elementFromPoint("@ + x + ","@ + y
        + ");return !!e&&(e.matches('input,textarea')||e.isContentEditable)})()"@
}

/// `Runtime.evaluate` parameters returning the value itself.
pub open spec fn evaluate_json(expression: Seq<char>) -> Seq<char> {
    "{\"expression\":"@ + json_string(expression) + ",\"returnByValue\":true}"@
}

/// Mouse wheel parameters of `Input.dispatchMouseEvent`.
pub open spec fn wheel_json(x: Seq<char>, y: Seq<char>, delta_y: Seq<char>) -> Seq<char> {
    "{\"deltaX\":0,\"deltaY\":"@ + delta_y + ",\"type\":\"mouseWheel\",\"x\":"@ + x + ",\"y\":"@ + y
        + "}"@
}

/// Parameters of `Input.dispatchKeyEvent`.
pub open spec fn key_json(kind: Seq<char>, key: Seq<char>, code: Seq<char>, vk: u16) -> Seq<char> {
    "{\"code\":"@ + json_string(code) + ",\"key\":"@ + json_string(key) + ",\"nativeVirtualKeyCode\":"@
        + decimal(vk as nat) + ",\"type\":"@ + json_string(kind) + ",\"windowsVirtualKeyCode\":"@
        + decimal(vk as nat) + "}"@
}

/// `{"url": ...}`.
pub open spec fn url_json(url: Seq<char>) -> Seq<char> {
    "{\"url\":"@ + json_string(url) + "}"@
}

/// `{"text": ...}`.
pub open spec fn text_json(text: Seq<char>) -> Seq<char> {
    "{\"text\":"@ + json_string(text) + "}"@
}

/// `{"entryId": ...}` with the entry id as JSON text.
pub open spec fn entry_json(id: Seq<char>) -> Seq<char> {
    "{\"entryId\":"@ + id + "}"@
}

/// The result of a tap: whether it landed on a text field.
pub open spec fn text_input_json(b: bool) -> Seq<char> {
    "{\"text_input\":"@ + json_bool(b) + "}"@
}

/// The commands a control sends, and what its last reply becomes.
pub open spec fn script_of(c: Control, s: StreamSettings) -> (Seq<StepSpec>, Finale) {
    match c {
        Control::Tap { x, y } => (
            seq![
                spec_step("Input.dispatchMouseEvent"@, mouse_json("mousePressed"@, x.json@, y.json@), true),
                spec_step("Input.dispatchMouseEvent"@, mouse_json("mouseReleased"@, x.json@, y.json@), true),
                spec_step("Runtime.evaluate"@, evaluate_json(probe_expression(x.text@, y.text@)), true),
            ],
            Finale::TextInputProbe,
        ),
        Control::Scroll { x, y, delta_y } => (
            seq![spec_step("Input.dispatchMouseEvent"@, wheel_json(x.json@, y.json@, delta_y.json@), true)],
            Finale::LastReply,
        ),
        Control::Resize { width, height } => {
            let w = clamp_width(width);
            let h = clamp_height(height);
            (
                seq![
                    spec_step("Page.stopScreencast"@, "{}"@, false),
                    spec_step("Emulation.setDeviceMetricsOverride"@, device_metrics_json(w, h), true),
                    StepSpec {
                        method: "Page.startScreencast"@,
                        params: screencast_params_json(s.quality, s.every_nth_frame, w, h),
                        must_succeed: true,
                        record_viewport: Some((w, h)),
                    },
                ],
                Finale::LastReply,
            )
        },
        Control::Back => (
            seq![spec_step("Page.getNavigationHistory"@, "{}"@, true)],
            Finale::HistoryJump(-1i64),
        ),
        Control::Forward => (
            seq![spec_step("Page.getNavigationHistory"@, "{}"@, true)],
            Finale::HistoryJump(1i64),
        ),
        Control::Reload => (seq![spec_step("Page.reload"@, "{}"@, true)], Finale::LastReply),
        Control::Navigate { url } => (
            seq![spec_step("Page.navigate"@, url_json(url@), true)],
            Finale::LastReply,
        ),
        Control::Go { text } => (
            seq![spec_step("Page.navigate"@, url_json(navigation_target(text@)), true)],
            Finale::LastReply,
        ),
        Control::Key { key } => {
            let (k, code, vk) = cdp_key_spec(key@);
            (
                seq![
                    spec_step("Input.dispatchKeyEvent"@, key_json("keyDown"@, k, code, vk), true),
                    spec_step("Input.dispatchKeyEvent"@, key_json("keyUp"@, k, code, vk), true),
                ],
                Finale::LastReply,
            )
        },
        Control::InsertText { text } => (
            seq![spec_step("Input.insertText"@, text_json(text@), true)],
            Finale::LastReply,
        ),
        Control::Screencast { enabled } => if enabled {
            (
                seq![
                    spec_step(
                        "Page.startScreencast"@,
                        screencast_params_json(
                            s.quality,
                            s.every_nth_frame,
                            clamp_width(INITIAL_VIEWPORT_WIDTH),
                            clamp_height(INITIAL_VIEWPORT_HEIGHT),
                        ),
                        true,
                    ),
                ],
                Finale::LastReply,
            )
        } else {
            (seq![spec_step("Page.stopScreencast"@, "{}"@, true)], Finale::LastReply)
        },
        Control::SelectTab { .. } => (Seq::empty(), Finale::LastReply),
    }
}

/// The action sends exactly this command.
pub open spec fn issues(a: ControlAction, s: StepSpec) -> bool {
    a matches ControlAction::Command { method, params, record_viewport } && method@ == s.method
        && params@ == s.params && record_viewport == s.record_viewport
}

/// The action ends the control with this result.
pub open spec fn finishes_ok(a: ControlAction, text: Seq<char>) -> bool {
    a matches ControlAction::Finish(Ok(t)) && t@ == text
}

/// The action ends the control with this error.
pub open spec fn finishes_err(a: ControlAction, text: Seq<char>) -> bool {
    a matches ControlAction::Finish(Err(t)) && t@ == text
}

/// A running control script.
#[derive(Debug)]
pub struct ControlRun {
    steps: Vec<Step>,
    next: usize,
    finale: Finale,
    done: bool,
}

impl ControlRun {
    pub closed spec fn steps(&self) -> Seq<StepSpec> {
        self.steps@.map_values(|s: Step| s.view())
    }

    /// How many commands have been sent.
    pub closed spec fn sent(&self) -> nat {
        self.next as nat
    }

    pub closed spec fn finale(&self) -> Finale {
        self.finale
    }

    pub closed spec fn done(&self) -> bool {
        self.done
    }

    /// A run in progress has sent at least one and at most all its commands.
    pub open spec fn wf(&self) -> bool {
        &&& self.steps().len() <= 4
        &&& (self.finale() is HistoryJump ==> self.steps().len() <= 3)
        &&& !self.done() ==> 1 <= self.sent() <= self.steps().len()
    }

    /// An upper bound on the replies still to come.
    pub open spec fn remaining(&self) -> nat {
        (self.steps().len() - self.sent()) as nat + match self.finale() {
            Finale::HistoryJump(_) => 1nat,
            _ => 0nat,
        }
    }
}

/// How a control starts.
#[derive(Debug)]
pub enum ControlPlan {
    /// Switch the streamed tab (handled by tab selection).
    SelectTab(String),
    /// The message was not a valid control.
    Reject(String),
    /// Run a script; the action is its first command.
    Run(ControlRun, ControlAction),
}

fn make_step(method: &str, params: String, must_succeed: bool) -> (s: Step)
    ensures
        s.view() == spec_step(method@, params@, must_succeed),
{
    Step { method: string_of(method), params, must_succeed, record_viewport: None }
}

fn mouse_params(kind: &str, x: &Coordinate, y: &Coordinate) -> (r: String)
    ensures
        r@ == mouse_json(kind@, x.json@, y.json@),
{
    let mut r = string_of("{\"button\":\"left\",\"clickCount\":1,\"type\":");
    push_json_string(&mut r, kind);
    push_str(&mut r, ",\"x\":");
    push_str(&mut r, x.json.as_str());
    push_str(&mut r, ",\"y\":");
    push_str(&mut r, y.json.as_str());
    push_str(&mut r, "}");
    r
}

fn probe_params(x: &Coordinate, y: &Coordinate) -> (r: String)
    ensures
        r@ == evaluate_json(probe_expression(x.text@, y.text@)),
{
    let mut e = string_of("(()=>{const e=document.elementFromPoint(");
    push_str(&mut e, x.text.as_str());
    push_str(&mut e, ",");
    push_str(&mut e, y.text.as_str());
    push_str(&mut e, ");return !!e&&(e.matches('input,textarea')||e.isContentEditable)})()");
    evaluate_params(e.as_str())
}

fn wheel_params(x: &Coordinate, y: &Coordinate, delta_y: &Coordinate) -> (r: String)
    ensures
        r@ == wheel_json(x.json@, y.json@, delta_y.json@),
{
    let mut r = string_of("{\"deltaX\":0,\"deltaY\":");
    push_str(&mut r, delta_y.json.as_str());
    push_str(&mut r, ",\"type\":\"mouseWheel\",\"x\":");
    push_str(&mut r, x.json.as_str());
    push_str(&mut r, ",\"y\":");
    push_str(&mut r, y.json.as_str());
    push_str(&mut r, "}");
    r
}

fn key_params(kind: &str, key: &str, code: &str, vk: u16) -> (r: String)
    ensures
        r@ == key_json(kind@, key@, code@, vk),
{
    let mut r = string_of("{\"code\":");
    push_json_string(&mut r, code);
    push_str(&mut r, ",\"key\":");
    push_json_string(&mut r, key);
    push_str(&mut r, ",\"nativeVirtualKeyCode\":");
    push_decimal(&mut r, vk as u64);
    push_str(&mut r, ",\"type\":");
    push_json_string(&mut r, kind);
    push_str(&mut r, ",\"windowsVirtualKeyCode\":");
    push_decimal(&mut r, vk as u64);
    push_str(&mut r, "}");
    r
}

fn single_member(prefix: &str, value: &str) -> (r: String)
    ensures
        r@ == prefix@ + json_string(value@) + "}"@,
{
    let mut r = string_of(prefix);
    push_json_string(&mut r, value);
    push_str(&mut r, "}");
    r
}

/// The parameters of `Page.navigate` to `url`.
pub fn navigate_params(url: &str) -> (r: String)
    ensures
        r@ == url_json(url@),
{
    single_member("{\"url\":", url)
}

/// The parameters of `Runtime.evaluate` for `expression`, returning the
/// value itself.
pub fn evaluate_params(expression: &str) -> (r: String)
    ensures
        r@ == evaluate_json(expression@),
{
    let mut r = string_of("{\"expression\":");
    push_json_string(&mut r, expression);
    push_str(&mut r, ",\"returnByValue\":true}");
    r
}

fn entry_params(id: &str) -> (r: String)
    ensures
        r@ == entry_json(id@),
{
    let mut r = string_of("{\"entryId\":");
    push_str(&mut r, id);
    push_str(&mut r, "}");
    r
}

fn issue(s: &Step) -> (a: ControlAction)
    ensures
        issues(a, s.view()),
{
    ControlAction::Command {
        method: s.method.clone(),
        params: s.params.clone(),
        record_viewport: s.record_viewport,
    }
}

fn build_steps(control: &Control, settings: &StreamSettings) -> (r: (Vec<Step>, Finale))
    requires
        !(control is SelectTab),
    ensures
        r.0@.map_values(|s: Step| s.view()) == script_of(*control, *settings).0,
        r.1 == script_of(*control, *settings).1,
        1 <= r.0@.len() <= 3,
{
    let mut v: Vec<Step> = Vec::new();
    let finale = match control {
        Control::Tap { x, y } => {
            v.push(make_step("Input.dispatchMouseEvent", mouse_params("mousePressed", x, y), true));
            v.push(make_step("Input.dispatchMouseEvent", mouse_params("mouseReleased", x, y), true));
            v.push(make_step("Runtime.evaluate", probe_params(x, y), true));
            Finale::TextInputProbe
        },
        Control::Scroll { x, y, delta_y } => {
            v.push(make_step("Input.dispatchMouseEvent", wheel_params(x, y, delta_y), true));
            Finale::LastReply
        },
        Control::Resize { width, height } => {
            let (w, h) = clamp_viewport(*width, *height);
            v.push(make_step("Page.stopScreencast", string_of("{}"), false));
            v.push(make_step("Emulation.setDeviceMetricsOverride", device_metrics(w, h), true));
            v.push(
                Step {
                    method: string_of("Page.startScreencast"),
                    params: screencast_params(settings, w, h),
                    must_succeed: true,
                    record_viewport: Some((w, h)),
                },
            );
            Finale::LastReply
        },
        Control::Back => {
            v.push(make_step("Page.getNavigationHistory", string_of("{}"), true));
            Finale::HistoryJump(-1)
        },
        Control::Forward => {
            v.push(make_step("Page.getNavigationHistory", string_of("{}"), true));
            Finale::HistoryJump(1)
        },
        Control::Reload => {
            v.push(make_step("Page.reload", string_of("{}"), true));
            Finale::LastReply
        },
        Control::Navigate { url } => {
            v.push(make_step("Page.navigate", navigate_params(url.as_str()), true));
            Finale::LastReply
        },
        Control::Go { text } => {
            let target = navigation_url(text.as_str());
            v.push(make_step("Page.navigate", navigate_params(target.as_str()), true));
            Finale::LastReply
        },
        Control::Key { key } => {
            let (k, code, vk) = cdp_key(key.as_str());
            v.push(make_step("Input.dispatchKeyEvent", key_params("keyDown", k, code, vk), true));
            v.push(make_step("Input.dispatchKeyEvent", key_params("keyUp", k, code, vk), true));
            Finale::LastReply
        },
        Control::InsertText { text } => {
            v.push(make_step("Input.insertText", single_member("{\"text\":", text.as_str()), true));
            Finale::LastReply
        },
        Control::Screencast { enabled } => {
            if *enabled {
                v.push(
                    make_step(
                        "Page.startScreencast",
                        screencast_params(settings, INITIAL_VIEWPORT_WIDTH, INITIAL_VIEWPORT_HEIGHT),
                        true,
                    ),
                );
            } else {
                v.push(make_step("Page.stopScreencast", string_of("{}"), true));
            }
            Finale::LastReply
        },
        Control::SelectTab { .. } => Finale::LastReply,
    };
    assert(v@.map_values(|s: Step| s.view()) =~= script_of(*control, *settings).0);
    (v, finale)
}

/// Starts handling a control message (or the error that it was not one).
pub fn plan_control(control: Result<Control, String>, settings: &StreamSettings) -> (p: ControlPlan)
    ensures
        match control {
            Err(e) => p matches ControlPlan::Reject(m) && m@ == e@,
            Ok(Control::SelectTab { id }) => p matches ControlPlan::SelectTab(i) && i@ == id@,
            Ok(c) => p matches ControlPlan::Run(run, a) && run.steps() == script_of(c, *settings).0
                && run.finale() == script_of(c, *settings).1 && run.sent() == 1 && !run.done()
                && run.wf() && run.remaining() <= 2 && issues(a, run.steps()[0]),
        },
{
    match control {
        Err(e) => ControlPlan::Reject(e),
        Ok(Control::SelectTab { id }) => ControlPlan::SelectTab(id),
        Ok(c) => {
            let (steps, finale) = build_steps(&c, settings);
            let a = issue(&steps[0]);
            let run = ControlRun { steps, next: 1, finale, done: false };
            ControlPlan::Run(run, a)
        },
    }
}

/// The page the browser opens at startup.
pub const START_PAGE: &'static str = "https://www.youtube.com/";

/// The expression startup evaluates to report whether the headless page
/// counts as visible.
pub const VISIBILITY_PROBE: &'static str = "JSON.stringify({visibilityState:document.visibilityState,hidden:document.hidden})";

/// The commands sent to the first tab at startup, in order, each of which
/// must succeed: open the start page, enable page events, start streaming at
/// the initial viewport, and ask for the page's visibility.
pub open spec fn startup_script(s: StreamSettings) -> Seq<(Seq<char>, Seq<char>)> {
    seq![
        ("Page.navigate"@, url_json(START_PAGE@)),
        ("Page.enable"@, "{}"@),
        (
            "Page.startScreencast"@,
            screencast_params_json(
                s.quality,
                s.every_nth_frame,
                clamp_width(INITIAL_VIEWPORT_WIDTH),
                clamp_height(INITIAL_VIEWPORT_HEIGHT),
            ),
        ),
        ("Runtime.evaluate"@, evaluate_json(VISIBILITY_PROBE@)),
    ]
}

/// The startup commands as (method, parameters) pairs.
pub fn startup_commands(settings: &StreamSettings) -> (r: Vec<(String, String)>)
    ensures
        r@.len() == 4,
        forall|i: int| 0 <= i < 4 ==> (#[trigger] r@[i].0@, r@[i].1@) == startup_script(*settings)[i],
{
    let mut r: Vec<(String, String)> = Vec::new();
    r.push((string_of("Page.navigate"), navigate_params(START_PAGE)));
    r.push((string_of("Page.enable"), string_of("{}")));
    r.push(
        (
            string_of("Page.startScreencast"),
            screencast_params(settings, INITIAL_VIEWPORT_WIDTH, INITIAL_VIEWPORT_HEIGHT),
        ),
    );
    r.push((string_of("Runtime.evaluate"), evaluate_params(VISIBILITY_PROBE)));
    r
}

/// The viewport a script records is always the clamped one, inside the
/// limits the host renders: no control can make the host remember a viewport
/// outside 1..=1920 by 1..=2400.
pub proof fn law_recorded_viewport_within_limits(c: Control, s: StreamSettings, i: int)
    requires
        0 <= i < script_of(c, s).0.len(),
    ensures
        script_of(c, s).0[i].record_viewport matches Some((w, h)) ==> 1 <= w <= 1920 && 1 <= h
            <= 2400,
        script_of(c, s).0[i].record_viewport is Some ==> c is Resize && i == 2
            && script_of(c, s).0[1].must_succeed
            && script_of(c, s).0[1].method == "Emulation.setDeviceMetricsOverride"@,
{
}

/// The target history entry, or why there is none.
pub open spec fn history_jump(reply: CdpReply, offset: i64) -> Result<Seq<char>, Seq<char>> {
    match reply.history_entry_ids {
        None => Err("CDP returned no navigation history"@),
        Some(ids) => match reply.history_current {
            None => Err("CDP returned no current navigation entry"@),
            Some(current) => {
                let target = current + offset;
                if i64::MIN <= target <= i64::MAX && 0 <= target < ids@.len() {
                    Ok(ids@[target]@)
                } else {
                    Err("no navigation history entry"@)
                }
            },
        },
    }
}

/// The id (as JSON text) of the history entry `offset` away from the current
/// one, from a `Page.getNavigationHistory` reply. An index that overflows
/// `i64` has no entry.
pub fn history_entry(reply: &CdpReply, offset: i64) -> (r: Result<String, String>)
    ensures
        match history_jump(*reply, offset) {
            Ok(id) => r matches Ok(s) && s@ == id,
            Err(m) => r matches Err(s) && s@ == m,
        },
{
    let ids = match &reply.history_entry_ids {
        Some(ids) => ids,
        None => return Err(string_of("CDP returned no navigation history")),
    };
    let current = match reply.history_current {
        Some(c) => c,
        None => return Err(string_of("CDP returned no current navigation entry")),
    };
    match current.checked_add(offset) {
        Some(target) => {
            if 0 <= target && (target as u64) < (ids.len() as u64) {
                Ok(ids[target as usize].clone())
            } else {
                Err(string_of("no navigation history entry"))
            }
        },
        None => Err(string_of("no navigation history entry")),
    }
}

/// Forward navigates to the history entry just after the current one and
/// Back to the one just before, each after reading the navigation history;
/// when there is no such entry the control fails with "no navigation
/// history entry".
pub proof fn law_history_controls_move_one_entry(s: StreamSettings, reply: CdpReply)
    ensures
        script_of(Control::Forward, s).0 == seq![spec_step("Page.getNavigationHistory"@, "{}"@, true)],
        script_of(Control::Back, s).0 == seq![spec_step("Page.getNavigationHistory"@, "{}"@, true)],
        script_of(Control::Forward, s).1 is HistoryJump,
        script_of(Control::Back, s).1 is HistoryJump,
        reply.history_entry_ids matches Some(ids) ==> reply.history_current matches Some(c) ==> {
            &&& history_jump(reply, script_of(Control::Forward, s).1->HistoryJump_0) == (if 0 <= c + 1
                < ids@.len() && c + 1 <= i64::MAX {
                Ok::<Seq<char>, Seq<char>>(ids@[c + 1]@)
            } else {
                Err::<Seq<char>, Seq<char>>("no navigation history entry"@)
            })
            &&& history_jump(reply, script_of(Control::Back, s).1->HistoryJump_0) == (if 0 <= c - 1
                < ids@.len() {
                Ok::<Seq<char>, Seq<char>>(ids@[c - 1]@)
            } else {
                Err::<Seq<char>, Seq<char>>("no navigation history entry"@)
            })
        },
{
}

fn text_input_result(b: bool) -> (r: String)
    ensures
        r@ == text_input_json(b),
{
    let mut r = string_of("{\"text_input\":");
    push_json_bool(&mut r, b);
    push_str(&mut r, "}");
    r
}

impl ControlRun {
    /// Takes the outcome of the last command sent and says what to do next.
    /// A failure of a command that must succeed ends the control with that
    /// failure; otherwise the next command is sent; after the last one, the
    /// finale decides the result.
    pub fn step(&mut self, reply: Result<CdpReply, String>) -> (a: ControlAction)
        requires
            old(self).wf(),
            !old(self).done(),
        ensures
            final(self).wf(),
            !final(self).done() ==> final(self).remaining() < old(self).remaining(),
            final(self).done() <==> a is Finish,
            ({
                let cur = old(self).steps()[old(self).sent() - 1];
                if reply is Err && cur.must_succeed {
                    finishes_err(a, reply->Err_0@)
                } else if old(self).sent() < old(self).steps().len() {
                    &&& issues(a, old(self).steps()[old(self).sent() as int])
                    &&& final(self).steps() == old(self).steps()
                    &&& final(self).sent() == old(self).sent() + 1
                    &&& final(self).finale() == old(self).finale()
                } else {
                    match old(self).finale() {
                        Finale::LastReply => match reply {
                            Ok(r) => finishes_ok(a, r.json@),
                            Err(e) => finishes_err(a, e@),
                        },
                        Finale::TextInputProbe => match reply {
                            Ok(r) => finishes_ok(
                                a,
                                text_input_json(
                                    match r.evaluated_bool {
                                        Some(b) => b,
                                        None => false,
                                    },
                                ),
                            ),
                            Err(e) => finishes_err(a, e@),
                        },
                        Finale::HistoryJump(offset) => match reply {
                            Err(e) => finishes_err(a, e@),
                            Ok(r) => match history_jump(r, offset) {
                                Err(m) => finishes_err(a, m),
                                Ok(id) => {
                                    let s = spec_step("Page.navigateToHistoryEntry"@, entry_json(id), true);
                                    &&& issues(a, s)
                                    &&& final(self).steps() == old(self).steps().push(s)
                                    &&& final(self).sent() == old(self).sent() + 1
                                    &&& final(self).finale() == Finale::LastReply
                                },
                            },
                        },
                    }
                }
            }),
    {
        let k = self.next - 1;
        let must = self.steps[k].must_succeed;
        assert(self.steps()[k as int] == self.steps@[k as int].view());
        let reply = match reply {
            Err(e) => {
                if must {
                    self.done = true;
                    return ControlAction::Finish(Err(e));
                }
                Err(e)
            },
            Ok(r) => Ok(r),
        };
        if self.next < self.steps.len() {
            let a = issue(&self.steps[self.next]);
            assert(self.steps()[self.next as int] == self.steps@[self.next as int].view());
            self.next = self.next + 1;
            return a;
        }
        self.done = true;
        match self.finale {
            Finale::LastReply => match reply {
                Ok(r) => ControlAction::Finish(Ok(r.json)),
                Err(e) => ControlAction::Finish(Err(e)),
            },
            Finale::TextInputProbe => match reply {
                Ok(r) => {
                    let b = match r.evaluated_bool {
                        Some(b) => b,
                        None => false,
                    };
                    ControlAction::Finish(Ok(text_input_result(b)))
                },
                Err(e) => ControlAction::Finish(Err(e)),
            },
            Finale::HistoryJump(offset) => match reply {
                Err(e) => ControlAction::Finish(Err(e)),
                Ok(r) => match history_entry(&r, offset) {
                    Err(m) => ControlAction::Finish(Err(m)),
                    Ok(id) => {
                        let s = make_step("Page.navigateToHistoryEntry", entry_params(id.as_str()), true);
                        let a = issue(&s);
                        let ghost old_steps = self.steps@;
                        self.steps.push(s);
                        assert(self.steps@.map_values(|s: Step| s.view()) =~= old_steps.map_values(
                            |s: Step| s.view(),
                        ).push(s.view()));
                        self.next = self.next + 1;
                        self.finale = Finale::LastReply;
                        self.done = false;
                        a
                    },
                },
            },
        }
    }
}

/// The state of the host's desktop: foreground window and cursor position.
#[derive(Debug)]
pub struct WindowState {
    pub foreground: i64,
    pub cursor_x: i32,
    pub cursor_y: i32,
}

/// The answer to a control: its result together with whether the desktop's
/// foreground window and cursor stayed put, or its error.
pub open spec fn control_reply_text(
    result: Result<Seq<char>, Seq<char>>,
    before: WindowState,
    after: WindowState,
) -> Seq<char> {
    match result {
        Ok(r) => "{\"cursor_unchanged\":"@ + json_bool(
            before.cursor_x == after.cursor_x && before.cursor_y == after.cursor_y,
        ) + ",\"foreground_unchanged\":"@ + json_bool(before.foreground == after.foreground)
            + ",\"ok\":true,\"result\":"@ + r + "}"@,
        Err(e) => "{\"error\":"@ + json_string(e) + ",\"ok\":false}"@,
    }
}

/// Answers a control message.
pub fn control_reply(result: &Result<String, String>, before: &WindowState, after: &WindowState) -> (r: String)
    ensures
        r@ == control_reply_text(
            match result {
                Ok(s) => Ok(s@),
                Err(e) => Err(e@),
            },
            *before,
            *after,
        ),
{
    match result {
        Ok(res) => {
            let mut r = string_of("{\"cursor_unchanged\":");
            push_json_bool(
                &mut r,
                before.cursor_x == after.cursor_x && before.cursor_y == after.cursor_y,
            );
            push_str(&mut r, ",\"foreground_unchanged\":");
            push_json_bool(&mut r, before.foreground == after.foreground);
            push_str(&mut r, ",\"ok\":true,\"result\":");
            push_str(&mut r, res.as_str());
            push_str(&mut r, "}");
            r
        },
        Err(e) => {
            let mut r = string_of("{\"error\":");
            push_json_string(&mut r, e.as_str());
            push_str(&mut r, ",\"ok\":false}");
            r
        },
    }
}

/// The desktop state report: `{"cursor":{"x":..,"y":..},"foreground_window":..}`.
pub open spec fn isolation_text(s: WindowState) -> Seq<char> {
    "{\"cursor\":{\"x\":"@ + signed_decimal(s.cursor_x as int) + ",\"y\":"@ + signed_decimal(
        s.cursor_y as int,
    ) + "},\"foreground_window\":"@ + signed_decimal(s.foreground as int) + "}"@
}

/// The answer to a control that succeeded reports the cursor as unchanged
/// exactly when both of its coordinates are the same before and after, and
/// the foreground window as unchanged exactly when it is the same window;
/// the result follows as it is. The answer to a failed control carries the
/// error and `"ok":false`.
pub proof fn law_control_reply_reports_isolation(
    result: Seq<char>,
    error: Seq<char>,
    before: WindowState,
    after: WindowState,
)
    ensures
        ({
            let cursor_kept = before.cursor_x == after.cursor_x && before.cursor_y == after.cursor_y;
            let window_kept = before.foreground == after.foreground;
            control_reply_text(Ok(result), before, after) == "{\"cursor_unchanged\":"@ + (if cursor_kept {
                "true"@
            } else {
                "false"@
            }) + ",\"foreground_unchanged\":"@ + (if window_kept {
                "true"@
            } else {
                "false"@
            }) + ",\"ok\":true,\"result\":"@ + result + "}"@
        }),
        has_prefix(control_reply_text(Ok(result), before, after), "{\"cursor_unchanged\":true,"@)
            <==> (before.cursor_x == after.cursor_x && before.cursor_y == after.cursor_y),
        control_reply_text(Err(error), before, after) == "{\"error\":"@ + json_string(error)
            + ",\"ok\":false}"@,
{
    let t = control_reply_text(Ok(result), before, after);
    let p = "{\"cursor_unchanged\":true,"@;
    reveal_strlit("{\"cursor_unchanged\":true,");
    reveal_strlit("{\"cursor_unchanged\":");
    reveal_strlit("true");
    reveal_strlit("false");
    reveal_strlit(",\"foreground_unchanged\":");
    if before.cursor_x == after.cursor_x && before.cursor_y == after.cursor_y {
        assert(t.subrange(0, p.len() as int) =~= p);
    } else {
        assert(t[20] == 'f');
        assert(p[20] == 't');
        assert(t.subrange(0, p.len() as int)[20] != p[20]);
    }
}

/// Reports the desktop's foreground window and cursor position.
pub fn isolation_response(s: &WindowState) -> (r: String)
    ensures
        r@ == isolation_text(*s),
{
    let mut r = string_of("{\"cursor\":{\"x\":");
    push_signed_decimal(&mut r, s.cursor_x as i64);
    push_str(&mut r, ",\"y\":");
    push_signed_decimal(&mut r, s.cursor_y as i64);
    push_str(&mut r, "},\"foreground_window\":");
    push_signed_decimal(&mut r, s.foreground);
    push_str(&mut r, "}");
    r
}

} // verus!
