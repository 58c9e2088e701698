//! Switching the streamed tab: the steps that move screencasting from the
//! current tab's connection to a newly selected tab's connection.

use vstd::prelude::*;
use crate::cdp::{find_target, index_of_id, lemma_index_of_id, page_targets, pages_of, CdpReply, Target};
use crate::config::{
    clamp_height, clamp_width, device_metrics, device_metrics_json, screencast_params,
    screencast_params_json, StreamSettings,
};
use crate::encoding::{base64_standard, decode_base64_standard};
use crate::json::{json_string, push_json_string};
use crate::text::{decimal, push_decimal, push_str, str_eq, string_of};

verus! {

/// Where a tab selection stands.
#[derive(Clone, Copy)]
pub enum Stage {
    Listing,
    Stopping,
    Connecting,
    Enabling,
    Sizing,
    Overriding,
    Activating,
    Starting,
    Capturing,
    Publishing,
    Installing,
    Finished,
}

/// What the host must do next to switch tabs.
#[derive(Debug)]
pub enum SelectAction {
    /// List the browser's targets; answer with `Targets`, together with the
    /// id of the tab being streamed now.
    ListTargets,
    /// Stop the screencast on the current connection, whatever comes of it;
    /// answer with `Done`.
    StopOld,
    /// Open a CDP connection to the new tab; answer with `Connected`.
    Connect { websocket: String, target_id: String },
    /// Read the current viewport; answer with `Viewport`.
    ReadViewport,
    /// Send this command on the new connection; answer with `Replied`.
    Command { method: String, params: String },
    /// Mark this tab as the one being streamed; answer with `Done`.
    Activate { target_id: String },
    /// Show this frame to viewers now; answer with `Done`.
    Publish { frame: Vec<u8> },
    /// Make the new connection the one controls go to; answer with `Done`.
    Install,
    /// The selection is over: its result as JSON text, or the error.
    Finish(Result<String, String>),
}

/// What the host reports back.
#[derive(Debug)]
pub enum SelectEvent {
    Targets { targets: Result<Vec<Target>, String>, active_id: String },
    Done,
    Connected(Result<(), String>),
    Viewport { width: u32, height: u32 },
    Replied(Result<CdpReply, String>),
}

/// A tab selection in progress.
pub struct TabSelection {
    id: String,
    target: Option<Target>,
    stage: Stage,
    width: u32,
    height: u32,
    settings: StreamSettings,
}

/// The order of the stages; every step moves forward.
pub open spec fn rank(s: Stage) -> nat {
    match s {
        Stage::Listing => 0,
        Stage::Stopping => 1,
        Stage::Connecting => 2,
        Stage::Enabling => 3,
        Stage::Sizing => 4,
        Stage::Overriding => 5,
        Stage::Activating => 6,
        Stage::Starting => 7,
        Stage::Capturing => 8,
        Stage::Publishing => 9,
        Stage::Installing => 10,
        Stage::Finished => 11,
    }
}

/// The kind of event each stage waits for.
pub open spec fn awaits(s: Stage, e: SelectEvent) -> bool {
    match s {
        Stage::Listing => e is Targets,
        Stage::Stopping | Stage::Activating | Stage::Publishing | Stage::Installing => e is Done,
        Stage::Connecting => e is Connected,
        Stage::Sizing => e is Viewport,
        Stage::Enabling | Stage::Overriding | Stage::Starting | Stage::Capturing => e is Replied,
        Stage::Finished => false,
    }
}

/// The action sends this command on the new connection.
pub open spec fn sends(a: SelectAction, method: Seq<char>, params: Seq<char>) -> bool {
    a matches SelectAction::Command { method: m, params: p } && m@ == method && p@ == params
}

pub open spec fn ends_ok(a: SelectAction, text: Seq<char>) -> bool {
    a matches SelectAction::Finish(Ok(t)) && t@ == text
}

pub open spec fn ends_err(a: SelectAction, text: Seq<char>) -> bool {
    a matches SelectAction::Finish(Err(t)) && t@ == text
}

/// The screenshot request sent right after streaming starts.
pub open spec fn capture_json(quality: u8) -> Seq<char> {
    "{\"format\":\"jpeg\",\"quality\":"@ + decimal(quality as nat) + "}"@
}

/// The result of selecting the tab that is already streamed.
pub open spec fn already_active_json() -> Seq<char> {
    "{\"already_active\":true}"@
}

/// Among the listed targets, the first page target with id `id` is the tab
/// being streamed now.
pub open spec fn finds_active(ts: Seq<Target>, id: Seq<char>, active_id: Seq<char>) -> bool {
    index_of_id(pages_of(ts), id) matches Some(i) && pages_of(ts)[i].id@ == active_id
}

/// Selecting again the tab that a selection marked active, while it is still
/// a page target and nothing else was marked active since, is answered
/// "already active" by the first step: the selection finishes at once, so
/// no command is sent and nothing is marked active.
pub proof fn law_reselecting_active_tab_is_already_active(ts: Seq<Target>, id: Seq<char>)
    requires
        index_of_id(pages_of(ts), id) is Some,
    ensures
        finds_active(ts, id, id),
{
    lemma_index_of_id(pages_of(ts), id);
}

/// The result of switching to a tab.
pub open spec fn selected_json(id: Seq<char>) -> Seq<char> {
    "{\"selected\":"@ + json_string(id) + "}"@
}

impl TabSelection {
    pub closed spec fn stage(&self) -> Stage {
        self.stage
    }

    /// The requested tab id.
    pub closed spec fn id(&self) -> Seq<char> {
        self.id@
    }

    /// The page target being switched to, once found.
    pub closed spec fn target(&self) -> Option<Target> {
        self.target
    }

    /// The viewport read for the new connection.
    pub closed spec fn viewport(&self) -> (u32, u32) {
        (self.width, self.height)
    }

    pub closed spec fn settings(&self) -> StreamSettings {
        self.settings
    }

    /// Between finding the target and finishing, the target is known, and it
    /// is the requested tab.
    pub open spec fn wf(&self) -> bool {
        &&& rank(self.stage()) >= 1 && rank(self.stage()) <= 10 ==> self.target() is Some
        &&& self.target() matches Some(t) ==> t.id@ == self.id()
    }

    /// Starts selecting tab `id`: first list the targets.
    pub fn start(id: String, settings: StreamSettings) -> (r: (TabSelection, SelectAction))
        ensures
            r.0.stage() == Stage::Listing,
            r.0.id() == id@,
            r.0.settings() == settings,
            r.0.wf(),
            r.1 is ListTargets,
    {
        (
            TabSelection { id, target: None, stage: Stage::Listing, width: 0, height: 0, settings },
            SelectAction::ListTargets,
        )
    }

    /// Takes the outcome of the last action and says what to do next.
    pub fn step(&mut self, event: SelectEvent) -> (a: SelectAction)
        requires
            old(self).wf(),
            awaits(old(self).stage(), event),
        ensures
            final(self).wf(),
            final(self).id() == old(self).id(),
            final(self).settings() == old(self).settings(),
            rank(final(self).stage()) > rank(old(self).stage()),
            final(self).stage() == Stage::Finished <==> a is Finish,
            // Only a successfully configured connection is marked active, and
            // only one whose screencast started is installed.
            a is Activate ==> old(self).stage() == Stage::Overriding,
            // The tab marked active is the requested one.
            a matches SelectAction::Activate { target_id } ==> target_id@ == old(self).id(),
            a is Install ==> rank(old(self).stage()) >= rank(Stage::Capturing),
            match (old(self).stage(), event) {
                (Stage::Listing, SelectEvent::Targets { targets, active_id }) => match targets {
                    Err(e) => ends_err(a, e@),
                    Ok(ts) => if finds_active(ts@, old(self).id(), active_id@) {
                        ends_ok(a, already_active_json())
                    } else {
                        match index_of_id(pages_of(ts@), old(self).id()) {
                            None => ends_err(a, "unknown or closed page target"@),
                            Some(i) => a is StopOld && final(self).stage() == Stage::Stopping
                                && final(self).target() == Some(pages_of(ts@)[i]),
                        }
                    },
                },
                (Stage::Stopping, _) => {
                    let t = old(self).target()->0;
                    &&& a matches SelectAction::Connect { websocket, target_id }
                    &&& websocket@ == t.websocket@ && target_id@ == t.id@
                    &&& final(self).stage() == Stage::Connecting
                    &&& final(self).target() == old(self).target()
                },
                (Stage::Connecting, SelectEvent::Connected(r)) => match r {
                    Err(e) => ends_err(a, e@),
                    Ok(_) => sends(a, "Page.enable"@, "{}"@) && final(self).stage() == Stage::Enabling
                        && final(self).target() == old(self).target(),
                },
                (Stage::Enabling, SelectEvent::Replied(r)) => match r {
                    Err(e) => ends_err(a, e@),
                    Ok(_) => a is ReadViewport && final(self).stage() == Stage::Sizing
                        && final(self).target() == old(self).target(),
                },
                (Stage::Sizing, SelectEvent::Viewport { width, height }) => sends(
                    a,
                    "Emulation.setDeviceMetricsOverride"@,
                    device_metrics_json(clamp_width(width), clamp_height(height)),
                ) && final(self).stage() == Stage::Overriding && final(self).viewport() == (width, height)
                    && final(self).target() == old(self).target(),
                (Stage::Overriding, SelectEvent::Replied(r)) => match r {
                    Err(e) => ends_err(a, e@),
                    Ok(_) => a matches SelectAction::Activate { target_id } && target_id@ == old(
                        self,
                    ).target()->0.id@ && final(self).stage() == Stage::Activating
                        && final(self).viewport() == old(self).viewport(),
                },
                (Stage::Activating, _) => sends(
                    a,
                    "Page.startScreencast"@,
                    screencast_params_json(
                        old(self).settings().quality,
                        old(self).settings().every_nth_frame,
                        clamp_width(old(self).viewport().0),
                        clamp_height(old(self).viewport().1),
                    ),
                ) && final(self).stage() == Stage::Starting,
                (Stage::Starting, SelectEvent::Replied(r)) => match r {
                    Err(e) => ends_err(a, e@),
                    Ok(_) => sends(a, "Page.captureScreenshot"@, capture_json(old(self).settings().quality))
                        && final(self).stage() == Stage::Capturing,
                },
                (Stage::Capturing, SelectEvent::Replied(r)) => match a {
                    SelectAction::Publish { frame } => r matches Ok(reply) && reply.screenshot_data
                        matches Some(d) && base64_standard(frame@) == d@ && final(self).stage()
                        == Stage::Publishing,
                    SelectAction::Install => final(self).stage() == Stage::Installing && !(r matches Ok(
                        reply,
                    ) && reply.screenshot_data matches Some(d) && exists|b: Seq<u8>|
                        base64_standard(b) == d@),
                    _ => false,
                },
                (Stage::Publishing, _) => a is Install && final(self).stage() == Stage::Installing,
                (Stage::Installing, _) => ends_ok(a, selected_json(old(self).id())),
                _ => false,
            },
    {
        let stage = self.stage;
        match stage {
            Stage::Listing => {
                let (targets, active_id) = match event {
                    SelectEvent::Targets { targets, active_id } => (targets, active_id),
                    _ => {
                        assert(false);
                        return SelectAction::ListTargets;
                    },
                };
                self.stage = Stage::Finished;
                let pages = match targets {
                    Err(e) => return SelectAction::Finish(Err(e)),
                    Ok(ts) => page_targets(ts),
                };
                match find_target(&pages, self.id.as_str()) {
                    None => SelectAction::Finish(Err(string_of("unknown or closed page target"))),
                    Some(i) => {
                        if str_eq(pages[i].id.as_str(), active_id.as_str()) {
                            let r = string_of("{\"already_active\":true}");
                            SelectAction::Finish(Ok(r))
                        } else {
                            self.target = Some(pages[i].duplicate());
                            self.stage = Stage::Stopping;
                            SelectAction::StopOld
                        }
                    },
                }
            },
            Stage::Stopping => {
                let t = match &self.target {
                    Some(t) => t,
                    None => {
                        assert(false);
                        return SelectAction::ListTargets;
                    },
                };
                let a = SelectAction::Connect {
                    websocket: t.websocket.clone(),
                    target_id: t.id.clone(),
                };
                self.stage = Stage::Connecting;
                a
            },
            Stage::Connecting => {
                match event {
                    SelectEvent::Connected(Err(e)) => {
                        self.stage = Stage::Finished;
                        SelectAction::Finish(Err(e))
                    },
                    _ => {
                        self.stage = Stage::Enabling;
                        SelectAction::Command {
                            method: string_of("Page.enable"),
                            params: string_of("{}"),
                        }
                    },
                }
            },
            Stage::Enabling => {
                match event {
                    SelectEvent::Replied(Err(e)) => {
                        self.stage = Stage::Finished;
                        SelectAction::Finish(Err(e))
                    },
                    _ => {
                        self.stage = Stage::Sizing;
                        SelectAction::ReadViewport
                    },
                }
            },
            Stage::Sizing => {
                let (w, h) = match event {
                    SelectEvent::Viewport { width, height } => (width, height),
                    _ => {
                        assert(false);
                        return SelectAction::ListTargets;
                    },
                };
                self.width = w;
                self.height = h;
                self.stage = Stage::Overriding;
                SelectAction::Command {
                    method: string_of("Emulation.setDeviceMetricsOverride"),
                    params: device_metrics(w, h),
                }
            },
            Stage::Overriding => {
                match event {
                    SelectEvent::Replied(Err(e)) => {
                        self.stage = Stage::Finished;
                        SelectAction::Finish(Err(e))
                    },
                    _ => {
                        let id = match &self.target {
                            Some(t) => t.id.clone(),
                            None => {
                                assert(false);
                                return SelectAction::ListTargets;
                            },
                        };
                        self.stage = Stage::Activating;
                        SelectAction::Activate { target_id: id }
                    },
                }
            },
            Stage::Activating => {
                self.stage = Stage::Starting;
                SelectAction::Command {
                    method: string_of("Page.startScreencast"),
                    params: screencast_params(&self.settings, self.width, self.height),
                }
            },
            Stage::Starting => {
                match event {
                    SelectEvent::Replied(Err(e)) => {
                        self.stage = Stage::Finished;
                        SelectAction::Finish(Err(e))
                    },
                    _ => {
                        self.stage = Stage::Capturing;
                        let mut p = string_of("{\"format\":\"jpeg\",\"quality\":");
                        push_decimal(&mut p, self.settings.quality as u64);
                        push_str(&mut p, "}");
                        SelectAction::Command { method: string_of("Page.captureScreenshot"), params: p }
                    },
                }
            },
            Stage::Capturing => {
                let frame = match event {
                    SelectEvent::Replied(Ok(reply)) => match &reply.screenshot_data {
                        Some(d) => decode_base64_standard(d.as_str()),
                        None => None,
                    },
                    _ => None,
                };
                match frame {
                    Some(bytes) => {
                        self.stage = Stage::Publishing;
                        SelectAction::Publish { frame: bytes }
                    },
                    None => {
                        self.stage = Stage::Installing;
                        SelectAction::Install
                    },
                }
            },
            Stage::Publishing => {
                self.stage = Stage::Installing;
                SelectAction::Install
            },
            Stage::Installing => {
                self.stage = Stage::Finished;
                let mut r = string_of("{\"selected\":");
                push_json_string(&mut r, self.id.as_str());
                push_str(&mut r, "}");
                SelectAction::Finish(Ok(r))
            },
            Stage::Finished => {
                assert(false);
                SelectAction::ListTargets
            },
        }
    }
}

} // verus!
