//! The Chrome DevTools Protocol side: page targets, command framing, reply
//! checking, and the routing of messages that arrive from the browser.

use vstd::prelude::*;
use crate::encoding::{base64_standard, decode_base64_standard};
use crate::json::{json_bool, json_string, push_json_bool, push_json_string};
use crate::text::{decimal, has_prefix, push_decimal, push_str, str_eq, string_of};

verus! {

/// A DevTools target as the browser lists it.
#[derive(Debug)]
pub struct Target {
    pub id: String,
    pub kind: String,
    pub title: String,
    pub url: String,
    pub websocket: String,
}

impl Target {
    /// A copy of this target.
    pub fn duplicate(&self) -> (r: Target)
        ensures
            r == *self,
    {
        Target {
            id: self.id.clone(),
            kind: self.kind.clone(),
            title: self.title.clone(),
            url: self.url.clone(),
            websocket: self.websocket.clone(),
        }
    }
}

/// A browser tab (rather than a worker or extension target).
pub open spec fn is_page(t: Target) -> bool {
    t.kind@ == "page"@
}

/// The page targets of a target list, in order.
pub open spec fn pages_of(s: Seq<Target>) -> Seq<Target>
    decreases s.len(),
{
    if s.len() == 0 {
        Seq::empty()
    } else if is_page(s.last()) {
        pages_of(s.drop_last()).push(s.last())
    } else {
        pages_of(s.drop_last())
    }
}

/// Keeps the page targets, in order.
pub fn page_targets(targets: Vec<Target>) -> (r: Vec<Target>)
    ensures
        r@ == pages_of(targets@),
{
    let mut r: Vec<Target> = Vec::new();
    let mut i: usize = 0;
    while i < targets.len()
        invariant
            i <= targets.len(),
            r@ == pages_of(targets@.take(i as int)),
        decreases targets.len() - i,
    {
        let t = &targets[i];
        assert(targets@.take(i + 1).drop_last() =~= targets@.take(i as int));
        if str_eq(t.kind.as_str(), "page") {
            r.push(t.duplicate());
        }
        i = i + 1;
    }
    assert(targets@.take(targets.len() as int) =~= targets@);
    r
}

/// The tab list keeps, in their order, exactly the targets whose kind is
/// `"page"`: workers, iframes and every other kind are left out, and no
/// page target is dropped.
pub proof fn law_page_targets_are_the_pages(ts: Seq<Target>)
    ensures
        pages_of(ts) == ts.filter(|t: Target| t.kind@ == "page"@),
        forall|i: int| 0 <= i < pages_of(ts).len() ==> (#[trigger] pages_of(ts)[i]).kind@ == "page"@,
        forall|j: int| 0 <= j < ts.len() && (#[trigger] ts[j]).kind@ == "page"@ ==> pages_of(ts).contains(
            ts[j],
        ),
    decreases ts.len(),
{
    broadcast use vstd::seq_lib::group_filter_ensures;

    reveal(Seq::filter);
    if ts.len() > 0 {
        law_page_targets_are_the_pages(ts.drop_last());
    }
}

/// Index of the first target with the given id.
pub open spec fn index_of_id(s: Seq<Target>, id: Seq<char>) -> Option<int>
    decreases s.len(),
{
    if s.len() == 0 {
        None
    } else if s[0].id@ == id {
        Some(0)
    } else {
        match index_of_id(s.drop_first(), id) {
            Some(i) => Some(i + 1),
            None => None,
        }
    }
}

pub(crate) proof fn lemma_index_of_id(s: Seq<Target>, id: Seq<char>)
    ensures
        index_of_id(s, id) matches Some(i) ==> 0 <= i < s.len() && s[i].id@ == id,
    decreases s.len(),
{
    if s.len() > 0 {
        lemma_index_of_id(s.drop_first(), id);
    }
}

/// Finds the first target with the given id.
pub fn find_target(targets: &Vec<Target>, id: &str) -> (r: Option<usize>)
    ensures
        match index_of_id(targets@, id@) {
            Some(i) => r matches Some(k) && k as int == i,
            None => r is None,
        },
        r matches Some(i) ==> i < targets@.len() && targets@[i as int].id@ == id@,
{
    proof {
        lemma_index_of_id(targets@, id@);
    }
    let mut i: usize = 0;
    assert(targets@.skip(0) =~= targets@);
    while i < targets.len()
        invariant
            i <= targets.len(),
            index_of_id(targets@, id@) == match index_of_id(targets@.skip(i as int), id@) {
                Some(j) => Some(j + i),
                None => None::<int>,
            },
        decreases targets.len() - i,
    {
        if str_eq(targets[i].id.as_str(), id) {
            return Some(i);
        }
        assert(targets@.skip(i as int).drop_first() =~= targets@.skip(i + 1));
        i = i + 1;
    }
    None
}

/// The JSON object describing one tab for the phone.
pub open spec fn tab_json(t: Target, active: Seq<char>) -> Seq<char> {
    "{\"active\":"@ + json_bool(t.id@ == active) + ",\"id\":"@ + json_string(t.id@) + ",\"title\":"@
        + json_string(t.title@) + ",\"url\":"@ + json_string(t.url@) + "}"@
}

/// A tab is marked active exactly when it is the tab being streamed: its
/// object starts with `{"active":true,` when its id is the streamed id and
/// with `{"active":false,` otherwise, and then gives its id, title and URL.
pub proof fn law_tab_marked_active_iff_streamed(t: Target, active: Seq<char>)
    ensures
        has_prefix(tab_json(t, active), "{\"active\":true,"@) <==> t.id@ == active,
        tab_json(t, active) == (if t.id@ == active {
            "{\"active\":true"@
        } else {
            "{\"active\":false"@
        }) + ",\"id\":"@ + json_string(t.id@) + ",\"title\":"@ + json_string(t.title@) + ",\"url\":"@
            + json_string(t.url@) + "}"@,
{
    let j = tab_json(t, active);
    let p = "{\"active\":true,"@;
    reveal_strlit("{\"active\":true,");
    reveal_strlit("{\"active\":true");
    reveal_strlit("{\"active\":false");
    reveal_strlit("{\"active\":");
    reveal_strlit("true");
    reveal_strlit("false");
    reveal_strlit(",\"id\":");
    assert("{\"active\":"@ + "true"@ =~= "{\"active\":true"@);
    assert("{\"active\":"@ + "false"@ =~= "{\"active\":false"@);
    if t.id@ == active {
        assert(j.subrange(0, p.len() as int) =~= p);
    } else {
        assert(j[10] == 'f');
        assert(j.subrange(0, p.len() as int)[10] != p[10]);
    }
}

/// The tab objects of a list, separated by commas.
pub open spec fn tabs_items_json(s: Seq<Target>, active: Seq<char>) -> Seq<char>
    decreases s.len(),
{
    if s.len() == 0 {
        Seq::empty()
    } else if s.len() == 1 {
        tab_json(s[0], active)
    } else {
        tabs_items_json(s.drop_last(), active) + ","@ + tab_json(s.last(), active)
    }
}

/// The tab list the phone shows, marking the tab being streamed.
pub open spec fn tabs_body(s: Seq<Target>, active: Seq<char>) -> Seq<char> {
    "{\"items\":["@ + tabs_items_json(s, active) + "],\"type\":\"tabs\"}"@
}

fn push_tab(out: &mut String, t: &Target, active: &str)
    ensures
        final(out)@ == old(out)@ + tab_json(*t, active@),
{
    push_str(out, "{\"active\":");
    push_json_bool(out, str_eq(t.id.as_str(), active));
    push_str(out, ",\"id\":");
    push_json_string(out, t.id.as_str());
    push_str(out, ",\"title\":");
    push_json_string(out, t.title.as_str());
    push_str(out, ",\"url\":");
    push_json_string(out, t.url.as_str());
    push_str(out, "}");
    assert(final(out)@ =~= old(out)@ + tab_json(*t, active@));
}

/// The JSON body listing the page targets as tabs.
pub fn tabs_response(items: &Vec<Target>, active: &str) -> (r: String)
    ensures
        r@ == tabs_body(items@, active@),
{
    let mut r = String::new();
    push_str(&mut r, "{\"items\":[");
    let ghost start = r@;
    let mut i: usize = 0;
    while i < items.len()
        invariant
            i <= items.len(),
            r@ == start + tabs_items_json(items@.take(i as int), active@),
        decreases items.len() - i,
    {
        assert(items@.take(i + 1).drop_last() =~= items@.take(i as int));
        if i > 0 {
            push_str(&mut r, ",");
        }
        push_tab(&mut r, &items[i], active);
        assert(r@ =~= start + tabs_items_json(items@.take(i + 1), active@));
        i = i + 1;
    }
    assert(items@.take(items.len() as int) =~= items@);
    push_str(&mut r, "],\"type\":\"tabs\"}");
    assert(r@ =~= tabs_body(items@, active@));
    r
}

/// A command as sent to the browser: `{"id":..,"method":..,"params":..}`.
pub open spec fn command_text(id: u64, method: Seq<char>, params: Seq<char>) -> Seq<char> {
    "{\"id\":"@ + decimal(id as nat) + ",\"method\":"@ + json_string(method) + ",\"params\":"@ + params
        + "}"@
}

/// Frames a CDP command; `params` is the JSON text of its parameters.
pub fn command_message(id: u64, method: &str, params: &str) -> (r: String)
    ensures
        r@ == command_text(id, method@, params@),
{
    let mut r = String::new();
    push_str(&mut r, "{\"id\":");
    push_decimal(&mut r, id);
    push_str(&mut r, ",\"method\":");
    push_json_string(&mut r, method);
    push_str(&mut r, ",\"params\":");
    push_str(&mut r, params);
    push_str(&mut r, "}");
    r
}

/// The ids of the commands sent on one connection. They count up from 1, so
/// no two commands on a connection share an id and each reply finds its
/// command.
pub struct CommandIds {
    last: u64,
    issued: Ghost<Seq<u64>>,
}

impl CommandIds {
    /// The ids issued so far, in order.
    pub closed spec fn issued(&self) -> Seq<u64> {
        self.issued@
    }

    /// The ids issued so far are 1, 2, 3, ...
    pub closed spec fn wf(&self) -> bool {
        &&& self.last as nat == self.issued@.len()
        &&& forall|i: int| 0 <= i < self.issued@.len() ==> #[trigger] self.issued@[i] == i + 1
    }

    /// A connection's counter, with no id issued yet.
    pub fn new() -> (r: CommandIds)
        ensures
            r.wf(),
            r.issued().len() == 0,
    {
        CommandIds { last: 0, issued: Ghost(Seq::empty()) }
    }

    /// Whether another id can be issued (fewer than `u64::MAX` so far).
    pub fn can_issue(&self) -> (r: bool)
        requires
            self.wf(),
        ensures
            r == (self.issued().len() < u64::MAX),
    {
        self.last < u64::MAX
    }

    /// Issues the next id: one more than the last.
    pub fn next(&mut self) -> (id: u64)
        requires
            old(self).wf(),
            old(self).issued().len() < u64::MAX,
        ensures
            final(self).wf(),
            forall|i: int| 0 <= i < final(self).issued().len() ==> #[trigger] final(self).issued()[i]
                == i + 1,
            id == old(self).issued().len() + 1,
            final(self).issued() == old(self).issued().push(id),
            !old(self).issued().contains(id),
    {
        self.last = self.last + 1;
        self.issued = Ghost(self.issued@.push(self.last));
        proof {
            if old(self).issued@.contains(self.last) {
                let k = choose|k: int| 0 <= k < old(self).issued@.len() && old(self).issued@[k] == self.last;
                assert(old(self).issued@[k] == k + 1);
            }
        }
        self.last
    }
}

impl CommandIds {
    /// No two commands on one connection get the same id: the ids issued
    /// are 1, 2, 3, ... in order.
    pub proof fn law_command_ids_are_distinct(&self, i: int, j: int)
        requires
            self.wf(),
            0 <= i < j < self.issued().len(),
        ensures
            self.issued()[i] == i + 1,
            self.issued()[i] != self.issued()[j],
    {
    }
}

/// What the host reads from a command's reply.
#[derive(Debug)]
pub struct CdpReply {
    /// The whole reply as JSON text.
    pub json: String,
    /// The reply's `error` member as JSON text, when it has one.
    pub error: Option<String>,
    /// `result.result.value` when it is a boolean (a `Runtime.evaluate` answer).
    pub evaluated_bool: Option<bool>,
    /// `result.entries` when it is an array: each entry's `id` as JSON text.
    pub history_entry_ids: Option<Vec<String>>,
    /// `result.currentIndex` when it is an `i64`.
    pub history_current: Option<i64>,
    /// `result.data` when it is a string (a captured screenshot).
    pub screenshot_data: Option<String>,
}

/// The error for a command whose reply carries an `error` member.
pub open spec fn command_failure(method: Seq<char>, error: Seq<char>) -> Seq<char> {
    "CDP "@ + method + " failed: "@ + error
}

/// A reply that carries an `error` member makes the command fail.
pub fn command_outcome(method: &str, reply: CdpReply) -> (r: Result<CdpReply, String>)
    ensures
        match reply.error {
            Some(e) => r matches Err(m) && m@ == command_failure(method@, e@),
            None => r == Ok::<CdpReply, String>(reply),
        },
{
    match &reply.error {
        Some(e) => {
            let mut m = string_of("CDP ");
            push_str(&mut m, method);
            push_str(&mut m, " failed: ");
            push_str(&mut m, e.as_str());
            Err(m)
        },
        None => Ok(reply),
    }
}

/// What arrived from the browser, as far as the host reads it.
#[derive(Debug)]
pub struct CdpIncoming {
    /// `id` when it is a `u64`: a command reply.
    pub id: Option<u64>,
    /// `method` when it is a string: an event.
    pub method: Option<String>,
    /// `params.data` when it is a string.
    pub data: Option<String>,
    /// `params.sessionId` when it is a `u64`.
    pub session_id: Option<u64>,
}

/// What to do with a message from the browser.
#[derive(Debug)]
pub enum CdpRouting {
    /// Hand the reply to the command waiting for this id.
    Reply(u64),
    /// A screencast frame: publish the decoded JPEG (when there is one and
    /// this connection streams the active tab), and acknowledge the frame.
    Frame { frame: Option<Vec<u8>>, ack: Option<String> },
    /// Nothing to do.
    Ignore,
}

/// The acknowledgement of a screencast frame, so the browser sends the next.
pub open spec fn frame_ack_text(session_id: u64) -> Seq<char> {
    "{\"id\":0,\"method\":\"Page.screencastFrameAck\",\"params\":{\"sessionId\":"@ + decimal(
        session_id as nat,
    ) + "}}"@
}

/// Frames the acknowledgement of a screencast frame.
pub fn frame_ack(session_id: u64) -> (r: String)
    ensures
        r@ == frame_ack_text(session_id),
{
    let mut r = String::new();
    push_str(&mut r, "{\"id\":0,\"method\":\"Page.screencastFrameAck\",\"params\":{\"sessionId\":");
    push_decimal(&mut r, session_id);
    push_str(&mut r, "}}");
    r
}

/// Routes a message from the browser on the connection to `target_id` while
/// `active_id` is the tab being streamed.
pub fn route_message(msg: &CdpIncoming, target_id: &str, active_id: &str) -> (r: CdpRouting)
    ensures
        match msg.id {
            Some(id) => r == CdpRouting::Reply(id),
            None => if msg.method matches Some(m) && m@ == "Page.screencastFrame"@ {
                r matches CdpRouting::Frame { frame, ack } && (match ack {
                    Some(a) => msg.session_id matches Some(sid) && a@ == frame_ack_text(sid),
                    None => msg.session_id is None,
                }) && (match frame {
                    Some(bytes) => msg.data matches Some(d) && base64_standard(bytes@) == d@
                        && target_id@ == active_id@,
                    None => target_id@ != active_id@ || msg.data matches None || (msg.data matches Some(
                        d,
                    ) && forall|b: Seq<u8>| base64_standard(b) != d@),
                })
            } else {
                r == CdpRouting::Ignore
            },
        },
{
    if let Some(id) = msg.id {
        return CdpRouting::Reply(id);
    }
    let is_frame = match &msg.method {
        Some(m) => str_eq(m.as_str(), "Page.screencastFrame"),
        None => false,
    };
    if !is_frame {
        return CdpRouting::Ignore;
    }
    let frame = match &msg.data {
        Some(d) => match decode_base64_standard(d.as_str()) {
            Some(bytes) => if str_eq(active_id, target_id) { Some(bytes) } else { None },
            None => None,
        },
        None => None,
    };
    let ack = match msg.session_id {
        Some(sid) => Some(frame_ack(sid)),
        None => None,
    };
    CdpRouting::Frame { frame, ack }
}

/// What the background check does about the active tab.
#[derive(Debug)]
pub enum Reconcile {
    /// The active tab is still open.
    Keep,
    /// The active tab closed: switch to this one.
    Select(String),
    /// No tabs are left.
    Clear,
}

/// Whether some target has the given id.
pub open spec fn has_id(s: Seq<Target>, id: Seq<char>) -> bool {
    exists|i: int| 0 <= i < s.len() && #[trigger] s[i].id@ == id
}

/// Decides, from the open page targets, whether the active tab must change.
pub fn reconcile(pages: &Vec<Target>, active_id: &str) -> (r: Reconcile)
    ensures
        if has_id(pages@, active_id@) {
            r == Reconcile::Keep
        } else if pages@.len() > 0 {
            r matches Reconcile::Select(id) && id@ == pages@[0].id@
        } else {
            r == Reconcile::Clear
        },
{
    let mut i: usize = 0;
    while i < pages.len()
        invariant
            i <= pages.len(),
            forall|j: int| 0 <= j < i ==> #[trigger] pages@[j].id@ != active_id@,
        decreases pages.len() - i,
    {
        if str_eq(pages[i].id.as_str(), active_id) {
            return Reconcile::Keep;
        }
        i = i + 1;
    }
    if pages.len() > 0 {
        Reconcile::Select(pages[0].id.clone())
    } else {
        Reconcile::Clear
    }
}

} // verus!
