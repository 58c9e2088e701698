//! Audio sessions on the host, as reported to the phone.

use vstd::prelude::*;
use crate::json::{json_bool, push_json_bool};
use crate::text::{decimal, push_decimal, push_str, string_of};

verus! {

/// An audio session on the host's default output device.
#[derive(Debug)]
pub struct AudioSession {
    pub pid: u32,
    pub active: bool,
}

/// One session as JSON.
pub open spec fn session_json(s: AudioSession) -> Seq<char> {
    "{\"active\":"@ + json_bool(s.active) + ",\"pid\":"@ + decimal(s.pid as nat) + "}"@
}

/// The sessions as comma-separated JSON objects.
pub open spec fn sessions_json(s: Seq<AudioSession>) -> Seq<char>
    decreases s.len(),
{
    if s.len() == 0 {
        Seq::empty()
    } else if s.len() == 1 {
        session_json(s[0])
    } else {
        sessions_json(s.drop_last()) + ","@ + session_json(s.last())
    }
}

/// The audio report: `{"sessions":[...]}`.
pub open spec fn audio_body(s: Seq<AudioSession>) -> Seq<char> {
    "{\"sessions\":["@ + sessions_json(s) + "]}"@
}

/// Reports the audio sessions to the phone.
pub fn audio_response(sessions: &Vec<AudioSession>) -> (r: String)
    ensures
        r@ == audio_body(sessions@),
{
    let mut r = string_of("{\"sessions\":[");
    let ghost start = r@;
    let mut i: usize = 0;
    while i < sessions.len()
        invariant
            i <= sessions.len(),
            r@ == start + sessions_json(sessions@.take(i as int)),
        decreases sessions.len() - i,
    {
        assert(sessions@.take(i + 1).drop_last() =~= sessions@.take(i as int));
        if i > 0 {
            push_str(&mut r, ",");
        }
        push_str(&mut r, "{\"active\":");
        push_json_bool(&mut r, sessions[i].active);
        push_str(&mut r, ",\"pid\":");
        push_decimal(&mut r, sessions[i].pid as u64);
        push_str(&mut r, "}");
        assert(r@ =~= start + sessions_json(sessions@.take(i + 1)));
        i = i + 1;
    }
    assert(sessions@.take(sessions.len() as int) =~= sessions@);
    push_str(&mut r, "]}");
    assert(r@ =~= audio_body(sessions@));
    r
}

} // verus!
