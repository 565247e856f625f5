//! The two atomic write procedures that the store runs for a status write.
use vstd::prelude::*;
use vstd::string::*;
use crate::status::{decode_view, same_text, JobStatus, StatusView};
use crate::error::text_of;

verus! {

/// One of the two legal write patterns.
#[derive(PartialEq, Eq, Structural, Clone, Copy, Debug)]
pub enum TransitionScript {
    /// Store the value only where the key holds nothing yet.
    CreateIfAbsent,
    /// Store the value where the key holds nothing or `Accepted`.
    AdvanceIfAcceptedOrAbsent,
}

/// `Accepted` is written only where nothing stands; a final status may also
/// replace `Accepted`.
pub open spec fn script_of(s: StatusView) -> TransitionScript {
    if s is Accepted {
        TransitionScript::CreateIfAbsent
    } else {
        TransitionScript::AdvanceIfAcceptedOrAbsent
    }
}

/// The text that the key holds after `script` ran with `value` on a key that
/// held `current`; it is also what the script returns.
pub open spec fn stored_after(
    script: TransitionScript,
    current: Option<Seq<char>>,
    value: Seq<char>,
) -> Seq<char> {
    match current {
        None => value,
        Some(c) => match script {
            TransitionScript::CreateIfAbsent => c,
            TransitionScript::AdvanceIfAcceptedOrAbsent => if decode_view(c) == Some(
                StatusView::Accepted,
            ) {
                value
            } else {
                c
            },
        },
    }
}

/// The text of the script that the store runs for `script`, with the key as
/// `KEYS[1]` and the encoded status as `ARGV[1]`. Each one reads the key once
/// and does what `stored_after` says, returning what the key then holds.
pub open spec fn script_text(script: TransitionScript) -> Seq<char> {
    match script {
        TransitionScript::CreateIfAbsent => "local current = redis.call('GET', KEYS[1])
if current then
  return current
end
redis.call('SET', KEYS[1], ARGV[1])
return ARGV[1]
"@,
        TransitionScript::AdvanceIfAcceptedOrAbsent => "local current = redis.call('GET', KEYS[1])
if current and current ~= 'Accepted' then
  return current
end
redis.call('SET', KEYS[1], ARGV[1])
return ARGV[1]
"@,
    }
}

/// The script that a write of `status` goes through.
pub fn script_for(status: &JobStatus) -> (r: TransitionScript)
    ensures
        r == script_of(status@),
{
    match status {
        JobStatus::Accepted => TransitionScript::CreateIfAbsent,
        _ => TransitionScript::AdvanceIfAcceptedOrAbsent,
    }
}

impl TransitionScript {
    /// Runs the script on a key that holds `current`: returns what the key
    /// holds afterwards.
    pub fn apply(&self, current: Option<String>, value: String) -> (r: String)
        ensures
            r@ == stored_after(*self, text_of(current), value@),
    {
        match current {
            None => value,
            Some(c) => match self {
                TransitionScript::CreateIfAbsent => c,
                TransitionScript::AdvanceIfAcceptedOrAbsent => {
                    proof {
                        reveal_strlit("Accepted");
                        reveal_strlit("Done");
                    }
                    if same_text(c.as_str(), "Accepted") {
                        value
                    } else {
                        assert(decode_view(c@) != Some(StatusView::Accepted));
                        c
                    }
                },
            },
        }
    }

    /// The script as the store runs it: it does what `apply` does, in one
    /// atomic step inside the store.
    pub fn lua_source(&self) -> (r: &'static str)
        ensures
            r@ == script_text(*self),
    {
        match self {
            TransitionScript::CreateIfAbsent => "local current = redis.call('GET', KEYS[1])
if current then
  return current
end
redis.call('SET', KEYS[1], ARGV[1])
return ARGV[1]
",
            TransitionScript::AdvanceIfAcceptedOrAbsent => "local current = redis.call('GET', KEYS[1])
if current and current ~= 'Accepted' then
  return current
end
redis.call('SET', KEYS[1], ARGV[1])
return ARGV[1]
",
        }
    }
}

} // verus!
