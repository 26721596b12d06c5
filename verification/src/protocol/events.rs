//! Typed protocol event names.
use crate::text::str_eq;
use vstd::prelude::*;

verus! {

/// The protocol events that the device handles or sends.
#[derive(Debug, Clone, Copy, PartialEq, Eq, Structural)]
pub enum ProtocolEvent {
    PhxJoin,
    PhxReply,
    PhxError,
    PhxClose,
    Heartbeat,
    ExtensionsGet,
    Update,
    Reboot,
    Identify,
    ScriptsRun,
    Rebooting,
    StatusUpdate,
    FwupProgress,
}

/// The wire name of each event.
pub open spec fn event_name(e: ProtocolEvent) -> Seq<char> {
    match e {
        ProtocolEvent::PhxJoin => "phx_join"@,
        ProtocolEvent::PhxReply => "phx_reply"@,
        ProtocolEvent::PhxError => "phx_error"@,
        ProtocolEvent::PhxClose => "phx_close"@,
        ProtocolEvent::Heartbeat => "heartbeat"@,
        ProtocolEvent::ExtensionsGet => "extensions:get"@,
        ProtocolEvent::Update => "update"@,
        ProtocolEvent::Reboot => "reboot"@,
        ProtocolEvent::Identify => "identify"@,
        ProtocolEvent::ScriptsRun => "scripts/run"@,
        ProtocolEvent::Rebooting => "rebooting"@,
        ProtocolEvent::StatusUpdate => "status_update"@,
        ProtocolEvent::FwupProgress => "fwup_progress"@,
    }
}

impl ProtocolEvent {
    /// The event's wire name.
    pub fn as_str(self) -> (r: &'static str)
        ensures
            r@ == event_name(self),
    {
        match self {
            ProtocolEvent::PhxJoin => "phx_join",
            ProtocolEvent::PhxReply => "phx_reply",
            ProtocolEvent::PhxError => "phx_error",
            ProtocolEvent::PhxClose => "phx_close",
            ProtocolEvent::Heartbeat => "heartbeat",
            ProtocolEvent::ExtensionsGet => "extensions:get",
            ProtocolEvent::Update => "update",
            ProtocolEvent::Reboot => "reboot",
            ProtocolEvent::Identify => "identify",
            ProtocolEvent::ScriptsRun => "scripts/run",
            ProtocolEvent::Rebooting => "rebooting",
            ProtocolEvent::StatusUpdate => "status_update",
            ProtocolEvent::FwupProgress => "fwup_progress",
        }
    }

    /// The event whose wire name is `event`; `Err(())` for any other name.
    pub fn parse(event: &str) -> (r: Result<ProtocolEvent, ()>)
        ensures
            r == event_from_name(event@),
    {
        let r = Self::match_name(event);
        proof {
            match r {
                Ok(e) => {
                    lemma_event_name_round_trip(e);
                    assert(event_name(e) == event@);
                    assert(event_from_name(event_name(e)) == Ok::<ProtocolEvent, ()>(e));
                    assert(event_from_name(event@) == Ok::<ProtocolEvent, ()>(e));
                    assert(r == event_from_name(event@));
                },
                Err(u) => {
                    assert(u == ());
                    assert(!(exists|e: ProtocolEvent| event_name(e) == event@));
                    assert(event_from_name(event@) == Err::<ProtocolEvent, ()>(()));
                    assert(r == event_from_name(event@));
                },
            }
        }
        r
    }

    fn match_name(event: &str) -> (r: Result<ProtocolEvent, ()>)
        ensures
            r matches Ok(e) ==> event_name(e) == event@,
            r is Err ==> forall|e: ProtocolEvent| event_name(e) != event@,
    {
        if str_eq(event, "phx_join") {
            Ok(ProtocolEvent::PhxJoin)
        } else if str_eq(event, "phx_reply") {
            Ok(ProtocolEvent::PhxReply)
        } else if str_eq(event, "phx_error") {
            Ok(ProtocolEvent::PhxError)
        } else if str_eq(event, "phx_close") {
            Ok(ProtocolEvent::PhxClose)
        } else if str_eq(event, "heartbeat") {
            Ok(ProtocolEvent::Heartbeat)
        } else if str_eq(event, "extensions:get") {
            Ok(ProtocolEvent::ExtensionsGet)
        } else if str_eq(event, "update") {
            Ok(ProtocolEvent::Update)
        } else if str_eq(event, "reboot") {
            Ok(ProtocolEvent::Reboot)
        } else if str_eq(event, "identify") {
            Ok(ProtocolEvent::Identify)
        } else if str_eq(event, "scripts/run") {
            Ok(ProtocolEvent::ScriptsRun)
        } else if str_eq(event, "rebooting") {
            Ok(ProtocolEvent::Rebooting)
        } else if str_eq(event, "status_update") {
            Ok(ProtocolEvent::StatusUpdate)
        } else if str_eq(event, "fwup_progress") {
            Ok(ProtocolEvent::FwupProgress)
        } else {
            proof {
                assert forall|e: ProtocolEvent| event_name(e) != event@ by {
                    match e {
                        ProtocolEvent::PhxJoin => {},
                        ProtocolEvent::PhxReply => {},
                        ProtocolEvent::PhxError => {},
                        ProtocolEvent::PhxClose => {},
                        ProtocolEvent::Heartbeat => {},
                        ProtocolEvent::ExtensionsGet => {},
                        ProtocolEvent::Update => {},
                        ProtocolEvent::Reboot => {},
                        ProtocolEvent::Identify => {},
                        ProtocolEvent::ScriptsRun => {},
                        ProtocolEvent::Rebooting => {},
                        ProtocolEvent::StatusUpdate => {},
                        ProtocolEvent::FwupProgress => {},
                    }
                }
            }
            Err(())
        }
    }
}

/// Distinct events have distinct wire names.
pub proof fn lemma_event_names_distinct(a: ProtocolEvent, b: ProtocolEvent)
    requires
        a != b,
    ensures
        event_name(a) != event_name(b),
{
    reveal_strlit("phx_join");
    reveal_strlit("phx_reply");
    reveal_strlit("phx_error");
    reveal_strlit("phx_close");
    reveal_strlit("heartbeat");
    reveal_strlit("extensions:get");
    reveal_strlit("update");
    reveal_strlit("reboot");
    reveal_strlit("identify");
    reveal_strlit("scripts/run");
    reveal_strlit("rebooting");
    reveal_strlit("status_update");
    reveal_strlit("fwup_progress");
    if event_name(a) == event_name(b) {
        let x = event_name(a);
        assert(x.len() == event_name(b).len());
        assert(x[0] == event_name(b)[0]);
        assert(x[1] == event_name(b)[1]);
        assert(x[4] == event_name(b)[4]);
        assert(x.last() == event_name(b).last());
    }
}

/// The event named `name`, if any.
pub open spec fn event_from_name(name: Seq<char>) -> Result<ProtocolEvent, ()> {
    if exists|e: ProtocolEvent| event_name(e) == name {
        Ok(choose|e: ProtocolEvent| event_name(e) == name)
    } else {
        Err(())
    }
}

proof fn lemma_event_from_name_matches()
    ensures
        forall|e: ProtocolEvent| #[trigger] event_from_name(event_name(e)) == Ok::<ProtocolEvent, ()>(e),
{
    assert forall|e: ProtocolEvent| #[trigger] event_from_name(event_name(e)) == Ok::<ProtocolEvent, ()>(e) by {
        let c = choose|x: ProtocolEvent| event_name(x) == event_name(e);
        if c != e {
            lemma_event_names_distinct(c, e);
        }
    }
}

/// Reading back an event's wire name gives the same event: `parse` and
/// `as_str` are inverse on the protocol's events.
pub proof fn lemma_event_name_round_trip(e: ProtocolEvent)
    ensures
        event_from_name(event_name(e)) == Ok::<ProtocolEvent, ()>(e),
{
    lemma_event_from_name_matches();
}

impl core::str::FromStr for ProtocolEvent {
    type Err = ();

    fn from_str(event: &str) -> (r: Result<ProtocolEvent, ()>)
        ensures
            r == event_from_name(event@),
    {
        ProtocolEvent::parse(event)
    }
}

} // verus!
