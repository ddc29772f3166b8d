//! Talking to a slot's own adb endpoint with the bundled `adb.exe`, and
//! reading what the tools answer.
//!
//! A freshly booted instance regularly sits as `offline` in the adb
//! daemon's device list for a few seconds. Before installing or pulling,
//! the endpoint is connected and `get-state` is polled until it answers
//! `device`, redialing once on a stuck `offline` entry; [`AdbReadiness`]
//! holds the decisions of that loop.
use vstd::prelude::*;

use crate::cli::{owned, strings};
use crate::error::MumuError;
use crate::player_info::PlayerInfo;
use crate::text::{
    contains, contains_spec, decimal, parse_u32_spec, push_decimal, push_str, trim, trim_spec,
};

verus! {

/// How long the endpoint may take to reach the `device` state.
pub const ADB_READY_TIMEOUT_SECS: u64 = 20;

/// The pause between two `get-state` polls.
pub const ADB_POLL_SECS: u64 = 1;

/// The adb serial of a slot's endpoint, `host:port`, when `info` reports
/// both; otherwise the slot has no endpoint yet.
pub open spec fn adb_serial_spec(info: PlayerInfo) -> Option<Seq<char>> {
    match (info.adb_host_ip, info.adb_port) {
        (Some(host), Some(port)) => Some(host@ + ":"@ + decimal(port as nat)),
        _ => None,
    }
}

/// The adb serial `host:port` of a slot's endpoint.
pub fn adb_serial(info: &PlayerInfo) -> (r: Result<String, MumuError>)
    ensures
        match adb_serial_spec(*info) {
            Some(s) => r matches Ok(t) && t@ == s,
            None => r matches Err(MumuError::AdbEndpointUnavailable),
        },
{
    match (&info.adb_host_ip, &info.adb_port) {
        (Some(host), Some(port)) => {
            let mut s = owned(host.as_str());
            push_str(&mut s, ":");
            push_decimal(&mut s, *port as u64);
            Ok(s)
        },
        _ => Err(MumuError::AdbEndpointUnavailable),
    }
}

/// `adb connect <serial>`
pub fn connect_args(serial: &str) -> (r: Vec<String>)
    ensures
        r.deep_view() == seq!["connect"@, serial@],
{
    let r = strings(&["connect", serial]);
    assert(r.deep_view() =~= seq!["connect"@, serial@]);
    r
}

/// `adb disconnect <serial>`
pub fn disconnect_args(serial: &str) -> (r: Vec<String>)
    ensures
        r.deep_view() == seq!["disconnect"@, serial@],
{
    let r = strings(&["disconnect", serial]);
    assert(r.deep_view() =~= seq!["disconnect"@, serial@]);
    r
}

/// `adb -s <serial> get-state`
pub fn get_state_args(serial: &str) -> (r: Vec<String>)
    ensures
        r.deep_view() == seq!["-s"@, serial@, "get-state"@],
{
    let r = strings(&["-s", serial, "get-state"]);
    assert(r.deep_view() =~= seq!["-s"@, serial@, "get-state"@]);
    r
}

/// `adb -s <serial> install -r <apk>`: installs, or upgrades in place.
pub fn install_args(serial: &str, apk_path: &str) -> (r: Vec<String>)
    ensures
        r.deep_view() == seq!["-s"@, serial@, "install"@, "-r"@, apk_path@],
{
    let r = strings(&["-s", serial, "install", "-r", apk_path]);
    assert(r.deep_view() =~= seq!["-s"@, serial@, "install"@, "-r"@, apk_path@]);
    r
}

/// `adb -s <serial> pull <remote> <local>`
pub fn pull_args(serial: &str, remote: &str, local: &str) -> (r: Vec<String>)
    ensures
        r.deep_view() == seq!["-s"@, serial@, "pull"@, remote@, local@],
{
    let r = strings(&["-s", serial, "pull", remote, local]);
    assert(r.deep_view() =~= seq!["-s"@, serial@, "pull"@, remote@, local@]);
    r
}

/// The state text of one `get-state` poll: what adb wrote to stdout and
/// to stderr, each trimmed, one after the other.
pub fn adb_state_text(stdout: &str, stderr: &str) -> (r: String)
    ensures
        r@ == trim_spec(stdout@) + trim_spec(stderr@),
{
    let mut r = trim(stdout);
    let e = trim(stderr);
    push_str(&mut r, e.as_str());
    r
}

/// What to do after one `get-state` poll.
#[derive(Debug)]
pub enum AdbStep {
    /// The daemon reports `device`: go on.
    Ready,
    /// Disconnect and reconnect the endpoint, then wait and poll again.
    Redial,
    /// Wait and poll again.
    Wait,
    /// Give up with this error.
    Failed(MumuError),
}

/// The kind of an [`AdbStep`].
pub enum AdbStepKind {
    Ready,
    Redial,
    Wait,
    Failed,
}

/// The decision after a poll that answered `last`, given whether the
/// endpoint was already redialed and whether the deadline has passed.
pub open spec fn step_kind(redialed: bool, last: Seq<char>, deadline_passed: bool) -> AdbStepKind {
    if last == "device"@ {
        AdbStepKind::Ready
    } else if deadline_passed {
        AdbStepKind::Failed
    } else if !redialed && contains_spec(last, "offline"@) {
        AdbStepKind::Redial
    } else {
        AdbStepKind::Wait
    }
}

/// How many times a run of the polling loop redials, when the polls
/// answer `polls` in order (each with whether the deadline had passed);
/// the loop ends at the first `Ready` or `Failed`.
pub open spec fn redial_count(redialed: bool, polls: Seq<(Seq<char>, bool)>) -> nat
    decreases polls.len(),
{
    if polls.len() == 0 {
        0
    } else {
        match step_kind(redialed, polls[0].0, polls[0].1) {
            AdbStepKind::Redial => 1 + redial_count(true, polls.drop_first()),
            AdbStepKind::Wait => redial_count(redialed, polls.drop_first()),
            _ => 0,
        }
    }
}

/// A run of the polling loop redials at most once, and not at all once it
/// has redialed.
pub proof fn lemma_redial_at_most_once(redialed: bool, polls: Seq<(Seq<char>, bool)>)
    ensures
        redial_count(redialed, polls) <= (if redialed {
            0nat
        } else {
            1nat
        }),
    decreases polls.len(),
{
    if polls.len() > 0 {
        lemma_redial_at_most_once(true, polls.drop_first());
        lemma_redial_at_most_once(redialed, polls.drop_first());
    }
}

/// What one poll decides: `device` is ready whatever else holds; any other
/// answer past the deadline fails, whether or not the endpoint was
/// redialed; a redial comes only before the deadline, after an answer that
/// says `offline`, and only once.
pub proof fn lemma_step_kind(redialed: bool, last: Seq<char>, deadline_passed: bool)
    ensures
        (step_kind(redialed, last, deadline_passed) is Ready) <==> last == "device"@,
        (step_kind(redialed, last, deadline_passed) is Failed) <==> (last != "device"@
            && deadline_passed),
        (step_kind(redialed, last, deadline_passed) is Redial) ==> (!redialed && !deadline_passed
            && contains_spec(last, "offline"@)),
        redialed ==> !(step_kind(redialed, last, deadline_passed) is Redial),
{
}

/// How many polls a run of the waiting loop makes when the polls answer
/// `polls` in order (each with whether the deadline had passed): it stops
/// after the first poll that is ready or fails.
pub open spec fn polls_made(redialed: bool, polls: Seq<(Seq<char>, bool)>) -> nat
    decreases polls.len(),
{
    if polls.len() == 0 {
        0
    } else {
        match step_kind(redialed, polls[0].0, polls[0].1) {
            AdbStepKind::Redial => 1 + polls_made(true, polls.drop_first()),
            AdbStepKind::Wait => 1 + polls_made(redialed, polls.drop_first()),
            _ => 1,
        }
    }
}

/// The wait ends at the latest with the first poll made after the
/// deadline: if poll `i` comes past the deadline, at most `i + 1` polls are
/// made.
pub proof fn lemma_wait_ends_after_deadline(redialed: bool, polls: Seq<(Seq<char>, bool)>, i: int)
    requires
        0 <= i < polls.len(),
        polls[i].1,
    ensures
        polls_made(redialed, polls) <= i + 1,
    decreases i,
{
    lemma_step_kind(redialed, polls[0].0, polls[0].1);
    if i > 0 {
        let rest = polls.drop_first();
        assert(rest[i - 1] == polls[i]);
        lemma_wait_ends_after_deadline(true, rest, i - 1);
        lemma_wait_ends_after_deadline(redialed, rest, i - 1);
    }
}

/// The serial names the endpoint `info` reports: it is the host, a `:`,
/// then text without a `:` that parses back to the port; there is a serial
/// exactly when both the host and the port are known.
pub proof fn lemma_adb_serial(info: PlayerInfo)
    ensures
        (adb_serial_spec(info) is Some) <==> (info.adb_host_ip is Some && info.adb_port is Some),
        adb_serial_spec(info) matches Some(s) ==> {
            let host = info.adb_host_ip.unwrap()@;
            &&& s.len() > host.len()
            &&& s.subrange(0, host.len() as int) == host
            &&& s[host.len() as int] == ':'
            &&& parse_u32_spec(s.subrange(host.len() + 1int, s.len() as int)) == Some(
                info.adb_port.unwrap(),
            )
            &&& forall|k: int| host.len() < k < s.len() ==> s[k] != ':'
        },
{
    if info.adb_host_ip is Some && info.adb_port is Some {
        let host = info.adb_host_ip.unwrap()@;
        let port = info.adb_port.unwrap();
        let s = adb_serial_spec(info).unwrap();
        reveal_strlit(":");
        crate::text::lemma_decimal_digits(port as nat);
        crate::text::lemma_parse_decimal_roundtrip(port);
        let d = decimal(port as nat);
        assert(s == host + ":"@ + d);
        assert(s.subrange(0, host.len() as int) =~= host);
        assert(s.subrange(host.len() + 1int, s.len() as int) =~= d);
        assert forall|k: int| host.len() < k < s.len() implies s[k] != ':' by {
            assert(s[k] == d[k - host.len() - 1]);
            assert(crate::text::is_digit(d[k - host.len() - 1]));
        }
    }
}

/// The state of the loop that waits for a slot's adb endpoint.
pub struct AdbReadiness {
    redialed: bool,
}

impl AdbReadiness {
    /// Whether the endpoint has been redialed already.
    pub closed spec fn redialed(&self) -> bool {
        self.redialed
    }

    /// The state before the first poll: not redialed yet.
    pub fn new() -> (r: Self)
        ensures
            !r.redialed(),
    {
        AdbReadiness { redialed: false }
    }

    /// Decides what follows a poll of `serial` that answered `last`:
    /// `device` is ready; past the deadline the wait fails with the last
    /// state; a first `offline` answer asks for a redial; anything else
    /// waits for the next poll.
    pub fn step(&mut self, serial: &str, last: String, deadline_passed: bool) -> (r: AdbStep)
        ensures
            final(self).redialed() == (old(self).redialed() || r is Redial),
            match step_kind(old(self).redialed(), last@, deadline_passed) {
                AdbStepKind::Ready => r is Ready,
                AdbStepKind::Redial => r is Redial,
                AdbStepKind::Wait => r is Wait,
                AdbStepKind::Failed => r matches AdbStep::Failed(
                    MumuError::AdbDeviceNotReady { serial: s, secs, last: l },
                ) && s@ == serial@ && secs == ADB_READY_TIMEOUT_SECS && l@ == last@,
            },
    {
        let device = owned("device");
        if last == device {
            return AdbStep::Ready;
        }
        if deadline_passed {
            return AdbStep::Failed(
                MumuError::AdbDeviceNotReady {
                    serial: owned(serial),
                    secs: ADB_READY_TIMEOUT_SECS,
                    last,
                },
            );
        }
        if !self.redialed && contains(last.as_str(), "offline") {
            self.redialed = true;
            return AdbStep::Redial;
        }
        AdbStep::Wait
    }
}

/// The outcome of `adb install`: success only when adb exits successfully
/// and its output says `Success`; otherwise an error with all it printed.
pub fn install_outcome(success: bool, stdout: String, stderr: String) -> (r: Result<(), MumuError>)
    ensures
        success && contains_spec(stdout@, "Success"@) ==> r is Ok,
        !(success && contains_spec(stdout@, "Success"@)) ==> (r matches Err(
            MumuError::InstallFailed(m),
        ) && m@ == stdout@ + stderr@),
{
    if success && contains(stdout.as_str(), "Success") {
        Ok(())
    } else {
        let mut m = stdout;
        push_str(&mut m, stderr.as_str());
        Err(MumuError::InstallFailed(m))
    }
}

/// The outcome of `adb pull`: success when adb exits successfully;
/// otherwise an error with all it printed.
pub fn pull_outcome(success: bool, stdout: String, stderr: String) -> (r: Result<(), MumuError>)
    ensures
        success ==> r is Ok,
        !success ==> (r matches Err(MumuError::PullFailed(m)) && m@ == stdout@ + stderr@),
{
    if success {
        Ok(())
    } else {
        let mut m = stdout;
        push_str(&mut m, stderr.as_str());
        Err(MumuError::PullFailed(m))
    }
}

} // verus!
