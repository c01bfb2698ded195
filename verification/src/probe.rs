//! Asking an NTP server for the time.

use crate::civil::LocalTime;
use crate::millis::Millis;
use crate::text::contains;
use vstd::prelude::*;
use vstd::string::StringExecFns;

verus! {

/// How long to wait for the server's answer.
pub const QUERY_TIMEOUT_SECS: u64 = 3;

/// What asking a server brought to light.
#[derive(Debug, Clone)]
pub struct NtpResult {
    pub server_time: String,
    pub local_time: String,
    /// How far the server's clock is ahead of the local one.
    pub offset_ms: Millis,
    /// How long the question and the answer were under way.
    pub delay_ms: Millis,
    pub stratum: u8,
}

/// An [`NtpResult`] with its texts as sequences of characters.
pub struct Findings {
    pub server_time: Seq<char>,
    pub local_time: Seq<char>,
    pub offset_ms: Millis,
    pub delay_ms: Millis,
    pub stratum: u8,
}

impl View for NtpResult {
    type V = Findings;

    open spec fn view(&self) -> Findings {
        Findings {
            server_time: self.server_time@,
            local_time: self.local_time@,
            offset_ms: self.offset_ms,
            delay_ms: self.delay_ms,
            stratum: self.stratum,
        }
    }
}

/// What came of asking a server.
#[derive(Debug)]
pub enum SyncOutcome {
    /// The server answered.
    Synchronized {
        /// The local time by the server's clock, unless it lies beyond the calendar.
        server_time: Option<LocalTime>,
        local_time: LocalTime,
        offset_ms: Millis,
        delay_ms: Millis,
        stratum: u8,
    },
    /// It did not, or not in a way that makes sense; the text says why.
    Failed(String),
}

/// The outcome of a check, with its texts as sequences of characters.
pub open spec fn check_view(result: Result<NtpResult, String>) -> Result<Findings, Seq<char>> {
    match result {
        Ok(found) => Ok(found@),
        Err(message) => Err(message@),
    }
}

/// The address to ask for `addr`: a bare host is asked on port 123.
pub open spec fn spec_query_target(addr: Seq<char>) -> Seq<char> {
    if addr.contains(':') {
        addr
    } else {
        addr + ":123"@
    }
}

/// The address to ask for `addr`: a bare host is asked on port 123.
pub fn query_target(addr: &str) -> (target: String)
    ensures
        target@ == spec_query_target(addr@),
        addr@.contains(':') ==> target@ == addr@,
        !addr@.contains(':') ==> target@ == addr@ + seq![':', '1', '2', '3'],
{
    proof {
        law_bare_hosts_are_asked_on_port_123(addr@);
    }
    let mut target: String = addr.to_string();
    if !contains(addr, ':') {
        target.append(":123");
    }
    target
}

/// What a check makes of an outcome.
pub open spec fn checked(outcome: SyncOutcome) -> Result<Findings, Seq<char>> {
    match outcome {
        SyncOutcome::Synchronized {
            server_time: Some(server_time),
            local_time,
            offset_ms,
            delay_ms,
            stratum,
        } => Ok(
            Findings {
                server_time: server_time@.text(),
                local_time: local_time@.text(),
                offset_ms,
                delay_ms,
                stratum,
            },
        ),
        SyncOutcome::Synchronized { server_time: None, .. } => Err("时间格式解析失败"@),
        SyncOutcome::Failed(message) => Err(message@),
    }
}

/// Turns what came of asking a server into a result to show, or into an error to show.
pub fn check_ntp_server(outcome: SyncOutcome) -> (result: Result<NtpResult, String>)
    ensures
        check_view(result) == checked(outcome),
        match outcome {
            SyncOutcome::Synchronized {
                server_time: Some(server_time),
                local_time,
                offset_ms,
                delay_ms,
                stratum,
            } => {
                &&& result matches Ok(found)
                &&& found.server_time@ == server_time@.text()
                &&& found.local_time@ == local_time@.text()
                &&& found.offset_ms.bits == offset_ms.bits
                &&& found.delay_ms.bits == delay_ms.bits
                &&& found.stratum == stratum
            },
            SyncOutcome::Synchronized { server_time: None, .. } => result matches Err(message)
                && message@ == "时间格式解析失败"@,
            SyncOutcome::Failed(reason) => result matches Err(message) && message@ == reason@,
        },
{
    match outcome {
        SyncOutcome::Synchronized { server_time, local_time, offset_ms, delay_ms, stratum } => {
            match server_time {
                Some(server_time) => Ok(
                    NtpResult {
                        server_time: server_time.text(),
                        local_time: local_time.text(),
                        offset_ms,
                        delay_ms,
                        stratum,
                    },
                ),
                None => Err("时间格式解析失败".to_string()),
            }
        },
        SyncOutcome::Failed(message) => Err(message),
    }
}

/// An address that is ready to be asked stays as it is, and every address becomes ready.
pub proof fn law_query_target_is_ready(addr: Seq<char>)
    ensures
        spec_query_target(addr).contains(':'),
        spec_query_target(spec_query_target(addr)) == spec_query_target(addr),
{
    if !addr.contains(':') {
        reveal_strlit(":123");
        assert(spec_query_target(addr)[addr.len() as int] == ':');
    }
}

/// A host without a port is asked on port 123: nothing but `:123` is put behind it, whatever the
/// host. An address with a colon in it is asked as it stands.
pub proof fn law_bare_hosts_are_asked_on_port_123(addr: Seq<char>)
    ensures
        (exists|i: int| 0 <= i < addr.len() && addr[i] == ':') ==> spec_query_target(addr) == addr,
        (forall|i: int| 0 <= i < addr.len() ==> addr[i] != ':') ==> {
            let target = spec_query_target(addr);
            let n = addr.len() as int;
            &&& target.len() == n + 4
            &&& target.take(n) == addr
            &&& target[n] == ':'
            &&& target[n + 1] == '1'
            &&& target[n + 2] == '2'
            &&& target[n + 3] == '3'
        },
        !addr.contains(':') ==> spec_query_target(addr) == addr + seq![':', '1', '2', '3'],
{
    reveal_strlit(":123");
    let target = spec_query_target(addr);
    if !addr.contains(':') {
        assert forall|i: int| 0 <= i < addr.len() implies addr[i] != ':' by {
            assert(addr.contains(addr[i]));
        }
        assert(target =~= addr + seq![':', '1', '2', '3']);
        assert(target.take(addr.len() as int) =~= addr);
    }
}

/// Different hosts are asked at different addresses.
pub proof fn law_different_hosts_are_asked_apart(a: Seq<char>, b: Seq<char>)
    requires
        a.contains(':') == b.contains(':'),
        spec_query_target(a) == spec_query_target(b),
    ensures
        a == b,
{
    law_bare_hosts_are_asked_on_port_123(a);
    law_bare_hosts_are_asked_on_port_123(b);
    if !a.contains(':') {
        let n = a.len() as int;
        assert(spec_query_target(a).take(n) =~= a);
        assert(spec_query_target(b).take(n) =~= b);
    }
}

/// What was measured is reported bit for bit, sign included, and the server's time is not mixed
/// up with the local one: the result of a check of a server that answered carries the very
/// offset, delay and stratum that came back.
pub proof fn law_measurements_are_kept(outcome: SyncOutcome)
    requires
        outcome matches SyncOutcome::Synchronized { server_time, .. } && server_time is Some,
    ensures
        ({
            let found = checked(outcome)->Ok_0;
            &&& checked(outcome) is Ok
            &&& found.offset_ms.bits == outcome->offset_ms.bits
            &&& found.delay_ms.bits == outcome->delay_ms.bits
            &&& found.stratum == outcome->stratum
            &&& found.server_time == outcome->server_time->0@.text()
            &&& found.local_time == outcome->local_time@.text()
        }),
{
}

/// Two servers that answered with different offsets, delays or strata have different results:
/// one clock that is ahead and one that is behind are never reported alike.
pub proof fn law_different_measurements_differ(a: SyncOutcome, b: SyncOutcome)
    requires
        a matches SyncOutcome::Synchronized { server_time, .. } && server_time is Some,
        b matches SyncOutcome::Synchronized { server_time, .. } && server_time is Some,
        checked(a) == checked(b),
    ensures
        a->offset_ms == b->offset_ms,
        a->delay_ms == b->delay_ms,
        a->stratum == b->stratum,
        a->offset_ms.bits / crate::millis::SIGN_RANGE == b->offset_ms.bits
            / crate::millis::SIGN_RANGE,
{
}

/// A check fails exactly when the server did not answer, with the reason that was given, or when
/// its time lies beyond the calendar.
pub proof fn law_failures_are_told(outcome: SyncOutcome)
    ensures
        checked(outcome) is Err <==> match outcome {
            SyncOutcome::Synchronized { server_time, .. } => server_time is None,
            SyncOutcome::Failed(_) => true,
        },
        outcome matches SyncOutcome::Failed(reason) ==> checked(outcome) == Err::<
            Findings,
            Seq<char>,
        >(reason@),
        outcome matches SyncOutcome::Synchronized { server_time: None, .. } ==> checked(outcome)
            == Err::<Findings, Seq<char>>("时间格式解析失败"@),
{
}

/// A result seen as characters and numbers is the result, part by part.
pub proof fn law_findings_are_the_result(found: NtpResult, message: String)
    ensures
        found@.server_time == found.server_time@,
        found@.local_time == found.local_time@,
        found@.offset_ms == found.offset_ms,
        found@.delay_ms == found.delay_ms,
        found@.stratum == found.stratum,
        check_view(Ok(found)) == Ok::<Findings, Seq<char>>(found@),
        check_view(Err(message)) == Err::<Findings, Seq<char>>(message@),
{
}

} // verus!
