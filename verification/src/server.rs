//! Socket-server rules: who owns the control socket, which connections are
//! served, refused or dropped, and how a handshake is answered.

use vstd::prelude::*;

use crate::text::{decimal_digits, push_decimal};

verus! {

/// Concurrently served connections.
pub const MAX_CLIENTS: usize = 64;
/// Refusals in flight once the client cap is reached; past this many,
/// further connections are dropped unanswered.
pub const MAX_REFUSALS_IN_FLIGHT: usize = 16;
/// Outbound queue depth per client; overflow disconnects that client.
pub const CLIENT_QUEUE_FRAMES: usize = 1024;
/// Seconds a fresh connection has to send its hello.
pub const HANDSHAKE_TIMEOUT_SECS: u64 = 3;

/// Outcome of connecting to the control socket path before claiming it.
#[derive(PartialEq, Eq, Structural, Clone, Copy, Debug)]
pub enum SocketProbe {
    /// Something accepted the connection: a live daemon.
    Connected,
    /// No such path.
    NotFound,
    /// The path exists but nothing listens: a crashed daemon's leftover.
    Refused,
    /// Any other failure, such as a full accept backlog or a permission error.
    Failed,
}

/// What to do with the control socket path after probing it.
#[derive(PartialEq, Eq, Structural, Clone, Copy, Debug)]
pub enum ClaimStep {
    /// A daemon already runs; refuse to start.
    AlreadyRunning,
    /// The name is free: bind it.
    Bind,
    /// Remove the stale socket, then bind.
    ReplaceStale,
    /// Ownership cannot be determined; refuse rather than displace a
    /// possibly live daemon.
    Undetermined,
}

/// How the control socket is claimed after a probe.
pub open spec fn spec_claim_step(probe: SocketProbe) -> ClaimStep {
    match probe {
        SocketProbe::Connected => ClaimStep::AlreadyRunning,
        SocketProbe::NotFound => ClaimStep::Bind,
        SocketProbe::Refused => ClaimStep::ReplaceStale,
        SocketProbe::Failed => ClaimStep::Undetermined,
    }
}

/// Decide how to claim the control socket from the probe's outcome.
pub fn claim_step(probe: SocketProbe) -> (step: ClaimStep)
    ensures
        step == spec_claim_step(probe),
{
    match probe {
        SocketProbe::Connected => ClaimStep::AlreadyRunning,
        SocketProbe::NotFound => ClaimStep::Bind,
        SocketProbe::Refused => ClaimStep::ReplaceStale,
        SocketProbe::Failed => ClaimStep::Undetermined,
    }
}

/// The socket path is unlinked only when the probe proved nothing listens
/// on it, so a second daemon can never displace a live one.
pub proof fn lemma_only_stale_sockets_are_replaced(probe: SocketProbe)
    ensures
        (spec_claim_step(probe) == ClaimStep::ReplaceStale) <==> probe == SocketProbe::Refused,
{
}

/// The client id after `current`, skipping zero on wrap-around.
pub open spec fn spec_next_client_id(current: u64) -> u64 {
    if current == u64::MAX {
        1
    } else {
        (current + 1) as u64
    }
}

/// Advance the connection counter.
pub fn next_client_id(current: u64) -> (next: u64)
    ensures
        next == spec_next_client_id(current),
        next != 0,
{
    if current == u64::MAX {
        1
    } else {
        current + 1
    }
}

/// What happens to a newly accepted connection.
#[derive(PartialEq, Eq, Structural, Clone, Copy, Debug)]
pub enum Admission {
    Serve,
    /// Answer the handshake with a refusal.
    Refuse,
    /// Close without answering.
    Drop,
}

/// What happens to a connection accepted while `serving` connections are
/// served and `refusing` refusals are in flight.
pub open spec fn spec_admission(serving: usize, refusing: usize) -> Admission {
    if serving < MAX_CLIENTS {
        Admission::Serve
    } else if refusing < MAX_REFUSALS_IN_FLIGHT {
        Admission::Refuse
    } else {
        Admission::Drop
    }
}

/// Admit a connection given the connections served and the refusals in flight.
pub fn admit_connection(serving: usize, refusing: usize) -> (admission: Admission)
    ensures
        admission == spec_admission(serving, refusing),
{
    if serving < MAX_CLIENTS {
        Admission::Serve
    } else if refusing < MAX_REFUSALS_IN_FLIGHT {
        Admission::Refuse
    } else {
        Admission::Drop
    }
}

/// The server never serves more than its cap, nor answers more refusals
/// than its refusal cap: a connection is served only below the client cap
/// and refused only below the refusal cap.
pub proof fn lemma_connections_are_bounded(serving: usize, refusing: usize)
    ensures
        spec_admission(serving, refusing) == Admission::Serve ==> serving + 1 <= MAX_CLIENTS,
        spec_admission(serving, refusing) == Admission::Refuse ==> refusing + 1 <= MAX_REFUSALS_IN_FLIGHT,
{
}

/// The first frame a connection sent, as far as the handshake cares.
#[derive(PartialEq, Eq, Structural, Clone, Copy, Debug)]
pub enum HelloRead {
    Hello { protocol: u32 },
    /// The deadline passed first.
    TimedOut,
    /// Anything else: another frame, end of stream or a read error.
    Other,
}

/// How a handshake ends.
pub enum Handshake {
    Accept,
    /// Send this error reply, then close.
    RefuseProtocol { message: String },
    /// Close without answering.
    Drop,
}

/// Reply to a client speaking another protocol version.
pub open spec fn protocol_mismatch_message(protocol: u32, supported: u32) -> Seq<char> {
    "protocol "@ + decimal_digits(protocol as nat) + " is not supported; this daemon speaks "@ + decimal_digits(
        supported as nat,
    )
}

/// Answer a handshake: the supported protocol is accepted, another version
/// gets an explanation, and silence or any other frame closes the connection.
pub fn handshake(hello: HelloRead, supported: u32) -> (outcome: Handshake)
    ensures
        match hello {
            HelloRead::Hello { protocol } => if protocol == supported {
                outcome is Accept
            } else {
                outcome matches Handshake::RefuseProtocol { message } && message@ == protocol_mismatch_message(
                    protocol,
                    supported,
                )
            },
            _ => outcome is Drop,
        },
{
    match hello {
        HelloRead::Hello { protocol } => {
            if protocol == supported {
                return Handshake::Accept;
            }
            proof {
                reveal_strlit("protocol ");
                reveal_strlit(" is not supported; this daemon speaks ");
            }
            let mut message = String::from_str("protocol ");
            push_decimal(&mut message, protocol as u64);
            message.append(" is not supported; this daemon speaks ");
            push_decimal(&mut message, supported as u64);
            Handshake::RefuseProtocol { message }
        },
        _ => Handshake::Drop,
    }
}

/// Reply to a connection refused at the client cap.
pub open spec fn server_full_message() -> Seq<char> {
    "daemon is already serving its maximum of "@ + decimal_digits(MAX_CLIENTS as nat) + " clients"@
}

/// The refusal text sent when the client cap is reached.
pub fn server_full_text() -> (message: String)
    ensures
        message@ == server_full_message(),
{
    proof {
        reveal_strlit("daemon is already serving its maximum of ");
        reveal_strlit(" clients");
    }
    let mut message = String::from_str("daemon is already serving its maximum of ");
    push_decimal(&mut message, MAX_CLIENTS as u64);
    message.append(" clients");
    message
}

} // verus!
