//! Connection dispatch: each accepted connection reads one action byte
//! and performs that one action against the shared daemon context. The
//! accept loop, the per-connection handling units and the stream I/O live
//! with the embedder; the action decoding, the per-action computation and
//! the per-connection error rule live here, verified.
use crate::companion::CompanionOutcome;
use crate::companion::CompanionSlot;
use crate::companion::PollStatus;
use crate::companion::SpawnVerdict;
use crate::companion::companion_request;
use crate::companion::spec_companion_outcome;
use crate::companion::spec_slot_after;
use crate::modules::DaemonContext;
use crate::root::get_process_flags;
use crate::root::spec_process_flags;
use vstd::prelude::*;
use vstd::string::StringExecFns;

verus! {

/// The one-byte action codes a client can open a connection with.
#[derive(Clone, Copy, PartialEq, Eq, Structural, Debug)]
pub enum DaemonSocketAction {
    PingHeartbeat,
    RequestLogcatFd,
    ReadNativeBridge,
    GetProcessFlags,
    ReadModules,
    RequestCompanionSocket,
    GetModuleDir,
}

/// Which action a leading byte selects; any byte without a matching
/// action is a malformed request, fatal for that one connection.
pub open spec fn spec_parse_action(b: u8) -> Option<DaemonSocketAction> {
    match b {
        0u8 => Option::Some(DaemonSocketAction::PingHeartbeat),
        1u8 => Option::Some(DaemonSocketAction::RequestLogcatFd),
        2u8 => Option::Some(DaemonSocketAction::ReadNativeBridge),
        3u8 => Option::Some(DaemonSocketAction::GetProcessFlags),
        4u8 => Option::Some(DaemonSocketAction::ReadModules),
        5u8 => Option::Some(DaemonSocketAction::RequestCompanionSocket),
        6u8 => Option::Some(DaemonSocketAction::GetModuleDir),
        _ => Option::None,
    }
}

/// Decode the leading action byte of a new connection.
pub fn parse_action(b: u8) -> (r: Option<DaemonSocketAction>)
    ensures
        r == spec_parse_action(b),
{
    match b {
        0u8 => Option::Some(DaemonSocketAction::PingHeartbeat),
        1u8 => Option::Some(DaemonSocketAction::RequestLogcatFd),
        2u8 => Option::Some(DaemonSocketAction::ReadNativeBridge),
        3u8 => Option::Some(DaemonSocketAction::GetProcessFlags),
        4u8 => Option::Some(DaemonSocketAction::ReadModules),
        5u8 => Option::Some(DaemonSocketAction::RequestCompanionSocket),
        6u8 => Option::Some(DaemonSocketAction::GetModuleDir),
        _ => Option::None,
    }
}

/// A leading byte outside the action table selects nothing: exactly the
/// bytes 0 through 6 select an action, so a connection opened with any
/// other byte runs no action and is written no response — that one
/// handling unit ends, every other connection untouched.
pub proof fn lemma_unmatched_action_byte(b: u8)
    ensures
        b <= 6 <==> spec_parse_action(b) is Some,
{
}

/// One decoded request, with every outside outcome the action needs
/// already in hand as a plain value: the per-uid policy answers for
/// GetProcessFlags (the embedder reads the uid from the wire and asks the
/// active backend), and the probe, spawn and transfer outcomes for
/// RequestCompanionSocket. RequestLogcatFd has no decision to make — the
/// embedder forwards (level, tag, message) triples to the system log
/// until the peer closes — so it does not appear here.
#[derive(Clone, Copy, PartialEq, Eq, Structural, Debug)]
pub enum Request {
    PingHeartbeat,
    ReadNativeBridge,
    GetProcessFlags { granted_root: bool, on_denylist: bool },
    ReadModules,
    RequestCompanionSocket { index: usize, poll: PollStatus, spawn: SpawnVerdict, send_ok: bool },
    GetModuleDir { index: usize },
}

/// What the connection answers: the body the embedder writes back, or the
/// descriptor transfer it performs.
pub enum Response {
    /// Nothing: the heartbeat has no body.
    Empty,
    /// The cached native-bridge string.
    NativeBridge(String),
    /// The process-flags word.
    Flags(u32),
    /// The module count, then each module's name; the embedder follows
    /// each name with a transfer of that module's library descriptor.
    Modules(usize, Vec<String>),
    /// The client's descriptor went to the companion; no body follows.
    CompanionHandedOff,
    /// No companion is available: the client gets the single byte 0.
    CompanionUnavailable,
    /// The directory to open fresh and transfer to the client.
    ModuleDir(String),
}

/// A per-connection-fatal condition: the handling unit logs it and
/// terminates, leaving every other connection untouched.
#[derive(Clone, Copy, PartialEq, Eq, Structural, Debug)]
pub enum ConnError {
    /// A client-supplied module index at or beyond the module count.
    BadIndex,
}

/// A module's on-disk directory: the module root, a separator, the
/// module's name.
pub fn module_dir_path(base: &str, name: &str) -> (r: String)
    ensures
        r@ == base@ + "/"@ + name@,
{
    let mut s = String::from_str(base);
    s.append("/");
    s.append(name);
    proof {
        assert(s@ =~= base@ + "/"@ + name@);
    }
    s
}

/// The listening socket's abstract-namespace name: a bitness-specific
/// prefix followed by the build-specific magic token.
pub fn daemon_socket_name(is_64: bool, magic: &str) -> (r: String)
    ensures
        is_64 ==> r@ == "zygiskd64"@ + magic@,
        !is_64 ==> r@ == "zygiskd32"@ + magic@,
{
    let mut s = if is_64 {
        String::from_str("zygiskd64")
    } else {
        String::from_str("zygiskd32")
    };
    s.append(magic);
    s
}

/// Serve one decoded request against the shared context: compute the
/// response, step the addressed module's companion slot where the action
/// calls for it, and fail — for this connection alone, the slot untouched
/// — on an out-of-range module index. The caller holds the addressed
/// module's lock for a companion request and passes that module's slot;
/// for every other action the slot is left as it was.
pub fn handle_daemon_action(
    ctx: &DaemonContext,
    modules_dir: &str,
    req: Request,
    slot: &mut CompanionSlot,
) -> (r: Result<Response, ConnError>)
    requires
        req matches Request::GetProcessFlags { .. } ==> ctx.root.is_single_backend(),
    ensures
        match req {
            Request::PingHeartbeat => {
                &&& r matches Ok(Response::Empty)
                &&& *final(slot) == *old(slot)
            },
            Request::ReadNativeBridge => {
                &&& (r matches Ok(Response::NativeBridge(s)) && s@ == ctx.native_bridge@)
                &&& *final(slot) == *old(slot)
            },
            Request::GetProcessFlags { granted_root, on_denylist } => {
                &&& (r matches Ok(Response::Flags(f)) && f == spec_process_flags(
                    ctx.root,
                    granted_root,
                    on_denylist,
                ))
                &&& *final(slot) == *old(slot)
            },
            Request::ReadModules => {
                &&& (r matches Ok(Response::Modules(n, names)) && n == ctx.modules@.len()
                    && names@.len() == ctx.modules@.len() && (forall|i: int|
                    0 <= i < names@.len() ==> (#[trigger] names@[i])@ == ctx.modules@[i].name@))
                &&& *final(slot) == *old(slot)
            },
            Request::RequestCompanionSocket { index, poll, spawn, send_ok } => {
                if (index as int) < ctx.modules@.len() {
                    &&& *final(slot) == spec_slot_after(*old(slot), poll, spawn)
                    &&& (r matches Ok(resp) && resp == (
                    if spec_companion_outcome(*old(slot), poll, spawn, send_ok)
                        == CompanionOutcome::HandedOff {
                        Response::CompanionHandedOff
                    } else {
                        Response::CompanionUnavailable
                    }))
                } else {
                    &&& r matches Err(ConnError::BadIndex)
                    &&& *final(slot) == *old(slot)
                }
            },
            Request::GetModuleDir { index } => {
                if (index as int) < ctx.modules@.len() {
                    &&& (r matches Ok(Response::ModuleDir(p)) && p@ == modules_dir@ + "/"@
                        + ctx.modules@[index as int].name@)
                    &&& *final(slot) == *old(slot)
                } else {
                    &&& r matches Err(ConnError::BadIndex)
                    &&& *final(slot) == *old(slot)
                }
            },
        },
{
    match req {
        Request::PingHeartbeat => Result::Ok(Response::Empty),
        Request::ReadNativeBridge => Result::Ok(
            Response::NativeBridge(ctx.native_bridge.clone()),
        ),
        Request::GetProcessFlags { granted_root, on_denylist } => Result::Ok(
            Response::Flags(get_process_flags(&ctx.root, granted_root, on_denylist)),
        ),
        Request::ReadModules => {
            let n = ctx.module_count();
            let names = ctx.module_names();
            Result::Ok(Response::Modules(n, names))
        },
        Request::RequestCompanionSocket { index, poll, spawn, send_ok } => {
            if index < ctx.module_count() {
                let outcome = companion_request(slot, poll, spawn, send_ok);
                match outcome.1 {
                    CompanionOutcome::HandedOff => Result::Ok(Response::CompanionHandedOff),
                    CompanionOutcome::Unavailable => Result::Ok(Response::CompanionUnavailable),
                }
            } else {
                Result::Err(ConnError::BadIndex)
            }
        },
        Request::GetModuleDir { index } => {
            match ctx.module_at(index) {
                Option::Some(m) => Result::Ok(
                    Response::ModuleDir(module_dir_path(modules_dir, m.name.as_str())),
                ),
                Option::None => Result::Err(ConnError::BadIndex),
            }
        },
    }
}

} // verus!
