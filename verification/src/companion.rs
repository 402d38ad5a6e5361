//! Companion lifecycle: for each module, at most one live companion helper
//! process, lazily spawned, health-checked before reuse, and serialized by
//! the module's exclusive lock.
//!
//! The embedder performs the process work (the socket pair, the fork and
//! re-exec, the descriptor transfers, the non-blocking poll) and feeds each
//! outcome in as a plain value; the decisions — when to probe, when a slot
//! is dead, when to spawn, what a spawn attempt concluded, what the client
//! is told — live here, verified.
use vstd::prelude::*;
use vstd::string::StringExecFns;

verus! {

/// A module's companion slot: the one mutable per-module field, guarded by
/// the module's exclusive lock. `Live` stands for a cached companion
/// connection; the connection endpoint itself is held by the embedder.
#[derive(Clone, Copy, PartialEq, Eq, Structural, Debug)]
pub enum CompanionSlot {
    Vacant,
    Live,
}

/// What the non-blocking liveness probe of a cached connection observed:
/// no revents at all, or some event (hangup or error), which means the
/// companion's peer is gone.
#[derive(Clone, Copy, PartialEq, Eq, Structural, Debug)]
pub enum PollStatus {
    Quiet,
    Hup,
}

/// How the intermediate child of a spawn attempt ended: a normal exit with
/// its code, or an abnormal end (signalled, or the wait itself failed).
#[derive(Clone, Copy, PartialEq, Eq, Structural, Debug)]
pub enum WaitOutcome {
    Exited(i32),
    Abnormal,
}

/// The conclusion of one full spawn attempt.
#[derive(Clone, Copy, PartialEq, Eq, Structural, Debug)]
pub enum SpawnVerdict {
    /// Status byte 1: keep the daemon-side endpoint as the live companion.
    Keep,
    /// Status byte 0: the companion did its one-shot setup and wants no
    /// persistent connection; drop the endpoint, cache nothing.
    OneShot,
    /// The launch child failed, the handshake errored out, or the status
    /// byte was a protocol violation: no companion was obtained.
    Failed,
}

/// What the requesting client ends up with.
#[derive(Clone, Copy, PartialEq, Eq, Structural, Debug)]
pub enum CompanionOutcome {
    /// The client's descriptor was handed to the companion; the two now
    /// talk directly and the daemon sends no response body.
    HandedOff,
    /// No companion is available: the client is sent the single status
    /// byte 0 instead of a descriptor.
    Unavailable,
}

/// The conclusion of a spawn attempt from the launch child's exit and the
/// status byte read from the companion (`None` where the handshake died
/// before a byte came back).
pub open spec fn spec_spawn_verdict(wait: WaitOutcome, status: Option<u8>) -> SpawnVerdict {
    if wait == WaitOutcome::Exited(0) {
        match status {
            Option::Some(1u8) => SpawnVerdict::Keep,
            Option::Some(0u8) => SpawnVerdict::OneShot,
            _ => SpawnVerdict::Failed,
        }
    } else {
        SpawnVerdict::Failed
    }
}

/// Conclude a spawn attempt: the launch child must have exited 0, and the
/// companion's status byte must be 0 (one-shot) or 1 (keep); anything else
/// — a non-zero or abnormal exit, a dead handshake, a malformed byte — is
/// a failed attempt.
pub fn spawn_verdict(wait: &WaitOutcome, status: Option<u8>) -> (r: SpawnVerdict)
    ensures
        r == spec_spawn_verdict(*wait, status),
{
    match wait {
        WaitOutcome::Exited(0i32) => match status {
            Option::Some(1u8) => SpawnVerdict::Keep,
            Option::Some(0u8) => SpawnVerdict::OneShot,
            _ => SpawnVerdict::Failed,
        },
        _ => SpawnVerdict::Failed,
    }
}

/// Whether a request against this slot, with this probe observation, must
/// attempt a spawn: only when there is no cached companion that the probe
/// found quiet.
pub open spec fn spec_spawn_attempted(slot: CompanionSlot, poll: PollStatus) -> bool {
    !(slot == CompanionSlot::Live && poll == PollStatus::Quiet)
}

/// The slot after one request: a quiet live companion is reused; a dead
/// one is cleared and a spawn is attempted; the spawn's verdict fills the
/// slot again only when the companion asked to be kept.
pub open spec fn spec_slot_after(
    slot: CompanionSlot,
    poll: PollStatus,
    spawn: SpawnVerdict,
) -> CompanionSlot {
    if slot == CompanionSlot::Live && poll == PollStatus::Quiet {
        CompanionSlot::Live
    } else if spawn == SpawnVerdict::Keep {
        CompanionSlot::Live
    } else {
        CompanionSlot::Vacant
    }
}

/// What the client is told: its descriptor is handed off exactly when a
/// companion is live at the end of the request and the transfer to it
/// succeeded; in every other case the client gets the explicit
/// "unavailable" byte. A transfer-only failure does not clear the slot.
pub open spec fn spec_companion_outcome(
    slot: CompanionSlot,
    poll: PollStatus,
    spawn: SpawnVerdict,
    send_ok: bool,
) -> CompanionOutcome {
    if spec_slot_after(slot, poll, spawn) == CompanionSlot::Live && send_ok {
        CompanionOutcome::HandedOff
    } else {
        CompanionOutcome::Unavailable
    }
}

/// Whether this request must run the spawn protocol: only when the probe
/// did not find a quiet live companion to reuse.
pub fn spawn_needed(slot: &CompanionSlot, poll: PollStatus) -> (r: bool)
    ensures
        r == spec_spawn_attempted(*slot, poll),
{
    !(*slot == CompanionSlot::Live && poll == PollStatus::Quiet)
}

/// Probe step: apply the liveness probe's observation to the slot. A live
/// slot whose probe saw events is dead: it is cleared, so the request
/// falls through to a spawn. A vacant slot is untouched (there was
/// nothing to probe; the embedder passes `Quiet`).
pub fn apply_probe(slot: &mut CompanionSlot, poll: PollStatus)
    ensures
        *final(slot) == (if *old(slot) == CompanionSlot::Live && poll == PollStatus::Quiet {
            *old(slot)
        } else {
            CompanionSlot::Vacant
        }),
{
    match poll {
        PollStatus::Quiet => (),
        PollStatus::Hup => {
            *slot = CompanionSlot::Vacant;
        },
    }
}

/// Spawn step: record a spawn attempt's verdict in a vacant slot. Only a
/// companion that asked to be kept becomes the live connection.
pub fn apply_spawn(slot: &mut CompanionSlot, spawn: SpawnVerdict)
    requires
        *old(slot) == CompanionSlot::Vacant,
    ensures
        *final(slot) == (if spawn == SpawnVerdict::Keep {
            CompanionSlot::Live
        } else {
            CompanionSlot::Vacant
        }),
{
    match spawn {
        SpawnVerdict::Keep => {
            *slot = CompanionSlot::Live;
        },
        _ => (),
    }
}

/// One full `RequestCompanionSocket` request against one module's slot,
/// executed under that module's exclusive lock. Returns whether a spawn
/// was attempted and what the client is told.
///
/// The embedder passes the probe observation (`Quiet` for a vacant slot),
/// the verdict of the spawn attempt it ran if the slot was not
/// live-and-quiet (ignored otherwise), and whether the transfer of the
/// client's descriptor to the live companion succeeded (ignored when no
/// companion is live).
pub fn companion_request(
    slot: &mut CompanionSlot,
    poll: PollStatus,
    spawn: SpawnVerdict,
    send_ok: bool,
) -> (r: (bool, CompanionOutcome))
    ensures
        r.0 == spec_spawn_attempted(*old(slot), poll),
        *final(slot) == spec_slot_after(*old(slot), poll, spawn),
        r.1 == spec_companion_outcome(*old(slot), poll, spawn, send_ok),
{
    apply_probe(slot, poll);
    let mut attempted: bool = false;
    if *slot == CompanionSlot::Vacant {
        attempted = true;
        apply_spawn(slot, spawn);
    }
    let outcome = if *slot == CompanionSlot::Live && send_ok {
        CompanionOutcome::HandedOff
    } else {
        CompanionOutcome::Unavailable
    };
    (attempted, outcome)
}

/// The distinguishing process name a companion is launched under: the
/// daemon executable's base name, a dash, the module's name.
pub fn companion_process_name(basename: &str, module: &str) -> (r: String)
    ensures
        r@ == basename@ + "-"@ + module@,
{
    let mut s = String::from_str(basename);
    s.append("-");
    s.append(module);
    proof {
        assert(s@ =~= basename@ + "-"@ + module@);
    }
    s
}

/// A companion connection is cached only through the spawn protocol:
/// after any request, the slot is live only where the cached companion
/// was live and its probe quiet (it was reused), or where the launch
/// child exited 0 and the companion answered with the keep byte.
pub proof fn lemma_live_slot_provenance(
    slot: CompanionSlot,
    poll: PollStatus,
    wait: WaitOutcome,
    status: Option<u8>,
)
    ensures
        spec_slot_after(slot, poll, spec_spawn_verdict(wait, status)) == CompanionSlot::Live ==> (
        slot == CompanionSlot::Live && poll == PollStatus::Quiet) || (wait == WaitOutcome::Exited(0)
            && status == Option::Some(1u8)),
{
}

/// The slot after a run of requests against it, serialized by the
/// module's lock: each request is its probe observation and the verdict
/// of the spawn it would run.
pub open spec fn spec_run_requests(
    slot: CompanionSlot,
    evs: Seq<(PollStatus, SpawnVerdict)>,
) -> CompanionSlot
    decreases evs.len(),
{
    if evs.len() == 0 {
        slot
    } else {
        spec_run_requests(spec_slot_after(slot, evs[0].0, evs[0].1), evs.drop_first())
    }
}

/// How many of a run of serialized requests attempt a spawn.
pub open spec fn spec_spawns_in(slot: CompanionSlot, evs: Seq<(PollStatus, SpawnVerdict)>) -> nat
    decreases evs.len(),
{
    if evs.len() == 0 {
        0
    } else {
        (if spec_spawn_attempted(slot, evs[0].0) {
            1nat
        } else {
            0nat
        }) + spec_spawns_in(spec_slot_after(slot, evs[0].0, evs[0].1), evs.drop_first())
    }
}

/// A live companion whose peer stays up is never respawned: a run of
/// requests whose probes all come back quiet attempts no spawn at all and
/// leaves the slot live.
pub proof fn lemma_live_companion_never_respawned(
    slot: CompanionSlot,
    evs: Seq<(PollStatus, SpawnVerdict)>,
)
    requires
        slot == CompanionSlot::Live,
        forall|i: int| 0 <= i < evs.len() ==> (#[trigger] evs[i]).0 == PollStatus::Quiet,
    ensures
        spec_spawns_in(slot, evs) == 0,
        spec_run_requests(slot, evs) == CompanionSlot::Live,
    decreases evs.len(),
{
    if evs.len() > 0 {
        assert(evs[0].0 == PollStatus::Quiet);
        lemma_live_companion_never_respawned(
            spec_slot_after(slot, evs[0].0, evs[0].1),
            evs.drop_first(),
        );
    }
}

/// At most one live companion per module, under contention: any number of
/// concurrent requests for one module — serialized by its lock — in which
/// the companion, once spawned, asks to be kept and stays healthy, runs at
/// most one spawn in total, and the slot holds exactly one live companion
/// at the end.
pub proof fn lemma_concurrent_requests_spawn_at_most_once(
    slot: CompanionSlot,
    evs: Seq<(PollStatus, SpawnVerdict)>,
)
    requires
        forall|i: int| 0 <= i < evs.len() ==> (#[trigger] evs[i]).0 == PollStatus::Quiet,
        forall|i: int| 0 <= i < evs.len() ==> (#[trigger] evs[i]).1 == SpawnVerdict::Keep,
    ensures
        spec_spawns_in(slot, evs) <= 1,
        evs.len() > 0 ==> spec_run_requests(slot, evs) == CompanionSlot::Live,
{
    if evs.len() > 0 {
        if slot == CompanionSlot::Live {
            lemma_live_companion_never_respawned(slot, evs);
        } else {
            assert(evs[0].0 == PollStatus::Quiet && evs[0].1 == SpawnVerdict::Keep);
            assert(spec_slot_after(slot, evs[0].0, evs[0].1) == CompanionSlot::Live);
            lemma_live_companion_never_respawned(CompanionSlot::Live, evs.drop_first());
        }
    }
}

/// Splitting a run after its first request: the spawn count of the whole
/// run is the first request's contribution plus the rest's.
pub proof fn lemma_spawns_in_push(
    slot: CompanionSlot,
    evs: Seq<(PollStatus, SpawnVerdict)>,
    e: (PollStatus, SpawnVerdict),
)
    ensures
        spec_spawns_in(slot, evs.push(e)) == spec_spawns_in(slot, evs) + (
        if spec_spawn_attempted(spec_run_requests(slot, evs), e.0) {
            1nat
        } else {
            0nat
        }),
        spec_run_requests(slot, evs.push(e)) == spec_slot_after(
            spec_run_requests(slot, evs),
            e.0,
            e.1,
        ),
    decreases evs.len(),
{
    reveal_with_fuel(spec_spawns_in, 2);
    reveal_with_fuel(spec_run_requests, 2);
    if evs.len() == 0 {
        assert(evs.push(e)[0] == e);
        assert(evs.push(e).drop_first() =~= Seq::<(PollStatus, SpawnVerdict)>::empty());
    } else {
        assert(evs.push(e)[0] == evs[0]);
        assert(evs.push(e).drop_first() =~= evs.drop_first().push(e));
        lemma_spawns_in_push(spec_slot_after(slot, evs[0].0, evs[0].1), evs.drop_first(), e);
    }
}

/// A companion whose peer has exited is detected by the probe and
/// respawned exactly once, on the next request and not before: the earlier
/// requests, whose probes were quiet, spawn nothing and keep the slot
/// live; the first request whose probe observes the hangup clears the
/// slot and runs exactly one spawn attempt.
pub proof fn lemma_dead_companion_respawned_once(
    slot: CompanionSlot,
    earlier: Seq<(PollStatus, SpawnVerdict)>,
    spawn: SpawnVerdict,
)
    requires
        slot == CompanionSlot::Live,
        forall|i: int| 0 <= i < earlier.len() ==> (#[trigger] earlier[i]).0 == PollStatus::Quiet,
    ensures
        spec_spawns_in(slot, earlier) == 0,
        spec_spawns_in(slot, earlier.push((PollStatus::Hup, spawn))) == 1,
        spec_run_requests(slot, earlier.push((PollStatus::Hup, spawn))) == (
        if spawn == SpawnVerdict::Keep {
            CompanionSlot::Live
        } else {
            CompanionSlot::Vacant
        }),
{
    lemma_live_companion_never_respawned(slot, earlier);
    lemma_spawns_in_push(slot, earlier, (PollStatus::Hup, spawn));
}

} // verus!
