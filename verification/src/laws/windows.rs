//! A sealed run on Windows.

use vstd::prelude::*;

use crate::backend::{BackendInfo, Execution, SealedAvailability};
use crate::evidence::{Error, InitialSpawnFailure, ProviderRejectionEvidence};
use crate::policy::{AttemptContext, BoundaryClass, BoundaryRequirement, Policy};
use crate::sealed::windows::{
    acknowledge_terminal_retirement, availability, probe, qualification_fields_are_advertisable,
    rejection_error, run, windows_standard_route_selected, AckAnswer, Claim, PreparedAnswer,
    ProbeAnswer, RelayEvent, Response, RunAction, RunStage, WindowsRun, WindowsTerminal,
};
use crate::sealed::windows_token::{
    checked_token_group_entries_range, checked_token_sid_range, token_group_entries,
    token_group_storage_contains, token_user_sid, token_user_storage_matches,
    validated_token_sid_range, GroupEntry, SidReading,
};
use crate::sealed::windows_wire::{
    adopt, all_pipes, announced_length, cancel_finding, connect_failed, encode_command,
    encode_environment, encode_policy, eq_but_case, frame_available, goes_to_provider,
    native_failure, peer_image, peer_service, read_step, relay_read, relay_wait, relay_wrote,
    start_relays, wait_verdict, write_frame, write_step, ConnectStep, FrameFailure, FramePhase,
    PublicFrameError, RelayStep, Relays, RemoteStream, StreamRole, ThreadWait, WaitVerdict,
    WindowsCommand, WindowsEnvironmentEntry, WindowsLaunchPolicy,
};
use crate::time::Duration;

verus! {

/// A provider is taken only with a consistent qualification of this version and under the
/// identity of this package.
pub proof fn providers_are_qualified(
    answer: ProbeAnswer,
    version: u32,
    package: &str,
    r: Result<String, String>,
)
    requires
        call_ensures(probe, (answer, version, package), r),
    ensures
        r is Ok ==> (answer matches ProbeAnswer::Probe {
            version: told,
            qualified,
            consistent,
            provider_identity,
        } && told == version && qualified && consistent && r == Ok::<String, String>(
            provider_identity,
        ) && provider_identity@ == "memcordon-sealed-agent-windows-v1:"@ + package@),
        (answer matches ProbeAnswer::Probe { version: told, qualified, consistent, provider_identity }
            && told == version && qualified && consistent && provider_identity@
            == "memcordon-sealed-agent-windows-v1:"@ + package@) ==> r is Ok,
{
}

/// Without a mutation a sealed request never takes the standard route, and what is not
/// qualified is not advertised.
pub proof fn sealed_requests_do_not_fall_back(
    boundary: BoundaryRequirement,
    standard: bool,
    qualified: bool,
    consistent: bool,
    advertised: bool,
)
    requires
        call_ensures(
            windows_standard_route_selected,
            (boundary, None::<crate::sealed::windows::WindowsSealedMutant>),
            standard,
        ),
        call_ensures(
            qualification_fields_are_advertisable,
            (qualified, consistent, None::<crate::sealed::windows::WindowsSealedMutant>),
            advertised,
        ),
    ensures
        standard <==> boundary == BoundaryRequirement::Standard,
        advertised <==> qualified && consistent,
{
}

/// An installed provider is available with a sealed boundary that its target cannot change,
/// under its own identity.
pub proof fn installed_providers_are_sealed(identity: String, receipt: &[u8], r: SealedAvailability)
    requires
        call_ensures(availability, (identity, receipt), r),
    ensures
        r matches SealedAvailability::Available { capability, qualification } && capability.class
            == BoundaryClass::Sealed && !capability.target_can_reconfigure_boundary
            && capability.target_gated && capability.boundary_verified_before_authorization
            && capability.frontend_loss_cleanup_authority && capability.workload_empty_proof
            && qualification.provider_identity@ == identity@ && capability.mechanism@
            == "windows-job-object-v2"@ && qualification.mechanism@ == "windows-job-object-v2"@,
{
    assert(r@ is Available);
}

/// A rejection keeps what it says: the system's number, whether the workload may live, and
/// why a target could not be started.
pub proof fn rejections_are_told(rejection: ProviderRejectionEvidence, r: Error)
    requires
        call_ensures(rejection_error, (rejection,), r),
    ensures
        !r.target_released && r.os_code == rejection.os_code,
        r.workload_may_be_alive <==> rejection.target_created
            && rejection.restart_safety.workload_empty != Some(true),
        rejection.code@ == "MCSPAWN-NOT-FOUND"@ ==> r.code == "MCSPAWN-NOT-FOUND"
            && r.initial_spawn_failure == Some(InitialSpawnFailure::NotFound),
        r.provider_rejection matches Some(told) && told@ == rejection@,
        r.restart_safety matches Some(proof) && proof@ == rejection.restart_safety@,
{
    assert(r@.target_released == r.target_released);
    assert(r@.provider_rejection is Some && r@.restart_safety is Some);
}

/// A run begins only on an answer to this request.
pub proof fn runs_begin_with_their_request(
    claim: Claim,
    version: u32,
    nonce: &str,
    digest: &str,
    r: Result<WindowsRun, Error>,
)
    requires
        call_ensures(
            WindowsRun::begin,
            (PreparedAnswer::StreamsPrepared(claim), version, nonce, digest),
            r,
        ),
    ensures
        r is Ok <==> claim.version == version && claim.nonce@ == nonce@ && claim.request_sha256@
            == digest@,
        r matches Ok(run) ==> run.binding == claim && !run.authorized && !run.retired
            && !run.replay_consumed && !run.cancel_sent && run.stage == RunStage::Look,
{
}

/// The provider's word counts only about this attempt and in its turn: authorized before it
/// is retired, and the end only behind both, or as a replay.
pub proof fn responses_come_in_turn(
    a: &mut WindowsRun,
    claim: Claim,
    now: Duration,
    authorized: Result<RunAction, Error>,
    b: &mut WindowsRun,
    retired: Result<RunAction, Error>,
    c: &mut WindowsRun,
    bounded: bool,
    end: Result<RunAction, Error>,
)
    requires
        old(a).wf() && old(a).stage == RunStage::Read,
        old(b).wf() && old(b).stage == RunStage::Read,
        old(c).wf() && old(c).stage == RunStage::Read,
        call_ensures(
            WindowsRun::respond,
            (a, Response::TargetAuthorized(claim), now),
            authorized,
        ),
        call_ensures(WindowsRun::respond, (b, Response::TargetRetired(claim), now), retired),
        call_ensures(WindowsRun::respond, (c, Response::Terminal { claim, bounded }, now), end),
    ensures
        authorized is Ok <==> same_claim(claim, old(a).binding) && !old(a).authorized && !old(
            a).retired,
        authorized is Ok ==> authorized == Ok::<RunAction, Error>(
            RunAction::Advance(RelayEvent::TargetAuthorized),
        ),
        retired is Ok <==> same_claim(claim, old(b).binding) && old(b).authorized && !old(
            b).retired,
        end is Ok ==> claim.attempt_id@ == old(c).binding.attempt_id@ && claim.nonce@ == old(
            c).binding.nonce@ && claim.request_sha256@ == old(c).binding.request_sha256@ && (old(
            c).authorized && old(c).retired || old(c).replay_consumed) && bounded,
        end is Ok && old(c).replay_consumed ==> end == Ok::<RunAction, Error>(
            RunAction::Acknowledge,
        ),
        end is Ok && !old(c).replay_consumed ==> end == Ok::<RunAction, Error>(
            RunAction::Advance(RelayEvent::Terminal),
        ),
        authorized matches Err(error) ==> error.code == "MCSEALED-WINDOWS-TRANSPORT",
{
}

/// Whether two claims are the same in every part.
pub open spec fn same_claim(a: Claim, b: Claim) -> bool {
    a.version == b.version && a.attempt_id@ == b.attempt_id@ && a.nonce@ == b.nonce@
        && a.request_sha256@ == b.request_sha256@
}

/// A step that the relays took is remembered: authorized, retired, or the end, which is
/// acknowledged.
pub proof fn steps_are_remembered(
    run: &mut WindowsRun,
    event: RelayEvent,
    ack: bool,
    r: Result<RunAction, Error>,
)
    requires
        old(run).wf(),
        old(run).stage == RunStage::Advance(event),
        call_ensures(WindowsRun::advanced, (run, event, Ok::<(), String>(()), ack), r),
    ensures
        event == RelayEvent::TargetAuthorized ==> final(run).authorized && r is Ok,
        event == RelayEvent::RelaysRetired ==> final(run).retired && r is Ok,
        event == RelayEvent::Terminal ==> r == Ok::<RunAction, Error>(RunAction::Acknowledge),
        event == RelayEvent::Reject && !ack ==> (r matches Err(error) && error@ == old(
            run).rejection->0@),
        event == RelayEvent::Reject && ack ==> r == Ok::<RunAction, Error>(RunAction::Acknowledge),
        event == RelayEvent::TargetRetired && !old(run).relays.retired ==> r == Ok::<
            RunAction,
            Error,
        >(RunAction::RetireRelays),
{
}

/// A signal is passed on to the provider once.
pub proof fn cancellations_are_sent_once(
    a: &mut WindowsRun,
    signal: Result<Option<i32>, String>,
    r: Result<RunAction, Error>,
    b: &mut WindowsRun,
    sent: Result<RunAction, Error>,
)
    requires
        old(a).wf() && old(a).stage == RunStage::Idle,
        call_ensures(WindowsRun::idled, (a, signal), r),
        old(b).wf() && old(b).stage == RunStage::Cancel,
        call_ensures(WindowsRun::cancelled, (b, Ok::<(), String>(())), sent),
    ensures
        !old(a).cancel_sent ==> (signal matches Ok(Some(number)) ==> r == Ok::<RunAction, Error>(
            RunAction::SendCancel(number),
        )),
        old(a).cancel_sent ==> r == Ok::<RunAction, Error>(RunAction::Look),
        signal matches Ok(None) ==> r == Ok::<RunAction, Error>(RunAction::Look),
        final(b).cancel_sent,
{
}

/// A run that is over comes out as the provider's receipt tells it, where that is complete,
/// safe and consistent.
pub proof fn windows_runs_end_as_told(
    terminal: WindowsTerminal,
    backend: BackendInfo,
    safe: bool,
    consistent: bool,
    r: Result<Execution, Error>,
)
    requires
        call_ensures(run, (terminal, backend, safe, consistent), r),
    ensures
        r is Ok <==> terminal.schema_version == 1 && safe && consistent,
        r matches Ok(execution) ==> execution.outcome == terminal.outcome && execution.child_pid
            == terminal.child_pid && execution.duration@ == terminal.duration_millis * 1_000_000
            && execution.backend == backend && execution.restart_safety == terminal.restart_safety
            && execution.launch.target_released && execution.launch.boundary_effective
            == BoundaryClass::Sealed && (execution.authorization_offset matches Some(offset)
            && offset@ == terminal.authorization_offset_millis * 1_000_000),
        terminal.schema_version != 1 || !safe ==> (r matches Err(error) && error.code
            == "MCSEALED-WINDOWS-TERMINAL-EVIDENCE"),
        terminal.schema_version == 1 && safe && !consistent ==> (r matches Err(error) && error.code
            == "MCSEALED-WINDOWS-EVIDENCE"),
{
    if r is Ok {
        assert(r->Ok_0.launch@.target_released == r->Ok_0.launch.target_released);
    }
}

/// An end is over only once the provider confirms it as this attempt's.
pub proof fn ends_are_confirmed(answer: AckAnswer, r: Result<(), String>)
    requires
        call_ensures(acknowledge_terminal_retirement, (answer,), r),
    ensures
        r is Ok <==> (answer matches AckAnswer::TerminalRetired { bound } && bound),
{
}

/// A launch carries the policy's own limits, and the deadline on the provider's clock: the
/// shorter of the policy's and of what the supervision has left.
pub proof fn launches_carry_the_policy(
    policy: &Policy,
    context: AttemptContext,
    tick: u64,
    r: Result<WindowsLaunchPolicy, &'static str>,
)
    requires
        call_ensures(encode_policy, (policy, context, tick), r),
    ensures
        r matches Ok(told) ==> {
            &&& told.memory_limit_bytes == policy.memory && told.lifetime == policy.lifetime
            &&& told.absolute_deadline_millis is Some <==> policy.deadline is Some
                || context.supervision_deadline_remaining is Some
            &&& (policy.deadline matches Some(deadline) && tick + deadline.duration@ / 1_000_000
                <= u64::MAX) && context.supervision_deadline_remaining is None
                ==> told.absolute_deadline_millis == Some(
                (tick + policy.deadline->0.duration@ / 1_000_000) as u64,
            )
            &&& policy.deadline matches Some(deadline) ==> (
            context.supervision_deadline_remaining matches Some(left) ==> (
            told.absolute_deadline_millis matches Some(at) && at <= tick + left@ / 1_000_000 && at
                <= tick + deadline.duration@ / 1_000_000))
            &&& policy.poll_interval@ <= u64::MAX ==> told.poll_interval_millis as nat
                == policy.poll_interval@ / 1_000_000
            &&& policy.signal_grace@ <= u64::MAX ==> told.signal_grace_millis as nat
                == policy.signal_grace@ / 1_000_000
            &&& policy.command_exit_grace@ <= u64::MAX ==> told.command_exit_grace_millis as nat
                == policy.command_exit_grace@ / 1_000_000
            &&& policy.limit_grace@ <= u64::MAX ==> told.limit_grace_millis as nat
                == policy.limit_grace@ / 1_000_000
        },
        policy.deadline is None && context.supervision_deadline_remaining is None ==> r is Ok,
{
}

/// A command and its environment go out as they are, or not at all.
pub proof fn commands_go_out_as_they_are(
    command: WindowsCommand,
    r: Result<WindowsCommand, &'static str>,
    entries: Vec<WindowsEnvironmentEntry>,
    e: Result<Vec<WindowsEnvironmentEntry>, &'static str>,
)
    requires
        call_ensures(encode_command, (command,), r),
        call_ensures(encode_environment, (entries,), e),
    ensures
        r matches Ok(told) ==> told == command,
        r is Ok <==> command.program@.len() > 0 && forall|i: int|
            0 <= i < command.program@.len() ==> command.program@[i] != 0,
        e matches Ok(told) ==> told == entries,
{
}

/// A frame is its payload behind its length, low byte first, and its reader knows how long
/// it is.
pub proof fn frames_tell_their_length(
    payload: &[u8],
    limit: usize,
    r: Result<Vec<u8>, &'static str>,
    header: &[u8],
    told: Result<usize, PublicFrameError>,
)
    requires
        limit <= u32::MAX,
        call_ensures(write_frame, (payload, limit), r),
        header@.len() == 4,
        r is Ok ==> header@ == r->Ok_0@.take(4),
        call_ensures(announced_length, (header, limit), told),
    ensures
        r is Ok <==> payload@.len() <= limit,
        r is Ok ==> told == Ok::<usize, PublicFrameError>(payload@.len() as usize) && r->Ok_0@.skip(
            4,
        ) == payload@ && r->Ok_0@.len() == 4 + payload@.len(),
{
    if r is Ok {
        crate::bytes::le32_round(payload@.len() as u32);
        let bytes = r->Ok_0@;
        assert(bytes.skip(4) =~= payload@);
        assert(header@[0] == crate::bytes::le32(payload@.len() as u32)[0]);
        assert(header@[1] == crate::bytes::le32(payload@.len() as u32)[1]);
        assert(header@[2] == crate::bytes::le32(payload@.len() as u32)[2]);
        assert(header@[3] == crate::bytes::le32(payload@.len() as u32)[3]);
    }
}

/// A peer that hung up is told from one that broke the protocol.
pub proof fn hanging_up_is_no_protocol_fault(
    code: Option<u32>,
    phase: FramePhase,
    detail: String,
    r: PublicFrameError,
)
    requires
        call_ensures(native_failure, (code, phase, detail), r),
    ensures
        code == Some(109u32) || code == Some(232u32) || code == Some(233u32) <==> r.failure
            == FrameFailure::PeerClosed(phase),
        r.failure == FrameFailure::PeerClosed(phase) || r.failure == FrameFailure::Protocol(phase),
{
}

/// The peer is the restricted service, by user, group and restriction alike; its image is
/// compared without regard to case.
pub proof fn peers_are_the_restricted_service(
    user: Result<bool, &'static str>,
    group: Result<bool, &'static str>,
    restricted: Result<bool, &'static str>,
    r: Result<(), &'static str>,
    a: &str,
    b: &str,
    same: bool,
)
    requires
        call_ensures(peer_service, (user, group, restricted), r),
        call_ensures(eq_but_case, (a, b), same),
    ensures
        r is Ok <==> user == Ok::<bool, &'static str>(true) && group == Ok::<bool, &'static str>(true)
            && restricted == Ok::<bool, &'static str>(true),
        a@ == b@ ==> same,
        a@.len() != b@.len() ==> !same,
{
}

/// Each stream has a handle of its own, and so has the event of their end; every handle that
/// came is taken over once.
pub proof fn relays_have_their_own_handles(
    streams: &Vec<RemoteStream>,
    event: u64,
    validated: Result<(), &'static str>,
    r: Result<(), &'static str>,
    taken: Vec<u64>,
)
    requires
        call_ensures(start_relays, (streams, event, validated), r),
        call_ensures(adopt, (streams, event), taken),
    ensures
        r is Ok ==> validated is Ok && event != 0 && forall|i: int|
            0 <= i < streams@.len() ==> (#[trigger] streams@[i]).handle != 0 && streams@[i].handle
                != event,
        r is Ok ==> forall|i: int, j: int|
            0 <= i < j < streams@.len() ==> (#[trigger] streams@[i]).handle != (
            #[trigger] streams@[j]).handle,
        event != 0 ==> taken@.contains(event),
        forall|i: int|
            0 <= i < streams@.len() && (#[trigger] streams@[i]).handle != 0 ==> taken@.contains(
                streams@[i].handle,
            ),
        !taken@.contains(0u64),
{
    if r is Ok {
        assert forall|i: int| 0 <= i < streams@.len() implies (#[trigger] streams@[i]).handle != 0
            && streams@[i].handle != event by {}
        assert forall|i: int, j: int| 0 <= i < j < streams@.len() implies (
        #[trigger] streams@[i]).handle != (#[trigger] streams@[j]).handle by {
            assert(streams@.take(j)[i] == streams@[i]);
        }
    }
    let from = crate::sealed::windows_wire::taken_from(streams@);
    handles_are_taken(streams@);
    if event != 0 && !from.contains(event) {
        assert(from.push(event)[from.len() as int] == event);
        assert forall|i: int|
            0 <= i < streams@.len() && (#[trigger] streams@[i]).handle != 0 implies taken@.contains(
            streams@[i].handle,
        ) by {
            let k = choose|k: int| 0 <= k < from.len() && from[k] == streams@[i].handle;
            assert(from.push(event)[k] == streams@[i].handle);
        }
        if taken@.contains(0u64) {
            let k = choose|k: int| 0 <= k < taken@.len() && taken@[k] == 0;
            if k < from.len() {
                assert(from[k] == 0);
            }
        }
    }
}

proof fn handles_are_taken(streams: Seq<RemoteStream>)
    ensures
        forall|i: int|
            0 <= i < streams.len() && (#[trigger] streams[i]).handle != 0
                ==> crate::sealed::windows_wire::taken_from(streams).contains(streams[i].handle),
        !crate::sealed::windows_wire::taken_from(streams).contains(0u64),
    decreases streams.len(),
{
    if streams.len() > 0 {
        let front = streams.drop_last();
        handles_are_taken(front);
        let before = crate::sealed::windows_wire::taken_from(front);
        let all = crate::sealed::windows_wire::taken_from(streams);
        let handle = streams.last().handle;
        assert forall|i: int| 0 <= i < streams.len() && (#[trigger] streams[i]).handle != 0 implies all.contains(
        streams[i].handle) by {
            if i < front.len() {
                assert(front[i] == streams[i]);
                let k = choose|k: int| 0 <= k < before.len() && before[k] == streams[i].handle;
                assert(all[k] == streams[i].handle);
            } else if !before.contains(handle) {
                assert(all[before.len() as int] == handle);
            }
        }
        if all.contains(0u64) {
            let k = choose|k: int| 0 <= k < all.len() && all[k] == 0;
            if k < before.len() {
                assert(before[k] == 0);
            }
        }
    }
}

/// A relay passes on all it read before it reads again, and ends where nothing comes or goes
/// any more; only the input goes to the provider.
pub proof fn relays_pass_on_all_they_read(
    read: Option<u32>,
    step: RelayStep,
    total: usize,
    from: usize,
    written: Option<u32>,
    r: Result<RelayStep, &'static str>,
    role: StreamRole,
    goes: bool,
    now: Duration,
    deadline: Duration,
    wait: u32,
)
    requires
        call_ensures(relay_read, (read,), step),
        from < total,
        written matches Some(count) ==> count <= total - from,
        call_ensures(relay_wrote, (total, from, written), r),
        call_ensures(goes_to_provider, (role,), goes),
        call_ensures(relay_wait, (now, deadline), wait),
    ensures
        step == RelayStep::End <==> read is None || read == Some(0u32),
        (read matches Some(count) && count > 0) ==> step == (RelayStep::Write { from: 0 }),
        (written matches Some(count) && 0 < count && from + count < total) ==> r == Ok::<
            RelayStep,
            &'static str,
        >(RelayStep::Write { from: (from + written->0) as usize }),
        (written matches Some(count) && 0 < count && from + count == total) ==> r == Ok::<
            RelayStep,
            &'static str,
        >(RelayStep::Wait),
        written is None ==> r == Ok::<RelayStep, &'static str>(RelayStep::End),
        written == Some(0u32) ==> r is Err,
        goes <==> role == StreamRole::Stdin,
        now@ >= deadline@ ==> wait == 0,
        now@ < deadline@ <= now@ + 4_000_000_000_000_000 ==> wait * 1_000_000 <= deadline@ - now@
            < (wait + 1) * 1_000_000,
{
}

/// What is read of a token lies within the answer.
pub proof fn tokens_are_read_within_bounds(
    length: usize,
    count: usize,
    range: Result<(usize, usize), &'static str>,
    storage: &[u8],
    base: u64,
    sid: u64,
    place: Result<(usize, usize), &'static str>,
    entries: Result<Vec<GroupEntry>, &'static str>,
)
    requires
        storage@.len() <= isize::MAX,
        call_ensures(checked_token_group_entries_range, (length, count), range),
        call_ensures(checked_token_sid_range, (storage, length, base, sid), place),
        call_ensures(token_group_entries, (storage, length, base), entries),
    ensures
        range matches Ok((from, to)) ==> from == 8 && to == 8 + 16 * count && to <= length,
        range is Err ==> 8 + 16 * count > length,
        place matches Ok((from, to)) ==> from < to <= length <= storage@.len() && base + from == sid
            && to - from == 8 + 4 * storage@[from + 1],
        entries matches Ok(list) ==> length <= storage@.len() && 8 + 16 * list@.len() <= length,
{
}

/// A run reads just what is there; where nothing is, it idles, but not past the deadline of
/// a replay; where the pipe is lost, it asks whether the loss is one to recover from.
pub proof fn runs_read_what_is_there(
    run: &mut WindowsRun,
    available: Result<bool, PublicFrameError>,
    now: Duration,
    r: Result<RunAction, Error>,
)
    requires
        old(run).wf() && old(run).stage == RunStage::Look,
        call_ensures(WindowsRun::looked, (run, available, now), r),
    ensures
        available == Ok::<bool, PublicFrameError>(true) <==> r == Ok::<RunAction, Error>(
            RunAction::Read,
        ),
        available matches Err(error) ==> r == Ok::<RunAction, Error>(
            RunAction::ObserveFailure(error.failure),
        ) && final(run).lost == Some(error),
        available == Ok::<bool, PublicFrameError>(false) ==> (r is Err <==> old(run).replay_consumed
            && now@ >= old(run).deadline->0@),
        available == Ok::<bool, PublicFrameError>(false) && r is Ok && !old(run).cancel_sent ==> r
            == Ok::<RunAction, Error>(RunAction::WaitSignal),
        available == Ok::<bool, PublicFrameError>(false) && r is Ok && old(run).cancel_sent ==> r
            == Ok::<RunAction, Error>(RunAction::Pause),
        final(run).authorized == old(run).authorized || r is Err,
{
}

/// After a loss the end is asked for again once, within thirty seconds, and only once the
/// relays are retired.
pub proof fn ends_are_asked_for_again_once(
    a: &mut WindowsRun,
    once: bool,
    now: Duration,
    r: Result<RunAction, Error>,
    b: &mut WindowsRun,
    findings: &Vec<String>,
    s: Result<RunAction, Error>,
)
    requires
        now@ <= u64::MAX,
        old(a).wf() && old(a).stage == RunStage::Lost,
        call_ensures(WindowsRun::observed, (a, once, now), r),
        old(b).wf() && old(b).stage == RunStage::LostRetire && old(b).replay_consumed,
        call_ensures(WindowsRun::lost_retired, (b, findings, now), s),
    ensures
        r is Ok <==> once,
        r is Ok ==> final(a).replay_consumed && final(a).primary is Some,
        r is Ok && old(a).relays.retired ==> r == Ok::<RunAction, Error>(RunAction::Reconnect)
            && final(a).deadline->0@ == now@ + 30_000_000_000,
        r is Ok && !old(a).relays.retired ==> r == Ok::<RunAction, Error>(RunAction::RetireRelays),
        s is Ok <==> findings@.len() == 0,
        s is Ok ==> s == Ok::<RunAction, Error>(RunAction::Reconnect) && final(b).relays.retired
            && final(b).deadline->0@ == now@ + 30_000_000_000,
{
}

/// A replay is looked for until its deadline, even where something is there after it; it is
/// begun only where the provider was reached again.
pub proof fn replays_end_at_their_deadline(
    a: &mut WindowsRun,
    available: Result<bool, PublicFrameError>,
    now: Duration,
    r: Result<RunAction, Error>,
    b: &mut WindowsRun,
    reached: Result<(), crate::sealed::windows::ReconnectFault>,
    s: Result<RunAction, Error>,
)
    requires
        old(a).wf() && old(a).stage == RunStage::ReplayLook,
        call_ensures(WindowsRun::replay_looked, (a, available, now), r),
        old(b).wf() && old(b).stage == RunStage::LostReconnect,
        call_ensures(WindowsRun::reconnected, (b, reached), s),
    ensures
        now@ >= old(a).deadline->0@ ==> r is Err,
        now@ < old(a).deadline->0@ ==> (r is Err <==> available is Err),
        now@ < old(a).deadline->0@ && available == Ok::<bool, PublicFrameError>(true) ==> r == Ok::<
            RunAction,
            Error,
        >(RunAction::Read) && final(a).stage == RunStage::ReplayRead,
        now@ < old(a).deadline->0@ && available == Ok::<bool, PublicFrameError>(false) ==> r
            == Ok::<RunAction, Error>(RunAction::PauseLook) && *final(a) == *old(a),
        s is Ok <==> reached is Ok,
        s is Ok ==> s == Ok::<RunAction, Error>(RunAction::Look) && final(b).stage
            == RunStage::ReplayLook,
{
}

/// An end that is not ready is asked for again where that is admitted, once the relays are
/// retired, and for thirty seconds.
pub proof fn pending_ends_are_waited_for(
    a: &mut WindowsRun,
    admitted: bool,
    now: Duration,
    r: Result<RunAction, Error>,
    b: &mut WindowsRun,
    findings: &Vec<String>,
    s: Result<RunAction, Error>,
    c: &mut WindowsRun,
    sent: Result<(), String>,
    t: Result<RunAction, Error>,
)
    requires
        now@ <= u64::MAX,
        old(a).wf() && old(a).stage == RunStage::PendingAdmit,
        call_ensures(WindowsRun::pending_admitted, (a, admitted, now), r),
        old(b).wf() && old(b).stage == RunStage::PendingRetire && old(b).replay_consumed,
        call_ensures(WindowsRun::pending_retired, (b, findings, now), s),
        old(c).wf() && old(c).stage == RunStage::PendingSend,
        call_ensures(WindowsRun::pending_sent, (c, sent), t),
    ensures
        r is Ok <==> admitted,
        r is Ok ==> final(a).replay_consumed,
        r is Ok && !old(a).relays.retired ==> r == Ok::<RunAction, Error>(RunAction::RetireRelays),
        r is Ok && old(a).relays.retired ==> r == Ok::<RunAction, Error>(RunAction::Reconnect)
            && final(a).deadline->0@ == now@ + 30_000_000_000,
        s is Ok <==> findings@.len() == 0,
        s is Ok ==> s == Ok::<RunAction, Error>(RunAction::Reconnect) && final(b).relays.retired
            && final(b).deadline->0@ == now@ + 30_000_000_000,
        t is Ok <==> sent is Ok,
        t is Ok ==> t == Ok::<RunAction, Error>(RunAction::Look),
{
}

/// The provider hears that the relays are retired only where all of them are, and the run is
/// over only once its end is acknowledged; a rejection stays one.
pub proof fn ends_follow_the_relays(
    a: &mut WindowsRun,
    findings: &Vec<String>,
    r: Result<RunAction, Error>,
    b: &mut WindowsRun,
    sent: Result<(), String>,
    s: Result<RunAction, Error>,
    c: &mut WindowsRun,
    told: Result<(), String>,
    t: Result<RunAction, Error>,
)
    requires
        old(a).wf() && old(a).stage == RunStage::Retire,
        call_ensures(WindowsRun::relays_retired, (a, findings), r),
        old(b).wf() && old(b).stage == RunStage::SendRetired,
        call_ensures(WindowsRun::retired_sent, (b, sent), s),
        old(c).wf() && (old(c).stage == RunStage::Acknowledge || old(c).stage
            == RunStage::AcknowledgeReject),
        call_ensures(WindowsRun::acknowledged, (c, told), t),
    ensures
        r is Ok <==> findings@.len() == 0,
        r is Ok ==> r == Ok::<RunAction, Error>(RunAction::SendRelaysRetired) && final(
            a).relays.retired,
        s is Ok <==> sent is Ok,
        s is Ok ==> s == Ok::<RunAction, Error>(RunAction::Advance(RelayEvent::RelaysRetired)),
        t is Ok <==> old(c).stage == RunStage::Acknowledge && told is Ok,
        t is Ok ==> t == Ok::<RunAction, Error>(RunAction::Finish) && final(c).stage
            == RunStage::Over,
        old(c).stage == RunStage::AcknowledgeReject && told is Ok ==> (t matches Err(error)
            && error@ == old(c).rejection->0@),
        old(c).stage == RunStage::AcknowledgeReject ==> (t matches Err(error) && error@.code
            == old(c).rejection->0@.code),
{
}

/// An identity is accepted only where it is valid and as long as its place says.
pub proof fn identities_are_validated(
    storage: &[u8],
    length: usize,
    base: u64,
    sid: u64,
    reading: SidReading,
    place: Result<(usize, usize), &'static str>,
    r: Result<(usize, usize), &'static str>,
    user: Result<(usize, usize), &'static str>,
    expected: Result<(), &'static str>,
    matches: Result<bool, &'static str>,
)
    requires
        storage@.len() <= isize::MAX,
        call_ensures(checked_token_sid_range, (storage, length, base, sid), place),
        call_ensures(validated_token_sid_range, (storage, length, base, sid, reading), r),
        call_ensures(token_user_sid, (storage, length, base, reading), user),
        call_ensures(token_user_storage_matches, (storage, length, base, reading, expected), matches),
    ensures
        r is Ok <==> place is Ok && reading.valid && reading.length == place->Ok_0.1
            - place->Ok_0.0,
        r is Ok ==> r == place,
        user matches Ok((from, to)) ==> 16 <= length <= storage@.len() && reading.valid
            && reading.length == to - from && base + from == bytes_eight(storage@, 0),
        matches is Ok <==> user is Ok && expected is Ok,
        matches matches Ok(same) ==> same == reading.expected,
{
}

/// Eight bytes as a number, the low one first.
pub open spec fn bytes_eight(s: Seq<u8>, i: int) -> int {
    s[i] + 256 * s[i + 1] + 65536 * s[i + 2] + 16777216 * s[i + 3] + 4294967296 * (s[i + 4] + 256
        * s[i + 5] + 65536 * s[i + 6] + 16777216 * s[i + 7])
}

/// Whether the attributes of a group have it enabled and not merely for denial.
pub open spec fn enabled(attributes: u32) -> bool {
    attributes / 4 % 2 == 1 && attributes / 16 % 2 == 0
}

proof fn enabled_bits(attributes: u32)
    ensures
        attributes & 4 != 0 && attributes & 16 == 0 <==> enabled(attributes),
{
    assert((attributes & 4 != 0) == (attributes / 4 % 2 == 1)) by (bit_vector);
    assert((attributes & 16 == 0) == (attributes / 16 % 2 == 0)) by (bit_vector);
}

/// A group list is one the expected group is in only where one of its entries reads so, is
/// enabled, and is not there for denial alone; one that has no such entry is none.
pub proof fn groups_count_where_enabled(
    storage: &[u8],
    length: usize,
    base: u64,
    readings: &Vec<SidReading>,
    entries: Result<Vec<GroupEntry>, &'static str>,
    r: Result<bool, &'static str>,
)
    requires
        storage@.len() <= isize::MAX,
        call_ensures(token_group_entries, (storage, length, base), entries),
        entries is Ok ==> readings@.len() == entries->Ok_0@.len(),
        call_ensures(token_group_storage_contains, (storage, length, base, readings), r),
    ensures
        entries is Err ==> r is Err,
        r == Ok::<bool, &'static str>(true) ==> exists|i: int|
            0 <= i < readings@.len() && (#[trigger] readings@[i]).expected && readings@[i].valid
                && enabled(entries->Ok_0@[i].attributes),
        r == Ok::<bool, &'static str>(false) ==> forall|i: int|
            0 <= i < readings@.len() ==> (#[trigger] readings@[i]).valid && !(readings@[i].expected
                && enabled(entries->Ok_0@[i].attributes)),
{
    if let Ok(list) = entries {
        groups_are_gone_through(storage@, length as int, base, list@, readings@, 0);
    }
}

proof fn groups_are_gone_through(
    storage: Seq<u8>,
    length: int,
    base: u64,
    list: Seq<GroupEntry>,
    readings: Seq<SidReading>,
    from: int,
)
    requires
        0 <= from <= list.len() && readings.len() == list.len(),
        forall|i: int|
            0 <= i < list.len() ==> #[trigger] list[i] == crate::sealed::windows_token::entry_at(
                storage,
                8 + i * 16,
            ),
    ensures
        ({
            let r = crate::sealed::windows_token::groups_hold(
                storage,
                length,
                base,
                list.len() as int,
                readings,
                from,
            );
            &&& r == Ok::<bool, &'static str>(true) ==> exists|i: int|
                from <= i < readings.len() && (#[trigger] readings[i]).expected && readings[i].valid
                    && enabled(list[i].attributes)
            &&& r == Ok::<bool, &'static str>(false) ==> forall|i: int|
                from <= i < readings.len() ==> (#[trigger] readings[i]).valid && !(
                readings[i].expected && enabled(list[i].attributes))
        }),
    decreases list.len() - from,
{
    if from < list.len() {
        enabled_bits(list[from].attributes);
        assert(list[from] == crate::sealed::windows_token::entry_at(storage, 8 + from * 16));
        assert(readings[from].expected || !readings[from].expected);
        groups_are_gone_through(storage, length, base, list, readings, from + 1);
    }
}

/// Only a provider that is busy is tried again, a hundred times at the most; a
/// read or a write that moves nothing is a fault.
pub proof fn connections_are_tried_again(
    code: Option<u32>,
    text: String,
    tried: u32,
    r: ConnectStep,
    left: usize,
    moved: u32,
    read: Result<usize, PublicFrameError>,
    written: Result<usize, &'static str>,
    phase: FramePhase,
    bytes: u32,
    available: bool,
    image: Result<(), &'static str>,
    a: &str,
    b: &str,
    same: bool,
)
    requires
        moved <= left,
        call_ensures(connect_failed, (code, text, tried), r),
        call_ensures(read_step, (left, moved, phase), read),
        call_ensures(write_step, (left, moved), written),
        call_ensures(frame_available, (bytes,), available),
        call_ensures(peer_image, (a, b), image),
        call_ensures(eq_but_case, (a, b), same),
    ensures
        r == ConnectStep::WaitForPipe <==> code == Some(231u32) && tried < 99,
        code != Some(231u32) ==> r == ConnectStep::GiveUp(text),
        read is Ok <==> moved > 0,
        read matches Ok(rest) ==> rest + moved == left,
        read matches Err(error) ==> error.failure == FrameFailure::PeerClosed(phase),
        written is Ok <==> moved > 0,
        written matches Ok(rest) ==> rest + moved == left,
        available <==> bytes >= 4,
        image is Ok <==> same,
{
}

/// A relay that ended is fine, one that does not end makes the process leave, and all else is
/// a finding; that there was nothing to call off is none.
pub proof fn late_relays_end_the_process(
    wait: ThreadWait,
    r: WaitVerdict,
    code: Option<u32>,
    text: &str,
    finding: Option<String>,
    relays: &mut Relays,
    findings: &Vec<String>,
    retired: Result<(), String>,
)
    requires
        call_ensures(wait_verdict, (wait,), r),
        call_ensures(cancel_finding, (code, text), finding),
        !old(relays).retired,
        call_ensures(Relays::retire, (relays, findings), retired),
    ensures
        r == WaitVerdict::Fine <==> wait is Ended,
        r == WaitVerdict::Abort <==> wait is TimedOut,
        finding is None <==> code == Some(1168u32),
        final(relays).retired,
        retired is Ok <==> findings@.len() == 0,
{
}

/// Only pipes are relayed.
pub proof fn only_pipes_are_relayed(kinds: &[u32], r: Result<(), &'static str>, i: int)
    requires
        call_ensures(all_pipes, (kinds,), r),
    ensures
        r is Ok && 0 <= i < kinds@.len() ==> kinds@[i] == 3,
        (forall|k: int| 0 <= k < kinds@.len() ==> #[trigger] kinds@[k] == 3) ==> r is Ok,
{
}

} // verus!
