//! A private launch from its plan to its answer: a fresh plan is asked for, the launch
//! is bound to it and submitted once, and what comes back is taken.

use vstd::prelude::*;
use vstd::string::*;

use crate::bytes::put;
use crate::policy::Policy;
use crate::sealed::frame::{is_frame, FrameView, WireFrame, PRIVATE_VERSION};
use crate::sealed::launch::{
    encode_private_v2_with_plan, fits, private_bytes, PlanPrecondition, PrivateBinding,
};
use crate::sealed::private::{
    after_send, frozen_plan_holds, is_plan_request, is_private_result, private_frame_fault,
    private_fault, private_launch_plannable, private_plan_exchange_v2, private_plan_fault,
    private_plan_request, private_plan_v2, receive_private_result, run_fault, run_private_v2,
    submitted, unplannable, unsubmitted, PrivateContracts, PrivateExpectedResultV2,
    PrivateLaunchErrorV2, PrivatePlanReading, PrivatePlanReceipt, PrivateReading,
    PrivateServiceResultV2, PRIVATE_LAUNCH_KIND, PRIVATE_REJECTION_KIND,
};

verus! {

/// Where a private launch stands.
#[derive(Clone, Copy, Debug, PartialEq, Eq, Structural)]
pub enum PlannedStage {
    /// A plan is to be asked for.
    Planning,
    /// A plan was asked for.
    Asked,
    /// A fresh plan is in.
    Planned,
    /// The request is there to be sent.
    Ready,
    /// The request was sent.
    Sent,
    Over,
}

/// How far a launch is in a given stage.
pub open spec fn stage_rank(stage: PlannedStage) -> int {
    match stage {
        PlannedStage::Planning => 0,
        PlannedStage::Asked => 1,
        PlannedStage::Planned => 2,
        PlannedStage::Ready => 3,
        PlannedStage::Sent => 4,
        PlannedStage::Over => 5,
    }
}

/// Whether a launch can go from one stage to another: to the next one, or to its end.
pub open spec fn moves(from: PlannedStage, to: PlannedStage) -> bool {
    from != PlannedStage::Over && (to == PlannedStage::Over || stage_rank(to) == stage_rank(from)
        + 1)
}

/// A private launch.
#[derive(Debug)]
pub struct PlannedLaunch {
    pub stage: PlannedStage,
    /// The launch is held to a plan that was obtained before.
    pub expected_plan: bool,
    /// The fresh plan must be that earlier one.
    pub frozen: bool,
    /// The nonce of the exchange at hand, and the attempt's identity.
    pub nonce: Vec<u8>,
    pub attempt: Vec<u8>,
    pub plan: Option<PrivatePlanReceipt>,
}

/// What a launch request is made of besides the plan: the launch and its contract, both
/// encoded, the contract's digest, and what the earlier plan holds the provider to.
#[derive(Debug)]
pub struct SubmissionParts {
    pub precondition: Result<PlanPrecondition, String>,
    pub launch: Result<Vec<u8>, String>,
    pub contract: Result<Vec<u8>, String>,
    pub contract_digest: Result<Vec<u8>, String>,
}

/// Why an answer yields no plan, if it yields none.
pub open spec fn plan_refusal(
    frame: FrameView,
    nonce: Seq<u8>,
    reading: PrivatePlanReading,
) -> Option<Seq<char>> {
    match private_plan_fault(frame, nonce, reading) {
        Some(text) => Some(text),
        None => if frame.kind == PRIVATE_REJECTION_KIND {
            Some(
                "private plan unavailable ["@ + reading.rejection->Ok_0.code@ + "]: "@
                    + reading.rejection->Ok_0.detail@,
            )
        } else {
            None
        },
    }
}

/// The request of a launch under a plan, or why there is none. It holds the provider to
/// the earlier plan exactly where the launch is held to one.
pub open spec fn request_of(
    plan: PrivatePlanReceipt,
    expected_plan: bool,
    parts: SubmissionParts,
) -> Result<Seq<u8>, Seq<char>> {
    if expected_plan && parts.precondition is Err {
        Err(parts.precondition->Err_0@)
    } else if parts.launch is Err {
        Err(parts.launch->Err_0@)
    } else if parts.contract is Err {
        Err(parts.contract->Err_0@)
    } else if parts.contract_digest is Err {
        Err(parts.contract_digest->Err_0@)
    } else if !fits(parts.contract->Ok_0@) || !fits(parts.launch->Ok_0@) {
        Err("launch native value exceeds protocol limit"@)
    } else {
        Ok(
            private_bytes(
                PrivateBinding {
                    registry_digest: plan.registry_digest,
                    qualification_digest: plan.installed_qualification_sha256,
                    contract_digest: parts.contract_digest->Ok_0,
                },
                parts.contract->Ok_0@,
                parts.launch->Ok_0@,
                if expected_plan {
                    Some(parts.precondition->Ok_0)
                } else {
                    None
                },
            ),
        )
    }
}

/// What an answer must agree with under a plan.
pub open spec fn expected_of(plan: PrivatePlanReceipt, report_schema: u32) ->
    PrivateExpectedResultV2 {
    PrivateExpectedResultV2 {
        report_schema,
        source_commit: plan.source_commit,
        native_abi: plan.native_abi,
        runtime_manifest_sha256: plan.runtime_manifest_sha256,
        installed_qualification_sha256: plan.installed_qualification_sha256,
    }
}

/// Whether a launch has not asked for anything yet.
pub open spec fn is_fresh(launch: PlannedLaunch, expected_plan: bool, frozen: bool) -> bool {
    launch.stage == PlannedStage::Planning && launch.expected_plan == expected_plan && launch.frozen
        == frozen && launch.plan is None
}

fn begun(
    policy: &Policy,
    contracts: &PrivateContracts,
    expected_plan: bool,
    frozen: bool,
) -> (r: Result<PlannedLaunch, PrivateLaunchErrorV2>)
    ensures
        match r {
            Ok(launch) => unplannable(*policy, *contracts) is None && is_fresh(
                launch,
                expected_plan,
                frozen,
            ),
            Err(error) => unplannable(*policy, *contracts) matches Some(text) && unsubmitted(
                error,
                text,
            ),
        },
{
    match private_launch_plannable(policy, contracts) {
        Err(error) => Err(error),
        Ok(_) => Ok(
            PlannedLaunch {
                stage: PlannedStage::Planning,
                expected_plan,
                frozen,
                nonce: Vec::new(),
                attempt: Vec::new(),
                plan: None,
            },
        ),
    }
}

/// Begins a private launch. A request that is not sealed, or that has an ordinary
/// contract, asks for nothing.
pub fn execute_private_v2(policy: &Policy, contracts: &PrivateContracts) -> (r: Result<
    PlannedLaunch,
    PrivateLaunchErrorV2,
>)
    ensures
        match r {
            Ok(launch) => unplannable(*policy, *contracts) is None && is_fresh(
                launch,
                false,
                false,
            ),
            Err(error) => unplannable(*policy, *contracts) matches Some(text) && unsubmitted(
                error,
                text,
            ),
        },
{
    execute_private_v2_with_expected_plan(policy, contracts, false)
}

/// Begins a private launch that is held to a plan obtained before, where there is one.
pub fn execute_private_v2_with_expected_plan(
    policy: &Policy,
    contracts: &PrivateContracts,
    expected_plan: bool,
) -> (r: Result<PlannedLaunch, PrivateLaunchErrorV2>)
    ensures
        match r {
            Ok(launch) => unplannable(*policy, *contracts) is None && is_fresh(
                launch,
                expected_plan,
                false,
            ),
            Err(error) => unplannable(*policy, *contracts) matches Some(text) && unsubmitted(
                error,
                text,
            ),
        },
{
    begun(policy, contracts, expected_plan, false)
}

/// Begins a private launch with one port changed against an earlier plan. `one_port`
/// says that the contracts differ in exactly one port; `contract` and `caller` are what
/// the plan's validation against contract and caller came to.
pub fn execute_private_v2_frozen_port_rejection(
    policy: &Policy,
    contracts: &PrivateContracts,
    one_port: bool,
    contract: Result<(), String>,
    caller: Result<(), String>,
) -> (r: Result<PlannedLaunch, PrivateLaunchErrorV2>)
    ensures
        if !one_port {
            r matches Err(error) && unsubmitted(
                error,
                "frozen private contract is not exactly one approved-plan port change"@,
            )
        } else if contract is Err {
            r matches Err(error) && unsubmitted(error, contract->Err_0@)
        } else if caller is Err {
            r matches Err(error) && unsubmitted(error, caller->Err_0@)
        } else {
            match r {
                Ok(launch) => unplannable(*policy, *contracts) is None && is_fresh(
                    launch,
                    true,
                    true,
                ),
                Err(error) => unplannable(*policy, *contracts) matches Some(text) && unsubmitted(
                    error,
                    text,
                ),
            }
        },
{
    if !one_port {
        return Err(
            PrivateLaunchErrorV2::BeforeSubmission(
                "frozen private contract is not exactly one approved-plan port change".to_owned(),
            ),
        );
    }
    if let Err(fault) = contract {
        return Err(PrivateLaunchErrorV2::BeforeSubmission(fault));
    }
    if let Err(fault) = caller {
        return Err(PrivateLaunchErrorV2::BeforeSubmission(fault));
    }
    begun(policy, contracts, true, true)
}

fn copied(bytes: &[u8]) -> (r: Vec<u8>)
    ensures
        r@ == bytes@,
{
    let mut out: Vec<u8> = Vec::new();
    put(&mut out, bytes);
    assert(out@ =~= bytes@);
    out
}

/// The request of a launch under a plan, or why there is none.
pub fn planned_request(
    plan: &PrivatePlanReceipt,
    expected_plan: bool,
    parts: SubmissionParts,
) -> (r: Result<Vec<u8>, String>)
    ensures
        match r {
            Ok(bytes) => request_of(*plan, expected_plan, parts) == Ok::<Seq<u8>, Seq<char>>(
                bytes@,
            ),
            Err(text) => request_of(*plan, expected_plan, parts) == Err::<Seq<u8>, Seq<char>>(
                text@,
            ),
        },
{
    let precondition: Option<PlanPrecondition> = if expected_plan {
        match parts.precondition {
            Ok(precondition) => Some(precondition),
            Err(fault) => {
                return Err(fault);
            },
        }
    } else {
        None
    };
    let launch = match parts.launch {
        Ok(launch) => launch,
        Err(fault) => {
            return Err(fault);
        },
    };
    let contract = match parts.contract {
        Ok(contract) => contract,
        Err(fault) => {
            return Err(fault);
        },
    };
    let contract_digest = match parts.contract_digest {
        Ok(digest) => digest,
        Err(fault) => {
            return Err(fault);
        },
    };
    let binding = PrivateBinding {
        registry_digest: copied(plan.registry_digest.as_slice()),
        qualification_digest: copied(plan.installed_qualification_sha256.as_slice()),
        contract_digest,
    };
    match encode_private_v2_with_plan(
        &binding,
        contract.as_slice(),
        launch.as_slice(),
        &precondition,
    ) {
        Ok(bytes) => Ok(bytes),
        Err(text) => Err(text.to_owned()),
    }
}

/// What an answer must agree with under a plan.
pub fn expected_result(plan: &PrivatePlanReceipt, report_schema: u32) -> (r:
    PrivateExpectedResultV2)
    ensures
        r.report_schema == report_schema,
        r.source_commit@ == plan.source_commit@,
        r.native_abi == plan.native_abi,
        r.runtime_manifest_sha256@ == plan.runtime_manifest_sha256@,
        r.installed_qualification_sha256@ == plan.installed_qualification_sha256@,
{
    PrivateExpectedResultV2 {
        report_schema,
        source_commit: plan.source_commit.clone(),
        native_abi: plan.native_abi,
        runtime_manifest_sha256: copied(plan.runtime_manifest_sha256.as_slice()),
        installed_qualification_sha256: copied(plan.installed_qualification_sha256.as_slice()),
    }
}

impl PlannedLaunch {
    /// What always holds of a launch: it goes on past its plan only with one.
    pub open spec fn wf(self) -> bool {
        match self.stage {
            PlannedStage::Planned => self.plan is Some,
            PlannedStage::Ready | PlannedStage::Sent => self.plan is Some && self.nonce@.len() == 16
                && self.attempt@.len() == 16,
            _ => true,
        }
    }

    /// The bytes that ask for a plan, given the encoded contract.
    pub fn request_plan(&mut self, contract: Result<Vec<u8>, String>, nonce: &[u8]) -> (r: Result<
        Vec<u8>,
        PrivateLaunchErrorV2,
    >)
        requires
            old(self).stage == PlannedStage::Planning,
            nonce.len() == 16,
        ensures
            final(self).wf(),
            moves(old(self).stage, final(self).stage),
            match r {
                Ok(bytes) => {
                    &&& contract matches Ok(payload) && private_frame_fault(payload@.len()) is None
                        && is_plan_request(bytes@, nonce@, payload@)
                    &&& *final(self) == (PlannedLaunch {
                        stage: PlannedStage::Asked,
                        nonce: final(self).nonce,
                        ..*old(self)
                    })
                    &&& final(self).nonce@ == nonce@
                },
                Err(error) => {
                    &&& final(self).stage == PlannedStage::Over
                    &&& match contract {
                        Err(fault) => unsubmitted(error, fault@),
                        Ok(payload) => private_frame_fault(payload@.len()) matches Some(text)
                            && unsubmitted(error, text@),
                    }
                },
            },
    {
        match private_plan_request(Ok(()), contract, nonce) {
            Ok(bytes) => {
                self.stage = PlannedStage::Asked;
                self.nonce = copied(nonce);
                Ok(bytes)
            },
            Err(fault) => {
                self.stage = PlannedStage::Over;
                Err(PrivateLaunchErrorV2::BeforeSubmission(fault))
            },
        }
    }

    /// The answer about the plan is in. `same_plan` says that its plan is the one that was
    /// obtained before; it counts where the launch is frozen to that one.
    pub fn planned(&mut self, frame: WireFrame, reading: PrivatePlanReading, same_plan: bool) -> (r:
        Result<(), PrivateLaunchErrorV2>)
        requires
            old(self).stage == PlannedStage::Asked,
        ensures
            final(self).wf(),
            moves(old(self).stage, final(self).stage),
            match r {
                Ok(_) => {
                    &&& plan_refusal(frame@, old(self).nonce@, reading) is None
                    &&& old(self).frozen ==> same_plan
                    &&& *final(self) == (PlannedLaunch {
                        stage: PlannedStage::Planned,
                        plan: Some(reading.receipt->Ok_0),
                        ..*old(self)
                    })
                },
                Err(error) => {
                    &&& final(self).stage == PlannedStage::Over
                    &&& match plan_refusal(frame@, old(self).nonce@, reading) {
                        Some(text) => unsubmitted(error, text),
                        None => old(self).frozen && !same_plan && unsubmitted(
                            error,
                            "frozen private plan differs from freshly authenticated accepted plan"@,
                        ),
                    }
                },
            },
    {
        let exchange = match private_plan_exchange_v2(frame, self.nonce.as_slice(), reading) {
            Ok(exchange) => exchange,
            Err(fault) => {
                self.stage = PlannedStage::Over;
                return Err(PrivateLaunchErrorV2::BeforeSubmission(fault));
            },
        };
        let plan = match private_plan_v2(exchange) {
            Ok(plan) => plan,
            Err(fault) => {
                self.stage = PlannedStage::Over;
                return Err(PrivateLaunchErrorV2::BeforeSubmission(fault));
            },
        };
        if self.frozen {
            match frozen_plan_holds(same_plan) {
                Ok(_) => {},
                Err(error) => {
                    self.stage = PlannedStage::Over;
                    return Err(error);
                },
            }
        }
        self.stage = PlannedStage::Planned;
        self.plan = Some(plan);
        Ok(())
    }

    /// The bytes that submit the launch under its fresh plan.
    pub fn submission(&mut self, parts: SubmissionParts, nonce: &[u8], attempt: &[u8]) -> (r: Result<
        Vec<u8>,
        PrivateLaunchErrorV2,
    >)
        requires
            old(self).wf(),
            old(self).stage == PlannedStage::Planned,
            nonce.len() == 16,
            attempt.len() == 16,
        ensures
            final(self).wf(),
            moves(old(self).stage, final(self).stage),
            final(self).plan == old(self).plan,
            final(self).expected_plan == old(self).expected_plan && final(self).frozen == old(
                self).frozen,
            final(self).stage == if r is Ok {
                PlannedStage::Ready
            } else {
                PlannedStage::Over
            },
            match request_of(old(self).plan->0, old(self).expected_plan, parts) {
                Err(text) => r matches Err(error) && unsubmitted(error, text),
                Ok(payload) => match run_fault(payload.len(), attempt@) {
                    Some(text) => r matches Err(error) && unsubmitted(error, text@),
                    None => r matches Ok(bytes) && is_frame(
                        bytes@,
                        PRIVATE_VERSION,
                        FrameView {
                            kind: PRIVATE_LAUNCH_KIND,
                            nonce: nonce@,
                            attempt: attempt@,
                            payload,
                        },
                    ) && final(self).nonce@ == nonce@ && final(self).attempt@ == attempt@,
                },
            },
    {
        self.stage = PlannedStage::Over;
        let payload = match &self.plan {
            Some(plan) => match planned_request(plan, self.expected_plan, parts) {
                Ok(payload) => payload,
                Err(fault) => {
                    return Err(PrivateLaunchErrorV2::BeforeSubmission(fault));
                },
            },
            None => Vec::new(),
        };
        match run_private_v2(payload.as_slice(), nonce, attempt) {
            Err(error) => Err(error),
            Ok(bytes) => {
                self.stage = PlannedStage::Ready;
                self.nonce = copied(nonce);
                self.attempt = copied(attempt);
                Ok(bytes)
            },
        }
    }

    /// The request was sent, or not; once that was tried it is never repeated.
    pub fn sent(&mut self, sent: Result<(), String>) -> (r: Result<(), PrivateLaunchErrorV2>)
        requires
            old(self).wf(),
            old(self).stage == PlannedStage::Ready,
        ensures
            final(self).wf(),
            moves(old(self).stage, final(self).stage),
            match sent {
                Ok(_) => r is Ok && *final(self) == (PlannedLaunch {
                    stage: PlannedStage::Sent,
                    ..*old(self)
                }),
                Err(detail) => final(self).stage == PlannedStage::Over && (r matches Err(error)
                    && submitted(error, detail@, None)),
            },
    {
        match after_send(sent) {
            Ok(_) => {
                self.stage = PlannedStage::Sent;
                Ok(())
            },
            Err(error) => {
                self.stage = PlannedStage::Over;
                Err(error)
            },
        }
    }

    /// The answer to the launch is in, or could not be had.
    pub fn answered(
        &mut self,
        answer: Result<(WireFrame, PrivateReading), String>,
        report_schema: u32,
        limit: usize,
    ) -> (r: Result<PrivateServiceResultV2, PrivateLaunchErrorV2>)
        requires
            old(self).wf(),
            old(self).stage == PlannedStage::Sent,
        ensures
            moves(old(self).stage, final(self).stage),
            final(self).stage == PlannedStage::Over,
            match answer {
                Err(detail) => r matches Err(error) && submitted(error, detail@, None),
                Ok((frame, reading)) => match private_fault(
                    frame@,
                    old(self).nonce@,
                    old(self).attempt@,
                    expected_of(old(self).plan->0, report_schema),
                    limit as nat,
                    reading,
                ) {
                    Some(text) => r matches Err(error) && submitted(
                        error,
                        text,
                        Some(frame.payload@),
                    ),
                    None => r matches Ok(result) && is_private_result(
                        result,
                        frame@,
                        old(self).attempt@,
                        reading,
                    ),
                },
            },
    {
        self.stage = PlannedStage::Over;
        let expected = match self.plan.take() {
            Some(plan) => PrivateExpectedResultV2 {
                report_schema,
                source_commit: plan.source_commit,
                native_abi: plan.native_abi,
                runtime_manifest_sha256: plan.runtime_manifest_sha256,
                installed_qualification_sha256: plan.installed_qualification_sha256,
            },
            None => PrivateExpectedResultV2 {
                report_schema,
                source_commit: String::new(),
                native_abi: 0,
                runtime_manifest_sha256: Vec::new(),
                installed_qualification_sha256: Vec::new(),
            },
        };
        match receive_private_result(
            answer,
            self.nonce.as_slice(),
            self.attempt.as_slice(),
            &expected,
            limit,
        ) {
            Ok(result) => Ok(result),
            Err(failure) => Err(PrivateLaunchErrorV2::AfterSubmission(failure)),
        }
    }

    /// Something else failed on the way; whether the request may have been submitted
    /// depends on how far the launch was.
    pub fn failed(&mut self, detail: String) -> (r: PrivateLaunchErrorV2)
        requires
            old(self).stage != PlannedStage::Over,
        ensures
            moves(old(self).stage, final(self).stage),
            *final(self) == (PlannedLaunch { stage: PlannedStage::Over, ..*old(self) }),
            if old(self).stage == PlannedStage::Sent {
                submitted(r, detail@, None)
            } else {
                unsubmitted(r, detail@)
            },
    {
        let after = self.stage == PlannedStage::Sent;
        self.stage = PlannedStage::Over;
        if !after {
            return PrivateLaunchErrorV2::BeforeSubmission(detail);
        }
        match after_send(Err(detail)) {
            Err(error) => error,
            Ok(_) => PrivateLaunchErrorV2::BeforeSubmission(String::new()),
        }
    }
}

/// Whether a launch took this course from its beginning.
pub open spec fn is_course(path: Seq<PlannedStage>) -> bool {
    &&& path.len() > 0 && path[0] == PlannedStage::Planning
    &&& forall|i: int|
        0 <= i < path.len() - 1 ==> #[trigger] moves(path[i], path[i + 1])
}

proof fn ranks_count(path: Seq<PlannedStage>, at: int)
    requires
        is_course(path),
        0 <= at < path.len(),
    ensures
        path[at] == PlannedStage::Over || stage_rank(path[at]) == at,
    decreases at,
{
    if at > 0 {
        ranks_count(path, at - 1);
        assert(moves(path[at - 1], path[at - 1 + 1]));
    }
}

/// A launch is sent only after a fresh plan came in on the same course, and at most
/// once.
pub proof fn launches_follow_a_fresh_plan(path: Seq<PlannedStage>, at: int, again: int)
    requires
        is_course(path),
        0 <= at < path.len(),
        path[at] == PlannedStage::Sent,
        0 <= again < path.len(),
    ensures
        at == 4 && path[2] == PlannedStage::Planned,
        path[again] == PlannedStage::Sent ==> again == at,
{
    ranks_count(path, at);
    ranks_count(path, again);
    ranks_count(path, 2);
    if path[2] == PlannedStage::Over {
        assert(moves(path[2], path[2int + 1]));
    }
}

/// A launch request names its version by whether it is held to an earlier plan, and ends
/// in that plan's digests then.
pub proof fn requests_hold_to_the_expected_plan(
    plan: PrivatePlanReceipt,
    expected_plan: bool,
    parts: SubmissionParts,
)
    requires
        request_of(plan, expected_plan, parts) is Ok,
    ensures
        ({
            let bytes = request_of(plan, expected_plan, parts)->Ok_0;
            &&& bytes[0] == 0 && bytes[1] == if expected_plan {
                5u8
            } else {
                4u8
            }
            &&& expected_plan ==> ({
                let held = parts.precondition->Ok_0.contract_digest@
                    + parts.precondition->Ok_0.generation_digest@;
                bytes.len() >= held.len() && bytes.subrange(
                    bytes.len() - held.len(),
                    bytes.len() as int,
                ) == held
            })
        }),
{
    let bytes = request_of(plan, expected_plan, parts)->Ok_0;
    if expected_plan {
        let held = parts.precondition->Ok_0.contract_digest@
            + parts.precondition->Ok_0.generation_digest@;
        assert(bytes.subrange(bytes.len() - held.len(), bytes.len() as int) =~= held);
    }
}

} // verus!
