//! What a supervision starts from and what each attempt is handed to: the
//! request, the route of an attempt, and the check of what a backend claims.

use vstd::prelude::*;

use crate::backend::{Execution, Platform};
use crate::evidence::{
    bare_error, Error, ErrorCategory, ErrorView, LaunchEvidence, RestartSafetyProof,
};
use crate::model::Fault;
use crate::policy::{BoundaryRequirement, Policy};
use crate::supervision::{AttemptKind, Supervision};
use crate::supervisor::{
    class_for, unresolved_sealed, unresolved_sealed_error, validate_resolved_backend, BackendCapabilityReport,
};

verus! {

/// What a caller asks of a supervision. The command itself is opaque here.
#[derive(Debug)]
pub struct SupervisorRequest {
    pub policy: Policy,
    /// Whether limits may restart the command.
    pub restarts: bool,
    /// The path of the helper program.
    pub memcordon_executable: Option<Vec<u8>>,
    pub resolved_backend: Option<BackendCapabilityReport>,
}

/// Why a request is refused before anything is set up.
pub open spec fn request_error(platform: Platform, request: SupervisorRequest) -> Option<ErrorView> {
    if platform == Platform::Other {
        Some(
            bare_error(
                ErrorCategory::Unsupported,
                "MCUNSUPPORTED-SUPERVISOR",
                "the shared platform supervisor is unavailable on this target"@,
            ),
        )
    } else {
        match request.resolved_backend {
            None => if request.policy.boundary == BoundaryRequirement::Sealed {
                Some(unresolved_sealed_error())
            } else {
                None
            },
            Some(backend) => if backend.name@.len() == 0 || backend.boundary.class != class_for(
                request.policy.boundary,
            ) {
                Some(
                    bare_error(
                        ErrorCategory::Setup,
                        "MCBACKEND-SELECTION-MISMATCH",
                        "resolved backend does not satisfy the requested boundary"@,
                    ),
                )
            } else {
                None
            },
        }
    }
}

/// Decides whether a request may be set up at all.
pub fn may_supervise(platform: Platform, request: &SupervisorRequest) -> (r: Result<(), Error>)
    ensures
        match r {
            Ok(_) => request_error(platform, *request) is None,
            Err(error) => request_error(platform, *request) == Some(error@),
        },
{
    if platform == Platform::Other {
        return Err(
            Error::fixed(
                ErrorCategory::Unsupported,
                "MCUNSUPPORTED-SUPERVISOR",
                "the shared platform supervisor is unavailable on this target",
            ),
        );
    }
    validate_resolved_backend(&request.policy, &request.resolved_backend)
}

/// The code of a failed watch for interruptions.
pub open spec fn install_code(platform: Platform) -> &'static str {
    if platform == Platform::Windows {
        "MCSETUP-CONSOLE"
    } else {
        "MCSETUP-SIGNAL"
    }
}

/// The error of a restart controller that refused.
pub fn controller_error(text: String) -> (r: Error)
    ensures
        r@ == bare_error(ErrorCategory::Monitor, "MCRESTART-CONTROLLER", text@),
{
    Error::new(ErrorCategory::Monitor, "MCRESTART-CONTROLLER", text)
}

/// The error of a record that does not fit the supervision's history.
pub fn model_error(text: String) -> (r: Error)
    ensures
        r@ == bare_error(ErrorCategory::Monitor, "MCRESTART-MODEL", text@),
{
    Error::new(ErrorCategory::Monitor, "MCRESTART-MODEL", text)
}

/// The error of a wait before a restart that failed.
pub fn wait_error(fault: &Fault) -> (r: Error)
    ensures
        r@ == (ErrorView {
            os_code: fault.os_code,
            ..bare_error(ErrorCategory::Wait, "MCWAIT-RESTART", fault.text.chars())
        }),
{
    Error::of_fault(ErrorCategory::Wait, "MCWAIT-RESTART", fault)
}

/// Starts a supervision once the watch for interruptions was installed and the
/// restart controller was made, or were tried. A request that may not be set up is
/// refused whatever became of them, and a failed watch hides a failed controller.
/// The controller counts only where the request allows restarts.
pub fn supervise(
    platform: Platform,
    request: SupervisorRequest,
    installed: Result<(), Fault>,
    controller: Result<(), String>,
) -> (r: Result<Supervision, Error>)
    ensures
        match r {
            Ok(supervision) => {
                &&& request_error(platform, request) is None
                &&& installed is Ok
                &&& request.restarts ==> controller is Ok
                &&& supervision.wf()
                &&& supervision.stage is Ready
                &&& supervision.platform == platform
                &&& supervision.policy == request.policy
                &&& supervision.restarts == request.restarts
                &&& supervision.backend == request.resolved_backend
                &&& supervision.total == 0
                &&& supervision.targets_authorized == 0
                &&& supervision.origin is None
                &&& supervision.kind == AttemptKind::Initial
                &&& supervision.facts is None && supervision.outside is None
            },
            Err(error) => if request_error(platform, request) is Some {
                Some(error@) == request_error(platform, request)
            } else {
                match installed {
                    Err(fault) => error@ == (ErrorView {
                        os_code: fault.os_code,
                        ..bare_error(
                            ErrorCategory::Setup,
                            install_code(platform),
                            fault.text.chars(),
                        )
                    }),
                    Ok(_) => request.restarts && (controller matches Err(text) && error@
                        == bare_error(ErrorCategory::Monitor, "MCRESTART-CONTROLLER", text@)),
                }
            },
        },
{
    match may_supervise(platform, &request) {
        Ok(_) => {},
        Err(error) => {
            return Err(error);
        },
    }
    match installed {
        Ok(_) => {},
        Err(fault) => {
            let code = if platform == Platform::Windows {
                "MCSETUP-CONSOLE"
            } else {
                "MCSETUP-SIGNAL"
            };
            return Err(Error::of_fault(ErrorCategory::Setup, code, &fault));
        },
    }
    if request.restarts {
        match controller {
            Ok(_) => {},
            Err(text) => {
                return Err(controller_error(text));
            },
        }
    }
    Ok(
        Supervision::start(
            platform,
            request.policy,
            request.restarts,
            request.resolved_backend,
        ),
    )
}

/// What an attempt is handed to.
#[derive(Clone, Copy, Debug, PartialEq, Eq, Structural)]
pub enum AttemptRoute {
    LinuxSealed,
    LinuxCgroup,
    MacosWatchdog,
    UnixWatchdog,
    WindowsSealed,
    WindowsJob,
}

/// What an attempt of a policy is handed to on a platform that can supervise, if there
/// is anything. A sealed one is handed to a sealed provider only.
pub open spec fn attempt_route_of(platform: Platform, policy: Policy) -> Option<AttemptRoute> {
    let sealed = policy.boundary == BoundaryRequirement::Sealed;
    match platform {
        Platform::Linux => if sealed {
            Some(AttemptRoute::LinuxSealed)
        } else {
            Some(AttemptRoute::LinuxCgroup)
        },
        Platform::MacOs => if sealed {
            None
        } else {
            Some(AttemptRoute::MacosWatchdog)
        },
        Platform::Windows => if sealed {
            Some(AttemptRoute::WindowsSealed)
        } else {
            Some(AttemptRoute::WindowsJob)
        },
        _ => if sealed {
            None
        } else {
            Some(AttemptRoute::UnixWatchdog)
        },
    }
}

/// Whether what an attempt is handed to needs the helper program.
pub open spec fn needs_helper(route: AttemptRoute) -> bool {
    route == AttemptRoute::LinuxCgroup || route == AttemptRoute::MacosWatchdog
}

/// Decides what an attempt is handed to. A sealed request that no provider stands behind
/// is refused; the backends that gate a target need the helper program.
pub fn attempt_route(platform: Platform, request: &SupervisorRequest) -> (r: Result<
    AttemptRoute,
    Error,
>)
    requires
        !(platform is Other),
    ensures
        match r {
            Ok(route) => attempt_route_of(platform, request.policy) == Some(route) && (needs_helper(
                route,
            ) ==> request.memcordon_executable is Some),
            Err(error) => match attempt_route_of(platform, request.policy) {
                None => error@ == unresolved_sealed_error(),
                Some(route) => {
                    &&& needs_helper(route)
                    &&& request.memcordon_executable is None
                    &&& error@ == bare_error(
                        ErrorCategory::Usage,
                        "MCUSAGE-MEMCORDON-EXECUTABLE",
                        "Unix execution requires an explicit MemCordon helper path"@,
                    )
                },
            },
        },
{
    let sealed = request.policy.boundary == BoundaryRequirement::Sealed;
    if sealed && platform != Platform::Linux && platform != Platform::Windows {
        return Err(unresolved_sealed());
    }
    let route = match platform {
        Platform::Linux => if sealed {
            AttemptRoute::LinuxSealed
        } else {
            AttemptRoute::LinuxCgroup
        },
        Platform::MacOs => AttemptRoute::MacosWatchdog,
        Platform::Windows => if sealed {
            AttemptRoute::WindowsSealed
        } else {
            AttemptRoute::WindowsJob
        },
        _ => AttemptRoute::UnixWatchdog,
    };
    let gated = route == AttemptRoute::LinuxCgroup || route == AttemptRoute::MacosWatchdog;
    if gated && request.memcordon_executable.is_none() {
        return Err(
            Error::fixed(
                ErrorCategory::Usage,
                "MCUSAGE-MEMCORDON-EXECUTABLE",
                "Unix execution requires an explicit MemCordon helper path",
            ),
        );
    }
    Ok(route)
}

/// An attempt that ran, with the evidence that its record needs.
#[derive(Debug)]
pub struct AttemptExecution {
    pub execution: Execution,
    pub launch: LaunchEvidence,
    pub restart_safety: RestartSafetyProof,
}

/// Takes over what a backend claims of an attempt. `consistent` tells whether its
/// evidence of launch, retirement and boundary agrees.
pub fn attempt_execution(execution: Execution, consistent: bool) -> (r: Result<
    AttemptExecution,
    Error,
>)
    ensures
        match r {
            Ok(attempt) => {
                &&& consistent
                &&& attempt.execution == execution
                &&& attempt.launch@ == execution.launch@
                &&& attempt.restart_safety@ == execution.restart_safety@
            },
            Err(error) => !consistent && error@ == bare_error(
                ErrorCategory::Monitor,
                "MCBOUNDARY-EVIDENCE",
                "backend returned contradictory launch or retirement evidence"@,
            ),
        },
{
    if !consistent {
        return Err(
            Error::fixed(
                ErrorCategory::Monitor,
                "MCBOUNDARY-EVIDENCE",
                "backend returned contradictory launch or retirement evidence",
            ),
        );
    }
    let launch = execution.launch.duplicate();
    let restart_safety = execution.restart_safety.duplicate();
    Ok(AttemptExecution { execution, launch, restart_safety })
}

/// A sealed request is handed to a sealed provider or refused with its target
/// unauthorized, on every platform.
pub proof fn sealed_requests_stay_sealed(platform: Platform, policy: Policy)
    requires
        policy.boundary == BoundaryRequirement::Sealed,
    ensures
        match attempt_route_of(platform, policy) {
            Some(route) => route is LinuxSealed || route is WindowsSealed,
            None => !unresolved_sealed_error().target_released
                && unresolved_sealed_error().authorization_offset is None,
        },
{
}

/// Whether a platform has a provider that answers questions about workloads.
pub open spec fn has_provider(platform: Platform) -> bool {
    platform is Linux || platform is Windows
}

/// Decides whether a workload can be planned on a platform.
pub fn may_plan_workload(platform: Platform) -> (r: Result<(), String>)
    ensures
        match r {
            Ok(_) => has_provider(platform),
            Err(text) => !has_provider(platform) && text@
                == "authenticated workload planning is unavailable on this platform"@,
        },
{
    match platform {
        Platform::Linux | Platform::Windows => Ok(()),
        _ => Err("authenticated workload planning is unavailable on this platform".to_owned()),
    }
}

/// Decides whether the workloads of a caller can be listed on a platform.
pub fn may_discover_workloads(platform: Platform) -> (r: Result<(), String>)
    ensures
        match r {
            Ok(_) => has_provider(platform),
            Err(text) => !has_provider(platform) && text@
                == "authenticated sealed workload discovery is unsupported on this platform"@,
        },
{
    match platform {
        Platform::Linux | Platform::Windows => Ok(()),
        _ => Err(
            "authenticated sealed workload discovery is unsupported on this platform".to_owned(),
        ),
    }
}

} // verus!
