//! The interface's routes.
use crate::control_api::identity::AdminRole;
use crate::control_api::security::ControlApiAuthorizationPolicy;
use crate::listener::QUICListener;
use crate::text::{parse_u64, same_text, strip_prefix, unsigned_value};
use vstd::prelude::*;

verus! {

#[derive(Debug, Clone, Copy, PartialEq, Eq, Structural)]
pub enum Method {
    Get,
    Post,
    Other,
}

#[derive(Debug, Clone, Copy, PartialEq, Eq, Structural)]
pub enum ControlApiRoute {
    Health,
    Ready,
    Runtime,
    RuntimeValidate,
    RuntimePreview,
    RuntimeActivate,
    RuntimeRollback,
    RuntimeHistory,
    RuntimeHistoryGeneration(u64),
    ReloadCerts,
    ReloadRuntime,
    Restart,
}

/// The paths that the routes are configured under.
#[derive(Debug)]
pub struct ControlApiPaths {
    pub health_path: String,
    pub ready_path: String,
    pub runtime_path: String,
    pub runtime_validate_path: String,
    pub runtime_preview_path: String,
    pub runtime_activate_path: String,
    pub runtime_rollback_path: String,
    pub runtime_history_path: String,
    pub runtime_history_entry_prefix: String,
    pub reload_path: String,
    pub reload_certs_path: String,
    pub restart_path: String,
}

/// The number that follows a prefix, where the text is the prefix and a number that 64 bits hold.
pub open spec fn number_behind(path: Seq<char>, prefix: Seq<char>) -> Option<u64> {
    if prefix.is_prefix_of(path) {
        match unsigned_value(path.skip(prefix.len() as int)) {
            Some(n) if n <= u64::MAX => Some(n as u64),
            _ => None,
        }
    } else {
        None
    }
}

/// The route of a request to read.
pub open spec fn get_route(path: Seq<char>, paths: ControlApiPaths) -> Option<ControlApiRoute> {
    if path == paths.health_path@ {
        Some(ControlApiRoute::Health)
    } else if path == paths.ready_path@ {
        Some(ControlApiRoute::Ready)
    } else if path == paths.runtime_path@ {
        Some(ControlApiRoute::Runtime)
    } else if path == paths.runtime_history_path@ {
        Some(ControlApiRoute::RuntimeHistory)
    } else {
        match number_behind(path, paths.runtime_history_entry_prefix@) {
            Some(generation) => Some(ControlApiRoute::RuntimeHistoryGeneration(generation)),
            None => None,
        }
    }
}

/// The route of a request to change something.
pub open spec fn post_route(path: Seq<char>, paths: ControlApiPaths) -> Option<ControlApiRoute> {
    if path == paths.reload_certs_path@ {
        Some(ControlApiRoute::ReloadCerts)
    } else if path == paths.runtime_validate_path@ {
        Some(ControlApiRoute::RuntimeValidate)
    } else if path == paths.runtime_preview_path@ {
        Some(ControlApiRoute::RuntimePreview)
    } else if path == paths.runtime_activate_path@ {
        Some(ControlApiRoute::RuntimeActivate)
    } else if path == paths.runtime_rollback_path@ {
        Some(ControlApiRoute::RuntimeRollback)
    } else if path == paths.reload_path@ {
        Some(ControlApiRoute::ReloadRuntime)
    } else if path == paths.restart_path@ {
        Some(ControlApiRoute::Restart)
    } else {
        None
    }
}

/// The route of a request.
pub open spec fn route_of(method: Method, path: Seq<char>, paths: ControlApiPaths) -> Option<
    ControlApiRoute,
> {
    match method {
        Method::Get => get_route(path, paths),
        Method::Post => post_route(path, paths),
        Method::Other => None,
    }
}

/// The role that a route asks for; none where it is open to all.
pub open spec fn required_role(
    route: ControlApiRoute,
    policy: ControlApiAuthorizationPolicy,
) -> Option<AdminRole> {
    match route {
        ControlApiRoute::Health => if policy.protect_health {
            Some(policy.runtime_read_role)
        } else {
            None
        },
        ControlApiRoute::Ready => if policy.protect_ready {
            Some(policy.runtime_read_role)
        } else {
            None
        },
        ControlApiRoute::Runtime
        | ControlApiRoute::RuntimeHistory
        | ControlApiRoute::RuntimeHistoryGeneration(_) => Some(policy.runtime_read_role),
        ControlApiRoute::RuntimeValidate
        | ControlApiRoute::RuntimePreview
        | ControlApiRoute::RuntimeActivate
        | ControlApiRoute::RuntimeRollback
        | ControlApiRoute::ReloadCerts
        | ControlApiRoute::ReloadRuntime => Some(policy.runtime_mutate_role),
        ControlApiRoute::Restart => Some(policy.restart_role),
    }
}

impl ControlApiRoute {
    pub fn minimum_role(self, policy: &ControlApiAuthorizationPolicy) -> (r: Option<AdminRole>)
        ensures
            r == required_role(self, *policy),
    {
        match self {
            ControlApiRoute::Health => if policy.protect_health {
                Some(policy.runtime_read_role)
            } else {
                None
            },
            ControlApiRoute::Ready => if policy.protect_ready {
                Some(policy.runtime_read_role)
            } else {
                None
            },
            ControlApiRoute::Runtime
            | ControlApiRoute::RuntimeHistory
            | ControlApiRoute::RuntimeHistoryGeneration(_) => Some(policy.runtime_read_role),
            ControlApiRoute::RuntimeValidate
            | ControlApiRoute::RuntimePreview
            | ControlApiRoute::RuntimeActivate
            | ControlApiRoute::RuntimeRollback
            | ControlApiRoute::ReloadCerts
            | ControlApiRoute::ReloadRuntime => Some(policy.runtime_mutate_role),
            ControlApiRoute::Restart => Some(policy.restart_role),
        }
    }
}

/// The name under which a route is recorded.
pub open spec fn route_label(route: ControlApiRoute) -> Seq<char> {
    match route {
        ControlApiRoute::Health => "/health"@,
        ControlApiRoute::Ready => "/ready"@,
        ControlApiRoute::Runtime => "/admin/runtime"@,
        ControlApiRoute::RuntimeValidate => "/admin/runtime/validate"@,
        ControlApiRoute::RuntimePreview => "/admin/runtime/preview"@,
        ControlApiRoute::RuntimeActivate => "/admin/runtime/activate"@,
        ControlApiRoute::RuntimeRollback => "/admin/runtime/rollback"@,
        ControlApiRoute::RuntimeHistory => "/admin/runtime/history"@,
        ControlApiRoute::RuntimeHistoryGeneration(_) => "/admin/runtime/history/{generation}"@,
        ControlApiRoute::ReloadCerts => "/admin/reload-certs"@,
        ControlApiRoute::ReloadRuntime => "/admin/reload"@,
        ControlApiRoute::Restart => "/admin/restart"@,
    }
}

impl QUICListener {
    pub fn control_api_request_route_for(method: Method, path: &str, paths: &ControlApiPaths) -> (r:
        Option<ControlApiRoute>)
        ensures
            r == route_of(method, path@, *paths),
    {
        match method {
            Method::Get => {
                if same_text(path, paths.health_path.as_str()) {
                    return Some(ControlApiRoute::Health);
                }
                if same_text(path, paths.ready_path.as_str()) {
                    return Some(ControlApiRoute::Ready);
                }
                if same_text(path, paths.runtime_path.as_str()) {
                    return Some(ControlApiRoute::Runtime);
                }
                if same_text(path, paths.runtime_history_path.as_str()) {
                    return Some(ControlApiRoute::RuntimeHistory);
                }
                let prefix = paths.runtime_history_entry_prefix.as_str();
                match strip_prefix(path, prefix) {
                    Some(raw) => {
                        assert(raw@ =~= path@.skip(prefix@.len() as int));
                        match parse_u64(raw) {
                            Some(generation) => Some(
                                ControlApiRoute::RuntimeHistoryGeneration(generation),
                            ),
                            None => None,
                        }
                    },
                    None => None,
                }
            },
            Method::Post => {
                if same_text(path, paths.reload_certs_path.as_str()) {
                    Some(ControlApiRoute::ReloadCerts)
                } else if same_text(path, paths.runtime_validate_path.as_str()) {
                    Some(ControlApiRoute::RuntimeValidate)
                } else if same_text(path, paths.runtime_preview_path.as_str()) {
                    Some(ControlApiRoute::RuntimePreview)
                } else if same_text(path, paths.runtime_activate_path.as_str()) {
                    Some(ControlApiRoute::RuntimeActivate)
                } else if same_text(path, paths.runtime_rollback_path.as_str()) {
                    Some(ControlApiRoute::RuntimeRollback)
                } else if same_text(path, paths.reload_path.as_str()) {
                    Some(ControlApiRoute::ReloadRuntime)
                } else if same_text(path, paths.restart_path.as_str()) {
                    Some(ControlApiRoute::Restart)
                } else {
                    None
                }
            },
            Method::Other => None,
        }
    }

    pub fn control_api_route_name(route: ControlApiRoute) -> (r: &'static str)
        ensures
            r@ == route_label(route),
    {
        match route {
            ControlApiRoute::Health => "/health",
            ControlApiRoute::Ready => "/ready",
            ControlApiRoute::Runtime => "/admin/runtime",
            ControlApiRoute::RuntimeValidate => "/admin/runtime/validate",
            ControlApiRoute::RuntimePreview => "/admin/runtime/preview",
            ControlApiRoute::RuntimeActivate => "/admin/runtime/activate",
            ControlApiRoute::RuntimeRollback => "/admin/runtime/rollback",
            ControlApiRoute::RuntimeHistory => "/admin/runtime/history",
            ControlApiRoute::RuntimeHistoryGeneration(_) => "/admin/runtime/history/{generation}",
            ControlApiRoute::ReloadCerts => "/admin/reload-certs",
            ControlApiRoute::ReloadRuntime => "/admin/reload",
            ControlApiRoute::Restart => "/admin/restart",
        }
    }
}

} // verus!
