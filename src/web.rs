//! The admission decision for one request: which requests pass untouched,
//! which are refused, and which are allowed with a patch.

use vstd::prelude::*;
use crate::aiven_object::{AivenObject, DynamicObject, ResourceModel};
use crate::mutators::{
    add_location, add_project_vpc_id, add_tags, add_termination_protection, engine_ops,
    MutateError,
};
use crate::patch::{ops_view, PatchOperation};
use crate::settings::{AppConfig, PolicyContext};

verus! {

/// The operation that an admission request asks about.
#[derive(Clone, Copy, Debug, PartialEq, Eq, Structural)]
pub enum Operation {
    Create,
    Update,
    Delete,
    Connect,
}

/// An admission request as the webhook sees it.
#[derive(Debug)]
pub struct AdmissionRequest {
    /// Identifier that the response must carry back.
    pub uid: String,
    /// The kind of the resource, such as `Valkey`.
    pub kind: String,
    pub operation: Operation,
    /// The candidate resource, if the request carries one.
    pub object: Option<DynamicObject>,
}

/// The answer to an admission request.
#[derive(Clone, Debug, PartialEq, Eq)]
pub enum AdmissionOutcome {
    /// Admitted, after the patch (possibly empty) is applied.
    Allowed { patch: Vec<PatchOperation> },
    /// Refused, with a reason for the user.
    Denied { reason: String },
    /// The request itself could not be understood.
    Invalid { reason: String },
}

impl AdmissionOutcome {
    /// The HTTP status that carries the outcome: only a request that could
    /// not be understood is a bad request.
    pub fn status_code(&self) -> (r: u16)
        ensures
            r == (if self is Invalid {
                400u16
            } else {
                200u16
            }),
    {
        match self {
            AdmissionOutcome::Invalid { .. } => 400,
            _ => 200,
        }
    }

    pub fn allowed(&self) -> (r: bool)
        ensures
            r == self is Allowed,
    {
        match self {
            AdmissionOutcome::Allowed { .. } => true,
            _ => false,
        }
    }
}

/// The kinds that the policy applies to.
pub open spec fn is_managed_kind(kind: Seq<char>) -> bool {
    kind == "OpenSearch"@ || kind == "Valkey"@
}

pub fn is_allowed_kind(kind: &String) -> (r: bool)
    ensures
        r == is_managed_kind(kind@),
{
    *kind == String::from_str("OpenSearch") || *kind == String::from_str("Valkey")
}

/// Requests that no policy applies to: removals, connections, and kinds
/// outside the managed ones.
pub open spec fn passes_through(req: AdmissionRequest) -> bool {
    req.operation == Operation::Delete || req.operation == Operation::Connect
        || !is_managed_kind(req.kind@)
}

/// What running the policies on a resource gives: its patch, or the error
/// when the resource has no team.
pub open spec fn mutate_result(
    m: ResourceModel,
    ctx: PolicyContext,
    r: Result<Vec<PatchOperation>, MutateError>,
) -> bool {
    match m.team_name {
        None => r == Err::<Vec<PatchOperation>, MutateError>(MutateError::MissingTeamName),
        Some(_) => r matches Ok(patch) && ops_view(patch@) == engine_ops(m, ctx),
    }
}

/// Runs the four policies, in order, on one resource.
pub fn mutate<O: AivenObject>(obj: &O, config: &AppConfig) -> (r: Result<
    Vec<PatchOperation>,
    MutateError,
>)
    ensures
        mutate_result(obj.model(), config.policy(), r),
{
    let mut patches: Vec<PatchOperation> = Vec::new();
    add_project_vpc_id(config.project_vpc_id.clone(), obj, &mut patches);
    add_termination_protection(obj, &mut patches);
    match add_tags(config, obj, &mut patches) {
        Ok(()) => {},
        Err(e) => {
            return Err(e);
        },
    }
    add_location(config.location.clone(), obj, &mut patches);
    assert(ops_view(patches@) =~= engine_ops(obj.model(), config.policy()));
    Ok(patches)
}

/// The outcome for a request that could not be understood.
pub fn bad_request(reason: &str) -> (r: AdmissionOutcome)
    ensures
        r matches AdmissionOutcome::Invalid { reason: s } && s@ == reason@,
{
    AdmissionOutcome::Invalid { reason: String::from_str(reason) }
}

/// Decides one admission request; `None` stands for an envelope without a
/// readable request.
pub fn mutate_handler(config: &AppConfig, request: Option<AdmissionRequest>) -> (r:
    AdmissionOutcome)
    ensures
        match request {
            None => r matches AdmissionOutcome::Invalid { reason } && reason@
                == "missing request"@,
            Some(req) => if passes_through(req) {
                r matches AdmissionOutcome::Allowed { patch } && patch@.len() == 0
            } else {
                match req.object {
                    None => r matches AdmissionOutcome::Denied { reason } && reason@
                        == "no object specified"@,
                    Some(obj) => match obj.model().team_name {
                        None => r matches AdmissionOutcome::Denied { reason } && reason@
                            == MutateError::MissingTeamName.reason(),
                        Some(_) => r matches AdmissionOutcome::Allowed { patch } && ops_view(
                            patch@,
                        ) == engine_ops(obj.model(), config.policy()),
                    },
                }
            },
        },
{
    let req = match request {
        Some(req) => req,
        None => {
            return bad_request("missing request");
        },
    };
    if req.operation == Operation::Delete || req.operation == Operation::Connect {
        return AdmissionOutcome::Allowed { patch: Vec::new() };
    }
    if !is_allowed_kind(&req.kind) {
        return AdmissionOutcome::Allowed { patch: Vec::new() };
    }
    match &req.object {
        None => AdmissionOutcome::Denied { reason: String::from_str("no object specified") },
        Some(obj) => match mutate(obj, config) {
            Ok(patch) => AdmissionOutcome::Allowed { patch },
            Err(err) => AdmissionOutcome::Denied { reason: err.message() },
        },
    }
}

} // verus!
