//! The mutation policies: each compares what a resource holds with what the
//! tenant's policy wants and appends the JSON Patch operations that close
//! the gap.

use vstd::prelude::*;
use crate::aiven_object::{
    cloud_name_pointer, entries_map, lemma_pointers_valid, plain_token,
    project_vpc_id_pointer, tag_entries, tag_pointer, tags_pointer,
    termination_protection_pointer, AivenObject, ResourceModel,
};
use crate::json::{find_key, lookup};
use crate::patch::{
    add_patch, entries_view, ops_view, replace_patch, valid_pointer, Op, PatchOperation, PatchValue, ValueModel,
};
use crate::settings::{AppConfig, PolicyContext};

verus! {

/// The cloud a resource is placed in: the provider prefix and the location.
pub open spec fn placement(location: Seq<char>) -> Seq<char> {
    "google-"@ + location
}

/// Placement is always asserted: added when absent, replaced otherwise.
pub open spec fn location_ops(m: ResourceModel, location: Seq<char>) -> Seq<Op> {
    let value = ValueModel::Text(placement(location));
    if m.cloud_name is None {
        seq![Op::Add { path: cloud_name_pointer(), value }]
    } else {
        seq![Op::Replace { path: cloud_name_pointer(), value }]
    }
}

pub open spec fn environment_key() -> Seq<char> {
    "environment"@
}

pub open spec fn tenant_key() -> Seq<char> {
    "tenant"@
}

pub open spec fn team_key() -> Seq<char> {
    "team"@
}

/// The three tags that every resource carries, in the order they are added.
pub open spec fn required_tags(environment: Seq<char>, tenant: Seq<char>, team: Seq<char>) -> Seq<
    (Seq<char>, Seq<char>),
> {
    seq![(environment_key(), environment), (tenant_key(), tenant), (team_key(), team)]
}

/// One required tag in an existing tag mapping: added when missing, replaced
/// when it differs, left alone when it matches.
pub open spec fn tag_op(tags: Map<Seq<char>, Seq<char>>, name: Seq<char>, value: Seq<char>) -> Seq<
    Op,
> {
    if !tags.contains_key(name) {
        seq![Op::Add { path: tag_pointer(name), value: ValueModel::Text(value) }]
    } else if tags[name] == value {
        seq![]
    } else {
        seq![Op::Replace { path: tag_pointer(name), value: ValueModel::Text(value) }]
    }
}

/// The tags policy: the whole container when there is none, else each
/// required tag on its own.
pub open spec fn tags_ops(
    m: ResourceModel,
    environment: Seq<char>,
    tenant: Seq<char>,
    team: Seq<char>,
) -> Seq<Op> {
    match m.tags {
        None => seq![
            Op::Add {
                path: tags_pointer(),
                value: ValueModel::Entries(required_tags(environment, tenant, team)),
            },
        ],
        Some(t) => tag_op(t, environment_key(), environment) + tag_op(t, tenant_key(), tenant)
            + tag_op(t, team_key(), team),
    }
}

/// Termination protection is switched on only where it is absent.
pub open spec fn termination_protection_ops(m: ResourceModel) -> Seq<Op> {
    if m.termination_protection is None {
        seq![Op::Add { path: termination_protection_pointer(), value: ValueModel::Flag(true) }]
    } else {
        seq![]
    }
}

/// The project VPC is filled in only where it is absent.
pub open spec fn project_vpc_id_ops(m: ResourceModel, project_vpc_id: Seq<char>) -> Seq<Op> {
    if m.project_vpc_id is None {
        seq![Op::Add { path: project_vpc_id_pointer(), value: ValueModel::Text(project_vpc_id) }]
    } else {
        seq![]
    }
}

/// All four policies, in their fixed order: project VPC, termination
/// protection, tags, placement. The team is the resource's team name.
pub open spec fn engine_ops(m: ResourceModel, ctx: PolicyContext) -> Seq<Op> {
    project_vpc_id_ops(m, ctx.project_vpc_id) + termination_protection_ops(m) + tags_ops(
        m,
        ctx.environment,
        ctx.tenant,
        m.team_name->0,
    ) + location_ops(m, ctx.location)
}

/// Why no patch could be derived for a resource.
#[derive(Clone, Copy, Debug, PartialEq, Eq, Structural)]
pub enum MutateError {
    /// The resource has no namespace, so its team tag is unknown.
    MissingTeamName,
}

pub open spec fn missing_team_reason() -> Seq<char> {
    "resource has no namespace to take the team tag from"@
}

impl MutateError {
    pub open spec fn reason(self) -> Seq<char> {
        match self {
            MutateError::MissingTeamName => missing_team_reason(),
        }
    }

    /// A message for the user whose request was refused.
    pub fn message(&self) -> (r: String)
        ensures
            r@ == self.reason(),
    {
        match self {
            MutateError::MissingTeamName => String::from_str(
                "resource has no namespace to take the team tag from",
            ),
        }
    }
}

proof fn lemma_push_ops(s: Seq<PatchOperation>, p: PatchOperation)
    ensures
        ops_view(s.push(p)) == ops_view(s) + seq![p@],
{
    assert(ops_view(s.push(p)) =~= ops_view(s) + seq![p@]);
}

proof fn lemma_required_keys_plain()
    ensures
        plain_token(environment_key()),
        plain_token(tenant_key()),
        plain_token(team_key()),
{
    reveal_strlit("environment");
    reveal_strlit("tenant");
    reveal_strlit("team");
}

/// Asserts the cloud placement: `google-` and the location.
pub fn add_location<O: AivenObject>(location: String, obj: &O, patches: &mut Vec<PatchOperation>)
    ensures
        ops_view(final(patches)@) == ops_view(old(patches)@) + location_ops(
            obj.model(),
            location@,
        ),
{
    let cloud_name = PatchValue::String(String::from_str("google-").concat(location.as_str()));
    proof {
        lemma_pointers_valid(seq![]);
    }
    let ghost before = patches@;
    let patch = if obj.get_cloud_name().is_none() {
        add_patch(obj.cloud_name_path(), cloud_name)
    } else {
        replace_patch(obj.cloud_name_path(), cloud_name)
    };
    patches.push(patch);
    proof {
        lemma_push_ops(before, patch);
    }
}

proof fn lemma_lookup_tags(s: Seq<(String, String)>, key: Seq<char>)
    ensures
        lookup(tag_entries(s), key) == match lookup(
            s.map_values(|e: (String, String)| (e.0@, e.1)),
            key,
        ) {
            Some(v) => Some(v@),
            None => None::<Seq<char>>,
        },
    decreases s.len(),
{
    if s.len() > 0 {
        assert(tag_entries(s).drop_first() =~= tag_entries(s.drop_first()));
        assert(s.map_values(|e: (String, String)| (e.0@, e.1)).drop_first() =~= s.drop_first().map_values(
            |e: (String, String)| (e.0@, e.1),
        ));
        lemma_lookup_tags(s.drop_first(), key);
    }
}

/// The operation, if any, that one tag needs, addressed at `tag_path`: an
/// `add` when the tag is missing, a `replace` when its value differs, none
/// when it matches.
pub fn handle_tag(
    tags: &Vec<(String, String)>,
    tag_name: &str,
    tag_value: String,
    tag_path: String,
) -> (r: Option<PatchOperation>)
    requires
        valid_pointer(tag_path@),
    ensures
        ({
            let m = entries_map(tag_entries(tags@));
            if !m.contains_key(tag_name@) {
                r matches Some(p) && p@ == (Op::Add {
                    path: tag_path@,
                    value: ValueModel::Text(tag_value@),
                })
            } else if m[tag_name@] == tag_value@ {
                r is None
            } else {
                r matches Some(p) && p@ == (Op::Replace {
                    path: tag_path@,
                    value: ValueModel::Text(tag_value@),
                })
            }
        }),
{
    proof {
        lemma_lookup_tags(tags@, tag_name@);
    }
    match find_key(tags, tag_name) {
        Some(i) => {
            if tags[i].1 == tag_value {
                None
            } else {
                Some(replace_patch(tag_path, PatchValue::String(tag_value)))
            }
        },
        None => Some(add_patch(tag_path, PatchValue::String(tag_value))),
    }
}

fn push_tag_op(
    tags: &Vec<(String, String)>,
    tag_name: &str,
    tag_value: String,
    tag_path: String,
    patches: &mut Vec<PatchOperation>,
)
    requires
        tag_path@ == tag_pointer(tag_name@),
        valid_pointer(tag_path@),
    ensures
        ops_view(final(patches)@) == ops_view(old(patches)@) + tag_op(
            entries_map(tag_entries(tags@)),
            tag_name@,
            tag_value@,
        ),
{
    let ghost before = patches@;
    match handle_tag(tags, tag_name, tag_value, tag_path) {
        Some(patch) => {
            patches.push(patch);
            proof {
                lemma_push_ops(before, patch);
            }
        },
        None => {
            assert(ops_view(before) + Seq::<Op>::empty() =~= ops_view(before));
        },
    }
}

/// Puts the tenant's environment, its name and the resource's team onto the
/// resource's tags. Fails, adding nothing, when the resource has no team.
pub fn add_tags<O: AivenObject>(config: &AppConfig, obj: &O, patches: &mut Vec<PatchOperation>) -> (r:
    Result<(), MutateError>)
    ensures
        match obj.model().team_name {
            None => r == Err::<(), MutateError>(MutateError::MissingTeamName) && final(patches)@
                == old(patches)@,
            Some(team) => r is Ok && ops_view(final(patches)@) == ops_view(old(patches)@)
                + tags_ops(obj.model(), config.policy().environment, config.policy().tenant, team),
        },
{
    let environment = config.tenant.environment.clone();
    let tenant = config.tenant.name.clone();
    let team = match obj.get_team_name() {
        Some(team) => team,
        None => {
            return Err(MutateError::MissingTeamName);
        },
    };
    proof {
        lemma_required_keys_plain();
        lemma_pointers_valid(environment_key());
        lemma_pointers_valid(tenant_key());
        lemma_pointers_valid(team_key());
    }
    let ghost before = patches@;
    match obj.get_tags() {
        None => {
            let mut entries: Vec<(String, String)> = Vec::new();
            entries.push((String::from_str("environment"), environment));
            entries.push((String::from_str("tenant"), tenant));
            entries.push((String::from_str("team"), team));
            assert(entries_view(entries@) =~= required_tags(
                environment@,
                tenant@,
                team@,
            ));
            let patch = add_patch(obj.tags_path(), PatchValue::Object(entries));
            patches.push(patch);
            proof {
                lemma_push_ops(before, patch);
            }
        },
        Some(tags) => {
            push_tag_op(&tags, "environment", environment, obj.tag_path("environment"), patches);
            push_tag_op(&tags, "tenant", tenant, obj.tag_path("tenant"), patches);
            push_tag_op(&tags, "team", team, obj.tag_path("team"), patches);
            assert(ops_view(patches@) =~= ops_view(before) + tags_ops(
                obj.model(),
                config.policy().environment,
                config.policy().tenant,
                obj.model().team_name->0,
            ));
        },
    }
    Ok(())
}

/// Switches termination protection on where the resource does not set it.
pub fn add_termination_protection<O: AivenObject>(obj: &O, patches: &mut Vec<PatchOperation>)
    ensures
        ops_view(final(patches)@) == ops_view(old(patches)@) + termination_protection_ops(
            obj.model(),
        ),
{
    let ghost before = patches@;
    if obj.get_termination_protection().is_none() {
        proof {
            lemma_pointers_valid(seq![]);
        }
        let patch = add_patch(obj.termination_protection_path(), PatchValue::Bool(true));
        patches.push(patch);
        proof {
            lemma_push_ops(before, patch);
        }
    } else {
        assert(ops_view(before) + Seq::<Op>::empty() =~= ops_view(before));
    }
}

/// Places the resource in the required project VPC where it names none.
pub fn add_project_vpc_id<O: AivenObject>(
    project_vpc_id: String,
    obj: &O,
    patches: &mut Vec<PatchOperation>,
)
    ensures
        ops_view(final(patches)@) == ops_view(old(patches)@) + project_vpc_id_ops(
            obj.model(),
            project_vpc_id@,
        ),
{
    let ghost before = patches@;
    if obj.get_project_vpc_id().is_none() {
        proof {
            lemma_pointers_valid(seq![]);
        }
        let patch = add_patch(obj.project_vpc_id_path(), PatchValue::String(project_vpc_id));
        patches.push(patch);
        proof {
            lemma_push_ops(before, patch);
        }
    } else {
        assert(ops_view(before) + Seq::<Op>::empty() =~= ops_view(before));
    }
}

} // verus!
