//! What applying a patch does to a resource, and what the policies promise
//! about it.

use vstd::prelude::*;
use crate::aiven_object::{
    cloud_name_pointer, entries_map, project_vpc_id_pointer, tag_pointer, tags_pointer,
    termination_protection_pointer, ResourceModel,
};
use crate::json::lookup;
use crate::mutators::{
    engine_ops, environment_key, location_ops, placement, project_vpc_id_ops, required_tags,
    tag_op, tags_ops, team_key, tenant_key, termination_protection_ops, MutateError,
};
use crate::patch::{ops_view, Op, PatchOperation, ValueModel};
use crate::settings::{has_prefix, PolicyContext};
use crate::web::mutate_result;

verus! {

/// The pointers of single tags start with this.
pub open spec fn tag_prefix() -> Seq<char> {
    tags_pointer() + seq!['/']
}

pub open spec fn text_value(v: ValueModel) -> Option<Seq<char>> {
    match v {
        ValueModel::Text(s) => Some(s),
        _ => None,
    }
}

/// Writes `value` at `path` and reads the resource back: a value of the
/// wrong shape reads as absent (or, for a tag, as the empty string).
pub open spec fn apply_op(m: ResourceModel, op: Op) -> ResourceModel {
    let path = op.path();
    let value = op.value();
    if path == cloud_name_pointer() {
        ResourceModel { cloud_name: text_value(value), ..m }
    } else if path == project_vpc_id_pointer() {
        ResourceModel { project_vpc_id: text_value(value), ..m }
    } else if path == termination_protection_pointer() {
        ResourceModel {
            termination_protection: match value {
                ValueModel::Flag(b) => Some(b),
                _ => None,
            },
            ..m
        }
    } else if path == tags_pointer() {
        ResourceModel {
            tags: match value {
                ValueModel::Entries(e) => Some(entries_map(e)),
                _ => None,
            },
            ..m
        }
    } else if has_prefix(path, tag_prefix()) {
        let key = path.subrange(tag_prefix().len() as int, path.len() as int);
        let base = match m.tags {
            Some(t) => t,
            None => Map::empty(),
        };
        let text = match value {
            ValueModel::Text(s) => s,
            _ => Seq::empty(),
        };
        ResourceModel { tags: Some(base.insert(key, text)), ..m }
    } else {
        m
    }
}

/// Applies the operations in order.
pub open spec fn apply_all(m: ResourceModel, ops: Seq<Op>) -> ResourceModel
    decreases ops.len(),
{
    if ops.len() == 0 {
        m
    } else {
        apply_all(apply_op(m, ops[0]), ops.drop_first())
    }
}

proof fn lemma_apply_concat(m: ResourceModel, a: Seq<Op>, b: Seq<Op>)
    ensures
        apply_all(m, a + b) == apply_all(apply_all(m, a), b),
    decreases a.len(),
{
    if a.len() > 0 {
        assert((a + b).drop_first() =~= a.drop_first() + b);
        lemma_apply_concat(apply_op(m, a[0]), a.drop_first(), b);
    } else {
        assert(a + b =~= b);
    }
}

proof fn lemma_apply_one(m: ResourceModel, op: Op)
    ensures
        apply_all(m, seq![op]) == apply_op(m, op),
{
    reveal_with_fuel(apply_all, 2);
    assert(seq![op].drop_first() =~= Seq::<Op>::empty());
}

proof fn lemma_pointers_distinct(k: Seq<char>)
    ensures
        cloud_name_pointer() != project_vpc_id_pointer(),
        cloud_name_pointer() != termination_protection_pointer(),
        cloud_name_pointer() != tags_pointer(),
        project_vpc_id_pointer() != termination_protection_pointer(),
        project_vpc_id_pointer() != tags_pointer(),
        termination_protection_pointer() != tags_pointer(),
        tag_pointer(k) != cloud_name_pointer(),
        tag_pointer(k) != project_vpc_id_pointer(),
        tag_pointer(k) != termination_protection_pointer(),
        tag_pointer(k) != tags_pointer(),
        has_prefix(tag_pointer(k), tag_prefix()),
        tag_pointer(k).subrange(tag_prefix().len() as int, tag_pointer(k).len() as int) == k,
        environment_key() != tenant_key(),
        environment_key() != team_key(),
        tenant_key() != team_key(),
{
    reveal_strlit("/spec/cloudName");
    reveal_strlit("/spec/tags");
    reveal_strlit("/spec/terminationProtection");
    reveal_strlit("/spec/projectVpcId");
    reveal_strlit("environment");
    reveal_strlit("tenant");
    reveal_strlit("team");
    assert(environment_key().len() == 11);
    assert(tenant_key().len() == 6);
    assert(team_key().len() == 4);
    let t = tag_pointer(k);
    assert(t[7] == 'a');
    assert(cloud_name_pointer()[7] == 'l');
    assert(project_vpc_id_pointer()[7] == 'r');
    assert(termination_protection_pointer()[7] == 'e');
    assert(t.subrange(0, tag_prefix().len() as int) =~= tag_prefix());
    assert(t.subrange(tag_prefix().len() as int, t.len() as int) =~= k);
}

/// The tag entries of a freshly added container map each required key to
/// its value.
proof fn lemma_required_map(environment: Seq<char>, tenant: Seq<char>, team: Seq<char>)
    ensures
        ({
            let t = entries_map(required_tags(environment, tenant, team));
            &&& t.contains_key(environment_key()) && t[environment_key()] == environment
            &&& t.contains_key(tenant_key()) && t[tenant_key()] == tenant
            &&& t.contains_key(team_key()) && t[team_key()] == team
        }),
{
    lemma_pointers_distinct(seq![]);
    let s = required_tags(environment, tenant, team);
    assert(s.drop_first().drop_first().drop_first() =~= Seq::<(Seq<char>, Seq<char>)>::empty());
    assert(lookup(s, environment_key()) == Some(environment));
    assert(lookup(s.drop_first(), tenant_key()) == Some(tenant));
    assert(lookup(s, tenant_key()) == Some(tenant));
    assert(lookup(s.drop_first().drop_first(), team_key()) == Some(team));
    assert(lookup(s.drop_first(), team_key()) == Some(team));
    assert(lookup(s, team_key()) == Some(team));
}

/// Applying a tag operation sets that tag and nothing else.
proof fn lemma_apply_tag_op(m: ResourceModel, t: Map<Seq<char>, Seq<char>>, name: Seq<char>, value: Seq<char>)
    requires
        m.tags == Some(t),
    ensures
        ({
            let m2 = apply_all(m, tag_op(t, name, value));
            &&& m2.tags == Some(t.insert(name, value))
            &&& m2.cloud_name == m.cloud_name
            &&& m2.team_name == m.team_name
            &&& m2.termination_protection == m.termination_protection
            &&& m2.project_vpc_id == m.project_vpc_id
        }),
{
    lemma_pointers_distinct(name);
    let ops = tag_op(t, name, value);
    if ops.len() == 0 {
        assert(t.insert(name, value) =~= t);
    } else {
        lemma_apply_one(m, ops[0]);
        assert(ops =~= seq![ops[0]]);
    }
}

/// Applying the tags policy: the required tags hold their values and every
/// other tag keeps its own; nothing else changes.
proof fn lemma_apply_tags(m: ResourceModel, environment: Seq<char>, tenant: Seq<char>, team: Seq<char>)
    ensures
        ({
            let m2 = apply_all(m, tags_ops(m, environment, tenant, team));
            &&& m2.tags is Some
            &&& m2.tags->0.contains_key(environment_key())
            &&& m2.tags->0[environment_key()] == environment
            &&& m2.tags->0.contains_key(tenant_key())
            &&& m2.tags->0[tenant_key()] == tenant
            &&& m2.tags->0.contains_key(team_key())
            &&& m2.tags->0[team_key()] == team
            &&& m2.cloud_name == m.cloud_name
            &&& m2.team_name == m.team_name
            &&& m2.termination_protection == m.termination_protection
            &&& m2.project_vpc_id == m.project_vpc_id
            &&& m.tags is None ==> m2.tags->0 == entries_map(required_tags(environment, tenant, team))
            &&& m.tags matches Some(t) ==> m2.tags->0 == t.insert(environment_key(), environment).insert(
                tenant_key(),
                tenant,
            ).insert(team_key(), team)
        }),
{
    lemma_pointers_distinct(seq![]);
    match m.tags {
        None => {
            let ops = tags_ops(m, environment, tenant, team);
            lemma_apply_one(m, ops[0]);
            lemma_required_map(environment, tenant, team);
        },
        Some(t) => {
            let a = tag_op(t, environment_key(), environment);
            let b = tag_op(t, tenant_key(), tenant);
            let c = tag_op(t, team_key(), team);
            lemma_apply_concat(m, a + b, c);
            lemma_apply_concat(m, a, b);
            lemma_apply_tag_op(m, t, environment_key(), environment);
            let m1 = apply_all(m, a);
            let t1 = t.insert(environment_key(), environment);
            assert(b == tag_op(t1, tenant_key(), tenant));
            lemma_apply_tag_op(m1, t1, tenant_key(), tenant);
            let m2 = apply_all(m1, b);
            let t2 = t1.insert(tenant_key(), tenant);
            assert(c == tag_op(t2, team_key(), team));
            lemma_apply_tag_op(m2, t2, team_key(), team);
        },
    }
}

/// The tags policy never adds, replaces or removes a tag other than
/// `environment`, `tenant` and `team`.
pub proof fn lemma_tags_non_destructive(
    m: ResourceModel,
    environment: Seq<char>,
    tenant: Seq<char>,
    team: Seq<char>,
    key: Seq<char>,
)
    requires
        key != environment_key(),
        key != tenant_key(),
        key != team_key(),
    ensures
        ({
            let after = apply_all(m, tags_ops(m, environment, tenant, team)).tags->0;
            match m.tags {
                Some(t) => after.contains_key(key) == t.contains_key(key) && (t.contains_key(key)
                    ==> after[key] == t[key]),
                None => !after.contains_key(key),
            }
        }),
{
    lemma_apply_tags(m, environment, tenant, team);
    lemma_pointers_distinct(seq![]);
    if m.tags is None {
        let s = required_tags(environment, tenant, team);
        assert(s.drop_first().drop_first().drop_first() =~= Seq::<(Seq<char>, Seq<char>)>::empty());
        assert(lookup(s.drop_first().drop_first().drop_first(), key) is None);
        assert(lookup(s.drop_first().drop_first(), key) is None);
        assert(lookup(s.drop_first(), key) is None);
        assert(lookup(s, key) is None);
    }
}

/// Once the project VPC patch is applied, the project VPC policy has
/// nothing left to do.
pub proof fn lemma_project_vpc_id_idempotent(m: ResourceModel, project_vpc_id: Seq<char>)
    ensures
        project_vpc_id_ops(apply_all(m, project_vpc_id_ops(m, project_vpc_id)), project_vpc_id)
            == Seq::<Op>::empty(),
{
    lemma_pointers_distinct(seq![]);
    if m.project_vpc_id is None {
        lemma_apply_one(m, project_vpc_id_ops(m, project_vpc_id)[0]);
    }
}

/// Once the termination protection patch is applied, that policy has
/// nothing left to do.
pub proof fn lemma_termination_protection_idempotent(m: ResourceModel)
    ensures
        termination_protection_ops(apply_all(m, termination_protection_ops(m)))
            == Seq::<Op>::empty(),
{
    lemma_pointers_distinct(seq![]);
    if m.termination_protection is None {
        lemma_apply_one(m, termination_protection_ops(m)[0]);
    }
}

/// Once the tags patch is applied, the tags policy has nothing left to do.
pub proof fn lemma_tags_idempotent(
    m: ResourceModel,
    environment: Seq<char>,
    tenant: Seq<char>,
    team: Seq<char>,
)
    ensures
        tags_ops(apply_all(m, tags_ops(m, environment, tenant, team)), environment, tenant, team)
            == Seq::<Op>::empty(),
{
    lemma_apply_tags(m, environment, tenant, team);
    let m2 = apply_all(m, tags_ops(m, environment, tenant, team));
    let t = m2.tags->0;
    assert(tag_op(t, environment_key(), environment) =~= Seq::<Op>::empty());
    assert(tag_op(t, tenant_key(), tenant) =~= Seq::<Op>::empty());
    assert(tag_op(t, team_key(), team) =~= Seq::<Op>::empty());
    assert(tags_ops(m2, environment, tenant, team) =~= Seq::<Op>::empty());
}

/// Placement is re-asserted on every run: once its patch is applied, the
/// policy yields a single `replace` of the same value, and applying that
/// changes nothing.
pub proof fn lemma_location_stable(m: ResourceModel, location: Seq<char>)
    ensures
        ({
            let m2 = apply_all(m, location_ops(m, location));
            &&& location_ops(m2, location) == seq![
                Op::Replace {
                    path: cloud_name_pointer(),
                    value: ValueModel::Text(placement(location)),
                },
            ]
            &&& apply_all(m2, location_ops(m2, location)) == m2
        }),
{
    let m2 = apply_all(m, location_ops(m, location));
    lemma_apply_one(m, location_ops(m, location)[0]);
    lemma_apply_one(m2, location_ops(m2, location)[0]);
}

/// Running the whole engine again on the patched resource yields only the
/// placement `replace`, and applying it leaves the resource as it is.
pub proof fn lemma_engine_idempotent(m: ResourceModel, ctx: PolicyContext)
    requires
        m.team_name is Some,
    ensures
        ({
            let m2 = apply_all(m, engine_ops(m, ctx));
            &&& engine_ops(m2, ctx) == seq![
                Op::Replace {
                    path: cloud_name_pointer(),
                    value: ValueModel::Text(placement(ctx.location)),
                },
            ]
            &&& apply_all(m2, engine_ops(m2, ctx)) == m2
        }),
{
    lemma_pointers_distinct(seq![]);
    let team = m.team_name->0;
    let a = project_vpc_id_ops(m, ctx.project_vpc_id);
    let b = termination_protection_ops(m);
    let c = tags_ops(m, ctx.environment, ctx.tenant, team);
    let d = location_ops(m, ctx.location);
    lemma_apply_concat(m, a + b + c, d);
    lemma_apply_concat(m, a + b, c);
    lemma_apply_concat(m, a, b);
    if m.project_vpc_id is None {
        lemma_apply_one(m, a[0]);
    }
    let m1 = apply_all(m, a);
    assert(b == termination_protection_ops(m1));
    if m.termination_protection is None {
        lemma_apply_one(m1, b[0]);
    }
    let m2 = apply_all(m1, b);
    assert(c == tags_ops(m2, ctx.environment, ctx.tenant, team));
    lemma_apply_tags(m2, ctx.environment, ctx.tenant, team);
    lemma_tags_idempotent(m2, ctx.environment, ctx.tenant, team);
    let m3 = apply_all(m2, c);
    assert(d == location_ops(m3, ctx.location));
    lemma_location_stable(m3, ctx.location);
    let m4 = apply_all(m3, d);
    lemma_apply_one(m3, d[0]);
    assert(project_vpc_id_ops(m4, ctx.project_vpc_id) =~= Seq::<Op>::empty());
    assert(termination_protection_ops(m4) =~= Seq::<Op>::empty());
    assert(engine_ops(m4, ctx) =~= location_ops(m4, ctx.location));
}

/// Whether the resource already holds a value at `path`.
pub open spec fn present(m: ResourceModel, path: Seq<char>) -> bool {
    if path == cloud_name_pointer() {
        m.cloud_name is Some
    } else if path == project_vpc_id_pointer() {
        m.project_vpc_id is Some
    } else if path == termination_protection_pointer() {
        m.termination_protection is Some
    } else if path == tags_pointer() {
        m.tags is Some
    } else if has_prefix(path, tag_prefix()) {
        m.tags matches Some(t) && t.contains_key(
            path.subrange(tag_prefix().len() as int, path.len() as int),
        )
    } else {
        false
    }
}

/// An `add` targets a missing value, a `replace` an existing one.
pub open spec fn well_targeted(m: ResourceModel, ops: Seq<Op>) -> bool {
    forall|i: int|
        0 <= i < ops.len() ==> match #[trigger] ops[i] {
            Op::Add { path, .. } => !present(m, path),
            Op::Replace { path, .. } => present(m, path),
        }
}

proof fn lemma_well_targeted_concat(m: ResourceModel, a: Seq<Op>, b: Seq<Op>)
    requires
        well_targeted(m, a),
        well_targeted(m, b),
    ensures
        well_targeted(m, a + b),
{
    assert forall|i: int| 0 <= i < (a + b).len() implies match #[trigger] (a + b)[i] {
        Op::Add { path, .. } => !present(m, path),
        Op::Replace { path, .. } => present(m, path),
    } by {
        if i >= a.len() {
            assert((a + b)[i] == b[i - a.len()]);
        }
    }
}

/// Every operation the engine emits is an `add` of a value the resource
/// lacks or a `replace` of one it has.
pub proof fn lemma_engine_well_targeted(m: ResourceModel, ctx: PolicyContext)
    ensures
        well_targeted(m, engine_ops(m, ctx)),
{
    lemma_pointers_distinct(environment_key());
    lemma_pointers_distinct(tenant_key());
    lemma_pointers_distinct(team_key());
    let team = m.team_name->0;
    let a = project_vpc_id_ops(m, ctx.project_vpc_id);
    let b = termination_protection_ops(m);
    let c = tags_ops(m, ctx.environment, ctx.tenant, team);
    let d = location_ops(m, ctx.location);
    assert(well_targeted(m, a));
    assert(well_targeted(m, b));
    assert(well_targeted(m, d));
    match m.tags {
        None => {
            assert(well_targeted(m, c));
        },
        Some(t) => {
            let x = tag_op(t, environment_key(), ctx.environment);
            let y = tag_op(t, tenant_key(), ctx.tenant);
            let z = tag_op(t, team_key(), team);
            assert(well_targeted(m, x));
            assert(well_targeted(m, y));
            assert(well_targeted(m, z));
            lemma_well_targeted_concat(m, x, y);
            lemma_well_targeted_concat(m, x + y, z);
        },
    }
    lemma_well_targeted_concat(m, a, b);
    lemma_well_targeted_concat(m, a + b, c);
    lemma_well_targeted_concat(m, a + b + c, d);
}

/// Two runs on resources that read the same, under the same policy, give
/// the same outcome: the same error, or patches with the same operations,
/// order, pointers and values.
pub proof fn lemma_deterministic(
    m: ResourceModel,
    ctx: PolicyContext,
    first: Result<Vec<PatchOperation>, MutateError>,
    second: Result<Vec<PatchOperation>, MutateError>,
)
    requires
        mutate_result(m, ctx, first),
        mutate_result(m, ctx, second),
    ensures
        first is Ok <==> second is Ok,
        first is Err ==> first == second,
        first matches Ok(p) ==> second matches Ok(q) && ops_view(p@) == ops_view(q@),
{
}

} // verus!
