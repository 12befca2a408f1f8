//! Typed schemas of managed resources, and their views.

use vstd::prelude::*;
use crate::aiven_object::{opt_text, tag_entries, tags_model, ResourceModel};
use crate::aiven_types::aiven_redis::Redis;

pub use crate::aiven_object::AivenObject;

pub mod aiven_redis;

verus! {

/// A copy of a tag list, entry for entry.
pub fn copy_tags(tags: &Vec<(String, String)>) -> (r: Vec<(String, String)>)
    ensures
        tag_entries(r@) == tag_entries(tags@),
{
    let mut out: Vec<(String, String)> = Vec::new();
    let mut i: usize = 0;
    while i < tags.len()
        invariant
            0 <= i <= tags@.len(),
            tag_entries(out@) =~= tag_entries(tags@).subrange(0, i as int),
        decreases tags@.len() - i,
    {
        let key = tags[i].0.clone();
        let value = tags[i].1.clone();
        let ghost before = out@;
        out.push((key, value));
        assert(tag_entries(out@) =~= tag_entries(before).push((key@, value@)));
        assert(tag_entries(tags@).subrange(0, i + 1) =~= tag_entries(tags@).subrange(
            0,
            i as int,
        ).push(tag_entries(tags@)[i as int]));
        i = i + 1;
    }
    assert(tag_entries(tags@).subrange(0, tags@.len() as int) =~= tag_entries(tags@));
    out
}

fn copy_text(s: &Option<String>) -> (r: Option<String>)
    ensures
        opt_text(r) == opt_text(*s),
{
    match s {
        Some(t) => Some(t.clone()),
        None => None,
    }
}

impl AivenObject for Redis {
    open spec fn model(&self) -> ResourceModel {
        ResourceModel {
            cloud_name: opt_text(self.spec.cloud_name),
            team_name: opt_text(self.metadata.namespace),
            tags: tags_model(self.spec.tags),
            termination_protection: self.spec.termination_protection,
            project_vpc_id: opt_text(self.spec.project_vpc_id),
        }
    }

    fn get_cloud_name(&self) -> (r: Option<String>) {
        copy_text(&self.spec.cloud_name)
    }

    fn get_team_name(&self) -> (r: Option<String>) {
        copy_text(&self.metadata.namespace)
    }

    fn get_tags(&self) -> (r: Option<Vec<(String, String)>>) {
        match &self.spec.tags {
            Some(tags) => Some(copy_tags(tags)),
            None => None,
        }
    }

    fn get_termination_protection(&self) -> (r: Option<bool>) {
        self.spec.termination_protection
    }

    fn get_project_vpc_id(&self) -> (r: Option<String>) {
        copy_text(&self.spec.project_vpc_id)
    }
}

} // verus!
