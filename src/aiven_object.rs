//! A uniform read view over managed resources, whatever their schema.

use vstd::prelude::*;
use crate::json::{flag_of, lookup, member_at, text_of, JsonValue};
use crate::patch::valid_pointer;

verus! {

/// What the policies read of a resource.
pub ghost struct ResourceModel {
    pub cloud_name: Option<Seq<char>>,
    pub team_name: Option<Seq<char>>,
    pub tags: Option<Map<Seq<char>, Seq<char>>>,
    pub termination_protection: Option<bool>,
    pub project_vpc_id: Option<Seq<char>>,
}

pub open spec fn opt_text(s: Option<String>) -> Option<Seq<char>> {
    match s {
        Some(s) => Some(s@),
        None => None,
    }
}

/// The tag mapping that a list of entries describes. Tag lists come from JSON
/// objects and from the schema's tag map, whose keys are unique; should a key
/// repeat all the same, its first entry gives its value, as the lookups of
/// the policies find it.
pub open spec fn entries_map(s: Seq<(Seq<char>, Seq<char>)>) -> Map<Seq<char>, Seq<char>> {
    Map::new(|k: Seq<char>| lookup(s, k) is Some, |k: Seq<char>| lookup(s, k)->0)
}

pub open spec fn tag_entries(v: Seq<(String, String)>) -> Seq<(Seq<char>, Seq<char>)> {
    v.map_values(|e: (String, String)| (e.0@, e.1@))
}

pub open spec fn tags_model(t: Option<Vec<(String, String)>>) -> Option<Map<Seq<char>, Seq<char>>> {
    match t {
        Some(v) => Some(entries_map(tag_entries(v@))),
        None => None,
    }
}

pub open spec fn cloud_name_pointer() -> Seq<char> {
    "/spec/cloudName"@
}

pub open spec fn tags_pointer() -> Seq<char> {
    "/spec/tags"@
}

/// The pointer of one tag: the tags container's pointer, a `/`, the key.
pub open spec fn tag_pointer(tag_name: Seq<char>) -> Seq<char> {
    tags_pointer() + seq!['/'] + tag_name
}

pub open spec fn termination_protection_pointer() -> Seq<char> {
    "/spec/terminationProtection"@
}

pub open spec fn project_vpc_id_pointer() -> Seq<char> {
    "/spec/projectVpcId"@
}

/// A key that needs no escaping inside a JSON Pointer.
pub open spec fn plain_token(s: Seq<char>) -> bool {
    forall|i: int| 0 <= i < s.len() ==> #[trigger] s[i] != '~' && s[i] != '/'
}

/// Read access to the fields that the mutation policies look at. Absence is
/// a value, never a failure.
pub trait AivenObject {
    spec fn model(&self) -> ResourceModel;

    fn get_cloud_name(&self) -> (r: Option<String>)
        ensures
            opt_text(r) == self.model().cloud_name,
    ;

    fn cloud_name_path(&self) -> (r: String)
        ensures
            r@ == cloud_name_pointer(),
    {
        String::from_str("/spec/cloudName")
    }

    /// The team owning the resource: its namespace.
    fn get_team_name(&self) -> (r: Option<String>)
        ensures
            opt_text(r) == self.model().team_name,
    ;

    /// The tags, as a list of entries. A key that appears twice reads as its
    /// first entry.
    fn get_tags(&self) -> (r: Option<Vec<(String, String)>>)
        ensures
            tags_model(r) == self.model().tags,
    ;

    fn tags_path(&self) -> (r: String)
        ensures
            r@ == tags_pointer(),
    {
        String::from_str("/spec/tags")
    }

    fn tag_path(&self, tag_name: &str) -> (r: String)
        ensures
            r@ == tag_pointer(tag_name@),
    {
        let mut p = self.tags_path();
        p.append("/");
        p.append(tag_name);
        proof {
            reveal_strlit("/");
            assert(p@ =~= tag_pointer(tag_name@));
        }
        p
    }

    fn get_termination_protection(&self) -> (r: Option<bool>)
        ensures
            r == self.model().termination_protection,
    ;

    fn termination_protection_path(&self) -> (r: String)
        ensures
            r@ == termination_protection_pointer(),
    {
        String::from_str("/spec/terminationProtection")
    }

    fn get_project_vpc_id(&self) -> (r: Option<String>)
        ensures
            opt_text(r) == self.model().project_vpc_id,
    ;

    fn project_vpc_id_path(&self) -> (r: String)
        ensures
            r@ == project_vpc_id_pointer(),
    {
        String::from_str("/spec/projectVpcId")
    }
}

/// Every pointer that the view hands out is a valid JSON Pointer.
pub proof fn lemma_pointers_valid(tag_name: Seq<char>)
    requires
        plain_token(tag_name),
    ensures
        valid_pointer(cloud_name_pointer()),
        valid_pointer(tags_pointer()),
        valid_pointer(tag_pointer(tag_name)),
        valid_pointer(termination_protection_pointer()),
        valid_pointer(project_vpc_id_pointer()),
{
    reveal_strlit("/spec/cloudName");
    reveal_strlit("/spec/tags");
    reveal_strlit("/spec/terminationProtection");
    reveal_strlit("/spec/projectVpcId");
    let t = tag_pointer(tag_name);
    let n = tags_pointer().len();
    assert forall|i: int| 0 <= i < t.len() implies #[trigger] t[i] != '~' by {
        if i > n {
            assert(t[i] == tag_name[i - n - 1]);
        }
    }
}

/// Identification of a resource within the cluster.
#[derive(Clone, Debug, PartialEq, Eq)]
pub struct ObjectMeta {
    pub name: Option<String>,
    pub namespace: Option<String>,
}

/// A resource decoded without a schema: its metadata and its document.
#[derive(Debug)]
pub struct DynamicObject {
    pub metadata: ObjectMeta,
    pub data: JsonValue,
}

pub open spec fn text_or_empty(v: JsonValue) -> Seq<char> {
    match v {
        JsonValue::String(s) => s@,
        _ => Seq::empty(),
    }
}

/// The tag entries of a dynamic document: a member that is not a string
/// reads as the empty string.
pub open spec fn json_tag_entries(v: Option<JsonValue>) -> Option<Seq<(Seq<char>, Seq<char>)>> {
    match v {
        Some(JsonValue::Object(entries)) => Some(
            entries@.map_values(|e: (String, JsonValue)| (e.0@, text_or_empty(e.1))),
        ),
        _ => None,
    }
}

impl DynamicObject {
    pub open spec fn spec_field(&self, key: Seq<char>) -> Option<JsonValue> {
        member_at(self.data, "spec"@, key)
    }

    fn spec_member(&self, key: &str) -> (r: Option<&JsonValue>)
        ensures
            match r {
                Some(v) => self.spec_field(key@) == Some(*v),
                None => self.spec_field(key@) is None,
            },
    {
        match self.data.get("spec") {
            Some(spec) => spec.get(key),
            None => None,
        }
    }

    fn text_member(&self, key: &str) -> (r: Option<String>)
        ensures
            opt_text(r) == text_of(self.spec_field(key@)),
    {
        match self.spec_member(key) {
            Some(v) => match v.as_str() {
                Some(s) => Some(s.clone()),
                None => None,
            },
            None => None,
        }
    }
}

impl AivenObject for DynamicObject {
    open spec fn model(&self) -> ResourceModel {
        ResourceModel {
            cloud_name: text_of(self.spec_field("cloudName"@)),
            team_name: opt_text(self.metadata.namespace),
            tags: match json_tag_entries(self.spec_field("tags"@)) {
                Some(s) => Some(entries_map(s)),
                None => None,
            },
            termination_protection: flag_of(self.spec_field("terminationProtection"@)),
            project_vpc_id: text_of(self.spec_field("projectVpcId"@)),
        }
    }

    fn get_cloud_name(&self) -> (r: Option<String>) {
        self.text_member("cloudName")
    }

    fn get_team_name(&self) -> (r: Option<String>) {
        match &self.metadata.namespace {
            Some(ns) => Some(ns.clone()),
            None => None,
        }
    }

    fn get_tags(&self) -> (r: Option<Vec<(String, String)>>) {
        match self.spec_member("tags") {
            Some(JsonValue::Object(entries)) => {
                let ghost src = entries@.map_values(
                    |e: (String, JsonValue)| (e.0@, text_or_empty(e.1)),
                );
                let mut out: Vec<(String, String)> = Vec::new();
                let mut i: usize = 0;
                while i < entries.len()
                    invariant
                        0 <= i <= entries@.len(),
                        src.len() == entries@.len(),
                        src == entries@.map_values(
                            |e: (String, JsonValue)| (e.0@, text_or_empty(e.1)),
                        ),
                        tag_entries(out@) =~= src.subrange(0, i as int),
                    decreases entries@.len() - i,
                {
                    let value = match entries[i].1.as_str() {
                        Some(s) => s.clone(),
                        None => String::new(),
                    };
                    let key = entries[i].0.clone();
                    assert(value@ == text_or_empty(entries@[i as int].1));
                    assert(src[i as int] == (key@, value@));
                    let ghost before = out@;
                    out.push((key, value));
                    assert(out@ == before.push((key, value)));
                    assert(tag_entries(out@) =~= tag_entries(before).push((key@, value@)));
                    assert(src.subrange(0, i + 1) =~= src.subrange(0, i as int).push(src[i as int]));
                    assert(tag_entries(out@) =~= src.subrange(0, i + 1));
                    i = i + 1;
                }
                assert(src.subrange(0, src.len() as int) =~= src);
                Some(out)
            },
            _ => None,
        }
    }

    fn get_termination_protection(&self) -> (r: Option<bool>) {
        match self.spec_member("terminationProtection") {
            Some(v) => v.as_bool(),
            None => None,
        }
    }

    fn get_project_vpc_id(&self) -> (r: Option<String>) {
        self.text_member("projectVpcId")
    }
}

} // verus!
