//! Parsing of one index file and its expansion into file descriptors.
//!
//! An index file names a reporting entity and lists reporting structures;
//! each structure may list in-network files and allowed-amount files.
//! Every listed file becomes one descriptor; absent categories contribute
//! nothing.  An index body that is empty, shorter than the smallest valid
//! JSON, or malformed against this schema yields an empty result, never an
//! error: a bad index file must not abort the rest of a discovery run.

use crate::compression::{compression_of_url, determine_compression_from_url};
use crate::descriptor::{desc_model, DescriptorMetadata, DescriptorModel, MetadataModel,
    MrfFileInfo};
use crate::file_type::MrfFileType;
use crate::hashing::{file_id_of, generate_file_id};
use crate::json::{json_array, json_as_array, json_as_str, json_field, json_from_slice, json_get,
    json_is_null, json_null, json_string, parsed_json};
use vstd::prelude::*;

verus! {

/// One file listed by a reporting structure.
pub struct IndexFileRef {
    pub description: Option<String>,
    pub location: String,
}

/// One plan listed by a reporting structure.  Plans are validated while
/// parsing but play no part in expansion.
pub struct IndexPlan {
    pub plan_id: String,
    pub plan_id_type: String,
    pub plan_market_type: String,
    pub plan_name: String,
}

/// One reporting structure of an index file.
pub struct IndexStructure {
    pub in_network_files: Option<Vec<IndexFileRef>>,
    pub allowed_amount_files: Option<Vec<IndexFileRef>>,
    pub reporting_plans: Option<Vec<IndexPlan>>,
}

/// A parsed index file.
pub struct IndexDocument {
    pub reporting_entity_name: String,
    pub reporting_entity_type: String,
    pub reporting_structure: Vec<IndexStructure>,
}

/// The mathematical content of a listed file.
pub ghost struct FileRefModel {
    pub description: Option<Seq<char>>,
    pub location: Seq<char>,
}

/// The mathematical content of a listed plan.
pub ghost struct PlanModel {
    pub plan_id: Seq<char>,
    pub plan_id_type: Seq<char>,
    pub plan_market_type: Seq<char>,
    pub plan_name: Seq<char>,
}

/// The mathematical content of a reporting structure.
pub ghost struct StructureModel {
    pub in_network_files: Option<Seq<FileRefModel>>,
    pub allowed_amount_files: Option<Seq<FileRefModel>>,
    pub reporting_plans: Option<Seq<PlanModel>>,
}

/// The mathematical content of an index file.
pub ghost struct IndexDocModel {
    pub reporting_entity_name: Seq<char>,
    pub reporting_entity_type: Seq<char>,
    pub reporting_structure: Seq<StructureModel>,
}

pub open spec fn file_ref_model(f: IndexFileRef) -> FileRefModel {
    FileRefModel {
        description: match f.description {
            Option::Some(d) => Option::Some(d@),
            Option::None => Option::None,
        },
        location: f.location@,
    }
}

pub open spec fn plan_model(p: IndexPlan) -> PlanModel {
    PlanModel {
        plan_id: p.plan_id@,
        plan_id_type: p.plan_id_type@,
        plan_market_type: p.plan_market_type@,
        plan_name: p.plan_name@,
    }
}

pub open spec fn structure_model(s: IndexStructure) -> StructureModel {
    StructureModel {
        in_network_files: match s.in_network_files {
            Option::Some(v) => Option::Some(
                v@.map_values(|f: IndexFileRef| file_ref_model(f)),
            ),
            Option::None => Option::None,
        },
        allowed_amount_files: match s.allowed_amount_files {
            Option::Some(v) => Option::Some(
                v@.map_values(|f: IndexFileRef| file_ref_model(f)),
            ),
            Option::None => Option::None,
        },
        reporting_plans: match s.reporting_plans {
            Option::Some(v) => Option::Some(v@.map_values(|p: IndexPlan| plan_model(p))),
            Option::None => Option::None,
        },
    }
}

pub open spec fn doc_model(d: IndexDocument) -> IndexDocModel {
    IndexDocModel {
        reporting_entity_name: d.reporting_entity_name@,
        reporting_entity_type: d.reporting_entity_type@,
        reporting_structure: d.reporting_structure@.map_values(
            |s: IndexStructure| structure_model(s),
        ),
    }
}

/// What one listed-file object means: `location` must be a string;
/// `description` may be absent or null, but if present must be a string.
pub open spec fn file_ref_value_model(v: serde_json::Value) -> Option<FileRefModel> {
    match json_field(v, "location"@) {
        Option::None => Option::None,
        Option::Some(lv) => match json_string(lv) {
            Option::None => Option::None,
            Option::Some(loc) => match json_field(v, "description"@) {
                Option::None => Option::Some(
                    FileRefModel { description: Option::None, location: loc },
                ),
                Option::Some(dv) => {
                    if json_is_null(dv) {
                        Option::Some(FileRefModel { description: Option::None, location: loc })
                    } else {
                        match json_string(dv) {
                            Option::None => Option::None,
                            Option::Some(d) => Option::Some(
                                FileRefModel { description: Option::Some(d), location: loc },
                            ),
                        }
                    }
                },
            },
        },
    }
}

/// What a list of file objects means: every entry must be well-formed.
pub open spec fn file_refs_model(vs: Seq<serde_json::Value>) -> Option<Seq<FileRefModel>>
    decreases vs.len(),
{
    if vs.len() == 0 {
        Option::Some(Seq::empty())
    } else {
        match file_ref_value_model(vs.first()) {
            Option::None => Option::None,
            Option::Some(f) => match file_refs_model(vs.drop_first()) {
                Option::None => Option::None,
                Option::Some(rest) => Option::Some(seq![f] + rest),
            },
        }
    }
}

/// What an optional list member means: absent or null stands for no list;
/// anything else must be an array of well-formed file objects.
pub open spec fn opt_file_list_model(v: serde_json::Value, key: Seq<char>) -> Option<
    Option<Seq<FileRefModel>>,
> {
    match json_field(v, key) {
        Option::None => Option::Some(Option::None),
        Option::Some(fv) => {
            if json_is_null(fv) {
                Option::Some(Option::None)
            } else {
                match json_array(fv) {
                    Option::None => Option::None,
                    Option::Some(vs) => match file_refs_model(vs) {
                        Option::None => Option::None,
                        Option::Some(fs) => Option::Some(Option::Some(fs)),
                    },
                }
            }
        },
    }
}

/// What one plan object means: four required strings.
pub open spec fn plan_value_model(v: serde_json::Value) -> Option<PlanModel> {
    match (
        json_field(v, "plan_id"@),
        json_field(v, "plan_id_type"@),
        json_field(v, "plan_market_type"@),
        json_field(v, "plan_name"@),
    ) {
        (Option::Some(a), Option::Some(b), Option::Some(c), Option::Some(d)) => {
            match (json_string(a), json_string(b), json_string(c), json_string(d)) {
                (
                    Option::Some(plan_id),
                    Option::Some(plan_id_type),
                    Option::Some(plan_market_type),
                    Option::Some(plan_name),
                ) => Option::Some(PlanModel { plan_id, plan_id_type, plan_market_type, plan_name }),
                _ => Option::None,
            }
        },
        _ => Option::None,
    }
}

/// What a list of plan objects means.
pub open spec fn plans_model(vs: Seq<serde_json::Value>) -> Option<Seq<PlanModel>>
    decreases vs.len(),
{
    if vs.len() == 0 {
        Option::Some(Seq::empty())
    } else {
        match plan_value_model(vs.first()) {
            Option::None => Option::None,
            Option::Some(p) => match plans_model(vs.drop_first()) {
                Option::None => Option::None,
                Option::Some(rest) => Option::Some(seq![p] + rest),
            },
        }
    }
}

/// What an optional plan-list member means.
pub open spec fn opt_plan_list_model(v: serde_json::Value, key: Seq<char>) -> Option<
    Option<Seq<PlanModel>>,
> {
    match json_field(v, key) {
        Option::None => Option::Some(Option::None),
        Option::Some(pv) => {
            if json_is_null(pv) {
                Option::Some(Option::None)
            } else {
                match json_array(pv) {
                    Option::None => Option::None,
                    Option::Some(vs) => match plans_model(vs) {
                        Option::None => Option::None,
                        Option::Some(ps) => Option::Some(Option::Some(ps)),
                    },
                }
            }
        },
    }
}

/// What one reporting-structure object means.
pub open spec fn structure_value_model(v: serde_json::Value) -> Option<StructureModel> {
    match (
        opt_file_list_model(v, "in_network_files"@),
        opt_file_list_model(v, "allowed_amount_files"@),
        opt_plan_list_model(v, "reporting_plans"@),
    ) {
        (Option::Some(inn), Option::Some(alw), Option::Some(pl)) => Option::Some(
            StructureModel {
                in_network_files: inn,
                allowed_amount_files: alw,
                reporting_plans: pl,
            },
        ),
        _ => Option::None,
    }
}

/// What a list of structure objects means.
pub open spec fn structures_model(vs: Seq<serde_json::Value>) -> Option<Seq<StructureModel>>
    decreases vs.len(),
{
    if vs.len() == 0 {
        Option::Some(Seq::empty())
    } else {
        match structure_value_model(vs.first()) {
            Option::None => Option::None,
            Option::Some(s) => match structures_model(vs.drop_first()) {
                Option::None => Option::None,
                Option::Some(rest) => Option::Some(seq![s] + rest),
            },
        }
    }
}

/// What an index body means: valid JSON with a named entity, its type,
/// and an array of well-formed reporting structures.
pub open spec fn index_doc_model(bytes: Seq<u8>) -> Option<IndexDocModel> {
    match parsed_json(bytes) {
        Option::None => Option::None,
        Option::Some(root) => match (
            json_field(root, "reporting_entity_name"@),
            json_field(root, "reporting_entity_type"@),
            json_field(root, "reporting_structure"@),
        ) {
            (Option::Some(nv), Option::Some(tv), Option::Some(sv)) => {
                match (json_string(nv), json_string(tv), json_array(sv)) {
                    (Option::Some(en), Option::Some(et), Option::Some(vs)) => {
                        match structures_model(vs) {
                            Option::None => Option::None,
                            Option::Some(ss) => Option::Some(
                                IndexDocModel {
                                    reporting_entity_name: en,
                                    reporting_entity_type: et,
                                    reporting_structure: ss,
                                },
                            ),
                        }
                    },
                    _ => Option::None,
                }
            },
            _ => Option::None,
        },
    }
}

/// Read one listed-file object, or nothing when it is malformed.
fn parse_file_ref(v: &serde_json::Value) -> (r: Option<IndexFileRef>)
    ensures
        match r {
            Option::Some(f) => file_ref_value_model(*v) == Option::Some(file_ref_model(f)),
            Option::None => file_ref_value_model(*v) is None,
        },
{
    let lv = match json_get(v, "location") {
        Option::Some(x) => x,
        Option::None => {
            return Option::None;
        },
    };
    let location = match json_as_str(&lv) {
        Option::Some(s) => s,
        Option::None => {
            return Option::None;
        },
    };
    let description = match json_get(v, "description") {
        Option::None => Option::None,
        Option::Some(dv) => {
            if json_null(&dv) {
                Option::None
            } else {
                match json_as_str(&dv) {
                    Option::Some(d) => Option::Some(d),
                    Option::None => {
                        return Option::None;
                    },
                }
            }
        },
    };
    Option::Some(IndexFileRef { description, location })
}

/// Read a list of file objects, or nothing when any entry is malformed.
fn parse_file_list(vs: Vec<serde_json::Value>) -> (r: Option<Vec<IndexFileRef>>)
    ensures
        match r {
            Option::Some(l) => file_refs_model(vs@) == Option::Some(
                l@.map_values(|f: IndexFileRef| file_ref_model(f)),
            ),
            Option::None => file_refs_model(vs@) is None,
        },
{
    let n = vs.len();
    let mut out: Vec<IndexFileRef> = Vec::new();
    proof {
        assert(vs@.skip(0) =~= vs@);
        match file_refs_model(vs@) {
            Option::Some(rest) => {
                assert(out@.map_values(|f: IndexFileRef| file_ref_model(f)) + rest =~= rest);
            },
            Option::None => {},
        }
    }
    let mut i: usize = 0;
    while i < n
        invariant
            i <= n,
            n == vs@.len(),
            out@.len() == i,
            match file_refs_model(vs@.skip(i as int)) {
                Option::Some(rest) => file_refs_model(vs@) == Option::Some(
                    out@.map_values(|f: IndexFileRef| file_ref_model(f)) + rest,
                ),
                Option::None => file_refs_model(vs@) is None,
            },
        decreases n - i,
    {
        proof {
            assert(vs@.skip(i as int).first() == vs@[i as int]);
            assert(vs@.skip(i as int).drop_first() =~= vs@.skip(i + 1));
        }
        let f = match parse_file_ref(&vs[i]) {
            Option::Some(f) => f,
            Option::None => {
                proof {
                    assert(file_refs_model(vs@.skip(i as int)) is None);
                }
                return Option::None;
            },
        };
        out.push(f);
        proof {
            let g = |f: IndexFileRef| file_ref_model(f);
            assert(out@.map_values(g) =~= out@.drop_last().map_values(g).push(
                file_ref_model(f),
            ));
            match file_refs_model(vs@.skip(i + 1)) {
                Option::Some(rest) => {
                    assert(out@.drop_last().map_values(g).push(file_ref_model(f)) + rest
                        =~= out@.drop_last().map_values(g) + (seq![file_ref_model(f)] + rest));
                },
                Option::None => {},
            }
        }
        i = i + 1;
    }
    proof {
        assert(vs@.skip(n as int) =~= Seq::empty());
        match file_refs_model(vs@) {
            Option::Some(m) => {
                assert(m =~= out@.map_values(|f: IndexFileRef| file_ref_model(f)));
            },
            Option::None => {},
        }
    }
    Option::Some(out)
}

/// Read an optional list member: absent or null is no list, and a
/// malformed list poisons the whole structure.
fn parse_opt_file_list(v: &serde_json::Value, key: &str) -> (r: Option<Option<Vec<IndexFileRef>>>)
    ensures
        match r {
            Option::Some(opt) => opt_file_list_model(*v, key@) == Option::Some(
                match opt {
                    Option::Some(l) => Option::Some(
                        l@.map_values(|f: IndexFileRef| file_ref_model(f)),
                    ),
                    Option::None => Option::None,
                },
            ),
            Option::None => opt_file_list_model(*v, key@) is None,
        },
{
    let fv = match json_get(v, key) {
        Option::None => {
            return Option::Some(Option::None);
        },
        Option::Some(fv) => fv,
    };
    if json_null(&fv) {
        return Option::Some(Option::None);
    }
    let vs = match json_as_array(&fv) {
        Option::Some(a) => a,
        Option::None => {
            return Option::None;
        },
    };
    match parse_file_list(vs) {
        Option::Some(l) => Option::Some(Option::Some(l)),
        Option::None => Option::None,
    }
}

/// Read one plan object, or nothing when it is malformed.
fn parse_plan(v: &serde_json::Value) -> (r: Option<IndexPlan>)
    ensures
        match r {
            Option::Some(p) => plan_value_model(*v) == Option::Some(plan_model(p)),
            Option::None => plan_value_model(*v) is None,
        },
{
    let a = match json_get(v, "plan_id") {
        Option::Some(x) => x,
        Option::None => {
            return Option::None;
        },
    };
    let b = match json_get(v, "plan_id_type") {
        Option::Some(x) => x,
        Option::None => {
            return Option::None;
        },
    };
    let c = match json_get(v, "plan_market_type") {
        Option::Some(x) => x,
        Option::None => {
            return Option::None;
        },
    };
    let d = match json_get(v, "plan_name") {
        Option::Some(x) => x,
        Option::None => {
            return Option::None;
        },
    };
    let plan_id = match json_as_str(&a) {
        Option::Some(s) => s,
        Option::None => {
            return Option::None;
        },
    };
    let plan_id_type = match json_as_str(&b) {
        Option::Some(s) => s,
        Option::None => {
            return Option::None;
        },
    };
    let plan_market_type = match json_as_str(&c) {
        Option::Some(s) => s,
        Option::None => {
            return Option::None;
        },
    };
    let plan_name = match json_as_str(&d) {
        Option::Some(s) => s,
        Option::None => {
            return Option::None;
        },
    };
    Option::Some(IndexPlan { plan_id, plan_id_type, plan_market_type, plan_name })
}

/// Read a list of plan objects, or nothing when any entry is malformed.
fn parse_plan_list(vs: Vec<serde_json::Value>) -> (r: Option<Vec<IndexPlan>>)
    ensures
        match r {
            Option::Some(l) => plans_model(vs@) == Option::Some(
                l@.map_values(|p: IndexPlan| plan_model(p)),
            ),
            Option::None => plans_model(vs@) is None,
        },
{
    let n = vs.len();
    let mut out: Vec<IndexPlan> = Vec::new();
    proof {
        assert(vs@.skip(0) =~= vs@);
        match plans_model(vs@) {
            Option::Some(rest) => {
                assert(out@.map_values(|p: IndexPlan| plan_model(p)) + rest =~= rest);
            },
            Option::None => {},
        }
    }
    let mut i: usize = 0;
    while i < n
        invariant
            i <= n,
            n == vs@.len(),
            out@.len() == i,
            match plans_model(vs@.skip(i as int)) {
                Option::Some(rest) => plans_model(vs@) == Option::Some(
                    out@.map_values(|p: IndexPlan| plan_model(p)) + rest,
                ),
                Option::None => plans_model(vs@) is None,
            },
        decreases n - i,
    {
        proof {
            assert(vs@.skip(i as int).first() == vs@[i as int]);
            assert(vs@.skip(i as int).drop_first() =~= vs@.skip(i + 1));
        }
        let p = match parse_plan(&vs[i]) {
            Option::Some(p) => p,
            Option::None => {
                proof {
                    assert(plans_model(vs@.skip(i as int)) is None);
                }
                return Option::None;
            },
        };
        out.push(p);
        proof {
            let g = |p: IndexPlan| plan_model(p);
            assert(out@.map_values(g) =~= out@.drop_last().map_values(g).push(plan_model(p)));
            match plans_model(vs@.skip(i + 1)) {
                Option::Some(rest) => {
                    assert(out@.drop_last().map_values(g).push(plan_model(p)) + rest
                        =~= out@.drop_last().map_values(g) + (seq![plan_model(p)] + rest));
                },
                Option::None => {},
            }
        }
        i = i + 1;
    }
    proof {
        assert(vs@.skip(n as int) =~= Seq::empty());
        match plans_model(vs@) {
            Option::Some(m) => {
                assert(m =~= out@.map_values(|p: IndexPlan| plan_model(p)));
            },
            Option::None => {},
        }
    }
    Option::Some(out)
}

/// Read an optional plan-list member.
fn parse_opt_plan_list(v: &serde_json::Value, key: &str) -> (r: Option<Option<Vec<IndexPlan>>>)
    ensures
        match r {
            Option::Some(opt) => opt_plan_list_model(*v, key@) == Option::Some(
                match opt {
                    Option::Some(l) => Option::Some(l@.map_values(|p: IndexPlan| plan_model(p))),
                    Option::None => Option::None,
                },
            ),
            Option::None => opt_plan_list_model(*v, key@) is None,
        },
{
    let pv = match json_get(v, key) {
        Option::None => {
            return Option::Some(Option::None);
        },
        Option::Some(pv) => pv,
    };
    if json_null(&pv) {
        return Option::Some(Option::None);
    }
    let vs = match json_as_array(&pv) {
        Option::Some(a) => a,
        Option::None => {
            return Option::None;
        },
    };
    match parse_plan_list(vs) {
        Option::Some(l) => Option::Some(Option::Some(l)),
        Option::None => Option::None,
    }
}

/// Read one reporting-structure object, or nothing when it is malformed.
fn parse_structure(v: &serde_json::Value) -> (r: Option<IndexStructure>)
    ensures
        match r {
            Option::Some(s) => structure_value_model(*v) == Option::Some(structure_model(s)),
            Option::None => structure_value_model(*v) is None,
        },
{
    let in_network_files = match parse_opt_file_list(v, "in_network_files") {
        Option::Some(x) => x,
        Option::None => {
            return Option::None;
        },
    };
    let allowed_amount_files = match parse_opt_file_list(v, "allowed_amount_files") {
        Option::Some(x) => x,
        Option::None => {
            return Option::None;
        },
    };
    let reporting_plans = match parse_opt_plan_list(v, "reporting_plans") {
        Option::Some(x) => x,
        Option::None => {
            return Option::None;
        },
    };
    Option::Some(IndexStructure { in_network_files, allowed_amount_files, reporting_plans })
}

/// Read a list of structure objects, or nothing when any is malformed.
fn parse_structures(vs: Vec<serde_json::Value>) -> (r: Option<Vec<IndexStructure>>)
    ensures
        match r {
            Option::Some(l) => structures_model(vs@) == Option::Some(
                l@.map_values(|s: IndexStructure| structure_model(s)),
            ),
            Option::None => structures_model(vs@) is None,
        },
{
    let n = vs.len();
    let mut out: Vec<IndexStructure> = Vec::new();
    proof {
        assert(vs@.skip(0) =~= vs@);
        match structures_model(vs@) {
            Option::Some(rest) => {
                assert(out@.map_values(|s: IndexStructure| structure_model(s)) + rest =~= rest);
            },
            Option::None => {},
        }
    }
    let mut i: usize = 0;
    while i < n
        invariant
            i <= n,
            n == vs@.len(),
            out@.len() == i,
            match structures_model(vs@.skip(i as int)) {
                Option::Some(rest) => structures_model(vs@) == Option::Some(
                    out@.map_values(|s: IndexStructure| structure_model(s)) + rest,
                ),
                Option::None => structures_model(vs@) is None,
            },
        decreases n - i,
    {
        proof {
            assert(vs@.skip(i as int).first() == vs@[i as int]);
            assert(vs@.skip(i as int).drop_first() =~= vs@.skip(i + 1));
        }
        let s = match parse_structure(&vs[i]) {
            Option::Some(s) => s,
            Option::None => {
                proof {
                    assert(structures_model(vs@.skip(i as int)) is None);
                }
                return Option::None;
            },
        };
        out.push(s);
        proof {
            let g = |s: IndexStructure| structure_model(s);
            assert(out@.map_values(g) =~= out@.drop_last().map_values(g).push(
                structure_model(s),
            ));
            match structures_model(vs@.skip(i + 1)) {
                Option::Some(rest) => {
                    assert(out@.drop_last().map_values(g).push(structure_model(s)) + rest
                        =~= out@.drop_last().map_values(g) + (seq![structure_model(s)] + rest));
                },
                Option::None => {},
            }
        }
        i = i + 1;
    }
    proof {
        assert(vs@.skip(n as int) =~= Seq::empty());
        match structures_model(vs@) {
            Option::Some(m) => {
                assert(m =~= out@.map_values(|s: IndexStructure| structure_model(s)));
            },
            Option::None => {},
        }
    }
    Option::Some(out)
}

/// Parse an index body against the index schema, or nothing when the body
/// is not valid JSON of that shape.
pub fn parse_index_document(bytes: &[u8]) -> (r: Option<IndexDocument>)
    ensures
        match r {
            Option::Some(doc) => index_doc_model(bytes@) == Option::Some(doc_model(doc)),
            Option::None => index_doc_model(bytes@) is None,
        },
{
    let root = match json_from_slice(bytes) {
        Option::Some(v) => v,
        Option::None => {
            return Option::None;
        },
    };
    let nv = match json_get(&root, "reporting_entity_name") {
        Option::Some(x) => x,
        Option::None => {
            return Option::None;
        },
    };
    let tv = match json_get(&root, "reporting_entity_type") {
        Option::Some(x) => x,
        Option::None => {
            return Option::None;
        },
    };
    let sv = match json_get(&root, "reporting_structure") {
        Option::Some(x) => x,
        Option::None => {
            return Option::None;
        },
    };
    let reporting_entity_name = match json_as_str(&nv) {
        Option::Some(s) => s,
        Option::None => {
            return Option::None;
        },
    };
    let reporting_entity_type = match json_as_str(&tv) {
        Option::Some(s) => s,
        Option::None => {
            return Option::None;
        },
    };
    let vs = match json_as_array(&sv) {
        Option::Some(a) => a,
        Option::None => {
            return Option::None;
        },
    };
    let reporting_structure = match parse_structures(vs) {
        Option::Some(l) => l,
        Option::None => {
            return Option::None;
        },
    };
    Option::Some(IndexDocument { reporting_entity_name, reporting_entity_type, reporting_structure })
}

/// The name a descriptor falls back to when its entry has no description.
pub open spec fn default_name(t: MrfFileType) -> Seq<char> {
    match t {
        MrfFileType::InNetwork => "In-Network File"@,
        MrfFileType::AllowedAmount => "Allowed Amount File"@,
        _ => "MRF File"@,
    }
}

/// The descriptor one listed file expands to: identity from its URL,
/// compression inferred from that URL, and the index context as metadata.
pub open spec fn descriptor_of(
    f: FileRefModel,
    t: MrfFileType,
    en: Seq<char>,
    et: Seq<char>,
    iu: Seq<char>,
) -> DescriptorModel {
    DescriptorModel {
        id: file_id_of(f.location),
        name: match f.description {
            Option::Some(d) => d,
            Option::None => default_name(t),
        },
        url: f.location,
        file_type: t,
        size_bytes: Option::None,
        last_modified: Option::None,
        compression: compression_of_url(f.location),
        metadata: MetadataModel {
            source: "united_health"@,
            index_url: iu,
            reporting_entity_name: en,
            reporting_entity_type: et,
        },
    }
}

/// Build the descriptor for one listed file.
pub fn create_mrf_file_info(
    file: IndexFileRef,
    file_type: MrfFileType,
    entity_name: &str,
    entity_type: &str,
    index_url: &str,
) -> (r: MrfFileInfo)
    ensures
        desc_model(r) == descriptor_of(
            file_ref_model(file),
            file_type,
            entity_name@,
            entity_type@,
            index_url@,
        ),
        r.wf(),
{
    let compression = determine_compression_from_url(file.location.as_str());
    let id = generate_file_id(file.location.as_str());
    let name = match file.description {
        Option::Some(d) => d,
        Option::None => match file_type {
            MrfFileType::InNetwork => String::from_str("In-Network File"),
            MrfFileType::AllowedAmount => String::from_str("Allowed Amount File"),
            _ => String::from_str("MRF File"),
        },
    };
    let metadata = DescriptorMetadata {
        source: String::from_str("united_health"),
        index_url: index_url.to_owned(),
        reporting_entity_name: entity_name.to_owned(),
        reporting_entity_type: entity_type.to_owned(),
    };
    MrfFileInfo {
        id,
        name,
        url: file.location,
        file_type,
        size_bytes: Option::None,
        last_modified: Option::None,
        compression,
        metadata,
    }
}

/// The descriptors one reporting structure expands to: one per in-network
/// file and one per allowed-amount file; absent categories contribute
/// nothing.
pub open spec fn expand_structure(
    s: StructureModel,
    en: Seq<char>,
    et: Seq<char>,
    iu: Seq<char>,
) -> Seq<DescriptorModel> {
    (match s.in_network_files {
        Option::Some(fs) => fs,
        Option::None => Seq::empty(),
    }).map_values(|f: FileRefModel| descriptor_of(f, MrfFileType::InNetwork, en, et, iu)) + (
    match s.allowed_amount_files {
        Option::Some(fs) => fs,
        Option::None => Seq::empty(),
    }).map_values(|f: FileRefModel| descriptor_of(f, MrfFileType::AllowedAmount, en, et, iu))
}

/// The descriptors a list of reporting structures expands to, in order.
pub open spec fn expand_structures(
    ss: Seq<StructureModel>,
    en: Seq<char>,
    et: Seq<char>,
    iu: Seq<char>,
) -> Seq<DescriptorModel>
    decreases ss.len(),
{
    if ss.len() == 0 {
        Seq::empty()
    } else {
        expand_structure(ss.first(), en, et, iu) + expand_structures(ss.drop_first(), en, et, iu)
    }
}

/// The descriptors a whole index file expands to.
pub open spec fn expand_doc(d: IndexDocModel, iu: Seq<char>) -> Seq<DescriptorModel> {
    expand_structures(
        d.reporting_structure,
        d.reporting_entity_name,
        d.reporting_entity_type,
        iu,
    )
}

/// Append one descriptor per listed file to `out`.
fn append_descriptors(
    out: &mut Vec<MrfFileInfo>,
    files: Vec<IndexFileRef>,
    t: MrfFileType,
    en: &str,
    et: &str,
    iu: &str,
)
    ensures
        final(out)@.len() == old(out)@.len() + files@.len(),
        forall|k: int| 0 <= k < old(out)@.len() ==> final(out)@[k] == old(out)@[k],
        forall|j: int|
            old(out)@.len() <= j < final(out)@.len() ==> desc_model(#[trigger] final(out)@[j])
                == descriptor_of(file_ref_model(files@[j - old(out)@.len()]), t, en@, et@, iu@),
        forall|k: int|
            old(out)@.len() <= k < final(out)@.len() ==> #[trigger] final(out)@[k].wf(),
{
    let ghost orig = files@;
    let ghost base = old(out)@.len() as int;
    let mut files = files;
    let n = files.len();
    let mut i: usize = 0;
    while i < n
        invariant
            i <= n,
            orig.len() == n,
            files@ =~= orig.skip(i as int),
            out@.len() == old(out)@.len() + i,
            base == old(out)@.len(),
            forall|k: int| 0 <= k < base ==> out@[k] == old(out)@[k],
            forall|j: int|
                base <= j < out@.len() ==> desc_model(#[trigger] out@[j]) == descriptor_of(
                    file_ref_model(orig[j - base]),
                    t,
                    en@,
                    et@,
                    iu@,
                ),
            forall|k: int| base <= k < out@.len() ==> #[trigger] out@[k].wf(),
        decreases n - i,
    {
        let f = files.remove(0);
        proof {
            assert(f == orig[i as int]);
            assert(files@ =~= orig.skip(i + 1));
        }
        let d = create_mrf_file_info(f, t, en, et, iu);
        out.push(d);
        i = i + 1;
    }
}

/// Append the expansion of one reporting structure to `out`.
fn append_structure(out: &mut Vec<MrfFileInfo>, s: IndexStructure, en: &str, et: &str, iu: &str)
    ensures
        final(out)@.map_values(|d: MrfFileInfo| desc_model(d)) == old(out)@.map_values(
            |d: MrfFileInfo| desc_model(d),
        ) + expand_structure(structure_model(s), en@, et@, iu@),
        forall|k: int| 0 <= k < old(out)@.len() ==> final(out)@[k] == old(out)@[k],
        forall|k: int|
            old(out)@.len() <= k < final(out)@.len() ==> #[trigger] final(out)@[k].wf(),
{
    let ghost sm_s = structure_model(s);
    let ghost inn: Seq<FileRefModel> = match sm_s.in_network_files {
        Option::Some(fs) => fs,
        Option::None => Seq::empty(),
    };
    let ghost alw: Seq<FileRefModel> = match sm_s.allowed_amount_files {
        Option::Some(fs) => fs,
        Option::None => Seq::empty(),
    };
    let ghost base = old(out)@.len() as int;
    let IndexStructure { in_network_files, allowed_amount_files, reporting_plans: _ } = s;
    match in_network_files {
        Option::Some(files) => {
            proof {
                assert(inn =~= files@.map_values(|f: IndexFileRef| file_ref_model(f)));
            }
            append_descriptors(out, files, MrfFileType::InNetwork, en, et, iu);
        },
        Option::None => {},
    }
    proof {
        assert(out@.len() == base + inn.len());
        assert(forall|j: int|
            base <= j < base + inn.len() ==> desc_model(#[trigger] out@[j]) == descriptor_of(
                inn[j - base],
                MrfFileType::InNetwork,
                en@,
                et@,
                iu@,
            ));
    }
    let ghost mid = out@;
    match allowed_amount_files {
        Option::Some(files) => {
            proof {
                assert(alw =~= files@.map_values(|f: IndexFileRef| file_ref_model(f)));
            }
            append_descriptors(out, files, MrfFileType::AllowedAmount, en, et, iu);
        },
        Option::None => {},
    }
    proof {
        let dm = |d: MrfFileInfo| desc_model(d);
        assert(out@.len() == base + inn.len() + alw.len());
        assert(forall|k: int| 0 <= k < mid.len() ==> out@[k] == mid[k]);
        assert(forall|j: int|
            base + inn.len() <= j < out@.len() ==> desc_model(#[trigger] out@[j])
                == descriptor_of(alw[j - base - inn.len()], MrfFileType::AllowedAmount, en@, et@, iu@));
        let target = old(out)@.map_values(dm) + expand_structure(sm_s, en@, et@, iu@);
        assert(expand_structure(sm_s, en@, et@, iu@).len() == inn.len() + alw.len());
        assert forall|k: int| 0 <= k < out@.len() implies out@.map_values(dm)[k] == target[k] by {
            if k < base {
                assert(out@[k] == old(out)@[k]);
            } else if k < base + inn.len() {
                assert(expand_structure(sm_s, en@, et@, iu@)[k - base] == descriptor_of(
                    inn[k - base],
                    MrfFileType::InNetwork,
                    en@,
                    et@,
                    iu@,
                ));
            } else {
                assert(expand_structure(sm_s, en@, et@, iu@)[k - base] == descriptor_of(
                    alw[k - base - inn.len()],
                    MrfFileType::AllowedAmount,
                    en@,
                    et@,
                    iu@,
                ));
            }
        }
        assert(out@.map_values(dm) =~= target);
    }
}

/// Expand a parsed index file into descriptors, one per listed file over
/// all its reporting structures, in order.
pub fn descriptors_from_doc(doc: IndexDocument, index_url: &str) -> (r: Vec<MrfFileInfo>)
    ensures
        r@.map_values(|d: MrfFileInfo| desc_model(d)) == expand_doc(doc_model(doc), index_url@),
        forall|i: int| 0 <= i < r@.len() ==> #[trigger] r@[i].wf(),
{
    let ghost en_s = doc.reporting_entity_name@;
    let ghost et_s = doc.reporting_entity_type@;
    let ghost orig = doc.reporting_structure@;
    let IndexDocument { reporting_entity_name, reporting_entity_type, reporting_structure } = doc;
    let mut structures = reporting_structure;
    let n = structures.len();
    let mut out: Vec<MrfFileInfo> = Vec::new();
    let mut i: usize = 0;
    proof {
        assert(orig.skip(0) =~= orig);
        assert(out@.map_values(|d: MrfFileInfo| desc_model(d)) + expand_structures(
            orig.skip(0).map_values(|s: IndexStructure| structure_model(s)),
            en_s,
            et_s,
            index_url@,
        ) =~= expand_doc(doc_model(doc), index_url@));
    }
    while i < n
        invariant
            i <= n,
            orig.len() == n,
            structures@ =~= orig.skip(i as int),
            reporting_entity_name@ == en_s,
            reporting_entity_type@ == et_s,
            out@.map_values(|d: MrfFileInfo| desc_model(d)) + expand_structures(
                structures@.map_values(|s: IndexStructure| structure_model(s)),
                en_s,
                et_s,
                index_url@,
            ) =~= expand_doc(doc_model(doc), index_url@),
            forall|k: int| 0 <= k < out@.len() ==> #[trigger] out@[k].wf(),
        decreases n - i,
    {
        let ghost before = out@;
        let s = structures.remove(0);
        proof {
            let sm = |s: IndexStructure| structure_model(s);
            assert(s == orig[i as int]);
            assert(structures@ =~= orig.skip(i + 1));
            let ssm = orig.skip(i as int).map_values(sm);
            assert(ssm[0] == sm(orig.skip(i as int)[0]));
            assert(orig.skip(i as int)[0] == orig[i as int]);
            assert(ssm.first() == structure_model(s));
            assert(ssm.drop_first() =~= orig.skip(i + 1).map_values(sm));
            assert(expand_structures(ssm, en_s, et_s, index_url@) == expand_structure(
                structure_model(s),
                en_s,
                et_s,
                index_url@,
            ) + expand_structures(orig.skip(i + 1).map_values(sm), en_s, et_s, index_url@));
        }
        append_structure(
            &mut out,
            s,
            reporting_entity_name.as_str(),
            reporting_entity_type.as_str(),
            index_url,
        );
        proof {
            assert(out@.map_values(|d: MrfFileInfo| desc_model(d)) == before.map_values(
                |d: MrfFileInfo| desc_model(d),
            ) + expand_structure(structure_model(s), en_s, et_s, index_url@));
            assert(out@.map_values(|d: MrfFileInfo| desc_model(d)) + expand_structures(
                structures@.map_values(|s: IndexStructure| structure_model(s)),
                en_s,
                et_s,
                index_url@,
            ) =~= expand_doc(doc_model(doc), index_url@));
        }
        i = i + 1;
    }
    proof {
        assert(structures@.map_values(|s: IndexStructure| structure_model(s)) =~= Seq::<
            StructureModel,
        >::empty());
        assert(expand_structures(
            structures@.map_values(|s: IndexStructure| structure_model(s)),
            en_s,
            et_s,
            index_url@,
        ) =~= Seq::<DescriptorModel>::empty());
        assert(out@.map_values(|d: MrfFileInfo| desc_model(d)) =~= expand_doc(
            doc_model(doc),
            index_url@,
        ));
    }
    out
}

/// What an index fetch contributes to discovery, given the response's
/// advertised length and body: nothing when the advertised length is
/// zero, the body is shorter than the smallest valid JSON, or the body
/// does not match the index schema; the expansion otherwise.
pub open spec fn index_result_model(
    content_length: Option<u64>,
    bytes: Seq<u8>,
    iu: Seq<char>,
) -> Seq<DescriptorModel> {
    if content_length == Option::Some(0u64) {
        Seq::empty()
    } else if bytes.len() < 2 {
        Seq::empty()
    } else {
        match index_doc_model(bytes) {
            Option::None => Seq::empty(),
            Option::Some(d) => expand_doc(d, iu),
        }
    }
}

/// The descriptors one index fetch contributes.  A skipped or malformed
/// index file contributes zero descriptors and is no error, so it cannot
/// prevent other index files of the same run from succeeding.
pub fn index_descriptors_from_body(
    content_length: Option<u64>,
    body: &[u8],
    index_url: &str,
) -> (r: Vec<MrfFileInfo>)
    ensures
        r@.map_values(|d: MrfFileInfo| desc_model(d)) == index_result_model(
            content_length,
            body@,
            index_url@,
        ),
        forall|i: int| 0 <= i < r@.len() ==> #[trigger] r@[i].wf(),
        content_length == Option::Some(0u64) ==> r@.len() == 0,
        body@.len() < 2 ==> r@.len() == 0,
{
    match content_length {
        Option::Some(len) => {
            if len == 0 {
                return Vec::new();
            }
        },
        Option::None => {},
    }
    if body.len() < 2 {
        return Vec::new();
    }
    match parse_index_document(body) {
        Option::None => Vec::new(),
        Option::Some(doc) => descriptors_from_doc(doc, index_url),
    }
}

} // verus!
