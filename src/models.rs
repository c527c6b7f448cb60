//! Shaping model lists: the local server's tags, and the aggregator's
//! catalogue cut down to its free tier.
use vstd::prelude::*;
use crate::json::{Json, member_or_null, text_of, elements_of, take_member};
use crate::outcome::{HttpOutcome, error_of, FREE_TIER_MARKER};
use crate::provider::Provider;
use crate::text::{contains_seq, contains_text};

verus! {

/// One model as the caller sees it; the fields depend on the provider.
#[allow(inconsistent_fields)]
pub enum ModelInfo {
    /// A model of the local server: its name serves as identifier too.
    Local { id: String, name: String, size: Json, modified_at: Json },
    /// A model of the aggregator, its fields passed through as they came.
    Aggregator { id: Json, name: Json, context_length: Json, pricing: Json },
}

/// The result of listing models.
pub struct ModelsResult {
    pub success: bool,
    pub models: Option<Vec<ModelInfo>>,
    pub error: Option<String>,
}

impl ModelsResult {
    /// A success carries the list and no error; a failure the error and no list.
    pub open spec fn well_formed(&self) -> bool {
        &&& self.success == self.models is Some
        &&& self.success != self.error is Some
    }
}

/// The name of a local model entry, empty where it has none.
pub open spec fn local_name_of(m: Json) -> Seq<char> {
    match text_of(member_or_null(m, "name"@)) {
        Some(t) => t,
        None => Seq::empty(),
    }
}

/// `info` is what the local entry `m` becomes.
pub open spec fn is_local_info(info: ModelInfo, m: Json) -> bool {
    &&& info matches ModelInfo::Local { id, name, size, modified_at }
    &&& id@ == local_name_of(m)
    &&& name@ == local_name_of(m)
    &&& size == member_or_null(m, "size"@)
    &&& modified_at == member_or_null(m, "modified_at"@)
}

/// `info` is what the aggregator entry `m` becomes.
pub open spec fn is_aggregator_info(info: ModelInfo, m: Json) -> bool {
    &&& info matches ModelInfo::Aggregator { id, name, context_length, pricing }
    &&& id == member_or_null(m, "id"@)
    &&& name == member_or_null(m, "name"@)
    &&& context_length == member_or_null(m, "context_length"@)
    &&& pricing == member_or_null(m, "pricing"@)
}

/// An aggregator entry is free-tier when its `id` is a string that holds the marker.
pub open spec fn is_free_tier(m: Json) -> bool {
    match text_of(member_or_null(m, "id"@)) {
        Some(t) => contains_seq(t, FREE_TIER_MARKER@),
        None => false,
    }
}

/// The free-tier entries of `s`, in their order.
pub open spec fn free_tier_entries(s: Seq<Json>) -> Seq<Json>
    decreases s.len(),
{
    if s.len() == 0 {
        Seq::empty()
    } else if is_free_tier(s.last()) {
        free_tier_entries(s.drop_last()).push(s.last())
    } else {
        free_tier_entries(s.drop_last())
    }
}

/// Every entry that the free-tier filter keeps has an `id` that holds the marker.
pub proof fn free_tier_entries_are_free(s: Seq<Json>)
    ensures
        forall|i: int|
            0 <= i < free_tier_entries(s).len() ==> is_free_tier(#[trigger] free_tier_entries(s)[i]),
    decreases s.len(),
{
    if s.len() > 0 {
        free_tier_entries_are_free(s.drop_last());
        let prev = free_tier_entries(s.drop_last());
        if is_free_tier(s.last()) {
            assert forall|i: int| 0 <= i < prev.len() + 1 implies is_free_tier(
                #[trigger] prev.push(s.last())[i],
            ) by {
                if i < prev.len() {
                    assert(prev.push(s.last())[i] == prev[i]);
                }
            }
        }
    }
}

/// The entries that a successful listing reads from the reply `j`.
pub open spec fn listed_entries(provider: Provider, j: Json) -> Seq<Json> {
    match provider {
        Provider::Local => elements_of(member_or_null(j, "models"@)),
        Provider::Aggregator => free_tier_entries(elements_of(member_or_null(j, "data"@))),
    }
}

/// `info` is what `m` becomes under `provider`.
pub open spec fn is_info_of(provider: Provider, info: ModelInfo, m: Json) -> bool {
    match provider {
        Provider::Local => is_local_info(info, m),
        Provider::Aggregator => is_aggregator_info(info, m),
    }
}

fn local_info(m: Json) -> (r: ModelInfo)
    ensures
        is_local_info(r, m),
{
    proof {
        reveal_strlit("size");
        reveal_strlit("modified_at");
        assert("size"@.len() != "modified_at"@.len());
    }
    let ghost orig = m;
    let name = match m.member("name") {
        Some(v) => match v.text() {
            Some(t) => t.clone(),
            None => String::new(),
        },
        None => String::new(),
    };
    match m {
        Json::Object(mut es) => {
            let size = take_member(&mut es, "size");
            let modified_at = take_member(&mut es, "modified_at");
            assert(size == member_or_null(orig, "size"@));
            assert(modified_at == member_or_null(orig, "modified_at"@));
            ModelInfo::Local { id: name.clone(), name, size, modified_at }
        },
        _ => ModelInfo::Local { id: name.clone(), name, size: Json::Null, modified_at: Json::Null },
    }
}

fn aggregator_info(m: Json) -> (r: ModelInfo)
    ensures
        is_aggregator_info(r, m),
{
    proof {
        reveal_strlit("id");
        reveal_strlit("name");
        reveal_strlit("context_length");
        reveal_strlit("pricing");
        assert("id"@.len() == 2 && "name"@.len() == 4 && "context_length"@.len() == 14
            && "pricing"@.len() == 7);
    }
    match m {
        Json::Object(mut es) => {
            let id = take_member(&mut es, "id");
            let name = take_member(&mut es, "name");
            let context_length = take_member(&mut es, "context_length");
            let pricing = take_member(&mut es, "pricing");
            ModelInfo::Aggregator { id, name, context_length, pricing }
        },
        _ => ModelInfo::Aggregator {
            id: Json::Null,
            name: Json::Null,
            context_length: Json::Null,
            pricing: Json::Null,
        },
    }
}

fn is_free_tier_entry(m: &Json) -> (r: bool)
    ensures
        r == is_free_tier(*m),
{
    match m.member("id") {
        Some(id) => match id.text() {
            Some(t) => contains_text(t.as_str(), FREE_TIER_MARKER),
            None => false,
        },
        None => false,
    }
}

fn into_elements(v: Json) -> (r: Vec<Json>)
    ensures
        r@ == elements_of(v),
{
    match v {
        Json::Array(items) => items,
        _ => Vec::new(),
    }
}

fn into_member(v: Json, key: &str) -> (r: Json)
    ensures
        r == member_or_null(v, key@),
{
    match v {
        Json::Object(mut es) => take_member(&mut es, key),
        _ => Json::Null,
    }
}

/// Maps the local server's entries, in order.
fn local_infos(items: Vec<Json>) -> (r: Vec<ModelInfo>)
    ensures
        r@.len() == items@.len(),
        forall|i: int| 0 <= i < r@.len() ==> is_local_info(#[trigger] r@[i], items@[i]),
{
    let ghost orig = items@;
    let mut rest = items;
    let mut out: Vec<ModelInfo> = Vec::new();
    while rest.len() > 0
        invariant
            out@.len() + rest@.len() == orig.len(),
            rest@ == orig.subrange(out@.len() as int, orig.len() as int),
            forall|i: int| 0 <= i < out@.len() ==> is_local_info(#[trigger] out@[i], orig[i]),
        decreases rest@.len(),
    {
        let m = rest.remove(0);
        out.push(local_info(m));
    }
    out
}

/// Keeps the aggregator's free-tier entries, in order, and maps them.
fn free_tier_infos(items: Vec<Json>) -> (r: Vec<ModelInfo>)
    ensures
        r@.len() == free_tier_entries(items@).len(),
        forall|i: int|
            0 <= i < r@.len() ==> is_aggregator_info(#[trigger] r@[i], free_tier_entries(items@)[i]),
{
    let ghost orig = items@;
    let ghost n = orig.len();
    let mut rest = items;
    let mut out: Vec<ModelInfo> = Vec::new();
    while rest.len() > 0
        invariant
            rest@.len() <= n,
            rest@ == orig.subrange(n - rest@.len(), n as int),
            n == orig.len(),
            out@.len() == free_tier_entries(orig.subrange(0, n - rest@.len())).len(),
            forall|i: int|
                0 <= i < out@.len() ==> is_aggregator_info(
                    #[trigger] out@[i],
                    free_tier_entries(orig.subrange(0, n - rest@.len()))[i],
                ),
        decreases rest@.len(),
    {
        let ghost k = n - rest@.len();
        let m = rest.remove(0);
        assert(m == orig[k]);
        assert(orig.subrange(0, k + 1).drop_last() =~= orig.subrange(0, k));
        assert(orig.subrange(0, k + 1).last() == orig[k]);
        if is_free_tier_entry(&m) {
            out.push(aggregator_info(m));
        }
    }
    assert(orig.subrange(0, n as int) =~= orig);
    out
}

fn failed_listing(e: String) -> (r: ModelsResult)
    ensures
        !r.success,
        r.models is None,
        r.error == Some(e),
{
    ModelsResult { success: false, models: None, error: Some(e) }
}

/// Shapes what came back from a listing request into a models result. It
/// succeeds exactly where an enhancement would (a 2xx status with a readable
/// body), listing the local server's `models` entries, or the aggregator's
/// `data` entries whose `id` holds the free-tier marker, each mapped in order;
/// the errors are those of an enhancement.
pub fn models_result(provider: Provider, outcome: HttpOutcome) -> (r: ModelsResult)
    ensures
        r.well_formed(),
        r.success == (error_of(provider, outcome) is None),
        !r.success ==> error_of(provider, outcome) == Some(r.error.unwrap()@),
        r.success ==> (outcome matches HttpOutcome::Answered { body: Ok(j), .. } && {
            let ms = r.models.unwrap()@;
            &&& ms.len() == listed_entries(provider, j).len()
            &&& forall|i: int|
                0 <= i < ms.len() ==> is_info_of(provider, #[trigger] ms[i], listed_entries(provider, j)[i])
        }),
{
    match outcome {
        HttpOutcome::Unreachable(m) => failed_listing(m),
        HttpOutcome::Answered { status, body } => {
            if status < 200 || status > 299 {
                failed_listing(crate::outcome::status_error(provider, status, &body))
            } else {
                match body {
                    Ok(j) => {
                        let models = match provider {
                            Provider::Local => local_infos(into_elements(into_member(j, "models"))),
                            Provider::Aggregator => free_tier_infos(
                                into_elements(into_member(j, "data")),
                            ),
                        };
                        ModelsResult { success: true, models: Some(models), error: None }
                    },
                    Err(m) => failed_listing(m),
                }
            }
        },
    }
}

} // verus!
