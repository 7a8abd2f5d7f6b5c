//! The embedding model guard: whether a release's stored chunk vectors were
//! made with another embedding model than its settings name.
use vstd::prelude::*;

use crate::text::{joined, push_joined, push_signed_decimal, push_str, push_string, signed_decimal, str_eq};

verus! {

/// A release whose stored chunks use another embedding model.
#[derive(Clone, Debug)]
pub struct EmbeddingMismatch {
    pub release_id: String,
    pub release_tag: String,
    pub settings_model: String,
    pub chunks_model: Option<String>,
    pub message: String,
}

/// How many of `models` differ from `settings_model`.
pub open spec fn other_model_count(models: Seq<Seq<char>>, settings_model: Seq<char>) -> nat
    decreases models.len(),
{
    if models.len() == 0 {
        0
    } else {
        other_model_count(models.drop_last(), settings_model) + if models.last() != settings_model { 1nat } else { 0nat }
    }
}

/// The warning for a release configured for `settings_model` whose chunks
/// use `models`.
pub open spec fn mismatch_message(release_id: Seq<char>, settings_model: Seq<char>, models: Seq<Seq<char>>, dim: int) -> Seq<char> {
    let head = "release "@ + release_id + " is configured for "@ + settings_model + " (dim "@ + signed_decimal(dim) + "), "@;
    let summary = joined(models, ", "@);
    if models.len() == 1 {
        head + "but existing chunks use "@ + models[0] + ". Re-index all sources before queries are reliable."@
    } else if other_model_count(models, settings_model) == models.len() {
        head + "but existing chunks use multiple embedding models ("@ + summary
            + "). Re-index all sources before queries are reliable."@
    } else {
        head + "but some chunks still use other embedding models ("@ + summary
            + "). Re-index all sources before queries are reliable."@
    }
}

/// Reports a mismatch when any stored chunk embedding model (the distinct
/// models of the release's chunks) differs from the one its settings name.
pub fn embedding_mismatch_for_release(
    release_id: &str,
    release_tag: &str,
    settings_model: &str,
    chunk_models: &Vec<String>,
    expected_dim: i64,
) -> (r: Option<EmbeddingMismatch>)
    ensures
        ({
            let models = chunk_models@.map_values(|m: String| m@);
            match r {
                None => other_model_count(models, settings_model@) == 0,
                Some(m) => {
                    &&& other_model_count(models, settings_model@) > 0
                    &&& m.release_id@ == release_id@
                    &&& m.release_tag@ == release_tag@
                    &&& m.settings_model@ == settings_model@
                    &&& m.chunks_model matches Some(c) && c@ == joined(models, ", "@)
                    &&& m.message@ == mismatch_message(release_id@, settings_model@, models, expected_dim as int)
                },
            }
        }),
{
    let ghost models = chunk_models@.map_values(|m: String| m@);
    let mut wrong: usize = 0;
    let mut i: usize = 0;
    while i < chunk_models.len()
        invariant
            i <= chunk_models@.len(),
            models == chunk_models@.map_values(|m: String| m@),
            wrong == other_model_count(models.subrange(0, i as int), settings_model@),
            wrong <= i,
        decreases chunk_models@.len() - i,
    {
        assert(models.subrange(0, i + 1).drop_last() == models.subrange(0, i as int));
        if !str_eq(chunk_models[i].as_str(), settings_model) {
            wrong += 1;
        }
        i += 1;
    }
    assert(models.subrange(0, models.len() as int) == models);
    if wrong == 0 {
        return None;
    }
    let mut summary = String::new();
    push_joined(&mut summary, chunk_models, ", ");
    let mut message = String::new();
    push_str(&mut message, "release ");
    push_str(&mut message, release_id);
    push_str(&mut message, " is configured for ");
    push_str(&mut message, settings_model);
    push_str(&mut message, " (dim ");
    push_signed_decimal(&mut message, expected_dim);
    push_str(&mut message, "), ");
    if chunk_models.len() == 1 {
        push_str(&mut message, "but existing chunks use ");
        push_string(&mut message, &chunk_models[0]);
        push_str(&mut message, ". Re-index all sources before queries are reliable.");
    } else if wrong == chunk_models.len() {
        push_str(&mut message, "but existing chunks use multiple embedding models (");
        push_string(&mut message, &summary);
        push_str(&mut message, "). Re-index all sources before queries are reliable.");
    } else {
        push_str(&mut message, "but some chunks still use other embedding models (");
        push_string(&mut message, &summary);
        push_str(&mut message, "). Re-index all sources before queries are reliable.");
    }
    Some(EmbeddingMismatch {
        release_id: String::from_str(release_id),
        release_tag: String::from_str(release_tag),
        settings_model: String::from_str(settings_model),
        chunks_model: Some(summary),
        message,
    })
}

} // verus!
