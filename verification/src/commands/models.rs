//! The decisions behind the model commands of the settings screen.
use vstd::prelude::*;

use crate::errors::{concat2, concat3, owned, AppError};
use crate::models::manager::{backend_files, backend_paths, files_under, paths_backend, paths_list, BackendPaths, ZIPFORMER_NOT_WIRED};
use crate::models::registry::{
    get_model, lookup, suggest_model_switch, suggestion, triple_view, WHISPER_BASE_ID,
};
use crate::config::NO_CONFIG_DIR;
use crate::text::chars_eq_str;

verus! {

pub const UNKNOWN_MODEL_PREFIX: &'static str = "Unknown model: ";

pub const NOT_DOWNLOADED_PREFIX: &'static str = "Model '";

pub const NOT_DOWNLOADED_SUFFIX: &'static str = "' is not downloaded yet. Please download it first.";

pub const ACTIVE_MODEL_UNDELETABLE: &'static str =
    "Cannot delete the currently active model. Please switch to another model first.";

/// A model suggested to the user.
#[derive(Debug, Clone)]
pub struct RecommendedModel {
    pub id: String,
    pub name: String,
    pub reason: String,
}

/// Whether to suggest a model switch for a language, and which models.
#[derive(Debug, Clone)]
pub struct ModelRecommendation {
    pub should_switch: bool,
    pub recommended_models: Vec<RecommendedModel>,
    pub current_model_id: String,
}

/// The id of the model in use: the loaded one, or the default model when
/// none is loaded.
pub fn active_model_or_default(loaded: Option<&str>) -> (r: String)
    ensures
        match loaded {
            Some(id) => r@ == id@,
            None => r@ == WHISPER_BASE_ID@,
        },
{
    match loaded {
        Some(id) => owned(id),
        None => owned(WHISPER_BASE_ID),
    }
}

/// The recommendation for a user of `current_model_id` who speaks
/// `language`: the suggested models when a switch is suggested, none
/// otherwise.
pub fn model_recommendation(current_model_id: String, language: &str) -> (r: ModelRecommendation)
    ensures
        r.current_model_id@ == current_model_id@,
        r.should_switch == suggestion(current_model_id@, language@) is Some,
        r.recommended_models@.map_values(
            |m: RecommendedModel| (m.id@, m.name@, m.reason@),
        ) == match suggestion(current_model_id@, language@) {
            Some(v) => v,
            None => Seq::empty(),
        },
{
    match suggest_model_switch(current_model_id.as_str(), language) {
        Some(recs) => {
            let ghost rv = recs@.map_values(
                |t: (&'static str, &'static str, &'static str)| triple_view(t),
            );
            let mut out: Vec<RecommendedModel> = Vec::new();
            let mut i: usize = 0;
            while i < recs.len()
                invariant
                    i <= recs.len(),
                    rv == recs@.map_values(
                        |t: (&'static str, &'static str, &'static str)| triple_view(t),
                    ),
                    out@.map_values(|m: RecommendedModel| (m.id@, m.name@, m.reason@)) == rv.take(
                        i as int,
                    ),
                decreases recs.len() - i,
            {
                let (id, name, reason) = recs[i];
                let m = RecommendedModel { id: owned(id), name: owned(name), reason: owned(reason) };
                let ghost before = out@;
                out.push(m);
                proof {
                    assert(out@.map_values(|m: RecommendedModel| (m.id@, m.name@, m.reason@))
                        =~= before.map_values(
                        |m: RecommendedModel| (m.id@, m.name@, m.reason@),
                    ).push((id@, name@, reason@)));
                    assert(rv.take(i + 1) =~= rv.take(i as int).push(rv[i as int]));
                }
                i += 1;
            }
            assert(rv.take(recs.len() as int) =~= rv);
            ModelRecommendation {
                should_switch: true,
                recommended_models: out,
                current_model_id,
            }
        },
        None => {
            let empty: Vec<RecommendedModel> = Vec::new();
            assert(empty@.map_values(|m: RecommendedModel| (m.id@, m.name@, m.reason@))
                =~= Seq::empty());
            ModelRecommendation { should_switch: false, recommended_models: empty, current_model_id }
        },
    }
}

/// What switching to model `model_id` loads, given whether its files are
/// all on disk: the backend's paths, or why it cannot be loaded (unknown
/// model, not downloaded, backend not available).
pub fn switch_model_plan(model_id: &str, downloaded: bool) -> (r: Result<BackendPaths, AppError>)
    ensures
        lookup(model_id@) is None ==> (r matches Err(e) && e is Config && e.text()
            == UNKNOWN_MODEL_PREFIX@ + model_id@),
        lookup(model_id@) matches Some(m) ==> {
            if !downloaded {
                r matches Err(e) && e is Config && e.text() == NOT_DOWNLOADED_PREFIX@
                    + m.display_name + NOT_DOWNLOADED_SUFFIX@
            } else {
                match backend_files(m) {
                    None => r matches Err(e) && e is Whisper && e.text() == ZIPFORMER_NOT_WIRED@,
                    Some(files) => match r {
                        Ok(p) => paths_backend(p) == m.backend && exists|b: Seq<char>|
                            paths_list(p) == files_under(b, model_id@, files),
                        Err(e) => e is Config && e.text() == NO_CONFIG_DIR@,
                    },
                }
            }
        },
{
    let info = match get_model(model_id) {
        Some(m) => m,
        None => return Err(AppError::Config(concat2(UNKNOWN_MODEL_PREFIX, model_id))),
    };
    if !downloaded {
        return Err(
            AppError::Config(concat3(NOT_DOWNLOADED_PREFIX, info.display_name, NOT_DOWNLOADED_SUFFIX)),
        );
    }
    backend_paths(model_id, &info)
}

/// Refuses to delete the model in use.
pub fn check_deletable(active_model_id: Option<&str>, model_id: &str) -> (r: Result<(), AppError>)
    ensures
        r is Err <==> (active_model_id matches Some(a) && a@ == model_id@),
        r matches Err(e) ==> e is Config && e.text() == ACTIVE_MODEL_UNDELETABLE@,
{
    match active_model_id {
        Some(a) => {
            if chars_eq_str(&crate::text::chars_of(a), model_id) {
                Err(AppError::Config(owned(ACTIVE_MODEL_UNDELETABLE)))
            } else {
                Ok(())
            }
        },
        None => Ok(()),
    }
}

} // verus!
