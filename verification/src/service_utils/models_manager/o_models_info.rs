//! The model records kept in the chat database, one per model published
//! on ollama's site.
use ollama_models_info_fetcher::{convert_to_json, Category, Model, ModelBuilder, Varient};
use vstd::prelude::*;

use crate::model_info::{ModelCategory, ModelInfo, ModelInfoView, ModelVariant};

verus! {

/// The file, beside the program, to which the published models are written.
pub const MODELS_JSON_FILE: &'static str = "models.json";

/// The table of model records.
pub const MODEL_TABLE: &'static str = "model";

/// The record of model `$m_name`, without its id.
pub const MODEL_INFO_QUERY: &'static str = "SELECT * OMIT id FROM type::thing('model',$m_name);";

/// A model record: the model, kept under its name.
#[derive(Debug)]
pub struct OModelInfo {
    pub id: String,
    pub model: ModelInfo,
}

impl OModelInfo {
    /// The record of `model`, whose id is the model's name.
    pub fn from_model(model: ModelInfo) -> (r: OModelInfo)
        ensures
            r.id@ == model.name@,
            r.model@ == model@,
    {
        OModelInfo { id: model.name.clone(), model }
    }
}

/// The models, seen as plain values.
pub open spec fn models_view(ms: Seq<ModelInfo>) -> Seq<ModelInfoView> {
    ms.map_values(|m: ModelInfo| m@)
}

/// The models that a JSON text lists, as `serde_json` reads it into the
/// models of `ollama_models_info_fetcher`; `None` when it is no such list.
pub uninterp spec fn models_in_json(text: Seq<char>) -> Option<Seq<ModelInfoView>>;

/// The JSON text that `ollama_models_info_fetcher::convert_to_json` writes
/// for a list of models.
pub uninterp spec fn models_json_text(models: Seq<ModelInfoView>) -> Seq<char>;

#[verifier::external_type_specification]
#[verifier::external_body]
pub struct ExModel(Model);

/// `serde_json::from_str::<Vec<ollama_models_info_fetcher::Model>>`, each
/// model copied field by field into the library's record. What it reads of
/// a text is named, not stated: `models_in_json`, which depends on the text
/// alone.
#[verifier::external_body]
fn read_models_json(text: &str) -> (res: Option<Vec<ModelInfo>>)
    ensures
        res is Some <==> models_in_json(text@) is Some,
        res matches Some(ms) ==> models_in_json(text@) == Some(models_view(ms@)),
{
    match serde_json::from_str::<Vec<Model>>(text) {
        Ok(ms) => Some(ms.iter().map(|m| ModelInfo {
            name: m.name().to_owned(),
            varients: m.varients().iter().map(|v| ModelVariant::new(v.token_size(), v.size())).collect(),
            category: match m.category() { Category::Tool => ModelCategory::Tool, Category::Vision => ModelCategory::Vision, Category::Embedding => ModelCategory::Embedding, Category::Other => ModelCategory::Other },
            summary_content: m.summary_content().to_owned(),
            readme_content: m.readme_content().to_owned(),
        }).collect()),
        Err(_) => None,
    }
}

/// `ollama_models_info_fetcher::convert_to_json` (which is
/// `serde_json::to_string_pretty`) of the library's records, each copied
/// field by field into a model of `ollama_models_info_fetcher` with its
/// `ModelBuilder`. The text is named, not stated: `models_json_text`, which
/// depends on the models alone. `serde_json` documents that writing fails
/// only where a value's serializer decides to fail or a map has keys that
/// are not strings; a model holds neither, so the writing succeeds. The
/// models' serializers and deserializers are derived by serde from the same
/// fields, with no field skipped or renamed, so reading the text gives the
/// models back.
#[verifier::external_body]
fn write_models_json(models: &Vec<ModelInfo>) -> (res: Option<String>)
    ensures
        res is Some,
        res matches Some(t) ==> t@ == models_json_text(models_view(models@)),
        res matches Some(t) ==> models_in_json(t@) == Some(models_view(models@)),
{
    let ms: Vec<Model> = models.iter().map(|m| ModelBuilder::new().name(&m.name)
        .category(match m.category { ModelCategory::Tool => Category::Tool, ModelCategory::Vision => Category::Vision, ModelCategory::Embedding => Category::Embedding, ModelCategory::Other => Category::Other })
        .summary_content(&m.summary_content).readme_content(&m.readme_content)
        .varients(m.varients.iter().map(|v| Varient::new(&v.token_size, &v.size)).collect()).build()).collect();
    convert_to_json(&ms).ok()
}

/// The models that the text of `models.json` lists; `None` when the text is
/// not such a list.
pub fn parse_models_json(text: &str) -> (res: Option<Vec<ModelInfo>>)
    ensures
        res is Some <==> models_in_json(text@) is Some,
        res matches Some(ms) ==> models_in_json(text@) == Some(models_view(ms@)),
{
    read_models_json(text)
}

/// The text of `models.json` for `models`: the models written as JSON.
/// Reading the text back gives the same models.
pub fn models_to_json(models: &Vec<ModelInfo>) -> (text: String)
    ensures
        text@ == models_json_text(models_view(models@)),
        models_in_json(text@) == Some(models_view(models@)),
{
    match write_models_json(models) {
        Some(t) => t,
        None => String::new(),
    }
}

} // verus!
