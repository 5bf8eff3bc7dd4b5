//! The library's record of what is known about an ollama model: its name,
//! the variants it is published in, its category and its descriptions.
use vstd::prelude::*;

verus! {

/// The capability a model is marked with.
#[derive(Debug, Clone, Copy, PartialEq, Eq, Structural)]
pub enum ModelCategory {
    Tool,
    Vision,
    Embedding,
    Other,
}

/// One published variant of a model: its parameter count (such as `7b`)
/// and its download size (such as `4.9GB`).
#[derive(Debug)]
pub struct ModelVariant {
    pub token_size: String,
    pub size: String,
}

/// A variant seen as plain text: (token size, size).
pub type VariantView = (Seq<char>, Seq<char>);

impl View for ModelVariant {
    type V = VariantView;

    open spec fn view(&self) -> VariantView {
        (self.token_size@, self.size@)
    }
}

impl ModelVariant {
    pub fn new(token_size: &str, size: &str) -> (v: ModelVariant)
        ensures
            v@ == (token_size@, size@),
    {
        ModelVariant { token_size: token_size.to_owned(), size: size.to_owned() }
    }

    pub fn copy(&self) -> (v: ModelVariant)
        ensures
            v@ == self@,
    {
        ModelVariant { token_size: self.token_size.clone(), size: self.size.clone() }
    }
}

/// The variants of a list, seen as plain text.
pub open spec fn variants_view(vs: Seq<ModelVariant>) -> Seq<VariantView> {
    vs.map_values(|v: ModelVariant| v@)
}

/// Everything the library reads of a model.
#[derive(Debug)]
pub struct ModelInfo {
    pub name: String,
    pub varients: Vec<ModelVariant>,
    pub category: ModelCategory,
    pub summary_content: String,
    pub readme_content: String,
}

/// A model seen as plain values.
pub struct ModelInfoView {
    pub name: Seq<char>,
    pub varients: Seq<VariantView>,
    pub category: ModelCategory,
    pub summary_content: Seq<char>,
    pub readme_content: Seq<char>,
}

impl View for ModelInfo {
    type V = ModelInfoView;

    open spec fn view(&self) -> ModelInfoView {
        ModelInfoView {
            name: self.name@,
            varients: variants_view(self.varients@),
            category: self.category,
            summary_content: self.summary_content@,
            readme_content: self.readme_content@,
        }
    }
}

/// The model that stands in when nothing is known of one: no name, no
/// variants, category `Other`, empty descriptions.
pub open spec fn empty_model_view() -> ModelInfoView {
    ModelInfoView {
        name: Seq::empty(),
        varients: Seq::empty(),
        category: ModelCategory::Other,
        summary_content: Seq::empty(),
        readme_content: Seq::empty(),
    }
}

impl Default for ModelInfo {
    fn default() -> (m: ModelInfo)
        ensures
            m@ == empty_model_view(),
    {
        let m = ModelInfo {
            name: String::new(),
            varients: Vec::new(),
            category: ModelCategory::Other,
            summary_content: String::new(),
            readme_content: String::new(),
        };
        assert(variants_view(m.varients@) =~= Seq::<VariantView>::empty());
        m
    }
}

impl ModelInfo {
    /// A model whose only known field is its name.
    pub fn named(name: &str) -> (m: ModelInfo)
        ensures
            m@ == (ModelInfoView { name: name@, ..empty_model_view() }),
    {
        let m = ModelInfo {
            name: name.to_owned(),
            varients: Vec::new(),
            category: ModelCategory::Other,
            summary_content: String::new(),
            readme_content: String::new(),
        };
        assert(variants_view(m.varients@) =~= Seq::<VariantView>::empty());
        m
    }

    /// The name of the model.
    pub fn name(&self) -> (r: &str)
        ensures
            r@ == self.name@,
    {
        self.name.as_str()
    }
}

} // verus!
