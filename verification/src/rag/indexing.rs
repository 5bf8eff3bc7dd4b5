//! Documents: texts kept with their embeddings so that similar ones can be
//! found again.
use vstd::prelude::*;

verus! {

/// The number of characters of a document's id.
pub const DOCUMENT_ID_LEN: usize = 12;

/// `c` is one of the URL-safe characters of nanoid: `A-Z`, `a-z`, `0-9`,
/// `_` and `-`.
pub open spec fn is_url_safe(c: char) -> bool {
    ('A' <= c && c <= 'Z') || ('a' <= c && c <= 'z') || ('0' <= c && c <= '9') || c == '_' || c
        == '-'
}

/// `nanoid::format(nanoid::rngs::default, &nanoid::alphabet::SAFE, size)`:
/// a random text of `size` characters drawn from nanoid's URL-safe alphabet
/// (`_`, `-`, digits and ASCII letters). Its characters are random, so only
/// their number and their alphabet are stated. With `size == 0` the call
/// never returns, and `8 * size` must not overflow, hence the `requires`;
/// the random bytes come from the operating system, as nanoid draws them.
#[verifier::external_body]
fn random_url_safe_id(size: usize) -> (id: String)
    requires
        0 < size <= usize::MAX / 8,
    ensures
        id@.len() == size,
        forall|i: int| 0 <= i < id@.len() ==> is_url_safe(#[trigger] id@[i]),
{
    nanoid::format(nanoid::rngs::default, &nanoid::alphabet::SAFE, size)
}

/// A fresh random id for a document: twelve URL-safe characters.
pub fn new_document_id() -> (id: String)
    ensures
        id@.len() == DOCUMENT_ID_LEN,
        forall|i: int| 0 <= i < id@.len() ==> is_url_safe(#[trigger] id@[i]),
{
    random_url_safe_id(DOCUMENT_ID_LEN)
}

/// A text kept for retrieval, known by its id. (Its embedding and the
/// similarity score of a search are numbers the library hands through
/// without reading them.)
#[derive(Debug, Clone)]
pub struct Document {
    pub id: String,
    pub content: String,
}

impl Document {
    /// The document `content` under the id `id`.
    pub fn new(id: String, content: String) -> (d: Document)
        ensures
            d.id@ == id@,
            d.content@ == content@,
    {
        Document { id, content }
    }

    /// A new document holding `content`, under a fresh random id.
    pub fn with_new_id(content: String) -> (d: Document)
        ensures
            d.id@.len() == DOCUMENT_ID_LEN,
            forall|i: int| 0 <= i < d.id@.len() ==> is_url_safe(#[trigger] d.id@[i]),
            d.content@ == content@,
    {
        Document { id: new_document_id(), content }
    }
}

/// Two documents are the same document when their ids are equal, whatever
/// their contents.
impl PartialEq for Document {
    fn eq(&self, other: &Self) -> (r: bool) {
        self.id == other.id
    }
}

impl vstd::std_specs::cmp::PartialEqSpecImpl for Document {
    open spec fn obeys_eq_spec() -> bool {
        true
    }

    open spec fn eq_spec(&self, other: &Document) -> bool {
        self.id@ == other.id@
    }
}

} // verus!
