//! Finding the stored documents that resemble a text, and joining them into
//! one context.
use vstd::prelude::*;

use crate::rag::indexing::Document;
use crate::text::seq_join;

verus! {

/// The stored documents closest to the embedding `$emb`, at least `$thresh`
/// similar, best first, at most `$n_doc` of them.
pub const SIMILAR_DOCS_QUERY: &'static str = "SELECT id, content ,vector::similarity::cosine(embedding,$emb) as accuracy FROM document WHERE accuracy>=$thresh  ORDER BY accuracy DESC LIMIT $n_doc;";

/// The contents of a list of documents.
pub open spec fn contents_of(docs: Seq<Document>) -> Seq<Seq<char>> {
    docs.map_values(|d: Document| d.content@)
}

/// The contents of `docs`, one per line, in order; the empty text when
/// there are none.
pub fn merge_contents(docs: &Vec<Document>) -> (merged: String)
    ensures
        merged@ == seq_join(contents_of(docs@), "\n"@),
{
    let ghost contents = contents_of(docs@);
    let mut merged = String::new();
    let mut i: usize = 0;
    while i < docs.len()
        invariant
            i <= docs.len(),
            contents == contents_of(docs@),
            merged@ == seq_join(contents.take(i as int), "\n"@),
        decreases docs.len() - i,
    {
        assert(contents.take(i + 1).drop_last() =~= contents.take(i as int));
        assert(contents.take(i + 1).last() == docs@[i as int].content@);
        if i == 0 {
            assert(contents.take(1).len() == 1);
            merged.append(docs[i].content.as_str());
            assert(merged@ =~= contents.take(1)[0]);
        } else {
            merged.append("\n");
            merged.append(docs[i].content.as_str());
        }
        i = i + 1;
    }
    assert(contents.take(docs.len() as int) =~= contents);
    merged
}

} // verus!
