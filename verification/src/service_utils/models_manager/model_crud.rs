//! Names of local model variants, and the grouping of the locally installed
//! variants into one record per model.
use vstd::prelude::*;

use crate::model_info::{
    empty_model_view, variants_view, ModelCategory, ModelInfo, ModelInfoView, ModelVariant,
    VariantView,
};

verus! {

/// The embedding model that the library installs for itself; it is never
/// listed among the user's models.
pub const EMBEDDING_MODEL_NAME: &'static str = "nomic-embed-text";

// ------------------------------------------------------------------ tags

/// The tag by which ollama knows a variant: `name:token_size`.
pub open spec fn spec_model_tag(name: Seq<char>, token_size: Seq<char>) -> Seq<char> {
    name + seq![':'] + token_size
}

/// The tag by which ollama knows the variant `token_size` of model `name`.
pub fn model_tag(name: &str, token_size: &str) -> (tag: String)
    ensures
        tag@ == spec_model_tag(name@, token_size@),
{
    let mut tag = name.to_owned();
    let colon = ":";
    proof {
        reveal_strlit(":");
    }
    tag.append(colon);
    tag.append(token_size);
    tag
}

/// `i` is the position of the first `:` in `s`.
pub open spec fn is_first_colon(s: Seq<char>, i: int) -> bool {
    &&& 0 <= i < s.len()
    &&& s[i] == ':'
    &&& forall|j: int| 0 <= j < i ==> s[j] != ':'
}

/// The position of the first `:` in `s` (meaningful when `s` holds one).
pub open spec fn first_colon(s: Seq<char>) -> int {
    choose|i: int| is_first_colon(s, i)
}

/// A tag split at its first `:` into (name, token size).
pub open spec fn split_tag(s: Seq<char>) -> (Seq<char>, Seq<char>) {
    let i = first_colon(s);
    (s.subrange(0, i), s.subrange(i + 1, s.len() as int))
}

/// There is only one first `:`.
pub proof fn lemma_first_colon_unique(s: Seq<char>, i: int)
    requires
        is_first_colon(s, i),
    ensures
        first_colon(s) == i,
{
    let k = first_colon(s);
    assert(is_first_colon(s, k));
    if k < i {
        assert(s[k] != ':');
    } else if i < k {
        assert(s[i] != ':');
    }
}

/// Splitting the tag of a variant gives back the model's name and the token
/// size, for every model name that holds no `:`.
pub proof fn lemma_split_model_tag_roundtrip(name: Seq<char>, token_size: Seq<char>)
    requires
        !name.contains(':'),
    ensures
        split_tag(spec_model_tag(name, token_size)) == (name, token_size),
{
    let t = spec_model_tag(name, token_size);
    let n = name.len() as int;
    assert forall|j: int| 0 <= j < n implies t[j] != ':' by {
        assert(t[j] == name[j]);
        if name[j] == ':' {
            assert(name.contains(':'));
        }
    }
    assert(is_first_colon(t, n));
    lemma_first_colon_unique(t, n);
    assert(t.subrange(0, n) =~= name);
    assert(t.subrange(n + 1, t.len() as int) =~= token_size);
}

/// Splits a tag at its first `:` into the model's name and the token size;
/// `None` when the tag holds no `:`.
pub fn split_model_tag(tag: &str) -> (res: Option<(String, String)>)
    ensures
        res is Some <==> tag@.contains(':'),
        res matches Some(p) ==> (p.0@, p.1@) == split_tag(tag@),
{
    let len = tag.unicode_len();
    let mut i: usize = 0;
    while i < len
        invariant
            len == tag@.len(),
            i <= len,
            forall|j: int| 0 <= j < i ==> tag@[j] != ':',
        decreases len - i,
    {
        if tag.get_char(i) == ':' {
            proof {
                lemma_first_colon_unique(tag@, i as int);
            }
            let name = tag.substring_char(0, i).to_owned();
            let token_size = tag.substring_char(i + 1, len).to_owned();
            return Some((name, token_size));
        }
        i = i + 1;
    }
    assert(!tag@.contains(':'));
    None
}

// -------------------------------------------------------------- grouping

/// One model installed locally and the token sizes of its local variants.
#[derive(Debug)]
pub struct ModelGroup {
    pub name: String,
    pub token_sizes: Vec<String>,
}

/// The texts of a list of strings.
pub open spec fn strings_view(v: Seq<String>) -> Seq<Seq<char>> {
    v.map_values(|s: String| s@)
}

impl View for ModelGroup {
    type V = (Seq<char>, Seq<Seq<char>>);

    open spec fn view(&self) -> (Seq<char>, Seq<Seq<char>>) {
        (self.name@, strings_view(self.token_sizes@))
    }
}

/// The (name, token size) pairs of a list of tags.
pub open spec fn tag_pairs(tags: Seq<String>) -> Seq<(Seq<char>, Seq<char>)> {
    tags.map_values(|t: String| split_tag(t@))
}

/// The models named in `pairs`, each once, in the order of their first
/// appearance, without the embedding model.
pub open spec fn group_names(pairs: Seq<(Seq<char>, Seq<char>)>) -> Seq<Seq<char>>
    decreases pairs.len(),
{
    if pairs.len() == 0 {
        Seq::empty()
    } else {
        let prev = group_names(pairs.drop_last());
        let n = pairs.last().0;
        if n == EMBEDDING_MODEL_NAME@ || prev.contains(n) {
            prev
        } else {
            prev.push(n)
        }
    }
}

/// The token sizes that `pairs` lists for model `name`, in order.
pub open spec fn sizes_of(pairs: Seq<(Seq<char>, Seq<char>)>, name: Seq<char>) -> Seq<Seq<char>>
    decreases pairs.len(),
{
    if pairs.len() == 0 {
        Seq::empty()
    } else {
        let prev = sizes_of(pairs.drop_last(), name);
        if pairs.last().0 == name {
            prev.push(pairs.last().1)
        } else {
            prev
        }
    }
}

/// The grouping of `pairs`: one entry per model but the embedding model, in
/// the order of first appearance, with all of its token sizes in order.
pub open spec fn local_groups(pairs: Seq<(Seq<char>, Seq<char>)>) -> Seq<(Seq<char>, Seq<Seq<char>>)> {
    group_names(pairs).map_values(|n: Seq<char>| (n, sizes_of(pairs, n)))
}

/// A name that `pairs` does not list has no token sizes.
proof fn lemma_sizes_of_absent(pairs: Seq<(Seq<char>, Seq<char>)>, name: Seq<char>)
    requires
        forall|k: int| 0 <= k < pairs.len() ==> pairs[k].0 != name,
    ensures
        sizes_of(pairs, name) == Seq::<Seq<char>>::empty(),
    decreases pairs.len(),
{
    if pairs.len() > 0 {
        lemma_sizes_of_absent(pairs.drop_last(), name);
    }
}

/// Every model that `pairs` names, but the embedding model, is a group.
pub proof fn lemma_group_names_complete(pairs: Seq<(Seq<char>, Seq<char>)>, k: int)
    requires
        0 <= k < pairs.len(),
        pairs[k].0 != EMBEDDING_MODEL_NAME@,
    ensures
        group_names(pairs).contains(pairs[k].0),
    decreases pairs.len(),
{
    let prev = group_names(pairs.drop_last());
    if k < pairs.len() - 1 {
        lemma_group_names_complete(pairs.drop_last(), k);
        let w = choose|w: int| 0 <= w < prev.len() && prev[w] == pairs[k].0;
        if !(pairs.last().0 == EMBEDDING_MODEL_NAME@ || prev.contains(pairs.last().0)) {
            assert(group_names(pairs)[w] == pairs[k].0);
        }
    } else {
        if prev.contains(pairs.last().0) {
        } else {
            assert(group_names(pairs)[prev.len() as int] == pairs[k].0);
        }
    }
}

/// The groups hold no model twice and never the embedding model.
pub proof fn lemma_group_names_distinct(pairs: Seq<(Seq<char>, Seq<char>)>)
    ensures
        group_names(pairs).no_duplicates(),
        !group_names(pairs).contains(EMBEDDING_MODEL_NAME@),
    decreases pairs.len(),
{
    if pairs.len() > 0 {
        lemma_group_names_distinct(pairs.drop_last());
        let prev = group_names(pairs.drop_last());
        let n = pairs.last().0;
        if !(n == EMBEDDING_MODEL_NAME@ || prev.contains(n)) {
            let g = prev.push(n);
            assert forall|a: int, b: int| 0 <= a < g.len() && 0 <= b < g.len() && a != b
                implies g[a] != g[b] by {
                if a == prev.len() {
                    assert(prev[b] == g[b]);
                } else if b == prev.len() {
                    assert(prev[a] == g[a]);
                }
            }
            if g.contains(EMBEDDING_MODEL_NAME@) {
                let w = choose|w: int| 0 <= w < g.len() && g[w] == EMBEDDING_MODEL_NAME@;
                if w < prev.len() {
                    assert(prev[w] == g[w]);
                }
            }
        }
    }
}

/// Each group lists exactly the token sizes that the input gives its model,
/// in order; a model that the input names, but the embedding model, always
/// has a group.
pub proof fn lemma_local_groups_cover(pairs: Seq<(Seq<char>, Seq<char>)>, k: int)
    requires
        0 <= k < pairs.len(),
        pairs[k].0 != EMBEDDING_MODEL_NAME@,
    ensures
        exists|g: int|
            0 <= g < local_groups(pairs).len() && #[trigger] local_groups(pairs)[g] == (
                pairs[k].0,
                sizes_of(pairs, pairs[k].0),
            ),
{
    lemma_group_names_complete(pairs, k);
    let names = group_names(pairs);
    let w = choose|w: int| 0 <= w < names.len() && names[w] == pairs[k].0;
    assert(local_groups(pairs)[w] == (pairs[k].0, sizes_of(pairs, pairs[k].0)));
}

/// The position of the group named `name`, if there is one.
fn find_group(groups: &Vec<ModelGroup>, name: &String) -> (res: Option<usize>)
    ensures
        res matches Some(j) ==> j < groups.len() && groups@[j as int].name@ == name@,
        res is None ==> forall|j: int| 0 <= j < groups.len() ==> groups@[j].name@ != name@,
{
    let mut j: usize = 0;
    while j < groups.len()
        invariant
            j <= groups.len(),
            forall|k: int| 0 <= k < j ==> groups@[k].name@ != name@,
        decreases groups.len() - j,
    {
        if groups[j].name == *name {
            return Some(j);
        }
        j = j + 1;
    }
    None
}

/// Groups the tags of the locally installed variants (`name:token_size`)
/// by model: one group per model, in the order in which the models first
/// appear, each with the token sizes of its variants in order. The
/// embedding model is left out.
pub fn group_local_models(tags: &Vec<String>) -> (groups: Vec<ModelGroup>)
    requires
        forall|i: int| 0 <= i < tags.len() ==> (#[trigger] tags@[i])@.contains(':'),
    ensures
        groups@.map_values(|g: ModelGroup| g@) == local_groups(tag_pairs(tags@)),
{
    let ghost pairs = tag_pairs(tags@);
    let embedding = EMBEDDING_MODEL_NAME.to_owned();
    let mut groups: Vec<ModelGroup> = Vec::new();
    let mut i: usize = 0;
    while i < tags.len()
        invariant
            i <= tags.len(),
            pairs == tag_pairs(tags@),
            embedding@ == EMBEDDING_MODEL_NAME@,
            forall|k: int| 0 <= k < tags.len() ==> (#[trigger] tags@[k])@.contains(':'),
            groups.len() == group_names(pairs.take(i as int)).len(),
            forall|g: int|
                0 <= g < groups.len() ==> (#[trigger] groups@[g])@ == (
                    group_names(pairs.take(i as int))[g],
                    sizes_of(pairs.take(i as int), group_names(pairs.take(i as int))[g]),
                ),
        decreases tags.len() - i,
    {
        let ghost before = pairs.take(i as int);
        let ghost after = pairs.take(i + 1);
        assert(after.drop_last() =~= before);
        assert(after.last() == pairs[i as int]);
        let (name, token_size) = match split_model_tag(tags[i].as_str()) {
            Some(p) => p,
            None => {
                assert(tags@[i as int]@.contains(':'));
                (String::new(), String::new())
            },
        };
        assert(pairs[i as int] == (name@, token_size@));
        proof {
            lemma_group_names_distinct(before);
        }
        if name == embedding {
            assert forall|g: int| 0 <= g < groups.len() implies (#[trigger] groups@[g])@ == (
                group_names(after)[g],
                sizes_of(after, group_names(after)[g]),
            ) by {
                assert(group_names(before).contains(group_names(before)[g]));
            }
        } else {
            match find_group(&groups, &name) {
                Some(j) => {
                    assert(group_names(before)[j as int] == name@);
                    assert(group_names(before).contains(name@));
                    let ghost old_groups = groups@;
                    groups[j].token_sizes.push(token_size);
                    assert forall|g: int| 0 <= g < groups.len() implies (#[trigger] groups@[g])@
                        == (
                        group_names(after)[g],
                        sizes_of(after, group_names(after)[g]),
                    ) by {
                        if g == j {
                            assert(strings_view(groups@[g].token_sizes@) =~= strings_view(
                                old_groups[g].token_sizes@,
                            ).push(token_size@));
                        } else {
                            assert(old_groups[g] == groups@[g]);
                            assert(group_names(before)[g] != name@);
                        }
                    }
                },
                None => {
                    assert(!group_names(before).contains(name@)) by {
                        if group_names(before).contains(name@) {
                            let w = choose|w: int|
                                0 <= w < group_names(before).len() && group_names(before)[w]
                                    == name@;
                            assert(groups@[w]@.0 == name@);
                        }
                    }
                    assert forall|k: int| 0 <= k < before.len() implies before[k].0 != name@ by {
                        if before[k].0 == name@ {
                            lemma_group_names_complete(before, k);
                        }
                    }
                    proof {
                        lemma_sizes_of_absent(before, name@);
                    }
                    let ghost old_groups = groups@;
                    let mut sizes: Vec<String> = Vec::new();
                    sizes.push(token_size);
                    assert(strings_view(sizes@) =~= seq![token_size@]);
                    groups.push(ModelGroup { name, token_sizes: sizes });
                    assert forall|g: int| 0 <= g < groups.len() implies (#[trigger] groups@[g])@
                        == (
                        group_names(after)[g],
                        sizes_of(after, group_names(after)[g]),
                    ) by {
                        if g < old_groups.len() {
                            assert(old_groups[g] == groups@[g]);
                            assert(group_names(before).contains(group_names(before)[g]));
                        }
                    }
                },
            }
        }
        i = i + 1;
    }
    assert(pairs.take(tags.len() as int) =~= pairs);
    assert(groups@.map_values(|g: ModelGroup| g@) =~= local_groups(pairs));
    groups
}

// ------------------------------------------------- variants of a local model

/// The variants of `vs` whose token size is among `sizes`, in order.
pub open spec fn kept_variants(vs: Seq<VariantView>, sizes: Seq<Seq<char>>) -> Seq<VariantView>
    decreases vs.len(),
{
    if vs.len() == 0 {
        Seq::empty()
    } else {
        let prev = kept_variants(vs.drop_last(), sizes);
        if sizes.contains(vs.last().0) {
            prev.push(vs.last())
        } else {
            prev
        }
    }
}

/// A variant is kept exactly when it is one of the model's variants and its
/// token size is installed locally.
pub proof fn lemma_kept_variants_exact(vs: Seq<VariantView>, sizes: Seq<Seq<char>>, v: VariantView)
    ensures
        kept_variants(vs, sizes).contains(v) <==> (vs.contains(v) && sizes.contains(v.0)),
    decreases vs.len(),
{
    if vs.len() > 0 {
        let prev = vs.drop_last();
        lemma_kept_variants_exact(prev, sizes, v);
        let k = kept_variants(prev, sizes);
        if vs.contains(v) && sizes.contains(v.0) {
            let w = choose|w: int| 0 <= w < vs.len() && vs[w] == v;
            if w < vs.len() - 1 {
                assert(prev[w] == v);
                let u = choose|u: int| 0 <= u < k.len() && k[u] == v;
                if sizes.contains(vs.last().0) {
                    assert(k.push(vs.last())[u] == v);
                }
            } else {
                assert(k.push(vs.last())[k.len() as int] == v);
            }
        }
        if kept_variants(vs, sizes).contains(v) {
            let u = choose|u: int|
                0 <= u < kept_variants(vs, sizes).len() && kept_variants(vs, sizes)[u] == v;
            if u < k.len() {
                assert(k[u] == v);
                let w = choose|w: int| 0 <= w < prev.len() && prev[w] == v;
                assert(vs[w] == v);
            } else {
                assert(vs[vs.len() - 1] == v);
            }
        }
    }
}

/// `sizes` lists `size`.
fn lists_size(sizes: &Vec<String>, size: &String) -> (res: bool)
    ensures
        res == strings_view(sizes@).contains(size@),
{
    let mut j: usize = 0;
    while j < sizes.len()
        invariant
            j <= sizes.len(),
            forall|k: int| 0 <= k < j ==> sizes@[k]@ != size@,
        decreases sizes.len() - j,
    {
        if sizes[j] == *size {
            assert(strings_view(sizes@)[j as int] == size@);
            return true;
        }
        j = j + 1;
    }
    assert forall|k: int| 0 <= k < strings_view(sizes@).len() implies strings_view(sizes@)[k]
        != size@ by {
        assert(sizes@[k]@ != size@);
    }
    false
}

/// The record of a locally installed model: what the database knows of it
/// (or the empty record when it knows nothing), keeping only the variants
/// installed locally, whose token sizes are `token_sizes`.
pub fn local_model_info(known: Option<ModelInfo>, token_sizes: &Vec<String>) -> (m: ModelInfo)
    ensures
        ({
            let base = match known {
                Some(k) => k@,
                None => empty_model_view(),
            };
            &&& m@.name == base.name
            &&& m@.category == base.category
            &&& m@.summary_content == base.summary_content
            &&& m@.readme_content == base.readme_content
            &&& m@.varients == kept_variants(base.varients, strings_view(token_sizes@))
        }),
{
    let base = match known {
        Some(k) => k,
        None => ModelInfo::default(),
    };
    let ghost all = variants_view(base.varients@);
    let ghost sizes = strings_view(token_sizes@);
    let mut kept: Vec<ModelVariant> = Vec::new();
    let mut i: usize = 0;
    while i < base.varients.len()
        invariant
            i <= base.varients.len(),
            all == variants_view(base.varients@),
            sizes == strings_view(token_sizes@),
            variants_view(kept@) == kept_variants(all.take(i as int), sizes),
        decreases base.varients.len() - i,
    {
        assert(all.take(i + 1).drop_last() =~= all.take(i as int));
        assert(all.take(i + 1).last() == base.varients@[i as int]@);
        if lists_size(token_sizes, &base.varients[i].token_size) {
            let v = base.varients[i].copy();
            let ghost old_kept = kept@;
            kept.push(v);
            assert(variants_view(kept@) =~= variants_view(old_kept).push(v@));
        }
        i = i + 1;
    }
    assert(all.take(base.varients.len() as int) =~= all);
    ModelInfo {
        name: base.name,
        varients: kept,
        category: base.category,
        summary_content: base.summary_content,
        readme_content: base.readme_content,
    }
}

} // verus!
