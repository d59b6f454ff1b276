//! The composer: from a registry and a selection of keys to one text.

use vstd::prelude::*;

verus! {

/// A registry: for each key of one option group its fragment, and `None` for
/// every other key.
pub type Registry = spec_fn(Seq<char>) -> Option<Seq<char>>;

/// The fragments of the keys of `selection` that `registry` knows, in the
/// order of selection. A key that occurs twice gives its fragment twice.
pub open spec fn fragments(registry: Registry, selection: Seq<Seq<char>>) -> Seq<Seq<char>> {
    selection.filter_map(registry)
}

/// The text composed from `selection`: its fragments, one after the other.
pub open spec fn composed(registry: Registry, selection: Seq<Seq<char>>) -> Seq<char> {
    fragments(registry, selection).flatten()
}

/// The keys that `options` selects: none where there are no options.
pub open spec fn selection_keys(options: Option<Vec<String>>) -> Seq<Seq<char>> {
    match options {
        Some(keys) => keys.deep_view(),
        None => Seq::empty(),
    }
}

/// An option group: a closed set of keys, each with its fragment.
pub trait OptionGroup {
    /// The registry of the group.
    spec fn registry() -> Registry;

    /// The fragment of `key`, or `None` where the group has no such key.
    fn lookup(key: &str) -> (found: Option<&'static str>)
        ensures
            match found {
                Some(fragment) => Self::registry()(key@) == Some(fragment@),
                None => Self::registry()(key@) is None,
            },
    ;
}

/// An option group that composes a text from a selection of its keys.
pub trait ConfigBuilder: OptionGroup {
    /// The text composed from the selected options; no options select nothing.
    fn build_string(options: Option<Vec<String>>) -> (result: String)
        ensures
            result@ == composed(Self::registry(), selection_keys(options)),
    ;
}

/// The fragments of the keys of `selection` that the group `G` knows, in the
/// order of selection.
pub fn select<G: OptionGroup>(selection: &Vec<String>) -> (found: Vec<&'static str>)
    ensures
        found.deep_view() == fragments(G::registry(), selection.deep_view()),
{
    let mut found: Vec<&'static str> = Vec::new();
    let mut i: usize = 0;
    while i < selection.len()
        invariant
            i <= selection.len(),
            found.deep_view() == fragments(G::registry(), selection.deep_view().take(i as int)),
        decreases selection.len() - i,
    {
        let ghost before = found.deep_view();
        let hit = G::lookup(selection[i].as_str());
        proof {
            let keys = selection.deep_view();
            assert(keys[i as int] == selection[i as int]@);
            keys.lemma_filter_map_take_succ(G::registry(), i as int);
        }
        if let Some(fragment) = hit {
            found.push(fragment);
            assert(found.deep_view() =~= before + seq![fragment@]);
        } else {
            assert(before + Seq::<Seq<char>>::empty() =~= before);
        }
        i += 1;
    }
    proof {
        assert(selection.deep_view().take(selection.len() as int) =~= selection.deep_view());
    }
    found
}

/// Composes the text of `selection` over the registry of the group `G`.
pub fn compose<G: OptionGroup>(selection: &Vec<String>) -> (result: String)
    ensures
        result@ == composed(G::registry(), selection.deep_view()),
{
    let mut result = String::new();
    let mut i: usize = 0;
    while i < selection.len()
        invariant
            i <= selection.len(),
            result@ == composed(G::registry(), selection.deep_view().take(i as int)),
        decreases selection.len() - i,
    {
        let hit = G::lookup(selection[i].as_str());
        proof {
            let keys = selection.deep_view();
            let before = fragments(G::registry(), keys.take(i as int));
            assert(keys[i as int] == selection[i as int]@);
            keys.lemma_filter_map_take_succ(G::registry(), i as int);
            match hit {
                Some(fragment) => {
                    before.lemma_flatten_push(fragment@);
                    assert(before + seq![fragment@] =~= before.push(fragment@));
                },
                None => {
                    assert(before + Seq::<Seq<char>>::empty() =~= before);
                },
            }
        }
        if let Some(fragment) = hit {
            result.append(fragment);
        }
        i += 1;
    }
    proof {
        assert(selection.deep_view().take(selection.len() as int) =~= selection.deep_view());
    }
    result
}

/// Whether `key` is among the keys of `selection`.
pub fn selects(selection: &Vec<String>, key: &str) -> (yes: bool)
    ensures
        yes == selection.deep_view().contains(key@),
{
    let mut i: usize = 0;
    while i < selection.len()
        invariant
            i <= selection.len(),
            forall|j: int| 0 <= j < i ==> selection.deep_view()[j] != key@,
        decreases selection.len() - i,
    {
        if crate::text::text_eq(selection[i].as_str(), key) {
            assert(selection.deep_view()[i as int] == key@);
            return true;
        }
        i += 1;
    }
    false
}

} // verus!
