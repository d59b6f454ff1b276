//! What holds of every registry and every selection.

use vstd::prelude::*;
use vstd::seq_lib::lemma_flatten_concat;
use crate::compose::{composed, fragments, OptionGroup, Registry};
use crate::hooks::{
    eglot_block, hook, hook_clause, hooks, server_stanza, Hooks, EGLOT_CLOSE, EGLOT_OPEN,
    HOOK_CLAUSE_CLOSE, HOOK_CLAUSE_OPEN, HOOK_SEPARATOR, WEB_MODE_SERVER,
};
use crate::languages::language_fragment;
use crate::text::joined;

verus! {

/// What one key contributes to a composed text: its fragment, or nothing
/// where the registry does not know the key.
pub open spec fn contribution(registry: Registry, key: Seq<char>) -> Seq<char> {
    match registry(key) {
        Some(fragment) => fragment,
        None => Seq::empty(),
    }
}

/// The empty selection has no fragments and composes the empty text.
pub proof fn lemma_empty_selection(registry: Registry)
    ensures
        fragments(registry, Seq::empty()) == Seq::<Seq<char>>::empty(),
        composed(registry, Seq::empty()) == Seq::<char>::empty(),
{
}

/// A key added at the end of a selection adds its fragment at the end of the
/// fragments, or nothing where the registry does not know it.
pub proof fn lemma_fragments_push(registry: Registry, selection: Seq<Seq<char>>, key: Seq<char>)
    ensures
        fragments(registry, selection.push(key)) == match registry(key) {
            Some(fragment) => fragments(registry, selection).push(fragment),
            None => fragments(registry, selection),
        },
{
    assert(selection.push(key).drop_last() =~= selection);
    match registry(key) {
        Some(fragment) => {
            assert(fragments(registry, selection) + seq![fragment] =~= fragments(
                registry,
                selection,
            ).push(fragment));
        },
        None => {},
    }
}

/// The fragments of two selections, one after the other, are the fragments of
/// the first followed by the fragments of the second.
pub proof fn lemma_fragments_concat(registry: Registry, first: Seq<Seq<char>>, second: Seq<Seq<char>>)
    ensures
        fragments(registry, first + second) == fragments(registry, first) + fragments(
            registry,
            second,
        ),
    decreases second.len(),
{
    if second.len() == 0 {
        assert(first + second =~= first);
        assert(fragments(registry, first) + Seq::<Seq<char>>::empty() =~= fragments(
            registry,
            first,
        ));
    } else {
        let rest = second.drop_last();
        let key = second.last();
        assert(first + second =~= (first + rest).push(key));
        assert(second =~= rest.push(key));
        lemma_fragments_concat(registry, first, rest);
        lemma_fragments_push(registry, first + rest, key);
        lemma_fragments_push(registry, rest, key);
        match registry(key) {
            Some(fragment) => {
                assert((fragments(registry, first) + fragments(registry, rest)).push(fragment)
                    =~= fragments(registry, first) + fragments(registry, rest).push(fragment));
            },
            None => {},
        }
    }
}

/// A selection of one key composes what that key contributes.
pub proof fn lemma_composed_one(registry: Registry, key: Seq<char>)
    ensures
        composed(registry, seq![key]) == contribution(registry, key),
{
    assert(seq![key] =~= Seq::<Seq<char>>::empty().push(key));
    lemma_fragments_push(registry, Seq::empty(), key);
    match registry(key) {
        Some(fragment) => {
            Seq::<Seq<char>>::empty().lemma_flatten_push(fragment);
            assert(Seq::<char>::empty() + fragment =~= fragment);
        },
        None => {},
    }
}

/// Order is kept: the text of two selections, one after the other, is the text
/// of the first followed by the text of the second. So the fragment of an
/// earlier key stands before the fragment of every later key.
pub proof fn lemma_composed_concat(registry: Registry, first: Seq<Seq<char>>, second: Seq<Seq<char>>)
    ensures
        composed(registry, first + second) == composed(registry, first) + composed(
            registry,
            second,
        ),
{
    lemma_fragments_concat(registry, first, second);
    lemma_flatten_concat(fragments(registry, first), fragments(registry, second));
}

/// A key added at the end of a selection adds what it contributes at the end
/// of the text.
pub proof fn lemma_composed_push(registry: Registry, selection: Seq<Seq<char>>, key: Seq<char>)
    ensures
        composed(registry, selection.push(key)) == composed(registry, selection) + contribution(
            registry,
            key,
        ),
{
    assert(selection.push(key) =~= selection + seq![key]);
    lemma_composed_concat(registry, selection, seq![key]);
    lemma_composed_one(registry, key);
}

/// A key that the registry does not know adds nothing and moves nothing:
/// the text is that of the keys before it followed by that of the keys after
/// it, which is the text of the selection without that key.
pub proof fn lemma_unknown_key_is_skipped(
    registry: Registry,
    before: Seq<Seq<char>>,
    key: Seq<char>,
    after: Seq<Seq<char>>,
)
    requires
        registry(key) is None,
    ensures
        composed(registry, before + seq![key] + after) == composed(registry, before) + composed(
            registry,
            after,
        ),
        composed(registry, before + seq![key] + after) == composed(registry, before + after),
{
    lemma_composed_concat(registry, before + seq![key], after);
    lemma_composed_concat(registry, before, seq![key]);
    lemma_composed_one(registry, key);
    lemma_composed_concat(registry, before, after);
    assert(composed(registry, before) + Seq::<char>::empty() =~= composed(registry, before));
}

/// The keys of `selection` that `registry` knows, in their order.
pub open spec fn known_keys(registry: Registry, selection: Seq<Seq<char>>) -> Seq<Seq<char>> {
    selection.filter(|key: Seq<char>| registry(key) is Some)
}

/// Unknown keys count for nothing, however many there are: a selection
/// composes the same text as its known keys alone.
pub proof fn lemma_only_known_keys_count(registry: Registry, selection: Seq<Seq<char>>)
    ensures
        composed(registry, selection) == composed(registry, known_keys(registry, selection)),
    decreases selection.len(),
{
    let known = |key: Seq<char>| registry(key) is Some;
    reveal(Seq::filter);
    if selection.len() > 0 {
        let rest = selection.drop_last();
        let key = selection.last();
        assert(selection =~= rest.push(key));
        lemma_only_known_keys_count(registry, rest);
        lemma_composed_push(registry, rest, key);
        if registry(key) is Some {
            assert(selection.filter(known) == rest.filter(known).push(key));
            lemma_composed_push(registry, rest.filter(known), key);
        } else {
            assert(selection.filter(known) == rest.filter(known));
            assert(composed(registry, rest) + Seq::<char>::empty() =~= composed(registry, rest));
        }
    }
}

/// Composition is a function of the keys alone: two selections that hold the
/// same keys in the same order compose the same text.
pub proof fn lemma_same_keys_same_text(registry: Registry, first: Vec<String>, second: Vec<String>)
    requires
        first.len() == second.len(),
        forall|i: int| 0 <= i < first.len() ==> first[i]@ == second[i]@,
    ensures
        composed(registry, first.deep_view()) == composed(registry, second.deep_view()),
{
    assert(first.deep_view() =~= second.deep_view());
}

/// A key selected twice contributes twice, with nothing between.
pub proof fn lemma_duplicate_key(registry: Registry, key: Seq<char>)
    ensures
        composed(registry, seq![key, key]) == contribution(registry, key) + contribution(
            registry,
            key,
        ),
{
    assert(seq![key, key] =~= seq![key] + seq![key]);
    lemma_composed_concat(registry, seq![key], seq![key]);
    lemma_composed_one(registry, key);
}

/// Joining with the empty separator is concatenation.
pub proof fn lemma_joined_without_separator(parts: Seq<Seq<char>>)
    ensures
        joined(parts, Seq::empty()) == parts.flatten(),
    decreases parts.len(),
{
    if parts.len() == 0 {
    } else if parts.len() == 1 {
        parts.lemma_flatten_singleton();
    } else {
        let rest = parts.drop_last();
        lemma_joined_without_separator(rest);
        rest.lemma_flatten_push(parts.last());
        assert(parts =~= rest.push(parts.last()));
        assert(joined(rest, Seq::empty()) + Seq::<char>::empty() + parts.last() =~= rest.flatten()
            + parts.last());
    }
}

/// Every language that has a hook is a language of the registry.
pub proof fn lemma_hooked_languages_are_languages(key: Seq<char>)
    requires
        hook(key) is Some,
    ensures
        language_fragment(key) is Some,
{
}

/// There are hooks exactly where some selected language has one.
pub proof fn lemma_hooks_present(selection: Seq<Seq<char>>)
    ensures
        hooks(selection).len() > 0 <==> exists|i: int|
            0 <= i < selection.len() && hook(#[trigger] selection[i]) is Some,
    decreases selection.len(),
{
    let registry = Hooks::registry();
    if selection.len() > 0 {
        let rest = selection.drop_last();
        let key = selection.last();
        assert(selection =~= rest.push(key));
        lemma_hooks_present(rest);
        lemma_fragments_push(registry, rest, key);
        if hook(key) is Some {
            assert(hook(selection[selection.len() - 1]) is Some);
        } else if hooks(rest).len() > 0 {
            let i = choose|i: int| 0 <= i < rest.len() && hook(#[trigger] rest[i]) is Some;
            assert(hook(selection[i]) is Some);
        } else {
            assert forall|i: int| 0 <= i < selection.len() implies hook(
                #[trigger] selection[i],
            ) is None by {
                if i < rest.len() {
                    assert(selection[i] == rest[i]);
                }
            }
        }
    }
}

/// The hook clause stands exactly where there are hooks, and then holds
/// them in the order of selection.
pub proof fn lemma_hook_clause(selection: Seq<Seq<char>>)
    ensures
        hooks(selection).len() == 0 ==> hook_clause(selection) == Seq::<char>::empty(),
        hooks(selection).len() > 0 ==> hook_clause(selection) == HOOK_CLAUSE_OPEN@ + joined(
            hooks(selection),
            HOOK_SEPARATOR@,
        ) + HOOK_CLAUSE_CLOSE@,
{
}

/// The server stanza goes by whether `tsx` is selected, not by where: two
/// selections put together either way round give the same stanza.
pub proof fn lemma_server_stanza_ignores_order(first: Seq<Seq<char>>, second: Seq<Seq<char>>)
    ensures
        server_stanza(first + second) == server_stanza(second + first),
        server_stanza(first + second) == if first.contains("tsx"@) || second.contains("tsx"@) {
            WEB_MODE_SERVER@
        } else {
            Seq::empty()
        },
{
    let key = "tsx"@;
    if first.contains(key) {
        let i = choose|i: int| 0 <= i < first.len() && first[i] == key;
        assert((first + second)[i] == key);
        assert((second + first)[second.len() + i] == key);
    } else if second.contains(key) {
        let i = choose|i: int| 0 <= i < second.len() && second[i] == key;
        assert((first + second)[first.len() + i] == key);
        assert((second + first)[i] == key);
    } else {
        assert(!(first + second).contains(key));
        assert(!(second + first).contains(key));
    }
}

/// Where no selected language has a hook, the eglot block is its opening and
/// its closing and nothing else. The empty selection is such a selection.
pub proof fn lemma_eglot_without_hooks(selection: Seq<Seq<char>>)
    requires
        forall|i: int| 0 <= i < selection.len() ==> hook(#[trigger] selection[i]) is None,
    ensures
        eglot_block(selection) == EGLOT_OPEN@ + EGLOT_CLOSE@,
{
    lemma_hooks_present(selection);
    if selection.contains("tsx"@) {
        let i = choose|i: int| 0 <= i < selection.len() && selection[i] == "tsx"@;
        assert(hook(selection[i]) is Some);
    }
    assert(EGLOT_OPEN@ + Seq::<char>::empty() + Seq::<char>::empty() + EGLOT_CLOSE@ =~= EGLOT_OPEN@
        + EGLOT_CLOSE@);
}

} // verus!
