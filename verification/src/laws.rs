//! What holds of the resolution pass for every description.
use vstd::prelude::*;
use crate::declare::definition_refs;
use crate::model::{DefinitionView, IdlView};
use crate::declare::DataVariantView;
use crate::resolve::{
    argument_refs, final_unresolved, flagged_variants, resolve_step, resolved_text,
    unresolved_after,
};

verus! {

/// The names under which a collection defines types.
pub open spec fn definition_names(defs: Seq<DefinitionView>) -> Set<Seq<char>>
    decreases defs.len(),
{
    if defs.len() == 0 {
        Set::<Seq<char>>::empty()
    } else {
        definition_names(defs.drop_last()).insert(defs.last().name)
    }
}

/// Where every definition that the pass can reach from `start` refers to no
/// further name, the pass takes out of `start` exactly the names that the
/// collection defines.
pub proof fn lemma_pass_removes_defined(defs: Seq<DefinitionView>, start: Set<Seq<char>>)
    requires
        forall|i: int|
            0 <= i < defs.len() && start.contains(#[trigger] defs[i].name) ==> definition_refs(
                defs[i],
            ) == Set::<Seq<char>>::empty(),
    ensures
        unresolved_after(defs, start) == start.difference(definition_names(defs)),
    decreases defs.len(),
{
    if defs.len() == 0 {
        assert(unresolved_after(defs, start) =~= start.difference(definition_names(defs)));
    } else {
        let front = defs.drop_last();
        assert forall|i: int|
            0 <= i < front.len() && start.contains(#[trigger] front[i].name) implies definition_refs(
            front[i],
        ) == Set::<Seq<char>>::empty() by {
            assert(front[i] == defs[i]);
        }
        lemma_pass_removes_defined(front, start);
        let before = unresolved_after(front, start);
        let last = defs.last();
        assert(last == defs[defs.len() - 1]);
        assert(resolve_step(last, before) =~= start.difference(definition_names(defs)));
    }
}

/// A pass that starts with no unresolved name declares nothing and ends with
/// none.
pub proof fn lemma_pass_keeps_empty(defs: Seq<DefinitionView>)
    ensures
        unresolved_after(defs, Set::<Seq<char>>::empty()) == Set::<Seq<char>>::empty(),
    decreases defs.len(),
{
    if defs.len() > 0 {
        lemma_pass_keeps_empty(defs.drop_last());
    }
}

/// Resolution is complete where the account definitions suffice: if every
/// name that an instruction's argument refers to is defined among the
/// accounts, and each such definition refers to no further name, then no name
/// is unresolved at the end.
pub proof fn lemma_resolution_complete(idl: IdlView)
    requires
        argument_refs(idl.instructions).subset_of(definition_names(idl.accounts)),
        forall|i: int|
            0 <= i < idl.accounts.len() && argument_refs(idl.instructions).contains(
                #[trigger] idl.accounts[i].name,
            ) ==> definition_refs(idl.accounts[i]) == Set::<Seq<char>>::empty(),
    ensures
        final_unresolved(idl) == Set::<Seq<char>>::empty(),
{
    let start = argument_refs(idl.instructions);
    lemma_pass_removes_defined(idl.accounts, start);
    assert(start.difference(definition_names(idl.accounts)) =~= Set::<Seq<char>>::empty());
    lemma_pass_keeps_empty(idl.types);
}

/// A pass never resolves a name that its collection does not define: such a
/// name, once unresolved, is still unresolved after the pass.
pub proof fn lemma_pass_keeps_undefined(
    defs: Seq<DefinitionView>,
    start: Set<Seq<char>>,
    name: Seq<char>,
)
    requires
        start.contains(name),
        !definition_names(defs).contains(name),
    ensures
        unresolved_after(defs, start).contains(name),
    decreases defs.len(),
{
    if defs.len() > 0 {
        lemma_pass_keeps_undefined(defs.drop_last(), start, name);
    }
}

/// The pass is not transitive: a name that a declared definition refers to,
/// and that only an earlier definition of the same collection defines, stays
/// unresolved. Here `defs` ends with the referring definition, whose name is
/// unresolved when the pass reaches it and differs from `name`.
pub proof fn lemma_pass_leaves_earlier_definition(
    defs: Seq<DefinitionView>,
    start: Set<Seq<char>>,
    name: Seq<char>,
)
    requires
        defs.len() > 0,
        unresolved_after(defs.drop_last(), start).contains(defs.last().name),
        definition_refs(defs.last()).contains(name),
        defs.last().name != name,
    ensures
        unresolved_after(defs, start).contains(name),
{
}

/// Whether the pass over `defs` that starts with `start` declares the
/// definition at `index`: its name is unresolved when the pass reaches it.
pub open spec fn is_declared(defs: Seq<DefinitionView>, start: Set<Seq<char>>, index: int) -> bool {
    unresolved_after(defs.take(index), start).contains(defs[index].name)
}

/// A pass that starts with no unresolved name declares nothing and flags
/// nothing.
pub proof fn lemma_pass_declares_nothing(defs: Seq<DefinitionView>)
    ensures
        resolved_text(defs, Set::<Seq<char>>::empty()) == Seq::<char>::empty(),
        flagged_variants(defs, Set::<Seq<char>>::empty()) == Seq::<DataVariantView>::empty(),
    decreases defs.len(),
{
    if defs.len() > 0 {
        lemma_pass_declares_nothing(defs.drop_last());
        lemma_pass_keeps_empty(defs.drop_last());
    }
}

/// Where the account definitions suffice (every name that an argument refers
/// to is defined among the accounts, and each such definition refers to no
/// further name), the account pass declares exactly the first definition of
/// each name that an argument refers to, and the auxiliary pass declares
/// nothing.
pub proof fn lemma_complete_resolution_declarations(idl: IdlView)
    requires
        argument_refs(idl.instructions).subset_of(definition_names(idl.accounts)),
        forall|i: int|
            0 <= i < idl.accounts.len() && argument_refs(idl.instructions).contains(
                #[trigger] idl.accounts[i].name,
            ) ==> definition_refs(idl.accounts[i]) == Set::<Seq<char>>::empty(),
    ensures
        forall|k: int|
            0 <= k < idl.accounts.len() ==> (#[trigger] is_declared(
                idl.accounts,
                argument_refs(idl.instructions),
                k,
            ) <==> argument_refs(idl.instructions).contains(idl.accounts[k].name)
                && !definition_names(idl.accounts.take(k)).contains(idl.accounts[k].name)),
        resolved_text(idl.types, unresolved_after(idl.accounts, argument_refs(idl.instructions)))
            == Seq::<char>::empty(),
{
    let start = argument_refs(idl.instructions);
    assert forall|k: int| 0 <= k < idl.accounts.len() implies (#[trigger] is_declared(
        idl.accounts,
        start,
        k,
    ) <==> start.contains(idl.accounts[k].name) && !definition_names(
        idl.accounts.take(k),
    ).contains(idl.accounts[k].name)) by {
        let front = idl.accounts.take(k);
        assert forall|i: int|
            0 <= i < front.len() && start.contains(
                #[trigger] front[i].name,
            ) implies definition_refs(front[i]) == Set::<Seq<char>>::empty() by {
            assert(front[i] == idl.accounts[i]);
        }
        lemma_pass_removes_defined(front, start);
    }
    lemma_pass_removes_defined(idl.accounts, start);
    assert(start.difference(definition_names(idl.accounts)) =~= Set::<Seq<char>>::empty());
    lemma_pass_declares_nothing(idl.types);
}

} // verus!
