//! The resolution pass: which definitions are declared, in which order, and
//! which names are left without a declaration.
use vstd::prelude::*;
use vstd::string::StringExecFns;
use crate::declare::{
    data_variant_views, definition_flags, definition_refs, definition_text, emit_definition,
    emit_struct, fields_refs, flag_data_variants, struct_text, DataVariant, DataVariantView,
};
use crate::digest::{build_sighash, sighash};
use crate::emit::{
    add_discriminator, add_imports, add_program_id, close_define_discriminator,
    define_discriminator, discriminator_close_text, discriminator_entry_text,
    discriminator_open_text, imports_text, program_id_text,
};
use crate::model::{
    definition_views, instruction_views, AddressValue, AddressView, DefinitionView, Idl,
    IdlInstruction, IdlTypeDefinition, IdlView, InstructionView,
};
use crate::names::{to_upper_camel_case, upper_camel_case};
use crate::unresolved::UnresolvedSet;

verus! {

/// Why no source unit can be generated from a description.
#[derive(Debug, PartialEq, Eq, Clone, Copy)]
pub enum GenerateError {
    /// The description has no metadata.
    MissingMetadata,
    /// The metadata has no `address`.
    MissingAddress,
    /// The `address` of the metadata is not a string.
    AddressNotString,
}

/// What is generated from one description.
#[derive(Debug)]
pub struct Generated {
    /// The text of the generated source unit.
    pub source: String,
    /// The names that were referred to and never declared.
    pub unresolved: UnresolvedSet,
    /// The variants that carry data, of exactly the definitions that were
    /// declared, in the order of the declarations.
    pub flagged: Vec<DataVariant>,
}

/// The program's address, or why the description has none.
pub open spec fn program_address(idl: IdlView) -> Result<Seq<char>, GenerateError> {
    match idl.metadata {
        None => Err(GenerateError::MissingMetadata),
        Some(None) => Err(GenerateError::MissingAddress),
        Some(Some(AddressView::Other)) => Err(GenerateError::AddressNotString),
        Some(Some(AddressView::Text(address))) => Ok(address),
    }
}

/// The entries of the discriminator table, one for each instruction in
/// order: the discriminator of its name, and the name itself, as the
/// description gives it.
pub open spec fn discriminator_entries_text(instructions: Seq<InstructionView>) -> Seq<char>
    decreases instructions.len(),
{
    if instructions.len() == 0 {
        Seq::<char>::empty()
    } else {
        discriminator_entries_text(instructions.drop_last()) + discriminator_entry_text(
            sighash(instructions.last().name),
            instructions.last().name,
        )
    }
}

/// The whole discriminator table.
pub open spec fn discriminator_table_text(instructions: Seq<InstructionView>) -> Seq<char> {
    discriminator_open_text() + discriminator_entries_text(instructions)
        + discriminator_close_text()
}

/// The argument struct of one instruction: named by the instruction's name in
/// upper camel case; nothing for an instruction without arguments.
pub open spec fn argument_struct_text(instruction: InstructionView) -> Seq<char> {
    if instruction.args.len() == 0 {
        Seq::<char>::empty()
    } else {
        struct_text(upper_camel_case(instruction.name), instruction.args)
    }
}

/// The argument structs of the instructions, in order.
pub open spec fn argument_structs_text(instructions: Seq<InstructionView>) -> Seq<char>
    decreases instructions.len(),
{
    if instructions.len() == 0 {
        Seq::<char>::empty()
    } else {
        argument_structs_text(instructions.drop_last()) + argument_struct_text(
            instructions.last(),
        )
    }
}

/// The names that the arguments of the instructions refer to.
pub open spec fn argument_refs(instructions: Seq<InstructionView>) -> Set<Seq<char>>
    decreases instructions.len(),
{
    if instructions.len() == 0 {
        Set::<Seq<char>>::empty()
    } else {
        argument_refs(instructions.drop_last()).union(fields_refs(instructions.last().args))
    }
}

/// What one definition does to the unresolved names: if its name is among
/// them, the names it refers to join them and its own name leaves; if not,
/// nothing changes.
pub open spec fn resolve_step(def: DefinitionView, unresolved: Set<Seq<char>>) -> Set<
    Seq<char>,
> {
    if unresolved.contains(def.name) {
        unresolved.union(definition_refs(def)).remove(def.name)
    } else {
        unresolved
    }
}

/// The unresolved names after one pass over `defs`, in order, that starts
/// with `unresolved`. Each definition is looked at once.
pub open spec fn unresolved_after(defs: Seq<DefinitionView>, unresolved: Set<Seq<char>>) -> Set<
    Seq<char>,
>
    decreases defs.len(),
{
    if defs.len() == 0 {
        unresolved
    } else {
        resolve_step(defs.last(), unresolved_after(defs.drop_last(), unresolved))
    }
}

/// The declarations that one pass over `defs` writes: that of each
/// definition whose name is unresolved when the pass reaches it.
pub open spec fn resolved_text(defs: Seq<DefinitionView>, unresolved: Set<Seq<char>>) -> Seq<
    char,
>
    decreases defs.len(),
{
    if defs.len() == 0 {
        Seq::<char>::empty()
    } else if unresolved_after(defs.drop_last(), unresolved).contains(defs.last().name) {
        resolved_text(defs.drop_last(), unresolved) + definition_text(defs.last())
    } else {
        resolved_text(defs.drop_last(), unresolved)
    }
}

/// What one pass over `defs` flags: the variants that carry data, of each
/// definition that the pass declares, in the order of the declarations.
pub open spec fn flagged_variants(defs: Seq<DefinitionView>, unresolved: Set<Seq<char>>) -> Seq<
    DataVariantView,
>
    decreases defs.len(),
{
    if defs.len() == 0 {
        Seq::<DataVariantView>::empty()
    } else if unresolved_after(defs.drop_last(), unresolved).contains(defs.last().name) {
        flagged_variants(defs.drop_last(), unresolved) + definition_flags(defs.last())
    } else {
        flagged_variants(defs.drop_last(), unresolved)
    }
}

/// What a whole run flags: what the account pass flags, then what the
/// auxiliary pass flags.
pub open spec fn final_flagged(idl: IdlView) -> Seq<DataVariantView> {
    flagged_variants(idl.accounts, argument_refs(idl.instructions)) + flagged_variants(
        idl.types,
        unresolved_after(idl.accounts, argument_refs(idl.instructions)),
    )
}

/// The names that are unresolved at the end: after the arguments, one pass
/// over the account definitions and one over the auxiliary definitions.
pub open spec fn final_unresolved(idl: IdlView) -> Set<Seq<char>> {
    unresolved_after(idl.types, unresolved_after(idl.accounts, argument_refs(idl.instructions)))
}

/// The generated source unit of a description whose address is `address`:
/// imports, address, discriminator table, argument structs, then the
/// declarations of the account pass and of the auxiliary pass.
pub open spec fn generated_source(idl: IdlView, address: Seq<char>) -> Seq<char> {
    imports_text() + program_id_text(address) + discriminator_table_text(idl.instructions)
        + argument_structs_text(idl.instructions) + resolved_text(
        idl.accounts,
        argument_refs(idl.instructions),
    ) + resolved_text(
        idl.types,
        unresolved_after(idl.accounts, argument_refs(idl.instructions)),
    )
}

impl GenerateError {
    /// The message of the error.
    pub fn message(&self) -> (text: String)
        ensures
            text@ == match *self {
                GenerateError::MissingMetadata => "metadata cannot be None!"@,
                GenerateError::MissingAddress => "metadata should contain 'address'"@,
                GenerateError::AddressNotString => "address in metadata should be string format"@,
            },
    {
        match self {
            GenerateError::MissingMetadata => "metadata cannot be None!".to_owned(),
            GenerateError::MissingAddress => "metadata should contain 'address'".to_owned(),
            GenerateError::AddressNotString => {
                "address in metadata should be string format".to_owned()
            },
        }
    }
}

/// Reads the program's address out of the metadata.
pub fn find_program_address(idl: &Idl) -> (found: Result<&String, GenerateError>)
    ensures
        match found {
            Ok(address) => program_address(idl@) == Ok::<Seq<char>, GenerateError>(address@),
            Err(error) => program_address(idl@) == Err::<Seq<char>, GenerateError>(error),
        },
{
    match &idl.metadata {
        None => Err(GenerateError::MissingMetadata),
        Some(metadata) => match &metadata.address {
            None => Err(GenerateError::MissingAddress),
            Some(AddressValue::Other) => Err(GenerateError::AddressNotString),
            Some(AddressValue::Text(address)) => Ok(address),
        },
    }
}

/// Appends the discriminator table: one entry for each instruction, in the
/// order of the description.
pub fn emit_discriminator_table(output: &mut String, instructions: &Vec<IdlInstruction>)
    ensures
        final(output)@ == old(output)@ + discriminator_table_text(instruction_views(instructions@)),
{
    define_discriminator(output);
    let ghost opened = output@;
    let mut i: usize = 0;
    proof {
        assert(instruction_views(instructions@).take(0) =~= Seq::<InstructionView>::empty());
        assert(output@ =~= opened + discriminator_entries_text(instruction_views(instructions@).take(0)));
    }
    while i < instructions.len()
        invariant
            i <= instructions@.len(),
            output@ == opened + discriminator_entries_text(instruction_views(instructions@).take(i as int)),
        decreases instructions@.len() - i,
    {
        let ix = &instructions[i];
        let bytes = build_sighash(ix.name.as_str());
        add_discriminator(output, bytes, ix.name.as_str());
        proof {
            let taken = instruction_views(instructions@).take(i + 1);
            assert(taken.drop_last() =~= instruction_views(instructions@).take(i as int));
            assert(taken.last() == instructions@[i as int]@);
            assert(output@ =~= opened + discriminator_entries_text(taken));
        }
        i += 1;
    }
    assert(instruction_views(instructions@).take(i as int) =~= instruction_views(instructions@));
    close_define_discriminator(output);
    assert(output@ =~= old(output)@ + discriminator_table_text(instruction_views(instructions@)));
}

/// The first phase: appends one struct for each instruction that has
/// arguments, and records the names that the arguments refer to.
pub fn emit_argument_structs(
    output: &mut String,
    instructions: &Vec<IdlInstruction>,
    unresolved: &mut UnresolvedSet,
)
    requires
        old(unresolved).wf(),
    ensures
        final(output)@ == old(output)@ + argument_structs_text(instruction_views(instructions@)),
        final(unresolved).wf(),
        final(unresolved)@ == old(unresolved)@.union(argument_refs(instruction_views(instructions@))),
{
    let mut i: usize = 0;
    proof {
        assert(instruction_views(instructions@).take(0) =~= Seq::<InstructionView>::empty());
        assert(output@ =~= old(output)@ + argument_structs_text(instruction_views(instructions@).take(0)));
        assert(unresolved@ =~= old(unresolved)@.union(argument_refs(instruction_views(instructions@).take(0))));
    }
    while i < instructions.len()
        invariant
            i <= instructions@.len(),
            unresolved.wf(),
            output@ == old(output)@ + argument_structs_text(instruction_views(instructions@).take(i as int)),
            unresolved@ == old(unresolved)@.union(argument_refs(instruction_views(instructions@).take(i as int))),
        decreases instructions@.len() - i,
    {
        let ix = &instructions[i];
        if ix.args.len() > 0 {
            let name = to_upper_camel_case(ix.name.as_str());
            emit_struct(output, name.as_str(), &ix.args, unresolved);
        }
        proof {
            let taken = instruction_views(instructions@).take(i + 1);
            assert(taken.drop_last() =~= instruction_views(instructions@).take(i as int));
            assert(taken.last() == instructions@[i as int]@);
            assert(output@ =~= old(output)@ + argument_structs_text(taken));
            assert(unresolved@ =~= old(unresolved)@.union(argument_refs(taken)));
        }
        i += 1;
    }
    assert(instruction_views(instructions@).take(i as int) =~= instruction_views(instructions@));
}

/// One pass over a collection of definitions, in order: a definition whose
/// name is unresolved when the pass reaches it is declared, its variants that
/// carry data are flagged, the names it refers to become unresolved and its
/// own name is resolved; any other is skipped. No definition is looked at
/// twice.
pub fn resolve_definitions(
    output: &mut String,
    defs: &Vec<IdlTypeDefinition>,
    unresolved: &mut UnresolvedSet,
    flagged: &mut Vec<DataVariant>,
)
    requires
        old(unresolved).wf(),
    ensures
        data_variant_views(final(flagged)@) == data_variant_views(old(flagged)@) + flagged_variants(
            definition_views(defs@),
            old(unresolved)@,
        ),
        final(output)@ == old(output)@ + resolved_text(definition_views(defs@), old(unresolved)@),
        final(unresolved).wf(),
        final(unresolved)@ == unresolved_after(definition_views(defs@), old(unresolved)@),
{
    let mut i: usize = 0;
    proof {
        assert(definition_views(defs@).take(0) =~= Seq::<DefinitionView>::empty());
        assert(output@ =~= old(output)@ + resolved_text(definition_views(defs@).take(0), old(unresolved)@));
        assert(data_variant_views(flagged@) =~= data_variant_views(old(flagged)@)
            + flagged_variants(definition_views(defs@).take(0), old(unresolved)@));
    }
    while i < defs.len()
        invariant
            i <= defs@.len(),
            unresolved.wf(),
            output@ == old(output)@ + resolved_text(definition_views(defs@).take(i as int), old(unresolved)@),
            data_variant_views(flagged@) == data_variant_views(old(flagged)@) + flagged_variants(
                definition_views(defs@).take(i as int),
                old(unresolved)@,
            ),
            unresolved@ == unresolved_after(definition_views(defs@).take(i as int), old(unresolved)@),
        decreases defs@.len() - i,
    {
        let def = &defs[i];
        proof {
            let taken = definition_views(defs@).take(i + 1);
            assert(taken.drop_last() =~= definition_views(defs@).take(i as int));
            assert(taken.last() == defs@[i as int]@);
        }
        if unresolved.contains(&def.name) {
            emit_definition(output, def, unresolved);
            flag_data_variants(flagged, def);
            unresolved.remove(&def.name);
        }
        proof {
            let taken = definition_views(defs@).take(i + 1);
            assert(output@ =~= old(output)@ + resolved_text(taken, old(unresolved)@));
            assert(data_variant_views(flagged@) =~= data_variant_views(old(flagged)@)
                + flagged_variants(taken, old(unresolved)@));
        }
        i += 1;
    }
    assert(definition_views(defs@).take(i as int) =~= definition_views(defs@));
}

/// Generates the source unit of one description. Fails, before anything is
/// written, exactly when the description has no program address; otherwise
/// gives the whole source unit, the names that were left unresolved, which is
/// no failure, and the variants whose data the declarations leave out.
pub fn generate(idl: &Idl) -> (result: Result<Generated, GenerateError>)
    ensures
        match program_address(idl@) {
            Ok(address) => result is Ok && result->Ok_0.source@ == generated_source(idl@, address)
                && result->Ok_0.unresolved.wf() && result->Ok_0.unresolved@ == final_unresolved(
                idl@,
            ) && data_variant_views(result->Ok_0.flagged@) == final_flagged(idl@),
            Err(error) => result is Err && result->Err_0 == error,
        },
{
    let address = match find_program_address(idl) {
        Ok(address) => address,
        Err(error) => {
            return Err(error);
        },
    };
    let mut output = String::new();
    let mut unresolved = UnresolvedSet::new();
    add_imports(&mut output);
    add_program_id(&mut output, address.as_str());
    emit_discriminator_table(&mut output, &idl.instructions);
    emit_argument_structs(&mut output, &idl.instructions, &mut unresolved);
    proof {
        assert(unresolved@ =~= argument_refs(idl@.instructions));
    }
    let mut flagged: Vec<DataVariant> = Vec::new();
    resolve_definitions(&mut output, &idl.accounts, &mut unresolved, &mut flagged);
    resolve_definitions(&mut output, &idl.types, &mut unresolved, &mut flagged);
    proof {
        assert(output@ =~= generated_source(idl@, address@));
        assert(data_variant_views(flagged@) =~= final_flagged(idl@));
    }
    Ok(Generated { source: output, unresolved, flagged })
}

/// The warning for a name that is still unresolved at the end.
pub open spec fn unresolved_warning_text(name: Seq<char>) -> Seq<char> {
    "resolved type: "@ + name
}

/// The warnings of a finished run: one for each name that is still
/// unresolved, in the order in which the names were first referred to.
pub fn unresolved_warnings(unresolved: &UnresolvedSet) -> (warnings: Vec<String>)
    ensures
        warnings@.map_values(|warning: String| warning@) == unresolved.texts().map_values(
            |name: Seq<char>| unresolved_warning_text(name),
        ),
{
    let names = unresolved.names();
    assert(unresolved.texts().len() == names@.len());
    let mut warnings: Vec<String> = Vec::new();
    let mut i: usize = 0;
    while i < names.len()
        invariant
            i <= names@.len(),
            warnings@.len() == i,
            forall|j: int|
                0 <= j < i ==> (#[trigger] warnings@[j])@ == unresolved_warning_text(names@[j]@),
        decreases names@.len() - i,
    {
        let mut warning = String::from_str("resolved type: ");
        warning.append(names[i].as_str());
        warnings.push(warning);
        i += 1;
    }
    proof {
        assert forall|j: int| 0 <= j < names@.len() implies unresolved.texts()[j] == names@[j]@ by {
            assert(names@.map_values(|name: String| name@)[j] == names@[j]@);
        }
        assert(warnings@.map_values(|warning: String| warning@) =~= unresolved.texts().map_values(
            |name: Seq<char>| unresolved_warning_text(name),
        ));
    }
    warnings
}

} // verus!
