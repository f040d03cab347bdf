//! Declarations: the text of one struct or enum, and what it refers to.
use vstd::prelude::*;
use crate::emit::{
    add_enum_field, add_struct_field, close_define_struct_or_enum, declaration_close_text,
    declaration_open_text, define_struct_or_enum, enum_field_text, struct_field_text,
};
use crate::mapper::{referenced_names, rust_type_text, ty_to_rust_type};
use crate::model::{
    field_views, variant_views, DefinitionBody, DefinitionView, FieldView, IdlEnumVariant, IdlField,
    IdlTypeDefinition, IdlTypeDefinitionTy, VariantView,
};
use crate::names::{snake_case, to_snake_case};
use crate::unresolved::UnresolvedSet;

verus! {

/// The text of the fields of a struct, in their order: each name in snake
/// case, each type mapped.
pub open spec fn fields_text(fields: Seq<FieldView>) -> Seq<char>
    decreases fields.len(),
{
    if fields.len() == 0 {
        Seq::<char>::empty()
    } else {
        fields_text(fields.drop_last()) + struct_field_text(
            snake_case(fields.last().name),
            rust_type_text(fields.last().ty),
        )
    }
}

/// The names of the user-defined types that the fields refer to.
pub open spec fn fields_refs(fields: Seq<FieldView>) -> Set<Seq<char>>
    decreases fields.len(),
{
    if fields.len() == 0 {
        Set::<Seq<char>>::empty()
    } else {
        fields_refs(fields.drop_last()).union(referenced_names(fields.last().ty))
    }
}

/// The text of the variants of an enum, in their order, names unchanged,
/// each as a unit variant.
pub open spec fn variants_text(variants: Seq<VariantView>) -> Seq<char>
    decreases variants.len(),
{
    if variants.len() == 0 {
        Seq::<char>::empty()
    } else {
        variants_text(variants.drop_last()) + enum_field_text(variants.last().name)
    }
}

/// The declaration of a struct called `name` with these fields.
pub open spec fn struct_text(name: Seq<char>, fields: Seq<FieldView>) -> Seq<char> {
    declaration_open_text(name, "struct"@) + fields_text(fields) + declaration_close_text()
}

/// The declaration of an enum called `name` with these variants.
pub open spec fn enum_text(name: Seq<char>, variants: Seq<VariantView>) -> Seq<char> {
    declaration_open_text(name, "enum"@) + variants_text(variants) + declaration_close_text()
}

/// The declaration of a type definition, under its own name.
pub open spec fn definition_text(def: DefinitionView) -> Seq<char> {
    match def.body {
        DefinitionBody::Struct { fields } => struct_text(def.name, fields),
        DefinitionBody::Enum { variants } => enum_text(def.name, variants),
    }
}

/// The names of the user-defined types that a definition refers to: those of
/// its fields; an enum refers to none.
pub open spec fn definition_refs(def: DefinitionView) -> Set<Seq<char>> {
    match def.body {
        DefinitionBody::Struct { fields } => fields_refs(fields),
        DefinitionBody::Enum { variants } => Set::<Seq<char>>::empty(),
    }
}

/// The names of the variants that carry data, in their order: what a
/// declaration leaves out and a caller has to be told of.
pub open spec fn data_variant_names(variants: Seq<VariantView>) -> Seq<Seq<char>>
    decreases variants.len(),
{
    if variants.len() == 0 {
        Seq::<Seq<char>>::empty()
    } else if variants.last().carries_data {
        data_variant_names(variants.drop_last()).push(variants.last().name)
    } else {
        data_variant_names(variants.drop_last())
    }
}

/// The names of the variants of a definition that carry data; none for a
/// struct.
pub open spec fn definition_data_variants(def: DefinitionView) -> Seq<Seq<char>> {
    match def.body {
        DefinitionBody::Struct { fields } => Seq::<Seq<char>>::empty(),
        DefinitionBody::Enum { variants } => data_variant_names(variants),
    }
}

/// A variant that carries data, with the definition it belongs to: what is
/// flagged when the definition is declared, since the declaration has the
/// variant's name alone.
#[derive(Debug, PartialEq, Eq)]
pub struct DataVariant {
    /// The name of the enum.
    pub definition: String,
    /// The name of the variant.
    pub variant: String,
}

/// A flagged variant as a mathematical value.
pub struct DataVariantView {
    pub definition: Seq<char>,
    pub variant: Seq<char>,
}

impl View for DataVariant {
    type V = DataVariantView;

    open spec fn view(&self) -> DataVariantView {
        DataVariantView { definition: self.definition@, variant: self.variant@ }
    }
}

/// The mathematical values of a list of flagged variants, in order.
pub open spec fn data_variant_views(flagged: Seq<DataVariant>) -> Seq<DataVariantView> {
    flagged.map_values(|entry: DataVariant| entry@)
}

/// What the declaration of a definition flags: each of its variants that
/// carries data, in order, under the definition's name.
pub open spec fn definition_flags(def: DefinitionView) -> Seq<DataVariantView> {
    definition_data_variants(def).map_values(
        |variant: Seq<char>| (DataVariantView { definition: def.name, variant }),
    )
}

/// Lists the variants of a definition that carry data, in order, so that
/// they can be reported: their declaration has the name alone.
pub fn data_variants(def: &IdlTypeDefinition) -> (names: Vec<String>)
    ensures
        names@.map_values(|name: String| name@) == definition_data_variants(def@),
{
    let mut names: Vec<String> = Vec::new();
    match &def.ty {
        IdlTypeDefinitionTy::Struct { fields } => {
            assert(names@.map_values(|name: String| name@) =~= Seq::<Seq<char>>::empty());
        },
        IdlTypeDefinitionTy::Enum { variants } => {
            let mut i: usize = 0;
            proof {
                assert(variant_views(variants@).take(0) =~= Seq::<VariantView>::empty());
                assert(names@.map_values(|name: String| name@) =~= data_variant_names(
                    variant_views(variants@).take(0),
                ));
            }
            while i < variants.len()
                invariant
                    i <= variants@.len(),
                    names@.map_values(|name: String| name@) == data_variant_names(
                        variant_views(variants@).take(i as int),
                    ),
                decreases variants@.len() - i,
            {
                let ghost before = names@;
                proof {
                    let taken = variant_views(variants@).take(i + 1);
                    assert(taken.drop_last() =~= variant_views(variants@).take(i as int));
                    assert(taken.last() == variants@[i as int]@);
                }
                if variants[i].carries_data {
                    names.push(variants[i].name.clone());
                    assert(names@.map_values(|name: String| name@) =~= before.map_values(
                        |name: String| name@,
                    ).push(variants@[i as int].name@));
                }
                i += 1;
            }
            assert(variant_views(variants@).take(i as int) =~= variant_views(variants@));
        },
    }
    names
}

/// Flags the variants of a definition that carry data: appends each, in
/// order, under the definition's name.
pub fn flag_data_variants(flagged: &mut Vec<DataVariant>, def: &IdlTypeDefinition)
    ensures
        data_variant_views(final(flagged)@) == data_variant_views(old(flagged)@) + definition_flags(
            def@,
        ),
{
    let names = data_variants(def);
    let ghost expected = definition_flags(def@);
    let mut i: usize = 0;
    proof {
        assert forall|j: int| 0 <= j < names@.len() implies names@[j]@
            == definition_data_variants(def@)[j] by {
            assert(names@.map_values(|name: String| name@)[j] == names@[j]@);
        }
        assert(names@.map_values(|name: String| name@).len() == names@.len());
        assert(data_variant_views(flagged@) =~= data_variant_views(old(flagged)@) + expected.take(0));
    }
    while i < names.len()
        invariant
            i <= names@.len(),
            expected == definition_flags(def@),
            names@.len() == definition_data_variants(def@).len(),
            forall|j: int| 0 <= j < names@.len() ==> names@[j]@ == definition_data_variants(def@)[j],
            data_variant_views(flagged@) == data_variant_views(old(flagged)@) + expected.take(
                i as int,
            ),
        decreases names@.len() - i,
    {
        let entry = DataVariant { definition: def.name.clone(), variant: names[i].clone() };
        assert(entry@ == expected[i as int]);
        let ghost before = flagged@;
        flagged.push(entry);
        assert(data_variant_views(flagged@) =~= data_variant_views(before).push(entry@));
        assert(expected.take(i + 1) =~= expected.take(i as int).push(expected[i as int]));
        assert(data_variant_views(flagged@) =~= data_variant_views(old(flagged)@) + expected.take(
            i + 1,
        ));
        i += 1;
    }
    assert(expected.take(i as int) =~= expected);
}

/// Appends the fields of a struct, in order, and records the names that
/// their types refer to.
pub fn emit_fields(output: &mut String, fields: &Vec<IdlField>, unresolved: &mut UnresolvedSet)
    requires
        old(unresolved).wf(),
    ensures
        final(output)@ == old(output)@ + fields_text(field_views(fields@)),
        final(unresolved).wf(),
        final(unresolved)@ == old(unresolved)@.union(fields_refs(field_views(fields@))),
{
    let mut i: usize = 0;
    proof {
        assert(field_views(fields@).take(0) =~= Seq::<FieldView>::empty());
        assert(output@ =~= old(output)@ + fields_text(field_views(fields@).take(0)));
        assert(unresolved@ =~= old(unresolved)@.union(fields_refs(field_views(fields@).take(0))));
    }
    while i < fields.len()
        invariant
            i <= fields@.len(),
            unresolved.wf(),
            output@ == old(output)@ + fields_text(field_views(fields@).take(i as int)),
            unresolved@ == old(unresolved)@.union(fields_refs(field_views(fields@).take(i as int))),
        decreases fields@.len() - i,
    {
        let field = &fields[i];
        let field_name = to_snake_case(field.name.as_str());
        let field_type = ty_to_rust_type(&field.ty, unresolved);
        add_struct_field(output, field_name.as_str(), field_type.as_str());
        proof {
            let taken = field_views(fields@).take(i + 1);
            assert(taken.drop_last() =~= field_views(fields@).take(i as int));
            assert(taken.last() == fields@[i as int]@);
            assert(output@ =~= old(output)@ + fields_text(taken));
            assert(unresolved@ =~= old(unresolved)@.union(fields_refs(taken)));
        }
        i += 1;
    }
    assert(field_views(fields@).take(i as int) =~= field_views(fields@));
}

/// Appends the variants of an enum, in order.
pub fn emit_variants(output: &mut String, variants: &Vec<IdlEnumVariant>)
    ensures
        final(output)@ == old(output)@ + variants_text(variant_views(variants@)),
{
    let mut i: usize = 0;
    proof {
        assert(variant_views(variants@).take(0) =~= Seq::<VariantView>::empty());
        assert(output@ =~= old(output)@ + variants_text(variant_views(variants@).take(0)));
    }
    while i < variants.len()
        invariant
            i <= variants@.len(),
            output@ == old(output)@ + variants_text(variant_views(variants@).take(i as int)),
        decreases variants@.len() - i,
    {
        add_enum_field(output, variants[i].name.as_str());
        proof {
            let taken = variant_views(variants@).take(i + 1);
            assert(taken.drop_last() =~= variant_views(variants@).take(i as int));
            assert(taken.last() == variants@[i as int]@);
            assert(output@ =~= old(output)@ + variants_text(taken));
        }
        i += 1;
    }
    assert(variant_views(variants@).take(i as int) =~= variant_views(variants@));
}

/// Appends the declaration of a struct called `name` and records the names
/// that its fields refer to.
pub fn emit_struct(
    output: &mut String,
    name: &str,
    fields: &Vec<IdlField>,
    unresolved: &mut UnresolvedSet,
)
    requires
        old(unresolved).wf(),
    ensures
        final(output)@ == old(output)@ + struct_text(name@, field_views(fields@)),
        final(unresolved).wf(),
        final(unresolved)@ == old(unresolved)@.union(fields_refs(field_views(fields@))),
{
    define_struct_or_enum(output, name, "struct");
    emit_fields(output, fields, unresolved);
    close_define_struct_or_enum(output);
    assert(output@ =~= old(output)@ + struct_text(name@, field_views(fields@)));
}

/// Appends the declaration of a type definition: a struct with its fields in
/// order, or an enum with its variants in order. Records the names that the
/// fields refer to; the definition's own name is left as it is.
pub fn emit_definition(
    output: &mut String,
    def: &IdlTypeDefinition,
    unresolved: &mut UnresolvedSet,
)
    requires
        old(unresolved).wf(),
    ensures
        final(output)@ == old(output)@ + definition_text(def@),
        final(unresolved).wf(),
        final(unresolved)@ == old(unresolved)@.union(definition_refs(def@)),
{
    match &def.ty {
        IdlTypeDefinitionTy::Struct { fields } => {
            emit_struct(output, def.name.as_str(), fields, unresolved);
        },
        IdlTypeDefinitionTy::Enum { variants } => {
            define_struct_or_enum(output, def.name.as_str(), "enum");
            emit_variants(output, variants);
            close_define_struct_or_enum(output);
            proof {
                assert(output@ =~= old(output)@ + enum_text(def.name@, variant_views(variants@)));
                assert(unresolved@ =~= old(unresolved)@.union(Set::<Seq<char>>::empty()));
            }
        },
    }
}

} // verus!
