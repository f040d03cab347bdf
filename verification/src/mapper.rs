//! The mapping from type expressions of a description to Rust type text.
use vstd::prelude::*;
use vstd::string::StringExecFns;
use crate::decimal::{append_decimal, decimal_text};
use crate::model::{IdlType, TypeExpr};
use crate::unresolved::UnresolvedSet;

verus! {

/// The Rust type text of a type expression. A primitive kind has the Rust
/// scalar of the same width and signedness; an option, a list and an array
/// wrap the text of what they hold, the array with its exact length; a
/// reference is the referred name itself.
pub open spec fn rust_type_text(ty: TypeExpr) -> Seq<char>
    decreases ty,
{
    match ty {
        TypeExpr::Bool => "bool"@,
        TypeExpr::U8 => "u8"@,
        TypeExpr::I8 => "i8"@,
        TypeExpr::U16 => "u16"@,
        TypeExpr::I16 => "i16"@,
        TypeExpr::U32 => "u32"@,
        TypeExpr::I32 => "i32"@,
        TypeExpr::F32 => "f32"@,
        TypeExpr::U64 => "u64"@,
        TypeExpr::I64 => "i64"@,
        TypeExpr::F64 => "f64"@,
        TypeExpr::U128 => "u128"@,
        TypeExpr::I128 => "i128"@,
        TypeExpr::Bytes => "Vec<u8>"@,
        TypeExpr::Text => "String"@,
        TypeExpr::PublicKey => "Pubkey"@,
        TypeExpr::Optional(inner) => "Option<"@ + rust_type_text(*inner) + ">"@,
        TypeExpr::List(inner) => "Vec<"@ + rust_type_text(*inner) + ">"@,
        TypeExpr::FixedArray(inner, size) => "["@ + rust_type_text(*inner) + "; "@ + decimal_text(
            size,
        ) + "]"@,
        TypeExpr::Reference(name) => name,
    }
}

/// The names of the user-defined types that a type expression refers to, at
/// any depth.
pub open spec fn referenced_names(ty: TypeExpr) -> Set<Seq<char>>
    decreases ty,
{
    match ty {
        TypeExpr::Optional(inner) => referenced_names(*inner),
        TypeExpr::List(inner) => referenced_names(*inner),
        TypeExpr::FixedArray(inner, _) => referenced_names(*inner),
        TypeExpr::Reference(name) => set![name],
        _ => Set::<Seq<char>>::empty(),
    }
}

/// The Rust scalar and library types that the primitive kinds map to.
pub open spec fn primitive_vocabulary() -> Set<Seq<char>> {
    set![
        "bool"@, "u8"@, "i8"@, "u16"@, "i16"@, "u32"@, "i32"@, "f32"@, "u64"@, "i64"@, "f64"@,
        "u128"@, "i128"@, "Vec<u8>"@, "String"@, "Pubkey"@,
    ]
}

/// Maps a type expression to its Rust type text, and records every
/// user-defined name it refers to in `unresolved`. Every expression has a
/// mapping; the definitions of the names referred to are not looked into.
pub fn ty_to_rust_type(ty: &IdlType, unresolved: &mut UnresolvedSet) -> (text: String)
    requires
        old(unresolved).wf(),
    ensures
        text@ == rust_type_text(ty@),
        final(unresolved).wf(),
        final(unresolved)@ == old(unresolved)@.union(referenced_names(ty@)),
        ty@.is_primitive() ==> primitive_vocabulary().contains(text@),
    decreases ty,
{
    proof {
        assert(old(unresolved)@.union(Set::<Seq<char>>::empty()) =~= old(unresolved)@);
    }
    match ty {
        IdlType::Bool => String::from_str("bool"),
        IdlType::U8 => String::from_str("u8"),
        IdlType::I8 => String::from_str("i8"),
        IdlType::U16 => String::from_str("u16"),
        IdlType::I16 => String::from_str("i16"),
        IdlType::U32 => String::from_str("u32"),
        IdlType::I32 => String::from_str("i32"),
        IdlType::F32 => String::from_str("f32"),
        IdlType::U64 => String::from_str("u64"),
        IdlType::I64 => String::from_str("i64"),
        IdlType::F64 => String::from_str("f64"),
        IdlType::U128 => String::from_str("u128"),
        IdlType::I128 => String::from_str("i128"),
        IdlType::Bytes => String::from_str("Vec<u8>"),
        IdlType::Text => String::from_str("String"),
        IdlType::PublicKey => String::from_str("Pubkey"),
        IdlType::Optional(inner) => {
            let inner_text = ty_to_rust_type(&**inner, unresolved);
            let mut text = String::from_str("Option<");
            text.append(inner_text.as_str());
            text.append(">");
            text
        },
        IdlType::List(inner) => {
            let inner_text = ty_to_rust_type(&**inner, unresolved);
            let mut text = String::from_str("Vec<");
            text.append(inner_text.as_str());
            text.append(">");
            text
        },
        IdlType::FixedArray(inner, size) => {
            let inner_text = ty_to_rust_type(&**inner, unresolved);
            let mut text = String::from_str("[");
            text.append(inner_text.as_str());
            text.append("; ");
            append_decimal(&mut text, *size);
            text.append("]");
            text
        },
        IdlType::Reference(name) => {
            unresolved.insert(name.clone());
            proof {
                assert(old(unresolved)@.insert(name@) =~= old(unresolved)@.union(set![name@]));
            }
            name.clone()
        },
    }
}

/// On the primitive kinds the mapping is injective: two primitive kinds with
/// the same Rust type text are the same kind, so width and signedness are
/// kept exactly.
pub proof fn lemma_primitive_mapping_injective(first: TypeExpr, second: TypeExpr)
    requires
        first.is_primitive(),
        second.is_primitive(),
        rust_type_text(first) == rust_type_text(second),
    ensures
        first == second,
{
    reveal_strlit("bool");
    reveal_strlit("u8");
    reveal_strlit("i8");
    reveal_strlit("u16");
    reveal_strlit("i16");
    reveal_strlit("u32");
    reveal_strlit("i32");
    reveal_strlit("f32");
    reveal_strlit("u64");
    reveal_strlit("i64");
    reveal_strlit("f64");
    reveal_strlit("u128");
    reveal_strlit("i128");
    reveal_strlit("Vec<u8>");
    reveal_strlit("String");
    reveal_strlit("Pubkey");
    let a = rust_type_text(first);
    let b = rust_type_text(second);
    assert(a.len() == b.len());
    assert(a[0] == b[0]);
    assert(a[1] == b[1]);
}

/// Every primitive kind maps into the fixed vocabulary of Rust types.
pub proof fn lemma_primitive_mapping_in_vocabulary(ty: TypeExpr)
    requires
        ty.is_primitive(),
    ensures
        primitive_vocabulary().contains(rust_type_text(ty)),
{
}

} // verus!
