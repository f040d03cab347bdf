//! The pieces of text that a generated source unit is made of.
//!
//! Each function appends one piece to the output and says exactly which.
use vstd::prelude::*;
use vstd::string::StringExecFns;
use crate::decimal::{append_byte_list, byte_list_text};

verus! {

/// The fixed imports that open a generated unit.
pub open spec fn imports_text() -> Seq<char> {
    "use std::collections::HashMap;\n"@ + "use anchor_lang::prelude::*;\n"@
        + "use borsh::{BorshDeserialize, BorshSerialize};\n\n"@
}

/// The constant that holds the program's address, verbatim.
pub open spec fn program_id_text(id: Seq<char>) -> Seq<char> {
    "static ID: &str = \""@ + id + "\";\n"@
}

/// The opening of the discriminator table and of its constructor.
pub open spec fn discriminator_open_text() -> Seq<char> {
    "\n    pub struct Discriminator(pub HashMap<[u8; 8], String>);\n    impl Discriminator {\n        pub fn new() -> Self {\n            let mut h = HashMap::new();\n            "@
}

/// One entry of the discriminator table: the eight bytes as a list of
/// decimal numbers, and the instruction's name.
pub open spec fn discriminator_entry_text(bytes: Seq<u8>, ix_name: Seq<char>) -> Seq<char> {
    "h.insert(["@ + byte_list_text(bytes) + "],\""@ + ix_name + "\".to_string());\n"@
}

/// The end of the constructor and of the table's impl.
pub open spec fn discriminator_close_text() -> Seq<char> {
    "Self(h)\n        }\n    }\n    "@
}

/// The head of a declaration: the derives that mark the type as serialisable
/// and deserialisable in binary form, printable, clonable and comparable for
/// equality of values, then the keyword and the name, unchanged.
pub open spec fn declaration_open_text(name: Seq<char>, type_str: Seq<char>) -> Seq<char> {
    "#[derive(BorshSerialize, BorshDeserialize, Debug, Clone, PartialEq)]\npub "@ + type_str + " "@ + name
        + " {\n"@
}

/// One field of a struct.
pub open spec fn struct_field_text(field_name: Seq<char>, field_type: Seq<char>) -> Seq<char> {
    "\t"@ + field_name + ": "@ + field_type + ",\n"@
}

/// One variant of an enum.
pub open spec fn enum_field_text(field_name: Seq<char>) -> Seq<char> {
    "\t"@ + field_name + ",\n"@
}

/// The end of a declaration.
pub open spec fn declaration_close_text() -> Seq<char> {
    "}\n"@
}

/// Appends the fixed imports.
pub fn add_imports(output: &mut String)
    ensures
        final(output)@ == old(output)@ + imports_text(),
{
    output.append("use std::collections::HashMap;\n");
    output.append("use anchor_lang::prelude::*;\n");
    output.append("use borsh::{BorshDeserialize, BorshSerialize};\n\n");
    assert(output@ =~= old(output)@ + imports_text());
}

/// Appends the constant that holds the program's address.
pub fn add_program_id(output: &mut String, id: &str)
    ensures
        final(output)@ == old(output)@ + program_id_text(id@),
{
    output.append("static ID: &str = \"");
    output.append(id);
    output.append("\";\n");
    assert(output@ =~= old(output)@ + program_id_text(id@));
}

/// Appends the opening of the discriminator table.
pub fn define_discriminator(output: &mut String)
    ensures
        final(output)@ == old(output)@ + discriminator_open_text(),
{
    output.append(
        "\n    pub struct Discriminator(pub HashMap<[u8; 8], String>);\n    impl Discriminator {\n        pub fn new() -> Self {\n            let mut h = HashMap::new();\n            ",
    );
}

/// Appends one entry of the discriminator table.
pub fn add_discriminator(output: &mut String, bytes: [u8; 8], ix_name: &str)
    ensures
        final(output)@ == old(output)@ + discriminator_entry_text(bytes@, ix_name@),
{
    output.append("h.insert([");
    append_byte_list(output, bytes.as_slice());
    output.append("],\"");
    output.append(ix_name);
    output.append("\".to_string());\n");
    assert(output@ =~= old(output)@ + discriminator_entry_text(bytes@, ix_name@));
}

/// Appends the end of the discriminator table.
pub fn close_define_discriminator(output: &mut String)
    ensures
        final(output)@ == old(output)@ + discriminator_close_text(),
{
    output.append("Self(h)\n        }\n    }\n    ");
}

/// Appends the head of the declaration of a struct or an enum; `type_str` is
/// the keyword.
pub fn define_struct_or_enum(output: &mut String, name: &str, type_str: &str)
    ensures
        final(output)@ == old(output)@ + declaration_open_text(name@, type_str@),
{
    output.append("#[derive(BorshSerialize, BorshDeserialize, Debug, Clone, PartialEq)]\npub ");
    output.append(type_str);
    output.append(" ");
    output.append(name);
    output.append(" {\n");
    assert(output@ =~= old(output)@ + declaration_open_text(name@, type_str@));
}

/// Appends one field of a struct.
pub fn add_struct_field(output: &mut String, field_name: &str, field_type: &str)
    ensures
        final(output)@ == old(output)@ + struct_field_text(field_name@, field_type@),
{
    output.append("\t");
    output.append(field_name);
    output.append(": ");
    output.append(field_type);
    output.append(",\n");
    assert(output@ =~= old(output)@ + struct_field_text(field_name@, field_type@));
}

/// Appends one variant of an enum.
pub fn add_enum_field(output: &mut String, field_name: &str)
    ensures
        final(output)@ == old(output)@ + enum_field_text(field_name@),
{
    output.append("\t");
    output.append(field_name);
    output.append(",\n");
    assert(output@ =~= old(output)@ + enum_field_text(field_name@));
}

/// Appends the end of a declaration.
pub fn close_define_struct_or_enum(output: &mut String)
    ensures
        final(output)@ == old(output)@ + declaration_close_text(),
{
    output.append("}\n");
}

} // verus!
