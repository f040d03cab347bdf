use idl_bindgen::declare::{
    data_variants, emit_definition, emit_fields, emit_struct, emit_variants, flag_data_variants,
    DataVariant,
};
use idl_bindgen::emit::{
    add_discriminator, add_enum_field, add_imports, add_program_id, add_struct_field,
    close_define_discriminator, close_define_struct_or_enum, define_discriminator,
    define_struct_or_enum,
};
use idl_bindgen::model::{
    AddressValue, Idl, IdlEnumVariant, IdlField, IdlInstruction, IdlMetadata, IdlType,
    IdlTypeDefinition, IdlTypeDefinitionTy,
};
use idl_bindgen::resolve::{
    emit_argument_structs, emit_discriminator_table, find_program_address, generate,
    resolve_definitions, unresolved_warnings, GenerateError,
};
use idl_bindgen::scan::{find_idl_json, output_path, EntryInfo};
use idl_bindgen::unresolved::UnresolvedSet;

const IMPORTS: &str = "use std::collections::HashMap;\nuse anchor_lang::prelude::*;\nuse borsh::{BorshDeserialize, BorshSerialize};\n\n";
const TABLE_OPEN: &str = "\n    pub struct Discriminator(pub HashMap<[u8; 8], String>);\n    impl Discriminator {\n        pub fn new() -> Self {\n            let mut h = HashMap::new();\n            ";
const TABLE_CLOSE: &str = "Self(h)\n        }\n    }\n    ";
const DERIVES: &str = "#[derive(BorshSerialize, BorshDeserialize, Debug, Clone, PartialEq)]\n";

fn field(name: &str, ty: IdlType) -> IdlField {
    IdlField { name: name.to_string(), ty }
}

fn reference(name: &str) -> IdlType {
    IdlType::Reference(name.to_string())
}

fn struct_def(name: &str, fields: Vec<IdlField>) -> IdlTypeDefinition {
    IdlTypeDefinition { name: name.to_string(), ty: IdlTypeDefinitionTy::Struct { fields } }
}

fn variant(name: &str, carries_data: bool) -> IdlEnumVariant {
    IdlEnumVariant { name: name.to_string(), carries_data }
}

fn enum_def(name: &str, variants: Vec<IdlEnumVariant>) -> IdlTypeDefinition {
    IdlTypeDefinition { name: name.to_string(), ty: IdlTypeDefinitionTy::Enum { variants } }
}

fn instruction(name: &str, args: Vec<IdlField>) -> IdlInstruction {
    IdlInstruction { name: name.to_string(), args }
}

fn with_address(address: &str) -> Option<IdlMetadata> {
    Some(IdlMetadata { address: Some(AddressValue::Text(address.to_string())) })
}

fn document(
    instructions: Vec<IdlInstruction>,
    accounts: Vec<IdlTypeDefinition>,
    types: Vec<IdlTypeDefinition>,
) -> Idl {
    Idl { metadata: with_address("Prog1111"), instructions, accounts, types }
}

#[test]
fn end_to_end_initialize_pool() {
    let idl = Idl {
        metadata: with_address("9xQeWvG816bUx9EPjHmaT23yvVM2ZWbrrpZb9PusVFin"),
        instructions: vec![instruction(
            "initialize_pool",
            vec![field("authority", IdlType::PublicKey)],
        )],
        accounts: vec![struct_def("Pool", vec![field("authority", IdlType::PublicKey)])],
        types: vec![],
    };
    let generated = generate(&idl).unwrap();
    let expected = format!(
        "{}static ID: &str = \"9xQeWvG816bUx9EPjHmaT23yvVM2ZWbrrpZb9PusVFin\";\n{}h.insert([95, 180, 10, 172, 84, 174, 232, 40],\"initialize_pool\".to_string());\n{}{}pub struct InitializePool {{\n\tauthority: Pubkey,\n}}\n",
        IMPORTS, TABLE_OPEN, TABLE_CLOSE, DERIVES
    );
    assert_eq!(generated.source, expected);
    assert!(generated.unresolved.is_empty());
    assert_eq!(generated.unresolved.names(), Vec::<String>::new());
    assert_eq!(generated.source.matches("h.insert(").count(), 1);
}

#[test]
fn camel_case_instruction_keeps_its_name_in_the_table() {
    let idl = document(
        vec![instruction("initializePool", vec![field("poolAuthority", IdlType::PublicKey)])],
        vec![],
        vec![],
    );
    let source = generate(&idl).unwrap().source;
    assert!(source
        .contains("h.insert([95, 180, 10, 172, 84, 174, 232, 40],\"initializePool\".to_string());\n"));
    assert!(!source.contains("\"initialize_pool\""));
    assert!(source.contains("pub struct InitializePool {\n\tpool_authority: Pubkey,\n}\n"));
}

#[test]
fn missing_metadata_is_fatal() {
    let mut idl = document(vec![instruction("swap", vec![])], vec![], vec![]);
    idl.metadata = None;
    assert_eq!(generate(&idl).unwrap_err(), GenerateError::MissingMetadata);
    assert_eq!(find_program_address(&idl), Err(GenerateError::MissingMetadata));
}

#[test]
fn missing_address_is_fatal() {
    let mut idl = document(vec![instruction("swap", vec![])], vec![], vec![]);
    idl.metadata = Some(IdlMetadata { address: None });
    assert_eq!(generate(&idl).unwrap_err(), GenerateError::MissingAddress);
}

#[test]
fn address_that_is_no_string_is_fatal() {
    let mut idl = document(vec![], vec![], vec![]);
    idl.metadata = Some(IdlMetadata { address: Some(AddressValue::Other) });
    assert_eq!(generate(&idl).unwrap_err(), GenerateError::AddressNotString);
}

#[test]
fn address_is_found() {
    let idl = document(vec![], vec![], vec![]);
    assert_eq!(find_program_address(&idl), Ok(&"Prog1111".to_string()));
}

#[test]
fn error_messages() {
    assert_eq!(GenerateError::MissingMetadata.message(), "metadata cannot be None!");
    assert_eq!(GenerateError::MissingAddress.message(), "metadata should contain 'address'");
    assert_eq!(
        GenerateError::AddressNotString.message(),
        "address in metadata should be string format"
    );
}

#[test]
fn empty_document_has_only_the_frame() {
    let generated = generate(&document(vec![], vec![], vec![])).unwrap();
    let expected =
        format!("{}static ID: &str = \"Prog1111\";\n{}{}", IMPORTS, TABLE_OPEN, TABLE_CLOSE);
    assert_eq!(generated.source, expected);
    assert!(generated.unresolved.is_empty());
}

#[test]
fn instruction_without_arguments_has_entry_and_no_struct() {
    let generated = generate(&document(vec![instruction("swap", vec![])], vec![], vec![])).unwrap();
    assert!(generated
        .source
        .contains("h.insert([248, 198, 158, 145, 225, 117, 135, 200],\"swap\".to_string());\n"));
    assert!(!generated.source.contains(DERIVES));
}

#[test]
fn resolution_is_complete_with_account_definitions() {
    let idl = document(
        vec![
            instruction("deposit", vec![field("config", reference("PoolConfig"))]),
            instruction(
                "withdraw",
                vec![field("mode", IdlType::Optional(Box::new(reference("Mode"))))],
            ),
        ],
        vec![
            enum_def("Mode", vec![variant("Fast", false), variant("Slow", false)]),
            struct_def("Unused", vec![field("x", IdlType::U8)]),
            struct_def("PoolConfig", vec![field("feeBps", IdlType::U16)]),
        ],
        vec![],
    );
    let generated = generate(&idl).unwrap();
    assert!(generated.unresolved.is_empty());
    let expected_tail = format!(
        "{d}pub struct Deposit {{\n\tconfig: PoolConfig,\n}}\n{d}pub struct Withdraw {{\n\tmode: Option<Mode>,\n}}\n{d}pub enum Mode {{\n\tFast,\n\tSlow,\n}}\n{d}pub struct PoolConfig {{\n\tfee_bps: u16,\n}}\n",
        d = DERIVES
    );
    assert!(generated.source.ends_with(&expected_tail));
    assert!(!generated.source.contains("Unused"));
}

#[test]
fn auxiliary_reference_to_earlier_auxiliary_stays_unresolved() {
    let idl = document(
        vec![instruction("open", vec![field("outer", reference("Outer"))])],
        vec![],
        vec![
            struct_def("Inner", vec![field("x", IdlType::U8)]),
            struct_def("Outer", vec![field("inner", reference("Inner"))]),
        ],
    );
    let generated = generate(&idl).unwrap();
    assert_eq!(generated.unresolved.names(), vec!["Inner".to_string()]);
    assert!(generated.source.contains("pub struct Outer {\n\tinner: Inner,\n}\n"));
    assert!(!generated.source.contains("pub struct Inner"));
}

#[test]
fn auxiliary_reference_to_later_auxiliary_resolves() {
    let idl = document(
        vec![instruction("open", vec![field("outer", reference("Outer"))])],
        vec![],
        vec![
            struct_def("Outer", vec![field("inner", reference("Inner"))]),
            struct_def("Inner", vec![field("x", IdlType::U8)]),
        ],
    );
    let generated = generate(&idl).unwrap();
    assert!(generated.unresolved.is_empty());
    assert!(generated.source.ends_with(&format!(
        "{d}pub struct Outer {{\n\tinner: Inner,\n}}\n{d}pub struct Inner {{\n\tx: u8,\n}}\n",
        d = DERIVES
    )));
}

#[test]
fn account_reference_to_auxiliary_resolves() {
    let idl = document(
        vec![instruction("open", vec![field("state", reference("State"))])],
        vec![struct_def("State", vec![field("kind", reference("Kind"))])],
        vec![enum_def("Kind", vec![variant("A", false)])],
    );
    let generated = generate(&idl).unwrap();
    assert!(generated.unresolved.is_empty());
    assert!(generated.source.contains("pub enum Kind {\n\tA,\n}\n"));
}

#[test]
fn auxiliary_reference_to_account_stays_unresolved() {
    let idl = document(
        vec![instruction("open", vec![field("kind", reference("Kind"))])],
        vec![struct_def("State", vec![field("x", IdlType::U8)])],
        vec![struct_def("Kind", vec![field("state", reference("State"))])],
    );
    let generated = generate(&idl).unwrap();
    assert_eq!(generated.unresolved.names(), vec!["State".to_string()]);
    assert!(!generated.source.contains("pub struct State"));
}

#[test]
fn undefined_name_is_reported() {
    let idl = document(
        vec![instruction("open", vec![field("ghost", reference("Ghost"))])],
        vec![struct_def("State", vec![])],
        vec![],
    );
    let generated = generate(&idl).unwrap();
    assert_eq!(generated.unresolved.names(), vec!["Ghost".to_string()]);
    assert!(generated.source.contains("\tghost: Ghost,\n"));
}

#[test]
fn self_reference_is_resolved() {
    let idl = document(
        vec![instruction("open", vec![field("node", reference("Node"))])],
        vec![struct_def(
            "Node",
            vec![field("next", IdlType::Optional(Box::new(reference("Node"))))],
        )],
        vec![],
    );
    let generated = generate(&idl).unwrap();
    assert!(generated.unresolved.is_empty());
    assert!(generated.source.contains("pub struct Node {\n\tnext: Option<Node>,\n}\n"));
}

#[test]
fn fields_keep_their_order() {
    let mut out = String::new();
    let mut unresolved = UnresolvedSet::new();
    let fields = vec![
        field("zeta", IdlType::U8),
        field("alphaBeta", reference("Thing")),
        field("mid", IdlType::FixedArray(Box::new(IdlType::U8), 3)),
    ];
    emit_fields(&mut out, &fields, &mut unresolved);
    assert_eq!(out, "\tzeta: u8,\n\talpha_beta: Thing,\n\tmid: [u8; 3],\n");
    assert_eq!(unresolved.names(), vec!["Thing".to_string()]);
}

#[test]
fn variants_keep_their_order_and_names() {
    let mut out = String::from("x");
    emit_variants(&mut out, &vec![variant("Second", false), variant("first_one", true)]);
    assert_eq!(out, "x\tSecond,\n\tfirst_one,\n");
}

#[test]
fn struct_declaration() {
    let mut out = String::new();
    let mut unresolved = UnresolvedSet::new();
    emit_struct(&mut out, "Args", &vec![field("amount", IdlType::U64)], &mut unresolved);
    assert_eq!(out, format!("{}pub struct Args {{\n\tamount: u64,\n}}\n", DERIVES));
    assert!(unresolved.is_empty());
}

#[test]
fn definition_declaration_keeps_own_name_unresolved() {
    let mut out = String::new();
    let mut unresolved = UnresolvedSet::new();
    unresolved.insert("Side".to_string());
    emit_definition(
        &mut out,
        &enum_def("Side", vec![variant("Bid", false), variant("Ask", false)]),
        &mut unresolved,
    );
    assert_eq!(out, format!("{}pub enum Side {{\n\tBid,\n\tAsk,\n}}\n", DERIVES));
    assert_eq!(unresolved.names(), vec!["Side".to_string()]);
}

#[test]
fn variants_with_data_are_listed() {
    let def = enum_def(
        "Order",
        vec![variant("Market", false), variant("Limit", true), variant("Stop", true)],
    );
    assert_eq!(data_variants(&def), vec!["Limit".to_string(), "Stop".to_string()]);
    assert_eq!(data_variants(&struct_def("S", vec![])), Vec::<String>::new());
}

#[test]
fn discriminator_table_lists_instructions_in_order() {
    let mut out = String::new();
    emit_discriminator_table(
        &mut out,
        &vec![instruction("withdraw", vec![]), instruction("swap", vec![])],
    );
    let expected = format!(
        "{}h.insert([183, 18, 70, 156, 148, 109, 161, 34],\"withdraw\".to_string());\nh.insert([248, 198, 158, 145, 225, 117, 135, 200],\"swap\".to_string());\n{}",
        TABLE_OPEN, TABLE_CLOSE
    );
    assert_eq!(out, expected);
}

#[test]
fn argument_structs_collect_references() {
    let mut out = String::new();
    let mut unresolved = UnresolvedSet::new();
    emit_argument_structs(
        &mut out,
        &vec![
            instruction("no_args", vec![]),
            instruction("place_order", vec![field("order", reference("Order"))]),
        ],
        &mut unresolved,
    );
    assert_eq!(out, format!("{}pub struct PlaceOrder {{\n\torder: Order,\n}}\n", DERIVES));
    assert_eq!(unresolved.names(), vec!["Order".to_string()]);
}

#[test]
fn pass_skips_what_is_not_referenced() {
    let mut out = String::new();
    let mut unresolved = UnresolvedSet::new();
    let mut flagged = Vec::new();
    unresolved.insert("B".to_string());
    resolve_definitions(
        &mut out,
        &vec![
            struct_def("A", vec![field("x", IdlType::U8)]),
            struct_def("B", vec![field("c", reference("C"))]),
            struct_def("C", vec![]),
        ],
        &mut unresolved,
        &mut flagged,
    );
    assert!(flagged.is_empty());
    assert_eq!(
        out,
        format!("{d}pub struct B {{\n\tc: C,\n}}\n{d}pub struct C {{\n}}\n", d = DERIVES)
    );
    assert!(unresolved.is_empty());
}

#[test]
fn text_pieces() {
    let mut out = String::new();
    add_imports(&mut out);
    assert_eq!(out, IMPORTS);
    let mut out = String::from("// head\n");
    add_program_id(&mut out, "abc");
    assert_eq!(out, "// head\nstatic ID: &str = \"abc\";\n");
    let mut out = String::new();
    define_discriminator(&mut out);
    assert_eq!(out, TABLE_OPEN);
    let mut out = String::new();
    add_discriminator(&mut out, [1, 2, 3, 4, 5, 6, 7, 255], "do_it");
    assert_eq!(out, "h.insert([1, 2, 3, 4, 5, 6, 7, 255],\"do_it\".to_string());\n");
    assert_eq!(out, format!("h.insert({:?},\"{}\".to_string());\n", [1u8, 2, 3, 4, 5, 6, 7, 255], "do_it"));
    let mut out = String::new();
    close_define_discriminator(&mut out);
    assert_eq!(out, TABLE_CLOSE);
    let mut out = String::new();
    define_struct_or_enum(&mut out, "Name", "enum");
    assert_eq!(out, format!("{}pub enum Name {{\n", DERIVES));
    let mut out = String::new();
    add_struct_field(&mut out, "a", "u8");
    add_enum_field(&mut out, "B");
    close_define_struct_or_enum(&mut out);
    assert_eq!(out, "\ta: u8,\n\tB,\n}\n");
}

#[test]
fn finds_json_files_only() {
    let entry = |path: &str, is_file: bool, extension: Option<&str>| EntryInfo {
        path: path.to_string(),
        is_file,
        extension: extension.map(|e| e.to_string()),
    };
    let entries = vec![
        entry("./b.json", true, Some("json")),
        entry("./dir.json", false, Some("json")),
        entry("./Cargo.toml", true, Some("toml")),
        entry("./README", true, None),
        entry("./a.json", true, Some("json")),
        entry("./c.JSON", true, Some("JSON")),
    ];
    assert_eq!(find_idl_json(&entries), vec!["./b.json".to_string(), "./a.json".to_string()]);
    assert_eq!(find_idl_json(&vec![]), Vec::<String>::new());
}

#[test]
fn output_path_is_under_src() {
    assert_eq!(output_path("pool"), "./src/pool.rs");
    assert_eq!(output_path(""), "./src/.rs");
    assert_eq!(output_path("my.idl"), format!("./src/{}.rs", "my.idl"));
}

#[test]
fn one_warning_for_each_unresolved_name() {
    let mut unresolved = UnresolvedSet::new();
    assert_eq!(unresolved_warnings(&unresolved), Vec::<String>::new());
    unresolved.insert("Ghost".to_string());
    unresolved.insert("Other".to_string());
    unresolved.insert("Ghost".to_string());
    assert_eq!(
        unresolved_warnings(&unresolved),
        vec!["resolved type: Ghost".to_string(), "resolved type: Other".to_string()]
    );
}

fn flag(definition: &str, variant: &str) -> DataVariant {
    DataVariant { definition: definition.to_string(), variant: variant.to_string() }
}

#[test]
fn data_variants_of_a_definition_are_flagged_in_order() {
    let mut flagged = vec![flag("Earlier", "X")];
    flag_data_variants(
        &mut flagged,
        &enum_def("Order", vec![variant("Market", false), variant("Limit", true), variant("Stop", true)]),
    );
    flag_data_variants(&mut flagged, &struct_def("S", vec![field("a", IdlType::U8)]));
    assert_eq!(flagged, vec![flag("Earlier", "X"), flag("Order", "Limit"), flag("Order", "Stop")]);
}

#[test]
fn only_declared_definitions_are_flagged() {
    let idl = document(
        vec![instruction("place", vec![field("order", reference("Order"))])],
        vec![
            enum_def("Unused", vec![variant("Payload", true)]),
            enum_def("Order", vec![variant("Market", false), variant("Limit", true)]),
        ],
        vec![enum_def("Late", vec![variant("Data", true)])],
    );
    let generated = generate(&idl).unwrap();
    assert_eq!(generated.flagged, vec![flag("Order", "Limit")]);
    assert!(generated.source.contains("pub enum Order {\n\tMarket,\n\tLimit,\n}\n"));
    assert!(generated.unresolved.is_empty());
}

#[test]
fn both_passes_flag_what_they_declare() {
    let idl = document(
        vec![instruction("open", vec![field("state", reference("State"))])],
        vec![struct_def("State", vec![field("kind", reference("Kind"))])],
        vec![enum_def("Kind", vec![variant("A", true), variant("B", false), variant("C", true)])],
    );
    let generated = generate(&idl).unwrap();
    assert_eq!(generated.flagged, vec![flag("Kind", "A"), flag("Kind", "C")]);
}

#[test]
fn complete_resolution_declares_accounts_once_and_no_auxiliary() {
    let idl = document(
        vec![
            instruction("a", vec![field("x", reference("Second"))]),
            instruction("b", vec![field("y", reference("First")), field("z", reference("Second"))]),
        ],
        vec![
            struct_def("First", vec![field("n", IdlType::U8)]),
            struct_def("Second", vec![field("m", IdlType::I64)]),
            struct_def("First", vec![field("other", IdlType::Bool)]),
        ],
        vec![struct_def("Second", vec![]), struct_def("Aux", vec![])],
    );
    let generated = generate(&idl).unwrap();
    assert!(generated.unresolved.is_empty());
    assert!(generated.source.ends_with(&format!(
        "}}\n{d}pub struct First {{\n\tn: u8,\n}}\n{d}pub struct Second {{\n\tm: i64,\n}}\n",
        d = DERIVES
    )));
    assert_eq!(generated.source.matches("pub struct First").count(), 1);
    assert_eq!(generated.source.matches("pub struct Second").count(), 1);
    assert!(!generated.source.contains("Aux"));
}

#[test]
fn declarations_are_marked_for_equality() {
    let mut out = String::new();
    define_struct_or_enum(&mut out, "pool_state", "struct");
    assert_eq!(
        out,
        "#[derive(BorshSerialize, BorshDeserialize, Debug, Clone, PartialEq)]\npub struct pool_state {\n"
    );
}
