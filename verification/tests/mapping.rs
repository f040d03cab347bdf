use idl_bindgen::decimal::{append_byte_list, append_decimal};
use idl_bindgen::mapper::ty_to_rust_type;
use idl_bindgen::model::IdlType;
use idl_bindgen::unresolved::UnresolvedSet;

fn map(ty: &IdlType) -> (String, Vec<String>) {
    let mut unresolved = UnresolvedSet::new();
    let text = ty_to_rust_type(ty, &mut unresolved);
    (text, unresolved.names())
}

fn primitives() -> Vec<(IdlType, &'static str)> {
    vec![
        (IdlType::Bool, "bool"),
        (IdlType::U8, "u8"),
        (IdlType::I8, "i8"),
        (IdlType::U16, "u16"),
        (IdlType::I16, "i16"),
        (IdlType::U32, "u32"),
        (IdlType::I32, "i32"),
        (IdlType::F32, "f32"),
        (IdlType::U64, "u64"),
        (IdlType::I64, "i64"),
        (IdlType::F64, "f64"),
        (IdlType::U128, "u128"),
        (IdlType::I128, "i128"),
        (IdlType::Bytes, "Vec<u8>"),
        (IdlType::Text, "String"),
        (IdlType::PublicKey, "Pubkey"),
    ]
}

#[test]
fn primitives_keep_width_and_signedness() {
    for (ty, expected) in primitives() {
        let (text, names) = map(&ty);
        assert_eq!(text, expected);
        assert!(names.is_empty());
    }
}

#[test]
fn primitive_texts_are_pairwise_distinct() {
    let all = primitives();
    for (i, (a, _)) in all.iter().enumerate() {
        for (j, (b, _)) in all.iter().enumerate() {
            if i != j {
                assert_ne!(map(a).0, map(b).0);
            }
        }
    }
}

#[test]
fn sixteen_bit_signed_is_i16() {
    assert_eq!(map(&IdlType::I16).0, "i16");
    assert_eq!(map(&IdlType::U8).0, "u8");
}

#[test]
fn optional_wraps_inner() {
    let ty = IdlType::Optional(Box::new(IdlType::U64));
    assert_eq!(map(&ty).0, "Option<u64>");
}

#[test]
fn list_wraps_inner() {
    let ty = IdlType::List(Box::new(IdlType::Text));
    assert_eq!(map(&ty).0, "Vec<String>");
}

#[test]
fn fixed_array_keeps_length() {
    let ty = IdlType::FixedArray(Box::new(IdlType::U8), 32);
    assert_eq!(map(&ty).0, "[u8; 32]");
    let empty = IdlType::FixedArray(Box::new(IdlType::I128), 0);
    assert_eq!(map(&empty).0, "[i128; 0]");
    let huge = IdlType::FixedArray(Box::new(IdlType::Bool), usize::MAX);
    assert_eq!(map(&huge).0, format!("[bool; {}]", usize::MAX));
}

#[test]
fn nesting_composes() {
    let ty = IdlType::Optional(Box::new(IdlType::List(Box::new(IdlType::FixedArray(
        Box::new(IdlType::PublicKey),
        4,
    )))));
    assert_eq!(map(&ty).0, "Option<Vec<[Pubkey; 4]>>");
}

#[test]
fn reference_is_name_and_is_recorded() {
    let ty = IdlType::Reference("PoolConfig".to_string());
    let (text, names) = map(&ty);
    assert_eq!(text, "PoolConfig");
    assert_eq!(names, vec!["PoolConfig".to_string()]);
}

#[test]
fn reference_name_is_not_case_converted() {
    let ty = IdlType::Reference("pool_config".to_string());
    let (text, names) = map(&ty);
    assert_eq!(text, "pool_config");
    assert_eq!(names, vec!["pool_config".to_string()]);
}

#[test]
fn nested_reference_is_recorded() {
    let ty = IdlType::List(Box::new(IdlType::Optional(Box::new(IdlType::Reference(
        "Fee".to_string(),
    )))));
    let (text, names) = map(&ty);
    assert_eq!(text, "Vec<Option<Fee>>");
    assert_eq!(names, vec!["Fee".to_string()]);
}

#[test]
fn mapping_adds_to_what_was_unresolved() {
    let mut unresolved = UnresolvedSet::new();
    assert!(unresolved.insert("Old".to_string()));
    let text = ty_to_rust_type(&IdlType::Reference("New".to_string()), &mut unresolved);
    assert_eq!(text, "New");
    assert_eq!(unresolved.names(), vec!["Old".to_string(), "New".to_string()]);
    ty_to_rust_type(&IdlType::Reference("Old".to_string()), &mut unresolved);
    assert_eq!(unresolved.len(), 2);
}

#[test]
fn decimal_text_of_numbers() {
    for n in [0usize, 7, 9, 10, 11, 99, 100, 255, 1000, 65536, usize::MAX] {
        let mut out = String::from("n=");
        append_decimal(&mut out, n);
        assert_eq!(out, format!("n={}", n));
    }
}

#[test]
fn byte_list_text_of_bytes() {
    let mut out = String::new();
    append_byte_list(&mut out, &[]);
    assert_eq!(out, "");
    append_byte_list(&mut out, &[7]);
    assert_eq!(out, "7");
    let mut out = String::from("[");
    append_byte_list(&mut out, &[0, 1, 20, 255]);
    assert_eq!(out, "[0, 1, 20, 255");
}

#[test]
fn unresolved_set_operations() {
    let mut set = UnresolvedSet::new();
    assert!(set.is_empty());
    assert_eq!(set.len(), 0);
    assert!(set.insert("A".to_string()));
    assert!(set.insert("B".to_string()));
    assert!(!set.insert("A".to_string()));
    assert_eq!(set.len(), 2);
    assert!(set.contains(&"A".to_string()));
    assert!(!set.contains(&"C".to_string()));
    assert!(set.remove(&"A".to_string()));
    assert!(!set.remove(&"A".to_string()));
    assert!(!set.contains(&"A".to_string()));
    assert_eq!(set.names(), vec!["B".to_string()]);
    assert!(!set.is_empty());
    assert!(set.remove(&"B".to_string()));
    assert!(set.is_empty());
}
