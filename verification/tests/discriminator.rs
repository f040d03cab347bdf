use heck::{ToSnakeCase, ToUpperCamelCase};
use idl_bindgen::digest::{build_sighash, digest_prefix};

#[test]
fn sighash_is_prefix_of_sha256() {
    assert_eq!(build_sighash("initialize_pool"), [95, 180, 10, 172, 84, 174, 232, 40]);
    assert_eq!(build_sighash("swap"), [248, 198, 158, 145, 225, 117, 135, 200]);
    assert_eq!(build_sighash("withdraw"), [183, 18, 70, 156, 148, 109, 161, 34]);
}

#[test]
fn sighash_matches_openssl_digest() {
    let digest = openssl::sha::sha256(b"global:close_account");
    assert_eq!(build_sighash("close_account"), digest[..8]);
    assert_eq!(build_sighash("close_account"), [125, 255, 149, 14, 110, 34, 72, 24]);
}

#[test]
fn sighash_normalises_name_to_snake_case() {
    assert_eq!(build_sighash("initializePool"), [95, 180, 10, 172, 84, 174, 232, 40]);
    assert_eq!(build_sighash("InitializePool"), build_sighash("initialize_pool"));
    assert_eq!(build_sighash("depositLiquidity"), [245, 99, 59, 25, 151, 71, 233, 249]);
}

#[test]
fn sighash_is_deterministic() {
    for name in ["initialize_pool", "swap", "", "a b c", "depositLiquidity"] {
        assert_eq!(build_sighash(name), build_sighash(name));
    }
}

#[test]
fn sighashes_of_a_document_are_distinct() {
    let names = ["initialize_pool", "swap", "deposit_liquidity", "withdraw", "close_account"];
    for (i, a) in names.iter().enumerate() {
        for (j, b) in names.iter().enumerate() {
            if i != j {
                assert_ne!(build_sighash(a), build_sighash(b));
            }
        }
    }
}

#[test]
fn digest_prefix_takes_first_eight_in_order() {
    let mut digest = [0u8; 32];
    for (i, byte) in digest.iter_mut().enumerate() {
        *byte = (i * 3 + 1) as u8;
    }
    assert_eq!(digest_prefix(&digest), [1, 4, 7, 10, 13, 16, 19, 22]);
}

#[test]
fn snake_case_is_idempotent_and_stable() {
    for name in ["initializePool", "InitializePool", "initialize_pool", "swap", "closeAccountV2"] {
        let once = name.to_snake_case();
        assert_eq!(once.to_snake_case(), once);
    }
    assert_eq!("initialize_pool".to_snake_case(), "initialize_pool");
    assert_eq!("initializePool".to_snake_case(), "initialize_pool");
}

#[test]
fn upper_camel_case_is_idempotent_and_stable() {
    for name in ["initializePool", "InitializePool", "initialize_pool", "swap"] {
        let once = name.to_upper_camel_case();
        assert_eq!(once.to_upper_camel_case(), once);
    }
    assert_eq!("InitializePool".to_upper_camel_case(), "InitializePool");
    assert_eq!("initialize_pool".to_upper_camel_case(), "InitializePool");
}
