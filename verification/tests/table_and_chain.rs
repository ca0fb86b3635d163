use rpc_proxy_core::chain::{eq_ignore_case, is_normalized, lower_code};
use rpc_proxy_core::table::ChainTable;

#[test]
fn insert_and_lookup() {
    let mut t = ChainTable::new();
    assert!(t.insert(String::from("eip155:1"), String::from("mainnet")));
    assert!(t.insert(String::from("eip155:137"), String::from("polygon")));

    assert_eq!(t.lookup("eip155:1"), Some(&String::from("mainnet")));
    assert_eq!(t.lookup("eip155:137"), Some(&String::from("polygon")));
    assert_eq!(t.lookup("eip155:42"), None);
    assert!(t.contains("eip155:1"));
    assert!(!t.contains("eip155:42"));
}

#[test]
fn insert_refuses_duplicate_and_unnormalized_keys() {
    let mut t = ChainTable::new();
    assert!(t.insert(String::from("eip155:1"), String::from("mainnet")));
    assert!(!t.insert(String::from("eip155:1"), String::from("other")));
    assert!(!t.insert(String::from("EIP155:5"), String::from("goerli")));
    assert_eq!(t.lookup("eip155:1"), Some(&String::from("mainnet")));
    assert_eq!(t.keys(), vec![String::from("eip155:1")]);
}

#[test]
fn lookup_normalizes_case() {
    let mut t = ChainTable::new();
    assert!(t.insert(String::from("eip155:1"), String::from("mainnet")));
    assert_eq!(t.lookup("EIP155:1"), Some(&String::from("mainnet")));
    assert_eq!(t.lookup("Eip155:1"), Some(&String::from("mainnet")));
    assert!(t.contains("EIP155:1"));
}

#[test]
fn keys_in_insertion_order() {
    let mut t = ChainTable::new();
    assert!(t.insert(String::from("eip155:1"), String::from("mainnet")));
    assert!(t.insert(String::from("eip155:56"), String::from("https://bsc.example")));
    assert_eq!(t.keys(), vec![String::from("eip155:1"), String::from("eip155:56")]);
}

#[test]
fn lower_code_maps_ascii_letters_only() {
    assert_eq!(lower_code('A'), 'a' as u32);
    assert_eq!(lower_code('Z'), 'z' as u32);
    assert_eq!(lower_code('a'), 'a' as u32);
    assert_eq!(lower_code('5'), '5' as u32);
    assert_eq!(lower_code(':'), ':' as u32);
    assert_eq!(lower_code('é'), 'é' as u32);
}

#[test]
fn case_insensitive_equality() {
    assert!(eq_ignore_case("EIP155:1", "eip155:1"));
    assert!(eq_ignore_case("eip155:1", "eip155:1"));
    assert!(!eq_ignore_case("eip155:1", "eip155:2"));
    assert!(!eq_ignore_case("eip155:1", "eip155:10"));
}

#[test]
fn normalized_means_no_uppercase() {
    assert!(is_normalized("eip155:1"));
    assert!(!is_normalized("EIP155:1"));
    assert!(is_normalized(""));
}
