use evm2cpp::combinedjson::contract_name_range;
use evm2cpp::combinedjson::select_contract;
use evm2cpp::combinedjson::Combined;
use evm2cpp::combinedjson::Contract;
use evm2cpp::combinedjson::Selection;
use std::collections::BTreeMap;

fn keys(names: &[&str]) -> Vec<String> {
    names.iter().map(|s| s.to_string()).collect()
}

#[test]
fn the_very_name_selects_its_contract() {
    let k = keys(&["grid.sol:Grid", "grid.sol:SafeMath"]);
    assert_eq!(select_contract(&k, "Grid"), Selection::Contract(0));
    assert_eq!(select_contract(&k, "SafeMath"), Selection::Contract(1));
}

#[test]
fn names_are_compared_without_underscores_and_case() {
    let k = keys(&["grid.sol:Grid", "grid.sol:SafeMath"]);
    assert_eq!(select_contract(&k, "safemath"), Selection::Contract(1));
    assert_eq!(select_contract(&k, "safe_math"), Selection::Contract(1));
    assert_eq!(select_contract(&k, "GRID"), Selection::Contract(0));
    assert_eq!(select_contract(&k, "_g_r_i_d_"), Selection::Contract(0));
}

#[test]
fn a_start_or_an_end_of_a_name_selects_it() {
    let k = keys(&["grid.sol:Grid", "grid.sol:SafeMath"]);
    assert_eq!(select_contract(&k, "Safe"), Selection::Contract(1));
    assert_eq!(select_contract(&k, "grid_v2"), Selection::Contract(0));
    assert_eq!(select_contract(&k, "Math"), Selection::Contract(1));
    assert_eq!(select_contract(&k, "the_grid"), Selection::Contract(0));
}

#[test]
fn the_closest_length_wins() {
    // "tok" starts both names; "Token" is closer in length than "TokenSale"
    let k = keys(&["a.sol:TokenSale", "b.sol:Token"]);
    assert_eq!(select_contract(&k, "tok"), Selection::Contract(1));
    // a start of the name counts more than a name that is a start
    let k = keys(&["a.sol:Ab", "b.sol:Abcdef"]);
    assert_eq!(select_contract(&k, "abcd"), Selection::Contract(1));
    // of two equal scores the first stays
    let k = keys(&["a.sol:Tokens", "b.sol:Tokenx"]);
    assert_eq!(select_contract(&k, "token"), Selection::Contract(0));
    // a normalized match beats a closer start that comes later
    let k = keys(&["a.sol:my_token", "b.sol:MyTokenX"]);
    assert_eq!(select_contract(&k, "MyToken"), Selection::Contract(0));
    // the very name ends the search even after a normalized match
    let k = keys(&["a.sol:my_token", "b.sol:MyToken"]);
    assert_eq!(select_contract(&k, "MyToken"), Selection::Contract(1));
}

#[test]
fn the_first_contract_of_a_name_is_selected() {
    let k = keys(&["a.sol:Token", "b.sol:Token"]);
    assert_eq!(select_contract(&k, "Token"), Selection::Contract(0));
    let k = keys(&["a:b:c", "d:c"]);
    assert_eq!(select_contract(&k, "c"), Selection::Contract(1));
    assert_eq!(select_contract(&k, "b"), Selection::Contract(0));
}

#[test]
fn without_a_match_the_last_key_stands_in() {
    let k = keys(&["grid.sol:Grid", "grid.sol:SafeMath"]);
    assert_eq!(select_contract(&k, "xyz"), Selection::NoMatch);
    // a key without a file is its own name
    let k = keys(&["Grid", "Token"]);
    assert_eq!(select_contract(&k, "xyz"), Selection::Contract(1));
    assert_eq!(select_contract(&keys(&[]), "Grid"), Selection::NoContracts);
}

#[test]
fn the_types_of_the_combined_output() {
    let contract = Contract {
        abi: "[]".to_string(),
        bin: "6000".to_string(),
        bin_runtime: "00".to_string(),
        srcmap: String::new(),
        srcmap_runtime: "0:1:0:-".to_string(),
    };
    let mut contracts = BTreeMap::new();
    contracts.insert("a.sol:A".to_string(), contract);
    let combined = Combined {
        contracts,
        source_list: vec!["a.sol".to_string()],
        version: "0.8.0".to_string(),
    };
    let k: Vec<String> = combined.contracts.keys().cloned().collect();
    assert_eq!(select_contract(&k, "a"), Selection::Contract(0));
    assert_eq!(combined.contracts["a.sol:A"].bin_runtime, "00");
    assert_eq!(combined.source_list.len(), 1);
}

#[test]
fn the_name_of_a_contract_in_its_key() {
    assert_eq!(contract_name_range("grid.sol:Grid"), (9, 13));
    assert_eq!(contract_name_range("Grid"), (0, 4));
    assert_eq!(contract_name_range("a:b:c"), (2, 3));
    assert_eq!(contract_name_range("a:"), (2, 2));
    assert_eq!(contract_name_range(":x"), (1, 2));
    assert_eq!(contract_name_range(""), (0, 0));
    assert_eq!(contract_name_range("d\u{e9}j\u{e0}.sol:Vu"), (11, 13));
}
