use cosmwasm_distribution::{
    execute, execute_claim, execute_withdraw, instantiate, instantiate_validated, query,
    query_allocation, query_validated,
    AllocationResponse, Attribute, ContractError, DepsMut, ExecuteMsg, InstantiateMsg,
    MessageInfo, QueryMsg, Response, Transfer, CONTRACT_NAME, CONTRACT_VERSION,
};
use cosmwasm_std::testing::{MockApi, MockStorage};
use cosmwasm_std::{Addr, StdError, Storage, Uint128};
use cw_storage_plus::Item;

fn seed(storage: &mut MockStorage, address: &str, amount: u128) {
    let ledger: cw_storage_plus::Map<&Addr, Uint128> = cw_storage_plus::Map::new("allocations");
    ledger
        .save(storage, &Addr::unchecked(address), &Uint128::new(amount))
        .unwrap();
}

fn stored(storage: &MockStorage, address: &str) -> Option<u128> {
    let ledger: cw_storage_plus::Map<&Addr, Uint128> = cw_storage_plus::Map::new("allocations");
    ledger
        .may_load(storage, &Addr::unchecked(address))
        .unwrap()
        .map(|amount| amount.u128())
}

fn stored_owner(storage: &MockStorage) -> Option<String> {
    let owner: Item<Addr> = Item::new("owner");
    owner.may_load(storage).unwrap().map(Addr::into_string)
}

fn set_owner(storage: &mut MockStorage, address: &str) {
    let owner: Item<Addr> = Item::new("owner");
    owner.save(storage, &Addr::unchecked(address)).unwrap();
}

fn caller(address: &str) -> MessageInfo {
    MessageInfo {
        sender: address.to_string(),
    }
}

fn transfer(to_address: &str, amount: u128) -> Transfer {
    Transfer {
        to_address: to_address.to_string(),
        denom: "token".to_string(),
        amount,
    }
}

fn attribute(key: &str, value: &str) -> Attribute {
    Attribute {
        key: key.to_string(),
        value: value.to_string(),
    }
}

fn total(response: &Response) -> u128 {
    response.messages.iter().map(|message| message.amount).sum()
}

#[test]
fn instantiate_stores_the_owner_and_the_version() {
    let mut storage = MockStorage::new();
    let api = MockApi::default();
    let response = {
        let mut deps = DepsMut::new(&mut storage, &api);
        instantiate(
            &mut deps,
            InstantiateMsg {
                owner: "owner".to_string(),
            },
        )
        .unwrap()
    };
    assert_eq!(
        response,
        Response {
            messages: vec![],
            attributes: vec![attribute("method", "instantiate")],
        }
    );
    assert_eq!(stored_owner(&storage), Some("owner".to_string()));
    let version = cw2::get_contract_version(&storage).unwrap();
    assert_eq!(version.contract, CONTRACT_NAME);
    assert_eq!(version.contract, "crates.io:cosmwasm-distribution");
    assert_eq!(version.version, CONTRACT_VERSION);
    assert_eq!(version.version, "0.1.0");
}

#[test]
fn instantiate_leaves_the_ledger_alone() {
    let mut storage = MockStorage::new();
    let api = MockApi::default();
    seed(&mut storage, "alice", 10);
    {
        let mut deps = DepsMut::new(&mut storage, &api);
        instantiate(
            &mut deps,
            InstantiateMsg {
                owner: "owner".to_string(),
            },
        )
        .unwrap();
    }
    assert_eq!(stored(&storage, "alice"), Some(10));
}

#[test]
fn instantiate_with_malformed_owner_stores_nothing() {
    for owner in ["", "ab", "Owner", "OWNER"] {
        let mut storage = MockStorage::new();
        let api = MockApi::default();
        let result = {
            let mut deps = DepsMut::new(&mut storage, &api);
            instantiate(
                &mut deps,
                InstantiateMsg {
                    owner: owner.to_string(),
                },
            )
        };
        assert!(matches!(result, Err(ContractError::InvalidAddress(_))));
        assert_eq!(stored_owner(&storage), None);
        assert!(cw2::get_contract_version(&storage).is_err());
        assert_eq!(storage.range(None, None, cosmwasm_std::Order::Ascending).count(), 0);
    }
}

#[test]
fn instantiate_with_malformed_owner_keeps_an_earlier_owner() {
    let mut storage = MockStorage::new();
    let api = MockApi::default();
    set_owner(&mut storage, "owner");
    let result = {
        let mut deps = DepsMut::new(&mut storage, &api);
        instantiate(
            &mut deps,
            InstantiateMsg {
                owner: "x".to_string(),
            },
        )
    };
    assert!(matches!(result, Err(ContractError::InvalidAddress(_))));
    assert_eq!(stored_owner(&storage), Some("owner".to_string()));
}

#[test]
fn query_of_unallocated_address_is_zero() {
    let mut storage = MockStorage::new();
    let api = MockApi::default();
    seed(&mut storage, "alice", 10);
    let deps = DepsMut::new(&mut storage, &api);
    for address in ["bob", "alic", "alicee", "carol"] {
        assert_eq!(
            query_allocation(&deps, address.to_string()),
            Ok(AllocationResponse { amount: 0 })
        );
    }
}

#[test]
fn query_returns_the_stored_amount() {
    let mut storage = MockStorage::new();
    let api = MockApi::default();
    seed(&mut storage, "alice", 10);
    seed(&mut storage, "bob", 0);
    seed(&mut storage, "carol", u128::MAX);
    let deps = DepsMut::new(&mut storage, &api);
    assert_eq!(
        query(
            &deps,
            QueryMsg::Allocation {
                address: "alice".to_string()
            }
        ),
        Ok(AllocationResponse { amount: 10 })
    );
    assert_eq!(
        query_allocation(&deps, "bob".to_string()),
        Ok(AllocationResponse { amount: 0 })
    );
    assert_eq!(
        query_allocation(&deps, "carol".to_string()),
        Ok(AllocationResponse { amount: u128::MAX })
    );
}

#[test]
fn query_of_malformed_address_fails() {
    let mut storage = MockStorage::new();
    let api = MockApi::default();
    seed(&mut storage, "Alice", 10);
    let deps = DepsMut::new(&mut storage, &api);
    for address in ["", "a", "Alice"] {
        assert!(matches!(
            query_allocation(&deps, address.to_string()),
            Err(ContractError::InvalidAddress(_))
        ));
    }
}

#[test]
fn query_does_not_change_the_store() {
    let mut storage = MockStorage::new();
    let api = MockApi::default();
    seed(&mut storage, "alice", 10);
    set_owner(&mut storage, "owner");
    {
        let deps = DepsMut::new(&mut storage, &api);
        query_allocation(&deps, "alice".to_string()).unwrap();
        query_allocation(&deps, "bob".to_string()).unwrap();
    }
    assert_eq!(stored(&storage, "alice"), Some(10));
    assert_eq!(stored(&storage, "bob"), None);
    assert_eq!(stored_owner(&storage), Some("owner".to_string()));
}

#[test]
fn query_of_undecodable_record_is_a_store_error() {
    let mut storage = MockStorage::new();
    let api = MockApi::default();
    storage.set(b"\x00\x0ballocationsalice", b"not a number");
    let deps = DepsMut::new(&mut storage, &api);
    assert!(matches!(
        query_allocation(&deps, "alice".to_string()),
        Err(ContractError::Std(StdError::ParseErr { .. }))
    ));
}

#[test]
fn claim_without_entry_is_not_claimable() {
    let mut storage = MockStorage::new();
    let api = MockApi::default();
    seed(&mut storage, "alice", 10);
    let result = {
        let mut deps = DepsMut::new(&mut storage, &api);
        execute_claim(&mut deps, caller("bob"))
    };
    assert_eq!(result, Err(ContractError::NotClaimable {}));
    assert_eq!(stored(&storage, "bob"), None);
    assert_eq!(stored(&storage, "alice"), Some(10));
}

#[test]
fn claim_of_zero_entry_is_not_claimable() {
    let mut storage = MockStorage::new();
    let api = MockApi::default();
    seed(&mut storage, "alice", 10);
    seed(&mut storage, "bob", 0);
    let result = {
        let mut deps = DepsMut::new(&mut storage, &api);
        execute(&mut deps, caller("bob"), ExecuteMsg::Claim {})
    };
    assert_eq!(result, Err(ContractError::NotClaimable {}));
    assert_eq!(stored(&storage, "bob"), Some(0));
    assert_eq!(stored(&storage, "alice"), Some(10));
}

#[test]
fn claim_pays_out_exactly_once() {
    let mut storage = MockStorage::new();
    let api = MockApi::default();
    seed(&mut storage, "alice", 1234);
    seed(&mut storage, "bob", 7);
    let first = {
        let mut deps = DepsMut::new(&mut storage, &api);
        execute(&mut deps, caller("alice"), ExecuteMsg::Claim {})
    };
    assert_eq!(
        first,
        Ok(Response {
            messages: vec![transfer("alice", 1234)],
            attributes: vec![attribute("method", "claim"), attribute("amount", "1234")],
        })
    );
    assert_eq!(stored(&storage, "alice"), Some(0));
    assert_eq!(stored(&storage, "bob"), Some(7));
    let second = {
        let mut deps = DepsMut::new(&mut storage, &api);
        execute(&mut deps, caller("alice"), ExecuteMsg::Claim {})
    };
    assert_eq!(second, Err(ContractError::NotClaimable {}));
    assert_eq!(stored(&storage, "alice"), Some(0));
    assert_eq!(stored(&storage, "bob"), Some(7));
}

#[test]
fn claim_of_the_largest_amount() {
    let mut storage = MockStorage::new();
    let api = MockApi::default();
    seed(&mut storage, "alice", u128::MAX);
    let response = {
        let mut deps = DepsMut::new(&mut storage, &api);
        execute_claim(&mut deps, caller("alice")).unwrap()
    };
    assert_eq!(response.messages, vec![transfer("alice", u128::MAX)]);
    assert_eq!(
        response.attributes[1],
        attribute("amount", "340282366920938463463374607431768211455")
    );
    assert_eq!(stored(&storage, "alice"), Some(0));
}

#[test]
fn claim_leaves_the_owner_alone() {
    let mut storage = MockStorage::new();
    let api = MockApi::default();
    set_owner(&mut storage, "owner");
    seed(&mut storage, "alice", 3);
    {
        let mut deps = DepsMut::new(&mut storage, &api);
        execute_claim(&mut deps, caller("alice")).unwrap();
    }
    assert_eq!(stored_owner(&storage), Some("owner".to_string()));
}

#[test]
fn claim_of_undecodable_record_is_a_store_error() {
    let mut storage = MockStorage::new();
    let api = MockApi::default();
    storage.set(b"\x00\x0ballocationsalice", b"{}");
    let result = {
        let mut deps = DepsMut::new(&mut storage, &api);
        execute_claim(&mut deps, caller("alice"))
    };
    assert!(matches!(result, Err(ContractError::Std(_))));
    assert_eq!(
        storage.get(b"\x00\x0ballocationsalice"),
        Some(b"{}".to_vec())
    );
}

#[test]
fn withdraw_by_stranger_is_unauthorized() {
    let mut storage = MockStorage::new();
    let api = MockApi::default();
    set_owner(&mut storage, "owner");
    seed(&mut storage, "alice", 10);
    seed(&mut storage, "bob", 0);
    for stranger in ["alice", "bob", "mallory", "owne", "ownerr", ""] {
        let result = {
            let mut deps = DepsMut::new(&mut storage, &api);
            execute(&mut deps, caller(stranger), ExecuteMsg::Withdraw {})
        };
        assert_eq!(result, Err(ContractError::Unauthorized {}));
        assert_eq!(stored(&storage, "alice"), Some(10));
        assert_eq!(stored(&storage, "bob"), Some(0));
        assert_eq!(stored_owner(&storage), Some("owner".to_string()));
    }
}

#[test]
fn withdraw_by_stranger_on_empty_ledger_is_unauthorized() {
    let mut storage = MockStorage::new();
    let api = MockApi::default();
    set_owner(&mut storage, "owner");
    let result = {
        let mut deps = DepsMut::new(&mut storage, &api);
        execute_withdraw(&mut deps, caller("alice"))
    };
    assert_eq!(result, Err(ContractError::Unauthorized {}));
}

#[test]
fn withdraw_without_owner_is_a_store_error() {
    let mut storage = MockStorage::new();
    let api = MockApi::default();
    seed(&mut storage, "alice", 10);
    let result = {
        let mut deps = DepsMut::new(&mut storage, &api);
        execute_withdraw(&mut deps, caller("owner"))
    };
    assert!(matches!(
        result,
        Err(ContractError::Std(StdError::NotFound { .. }))
    ));
    assert_eq!(stored(&storage, "alice"), Some(10));
}

#[test]
fn withdraw_sweeps_every_outstanding_amount() {
    let mut storage = MockStorage::new();
    let api = MockApi::default();
    set_owner(&mut storage, "owner");
    seed(&mut storage, "ccc", 5);
    seed(&mut storage, "aaa", 10);
    seed(&mut storage, "bbb", 0);
    let response = {
        let mut deps = DepsMut::new(&mut storage, &api);
        execute(&mut deps, caller("owner"), ExecuteMsg::Withdraw {}).unwrap()
    };
    assert_eq!(
        response,
        Response {
            messages: vec![transfer("aaa", 10), transfer("ccc", 5)],
            attributes: vec![attribute("method", "withdraw")],
        }
    );
    assert_eq!(total(&response), 15);
    assert_eq!(stored(&storage, "aaa"), Some(0));
    assert_eq!(stored(&storage, "bbb"), Some(0));
    assert_eq!(stored(&storage, "ccc"), Some(0));
    assert_eq!(stored_owner(&storage), Some("owner".to_string()));
}

#[test]
fn withdraw_twice_moves_nothing_the_second_time() {
    let mut storage = MockStorage::new();
    let api = MockApi::default();
    set_owner(&mut storage, "owner");
    seed(&mut storage, "alice", 10);
    seed(&mut storage, "bob", 20);
    let first = {
        let mut deps = DepsMut::new(&mut storage, &api);
        execute_withdraw(&mut deps, caller("owner")).unwrap()
    };
    assert_eq!(first.messages, vec![transfer("alice", 10), transfer("bob", 20)]);
    let second = {
        let mut deps = DepsMut::new(&mut storage, &api);
        execute_withdraw(&mut deps, caller("owner"))
    };
    assert_eq!(
        second,
        Ok(Response {
            messages: vec![],
            attributes: vec![attribute("method", "withdraw")],
        })
    );
    assert_eq!(stored(&storage, "alice"), Some(0));
    assert_eq!(stored(&storage, "bob"), Some(0));
}

#[test]
fn withdraw_on_empty_ledger_moves_nothing() {
    let mut storage = MockStorage::new();
    let api = MockApi::default();
    set_owner(&mut storage, "owner");
    let response = {
        let mut deps = DepsMut::new(&mut storage, &api);
        execute_withdraw(&mut deps, caller("owner")).unwrap()
    };
    assert_eq!(response.messages, vec![]);
    assert_eq!(response.attributes, vec![attribute("method", "withdraw")]);
}

#[test]
fn withdraw_pays_in_ascending_order_of_address() {
    let mut storage = MockStorage::new();
    let api = MockApi::default();
    set_owner(&mut storage, "owner");
    for (address, amount) in [
        ("b", 1),
        ("ab", 2),
        ("a", 3),
        ("é", 4),
        ("z", 5),
        ("B", 6),
        ("", 7),
        ("aa", 8),
        ("\u{10000}", 9),
        ("\u{ffff}", 10),
    ] {
        seed(&mut storage, address, amount);
    }
    let response = {
        let mut deps = DepsMut::new(&mut storage, &api);
        execute_withdraw(&mut deps, caller("owner")).unwrap()
    };
    assert_eq!(
        response.messages,
        vec![
            transfer("", 7),
            transfer("B", 6),
            transfer("a", 3),
            transfer("aa", 8),
            transfer("ab", 2),
            transfer("b", 1),
            transfer("z", 5),
            transfer("é", 4),
            transfer("\u{ffff}", 10),
            transfer("\u{10000}", 9),
        ]
    );
    assert_eq!(total(&response), 55);
}

#[test]
fn withdraw_after_claim_skips_the_claimed_entry() {
    let mut storage = MockStorage::new();
    let api = MockApi::default();
    seed(&mut storage, "alice", 10);
    seed(&mut storage, "bob", 20);
    {
        let mut deps = DepsMut::new(&mut storage, &api);
        instantiate(
            &mut deps,
            InstantiateMsg {
                owner: "owner".to_string(),
            },
        )
        .unwrap();
        execute(&mut deps, caller("alice"), ExecuteMsg::Claim {}).unwrap();
        let swept = execute(&mut deps, caller("owner"), ExecuteMsg::Withdraw {}).unwrap();
        assert_eq!(swept.messages, vec![transfer("bob", 20)]);
        assert_eq!(
            execute(&mut deps, caller("bob"), ExecuteMsg::Claim {}),
            Err(ContractError::NotClaimable {})
        );
        assert_eq!(
            query_allocation(&deps, "bob".to_string()),
            Ok(AllocationResponse { amount: 0 })
        );
    }
    assert_eq!(stored(&storage, "alice"), Some(0));
    assert_eq!(stored(&storage, "bob"), Some(0));
}

#[test]
fn withdraw_with_undecodable_record_changes_nothing() {
    let mut storage = MockStorage::new();
    let api = MockApi::default();
    set_owner(&mut storage, "owner");
    seed(&mut storage, "alice", 10);
    storage.set(b"\x00\x0ballocationsbob", b"[]");
    let result = {
        let mut deps = DepsMut::new(&mut storage, &api);
        execute_withdraw(&mut deps, caller("owner"))
    };
    assert!(matches!(result, Err(ContractError::Std(_))));
    assert_eq!(stored(&storage, "alice"), Some(10));
}

#[test]
fn withdraw_ignores_records_outside_the_ledger() {
    let mut storage = MockStorage::new();
    let api = MockApi::default();
    seed(&mut storage, "alice", 10);
    storage.set(b"\x00\x0ballocationr", b"\"1\"");
    storage.set(b"\x00\x0ballocationt", b"\"2\"");
    storage.set(b"allocations", b"\"3\"");
    let response = {
        let mut deps = DepsMut::new(&mut storage, &api);
        instantiate(
            &mut deps,
            InstantiateMsg {
                owner: "owner".to_string(),
            },
        )
        .unwrap();
        execute_withdraw(&mut deps, caller("owner")).unwrap()
    };
    assert_eq!(response.messages, vec![transfer("alice", 10)]);
    assert_eq!(storage.get(b"\x00\x0ballocationr"), Some(b"\"1\"".to_vec()));
    assert_eq!(storage.get(b"\x00\x0ballocationt"), Some(b"\"2\"".to_vec()));
    assert_eq!(storage.get(b"allocations"), Some(b"\"3\"".to_vec()));
}

#[test]
fn owner_with_unusual_characters_is_stored_as_given() {
    let owner = "o\"w\\n e\u{e9}\u{1F600}r/\u{7f}";
    let mut storage = MockStorage::new();
    let api = MockApi::default();
    seed(&mut storage, "alice", 10);
    {
        let mut deps = DepsMut::new(&mut storage, &api);
        instantiate(
            &mut deps,
            InstantiateMsg {
                owner: owner.to_string(),
            },
        )
        .unwrap();
        assert_eq!(
            execute_withdraw(&mut deps, caller("owner")),
            Err(ContractError::Unauthorized {})
        );
        let swept = execute_withdraw(&mut deps, caller(owner)).unwrap();
        assert_eq!(swept.messages, vec![transfer("alice", 10)]);
    }
    assert_eq!(stored_owner(&storage), Some(owner.to_string()));
}

#[test]
fn claim_by_address_with_unusual_characters() {
    let claimant = "a\"b\\c\u{0}d\u{e9}\u{1F600}";
    let mut storage = MockStorage::new();
    let api = MockApi::default();
    seed(&mut storage, claimant, 77);
    seed(&mut storage, "a", 1);
    let response = {
        let mut deps = DepsMut::new(&mut storage, &api);
        execute_claim(&mut deps, caller(claimant)).unwrap()
    };
    assert_eq!(response.messages, vec![transfer(claimant, 77)]);
    assert_eq!(stored(&storage, claimant), Some(0));
    assert_eq!(stored(&storage, "a"), Some(1));
}

#[test]
fn instantiate_validated_stores_an_accepted_owner() {
    let mut storage = MockStorage::new();
    let api = MockApi::default();
    seed(&mut storage, "alice", 10);
    let result = {
        let mut deps = DepsMut::new(&mut storage, &api);
        instantiate_validated(&mut deps, Ok("owner".to_string()))
    };
    assert_eq!(
        result,
        Ok(Response {
            messages: vec![],
            attributes: vec![attribute("method", "instantiate")],
        })
    );
    assert_eq!(stored_owner(&storage), Some("owner".to_string()));
    assert_eq!(stored(&storage, "alice"), Some(10));
    let version = cw2::get_contract_version(&storage).unwrap();
    assert_eq!(version.contract, "crates.io:cosmwasm-distribution");
    assert_eq!(version.version, "0.1.0");
}

#[test]
fn instantiate_validated_reports_a_rejection_and_writes_nothing() {
    let mut storage = MockStorage::new();
    let api = MockApi::default();
    let result = {
        let mut deps = DepsMut::new(&mut storage, &api);
        instantiate_validated(&mut deps, Err(StdError::generic_err("malformed")))
    };
    assert_eq!(
        result,
        Err(ContractError::InvalidAddress(StdError::generic_err(
            "malformed"
        )))
    );
    assert_eq!(stored_owner(&storage), None);
    assert_eq!(storage.range(None, None, cosmwasm_std::Order::Ascending).count(), 0);
}

#[test]
fn query_validated_looks_up_an_accepted_address() {
    let mut storage = MockStorage::new();
    let api = MockApi::default();
    seed(&mut storage, "alice", 10);
    let deps = DepsMut::new(&mut storage, &api);
    assert_eq!(
        query_validated(&deps, Ok("alice".to_string())),
        Ok(AllocationResponse { amount: 10 })
    );
    assert_eq!(
        query_validated(&deps, Ok("bob".to_string())),
        Ok(AllocationResponse { amount: 0 })
    );
}

#[test]
fn query_validated_reports_a_rejection() {
    let mut storage = MockStorage::new();
    let api = MockApi::default();
    seed(&mut storage, "alice", 10);
    let deps = DepsMut::new(&mut storage, &api);
    assert_eq!(
        query_validated(&deps, Err(StdError::generic_err("malformed"))),
        Err(ContractError::InvalidAddress(StdError::generic_err(
            "malformed"
        )))
    );
}

#[test]
fn validation_gives_the_same_verdict_each_time() {
    let mut storage = MockStorage::new();
    let api = MockApi::default();
    seed(&mut storage, "alice", 10);
    let deps = DepsMut::new(&mut storage, &api);
    for address in ["alice", "bob", "", "Al", "ALICE"] {
        let first = query_allocation(&deps, address.to_string());
        let second = query_allocation(&deps, address.to_string());
        assert_eq!(first, second);
    }
}

#[test]
fn failed_withdraw_leaves_every_entry_as_it_was() {
    let mut storage = MockStorage::new();
    let api = MockApi::default();
    set_owner(&mut storage, "owner");
    seed(&mut storage, "alice", 10);
    seed(&mut storage, "bob", 20);
    storage.set(b"\x00\x0ballocationszed", b"nonsense");
    let result = {
        let mut deps = DepsMut::new(&mut storage, &api);
        execute_withdraw(&mut deps, caller("owner"))
    };
    assert!(matches!(result, Err(ContractError::Std(_))));
    assert_eq!(stored(&storage, "alice"), Some(10));
    assert_eq!(stored(&storage, "bob"), Some(20));
    assert_eq!(
        storage.get(b"\x00\x0ballocationszed"),
        Some(b"nonsense".to_vec())
    );
}
