use erc4626_vault::asset_type::AssetType;
use erc4626_vault::error::VaultError;
use erc4626_vault::message::{parse_deposit_message, parse_u128};
use erc4626_vault::mul_div::{mul_div, Rounding};
use erc4626_vault::{ERC4626Vault, ShareMetadata};

fn new_mt_vault() -> ERC4626Vault {
    ERC4626Vault::new(
        "owner.near".to_string(),
        AssetType::MultiToken {
            contract_id: "multi.near".to_string(),
            token_id: "gold".to_string(),
        },
        ShareMetadata {
            name: "Gold Vault".to_string(),
            symbol: "vGOLD".to_string(),
            decimals: 0,
        },
    )
}

#[test]
fn test_mul_div_rounding() {
    assert_eq!(mul_div(7, 3, 2, Rounding::Down), Ok(10));
    assert_eq!(mul_div(7, 3, 2, Rounding::Up), Ok(11));
    assert_eq!(mul_div(6, 3, 2, Rounding::Down), Ok(9));
    assert_eq!(mul_div(6, 3, 2, Rounding::Up), Ok(9));
    assert_eq!(mul_div(0, 12345, 7, Rounding::Up), Ok(0));
}

#[test]
fn test_mul_div_overflow_is_deterministic() {
    // 2^100 * 2^100 leaves the 128-bit range no matter the denominator
    let big = 1u128 << 100;
    assert_eq!(mul_div(big, big, 1, Rounding::Down), Err(VaultError::ArithmeticOverflow));
    assert_eq!(mul_div(big, big, 3, Rounding::Up), Err(VaultError::ArithmeticOverflow));
    assert_eq!(mul_div(u128::MAX, 2, 2, Rounding::Down), Err(VaultError::ArithmeticOverflow));
    assert_eq!(mul_div(u128::MAX, 1, 1, Rounding::Down), Ok(u128::MAX));
}

#[test]
fn test_parse_u128_values() {
    assert_eq!(parse_u128("0"), Some(0));
    assert_eq!(parse_u128("1000"), Some(1000));
    assert_eq!(
        parse_u128("340282366920938463463374607431768211455"),
        Some(u128::MAX)
    );
    assert_eq!(parse_u128("340282366920938463463374607431768211456"), None);
    assert_eq!(parse_u128(""), None);
    assert_eq!(parse_u128("12a"), None);
    assert_eq!(parse_u128("-5"), None);
    assert_eq!(parse_u128(" 5"), None);
}

#[test]
fn test_parse_deposit_message_full() {
    let m = parse_deposit_message(
        "{\"min_shares\": \"100\", \"max_shares\": \"500\", \"receiver_id\": \"bob.near\", \"memo\": \"hi\"}",
    );
    assert_eq!(m.min_shares, Some(100));
    assert_eq!(m.max_shares, Some(500));
    assert_eq!(m.receiver_id, Some("bob.near".to_string()));
    assert_eq!(m.memo, Some("hi".to_string()));
}

#[test]
fn test_parse_deposit_message_unparsable() {
    let m = parse_deposit_message("not json at all");
    assert_eq!(m.min_shares, None);
    assert_eq!(m.max_shares, None);
    assert_eq!(m.receiver_id, None);
    assert_eq!(m.memo, None);

    let m = parse_deposit_message("");
    assert_eq!(m.min_shares, None);
    assert_eq!(m.receiver_id, None);
}

#[test]
fn test_parse_deposit_message_partial_and_malformed_fields() {
    // a numeric (not string) bound and an overlong number are not taken
    let m = parse_deposit_message(
        "{\"min_shares\": 100, \"max_shares\": \"999999999999999999999999999999999999999999\", \"receiver_id\": \"bob.near\"}",
    );
    assert_eq!(m.min_shares, None);
    assert_eq!(m.max_shares, None);
    assert_eq!(m.receiver_id, Some("bob.near".to_string()));
    assert_eq!(m.memo, None);
}

#[test]
fn test_transfer_call_payload_single_token() {
    let mut vault = ERC4626Vault::new(
        "owner.near".to_string(),
        AssetType::FungibleToken {
            contract_id: "usdt.near".to_string(),
        },
        ShareMetadata {
            name: "USDT Vault".to_string(),
            symbol: "vUSDT".to_string(),
            decimals: 6,
        },
    );
    vault
        .ft_on_transfer(
            &"usdt.near".to_string(),
            "alice.near".to_string(),
            1000,
            "".to_string(),
        )
        .unwrap();
    let call = vault
        .redeem(
            "alice.near".to_string(),
            500,
            Some("bob.near".to_string()),
            Some("rent".to_string()),
            1,
        )
        .unwrap();

    assert_eq!(call.contract_id, "usdt.near");
    assert_eq!(call.method_name, "ft_transfer");
    assert_eq!(
        call.args,
        "{\"receiver_id\": \"bob.near\", \"amount\": \"500\"}"
    );
    assert_eq!(call.deposit_yoctonear, 1);
    assert_eq!(call.gas_tgas, 30);
    assert_eq!(call.callback_method, "resolve_withdraw");
    assert_eq!(
        call.callback_args,
        "{\"owner\": \"alice.near\", \"receiver\": \"bob.near\", \"shares\": \"500\", \"assets\": \"500\", \"memo\": \"rent\"}"
    );
    assert_eq!(call.callback_gas_tgas, 10);
    assert_eq!(call.context.owner, "alice.near");
    assert_eq!(call.context.receiver, "bob.near");
    assert_eq!(call.context.memo, Some("rent".to_string()));
}

#[test]
fn test_transfer_call_payload_multi_token() {
    let vault = new_mt_vault();
    let call = vault.internal_transfer_assets_with_callback(
        "bob.near".to_string(),
        250,
        "alice.near".to_string(),
        249,
        None,
    );
    assert_eq!(call.contract_id, "multi.near");
    assert_eq!(call.method_name, "mt_transfer");
    assert_eq!(
        call.args,
        "{\"receiver_id\": \"bob.near\", \"token_id\": \"gold\", \"amount\": \"250\", \"approval\": null, \"memo\": null}"
    );
    assert_eq!(
        call.callback_args,
        "{\"owner\": \"alice.near\", \"receiver\": \"bob.near\", \"shares\": \"249\", \"assets\": \"250\", \"memo\": null}"
    );
}

#[test]
fn test_mt_deposit_accepted() {
    let mut vault = new_mt_vault();
    let r = vault
        .handle_mt_deposit(
            &"multi.near".to_string(),
            "alice.near".to_string(),
            vec!["gold".to_string()],
            vec![1000],
            "".to_string(),
        )
        .unwrap();
    assert_eq!(r, vec![0]);
    // the first multi-token deposit also mints one-to-one
    assert_eq!(vault.ft_balance_of(&"alice.near".to_string()), 1000);
    assert_eq!(vault.total_assets(), 1000);
}

#[test]
fn test_mt_deposit_rejections() {
    let mut vault = new_mt_vault();

    let r = vault.handle_mt_deposit(
        &"someone-else.near".to_string(),
        "alice.near".to_string(),
        vec!["gold".to_string()],
        vec![1000],
        "".to_string(),
    );
    assert_eq!(r, Err(VaultError::Unauthorized));

    let r = vault.handle_mt_deposit(
        &"multi.near".to_string(),
        "alice.near".to_string(),
        vec!["silver".to_string()],
        vec![1000],
        "".to_string(),
    );
    assert_eq!(r, Err(VaultError::Unauthorized));

    let r = vault.handle_mt_deposit(
        &"multi.near".to_string(),
        "alice.near".to_string(),
        vec!["gold".to_string(), "silver".to_string()],
        vec![500, 500],
        "".to_string(),
    );
    assert_eq!(r, Err(VaultError::Unauthorized));

    assert_eq!(vault.total_assets(), 0);
    assert_eq!(vault.ft_total_supply(), 0);
}

#[test]
fn test_mt_deposit_echoed_by_single_token_vault() {
    let mut vault = ERC4626Vault::new(
        "owner.near".to_string(),
        AssetType::FungibleToken {
            contract_id: "usdt.near".to_string(),
        },
        ShareMetadata {
            name: "USDT Vault".to_string(),
            symbol: "vUSDT".to_string(),
            decimals: 6,
        },
    );
    let r = vault
        .handle_mt_deposit(
            &"multi.near".to_string(),
            "alice.near".to_string(),
            vec!["gold".to_string()],
            vec![700, 300],
            "".to_string(),
        )
        .unwrap();
    // a single-token vault echoes every amount back, rejecting them all
    assert_eq!(r, vec![700, 300]);
    assert_eq!(vault.total_assets(), 0);
}

#[test]
fn test_asset_type_accessors() {
    let ft = AssetType::FungibleToken {
        contract_id: "usdt.near".to_string(),
    };
    assert!(ft.is_fungible_token());
    assert!(!ft.is_multi_token());
    assert_eq!(ft.contract_id().as_str(), "usdt.near");
    assert_eq!(ft.token_id(), None);

    let mt = AssetType::MultiToken {
        contract_id: "multi.near".to_string(),
        token_id: "gold".to_string(),
    };
    assert!(mt.is_multi_token());
    assert_eq!(mt.contract_id().as_str(), "multi.near");
    assert_eq!(mt.token_id(), Some(&"gold".to_string()));
}

#[test]
fn test_ledger_entries() {
    let mut vault = new_mt_vault();
    vault
        .handle_mt_deposit(
            &"multi.near".to_string(),
            "alice.near".to_string(),
            vec!["gold".to_string()],
            vec![1000],
            "".to_string(),
        )
        .unwrap();
    vault
        .handle_mt_deposit(
            &"multi.near".to_string(),
            "bob.near".to_string(),
            vec!["gold".to_string()],
            vec![500],
            "".to_string(),
        )
        .unwrap();
    let mut entries = vault.token.entries();
    entries.sort();
    assert_eq!(
        entries,
        vec![
            ("alice.near".to_string(), 1000u128),
            ("bob.near".to_string(), 499u128)
        ]
    );
}

#[test]
fn test_conversion_overflow_errors() {
    let mut vault = new_mt_vault();
    vault
        .handle_mt_deposit(
            &"multi.near".to_string(),
            "alice.near".to_string(),
            vec!["gold".to_string()],
            vec![u128::MAX / 2],
            "".to_string(),
        )
        .unwrap();
    // the conversion product leaves the 128-bit range
    assert_eq!(
        vault.convert_to_shares(u128::MAX / 2 + 2),
        Err(VaultError::ArithmeticOverflow)
    );
    assert_eq!(
        vault.convert_to_assets(u128::MAX / 2 + 2),
        Err(VaultError::ArithmeticOverflow)
    );
}
