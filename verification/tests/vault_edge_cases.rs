use erc4626_vault::asset_type::AssetType;
use erc4626_vault::error::VaultError;
use erc4626_vault::{ERC4626Vault, ShareMetadata};

fn new_vault() -> ERC4626Vault {
    ERC4626Vault::new(
        "owner.near".to_string(),
        AssetType::FungibleToken {
            contract_id: "usdt.near".to_string(),
        },
        ShareMetadata {
            name: "USDT Vault".to_string(),
            symbol: "vUSDT".to_string(),
            decimals: 6,
        },
    )
}

fn deposit(vault: &mut ERC4626Vault, sender: &str, amount: u128, msg: &str) -> Result<u128, VaultError> {
    vault.ft_on_transfer(
        &"usdt.near".to_string(),
        sender.to_string(),
        amount,
        msg.to_string(),
    )
}

#[test]
fn test_empty_vault_behavior() {
    let vault = new_vault();
    assert_eq!(vault.convert_to_shares(0), Ok(0));
    // 1:1 ratio when empty
    assert_eq!(vault.convert_to_shares(1000), Ok(1000));
    assert_eq!(vault.convert_to_assets(0), Ok(0));
}

#[test]
fn test_rounding_behavior() {
    let mut vault = new_vault();
    deposit(&mut vault, "alice.near", 1000, "").unwrap();

    // the attacker's dust deposit is rejected whole by inflation resistance
    let result = deposit(&mut vault, "attacker.near", 1, "");
    assert_eq!(result, Err(VaultError::ZeroAmount));

    assert_eq!(
        vault.ft_balance_of(&"attacker.near".to_string()),
        0,
        "Attacker should receive zero shares due to inflation resistance"
    );
    assert_eq!(vault.ft_total_supply(), 1000);
    assert_eq!(vault.total_assets(), 1000);

    let attacker_claimable = vault.convert_to_assets(0).unwrap();
    assert_eq!(
        attacker_claimable, 0,
        "Attacker should have no claimable assets since they received 0 shares"
    );
}

#[test]
fn test_large_amounts() {
    let mut vault = new_vault();
    let large_deposit = 1_000_000_000_000u128;
    deposit(&mut vault, "alice.near", large_deposit, "").unwrap();

    assert_eq!(vault.ft_balance_of(&"alice.near".to_string()), large_deposit);
    assert_eq!(vault.total_assets(), large_deposit);

    let expected = (large_deposit / 2) * large_deposit / (large_deposit + 1);
    assert_eq!(vault.convert_to_shares(large_deposit / 2), Ok(expected));
}

#[test]
fn test_insufficient_balance_withdrawal() {
    let mut vault = new_vault();
    deposit(&mut vault, "alice.near", 1000, "").unwrap();

    let before_supply = vault.ft_total_supply();
    let before_assets = vault.total_assets();

    let result = vault.withdraw("alice.near".to_string(), 2000, None, None, 1);
    assert!(
        result.is_err(),
        "Should fail when withdrawing more than max_withdraw"
    );
    assert_eq!(result.unwrap_err(), VaultError::InsufficientBalance);

    let result = vault.redeem("alice.near".to_string(), 2000, None, None, 1);
    assert!(
        result.is_err(),
        "Should fail when redeeming more than max_redeem"
    );
    assert_eq!(result.unwrap_err(), VaultError::InsufficientBalance);

    // the failed calls mutated nothing
    assert_eq!(vault.ft_total_supply(), before_supply);
    assert_eq!(vault.total_assets(), before_assets);
    assert_eq!(vault.ft_balance_of(&"alice.near".to_string()), 1000);
}

#[test]
fn test_zero_amount_operations() {
    let mut vault = new_vault();
    deposit(&mut vault, "alice.near", 1000, "").unwrap();

    assert_eq!(vault.convert_to_shares(0), Ok(0));
    assert_eq!(vault.convert_to_assets(0), Ok(0));

    let result = vault.withdraw("alice.near".to_string(), 0, None, None, 1);
    assert_eq!(
        result.unwrap_err(),
        VaultError::ZeroAmount,
        "Should fail when withdrawing zero assets"
    );

    let result = vault.redeem("alice.near".to_string(), 0, None, None, 1);
    assert_eq!(
        result.unwrap_err(),
        VaultError::ZeroAmount,
        "Should fail when redeeming zero shares"
    );
}

#[test]
fn test_deposit_slippage_protection_failure() {
    let mut vault = new_vault();
    deposit(&mut vault, "alice.near", 500, "").unwrap();

    // more shares demanded than the deposit can mint
    let result = deposit(
        &mut vault,
        "alice.near",
        1000,
        "{\"min_shares\": \"2000\"}",
    );
    assert_eq!(
        result,
        Err(VaultError::SlippageViolation),
        "No tokens should be used when slippage protection triggers"
    );

    assert_eq!(
        vault.ft_balance_of(&"alice.near".to_string()),
        500,
        "Alice should only have shares from the successful deposit"
    );
    assert_eq!(
        vault.total_assets(),
        500,
        "Vault should only have assets from the successful deposit"
    );
}

#[test]
fn test_max_shares_capping() {
    let mut vault = new_vault();
    let max_shares = 700u128;
    let used_amount = 1000
        - deposit(
            &mut vault,
            "alice.near",
            1000,
            "{\"max_shares\": \"700\"}",
        )
        .unwrap();

    assert_eq!(
        vault.ft_balance_of(&"alice.near".to_string()),
        max_shares,
        "Alice should have exactly max_shares amount of vault tokens"
    );
    assert_eq!(
        vault.total_assets(),
        used_amount,
        "Total vault assets should equal the amount actually used"
    );

    let expected_used = vault.convert_to_assets(max_shares).unwrap();
    assert!(
        used_amount >= expected_used.saturating_sub(1) && used_amount <= expected_used + 1,
        "Used amount should be within 1 of the assets equivalent of max_shares (got {}, expected {})",
        used_amount,
        expected_used
    );
}

#[test]
fn test_max_shares_capping_nonempty_vault() {
    let mut vault = new_vault();
    deposit(&mut vault, "alice.near", 1000, "").unwrap();

    // the natural mint would be floor(1000 * 1000 / 1001) = 999 shares;
    // the cap keeps 500 and their price is ceil(500 * 1001 / 1000) = 501
    let unused = deposit(
        &mut vault,
        "bob.near",
        1000,
        "{\"max_shares\": \"500\"}",
    )
    .unwrap();
    assert_eq!(unused, 499);
    assert_eq!(vault.ft_balance_of(&"bob.near".to_string()), 500);
    assert_eq!(vault.total_assets(), 1501);
    assert_eq!(vault.ft_total_supply(), 1500);
}

#[test]
fn test_dust_amounts() {
    let mut vault = new_vault();
    deposit(&mut vault, "alice.near", 1000, "").unwrap();

    let result = deposit(&mut vault, "alice.near", 1, "");
    assert_eq!(
        result,
        Err(VaultError::ZeroAmount),
        "Dust deposit of 1 token should be rejected due to inflation resistance"
    );

    assert_eq!(
        vault.ft_balance_of(&"alice.near".to_string()),
        1000,
        "Alice should still have exactly 1000 shares after rejected dust deposit"
    );
    assert_eq!(
        vault.total_assets(),
        1000,
        "Vault should still have exactly 1000 assets after rejected dust deposit"
    );
    assert_eq!(
        vault.ft_total_supply(),
        1000,
        "Total share supply should remain 1000 after rejected dust deposit"
    );

    assert_eq!(
        vault.convert_to_shares(1),
        Ok(0),
        "1 dust asset should convert to 0 shares due to inflation resistance"
    );
    assert_eq!(
        vault.convert_to_assets(1),
        Ok(1),
        "1 dust share should convert to 1 asset with inflation adjustment"
    );
    assert_eq!(vault.convert_to_shares(0), Ok(0), "0 assets should convert to 0 shares");
    assert_eq!(vault.convert_to_assets(0), Ok(0), "0 shares should convert to 0 assets");

    assert!(
        vault.redeem("alice.near".to_string(), 0, None, None, 1).is_err(),
        "Redeeming 0 shares should fail"
    );
    assert!(
        vault.withdraw("alice.near".to_string(), 0, None, None, 1).is_err(),
        "Withdrawing 0 assets should fail"
    );
}

#[test]
fn test_deposit_withdraw_round_trip() {
    let mut vault = new_vault();
    deposit(&mut vault, "alice.near", 1000, "").unwrap();

    // round trip: deposit then immediately redeem all newly minted shares
    let unused = deposit(&mut vault, "alice.near", 1000, "").unwrap();
    let shares_received = vault.ft_balance_of(&"alice.near".to_string()) - 1000;
    assert_eq!(shares_received, 999);

    let call = vault
        .redeem("alice.near".to_string(), shares_received, None, None, 1)
        .unwrap();
    let returned = call.context.assets;
    vault.resolve_withdraw(
        "alice.near".to_string(),
        "alice.near".to_string(),
        call.context.shares,
        returned,
        None,
        true,
    );

    let paid = 1000 - unused;
    assert!(
        returned <= paid,
        "Round trip should not create profit: got {}, expected {}",
        returned,
        paid
    );
    assert!(
        paid - returned <= 1,
        "Round trip loss should be minimal: lost {}",
        paid - returned
    );
}

#[test]
fn test_unauthorized_asset_transfer() {
    let mut vault = new_vault();
    let result = vault.ft_on_transfer(
        &"fake-token.near".to_string(),
        "alice.near".to_string(),
        1000,
        "".to_string(),
    );
    assert_eq!(
        result,
        Err(VaultError::Unauthorized),
        "Should reject deposits from unauthorized token contracts"
    );
    assert_eq!(vault.total_assets(), 0);
    assert_eq!(vault.ft_total_supply(), 0);
}

#[test]
fn test_withdrawal_rollback_mechanism() {
    let mut vault = new_vault();
    deposit(&mut vault, "alice.near", 1000, "").unwrap();

    let initial_shares = vault.ft_balance_of(&"alice.near".to_string());
    let initial_total_assets = vault.total_assets();
    let initial_total_supply = vault.ft_total_supply();

    let call = vault
        .redeem(
            "alice.near".to_string(),
            500,
            Some("unregistered.near".to_string()),
            None,
            1,
        )
        .unwrap();

    // the transfer to the receiver fails: the resolution step compensates
    let result = vault.resolve_withdraw(
        call.context.owner.clone(),
        call.context.receiver.clone(),
        call.context.shares,
        call.context.assets,
        call.context.memo.clone(),
        false,
    );
    assert_eq!(result, 0, "Rollback should return 0 assets when transfer fails");

    assert_eq!(
        vault.ft_balance_of(&"alice.near".to_string()),
        initial_shares,
        "Shares should be restored on rollback"
    );
    assert_eq!(
        vault.total_assets(),
        initial_total_assets,
        "Total assets should be restored on rollback"
    );
    assert_eq!(
        vault.ft_total_supply(),
        initial_total_supply,
        "Total supply should be restored on rollback"
    );
}

#[test]
fn test_missing_intent_payment() {
    let mut vault = new_vault();
    deposit(&mut vault, "alice.near", 1000, "").unwrap();
    let result = vault.redeem("alice.near".to_string(), 500, None, None, 0);
    assert_eq!(result, Err(VaultError::Unauthorized));
    let result = vault.withdraw("alice.near".to_string(), 500, None, None, 2);
    assert_eq!(result, Err(VaultError::Unauthorized));
}
