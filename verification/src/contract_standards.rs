use vstd::prelude::*;

verus! {

/// The operation surface of a share-issuing vault core, for contracts that
/// implement one: the underlying asset, the accounted pool, the conversion
/// previews, and redemption. Deposit entry points arrive through the
/// transfer-notification interfaces of the asset ledgers instead.
pub trait FungibleTokenVaultCore {
    /// The endpoint of the underlying asset's ledger.
    fn asset(&self) -> String;

    /// The accounted balance of the underlying asset.
    fn total_assets(&self) -> u128;

    /// The total supply of the vault's shares.
    fn ft_total_supply(&self) -> u128;

    /// The share balance of one account.
    fn ft_balance_of(&self, account_id: String) -> u128;

    /// Shares justified by `assets` at the current exchange rate.
    fn convert_to_shares(&self, assets: u128) -> u128;

    /// Assets owed for `shares` at the current exchange rate.
    fn convert_to_assets(&self, shares: u128) -> u128;

    /// The largest deposit the pool can still take.
    fn max_deposit(&self, receiver: String) -> u128;

    /// Preview of the shares a deposit of `assets` would mint.
    fn preview_deposit(&self, assets: u128) -> u128;

    /// The largest share amount `owner` can redeem.
    fn max_redeem(&self, owner: String) -> u128;

    /// Preview of the assets a redeem of `shares` would return.
    fn preview_redeem(&self, shares: u128) -> u128;

    /// Burns `shares` and returns the assets they are owed.
    fn redeem(&mut self, shares: u128, receiver_id: Option<String>) -> u128;
}

} // verus!
