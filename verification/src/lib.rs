//! A share-based custodial vault: depositors hand over an underlying asset and
//! receive fungible shares representing a proportional claim on the pool;
//! shares are later redeemed for assets, or burned to withdraw an exact asset
//! amount. The conversion math carries a virtual offset on the asset side so
//! that donation-inflation attacks are unprofitable, and withdrawals run as a
//! saga: an optimistic local commit, an asynchronous transfer, and a
//! compensating rollback when the transfer fails.

use vstd::prelude::*;

pub mod asset_type;
pub mod contract_standards;
pub mod error;
pub mod internal;
pub mod laws;
pub mod ledger;
pub mod message;
pub mod mul_div;
pub mod multi_token;
pub mod payload;

use crate::asset_type::AssetType;
use crate::error::VaultError;
use crate::internal::{
    assets_for_overflows, lemma_deposit_used_bounds, shares_for_overflows, spec_assets_for,
    spec_shares_for, transfer_call_spec, withdrawal_rejection, TransferCall,
};
use crate::ledger::ShareLedger;
use crate::message::{json_string_field, parse_deposit_message, spec_field_u128};
use crate::mul_div::Rounding;

verus! {

/// Receiver resolution: the caller-supplied receiver, defaulting to the
/// owner.
pub open spec fn resolve_receiver(receiver_id: Option<Seq<char>>, owner: Seq<char>) -> Seq<char> {
    match receiver_id {
        Some(r) => r,
        None => owner,
    }
}

/// The optimistic local commit of a withdrawal, as a relation between the
/// vault before and after: `shares` leave the owner's balance and the
/// supply, `assets` leave the pool, and nothing else moves.
pub open spec fn commit_transition(
    pre: ERC4626Vault,
    post: ERC4626Vault,
    owner: Seq<char>,
    shares: u128,
    assets: u128,
) -> bool {
    &&& shares <= pre.spec_balance_of(owner)
    &&& assets <= pre.total_assets
    &&& post.spec_balance_of(owner) == pre.spec_balance_of(owner) - shares
    &&& forall|id: Seq<char>| id != owner ==> post.spec_balance_of(id) == pre.spec_balance_of(id)
    &&& post.spec_total_supply() == pre.spec_total_supply() - shares
    &&& post.total_assets == pre.total_assets - assets
    &&& post.asset == pre.asset
    &&& post.metadata == pre.metadata
    &&& post.owner == pre.owner
}

/// The compensating action of a failed withdrawal, as a relation between the
/// vault before and after: `shares` return to the owner's balance and the
/// supply, `assets` return to the pool, and nothing else moves.
pub open spec fn compensation_transition(
    pre: ERC4626Vault,
    post: ERC4626Vault,
    owner: Seq<char>,
    shares: u128,
    assets: u128,
) -> bool {
    &&& post.spec_balance_of(owner) == pre.spec_balance_of(owner) + shares
    &&& forall|id: Seq<char>| id != owner ==> post.spec_balance_of(id) == pre.spec_balance_of(id)
    &&& post.spec_total_supply() == pre.spec_total_supply() + shares
    &&& post.total_assets == pre.total_assets + assets
    &&& post.asset == pre.asset
    &&& post.metadata == pre.metadata
    &&& post.owner == pre.owner
}

/// Display data for the vault's shares.
pub struct ShareMetadata {
    pub name: String,
    pub symbol: String,
    pub decimals: u8,
}

/// Storage namespaces of the vault's persistent collections.
pub enum StorageKey {
    FungibleToken,
}

/// The vault: one underlying asset, a ledger of shares issued against it, and
/// the accounted balance of the pooled asset.
pub struct ERC4626Vault {
    /// The ledger of the vault's own shares.
    pub token: ShareLedger,
    /// Display data for the shares.
    pub metadata: ShareMetadata,
    /// The underlying asset, immutable for the vault's lifetime.
    pub asset: AssetType,
    /// The vault's accounted balance of the underlying asset.
    pub total_assets: u128,
    /// The account that created the vault.
    pub owner: String,
}

impl ERC4626Vault {
    /// Well-formedness of the vault: its share ledger is well-formed.
    pub open spec fn wf(&self) -> bool {
        self.token.wf()
    }

    /// The total share supply, as a specification value.
    pub open spec fn spec_total_supply(&self) -> u128 {
        self.token.spec_total_supply()
    }

    /// The share balance of `id`, as a specification value.
    pub open spec fn spec_balance_of(&self, id: Seq<char>) -> u128 {
        self.token.spec_balance_of(id)
    }

    /// A fresh vault around `asset`: no shares issued, no assets pooled.
    pub fn new(owner_id: String, asset: AssetType, metadata: ShareMetadata) -> (r: ERC4626Vault)
        ensures
            r.wf(),
            r.total_assets == 0,
            r.spec_total_supply() == 0,
            forall|id: Seq<char>| r.spec_balance_of(id) == 0,
            r.asset == asset,
            r.metadata == metadata,
            r.owner == owner_id,
    {
        ERC4626Vault {
            token: ShareLedger::new(),
            metadata,
            asset,
            total_assets: 0,
            owner: owner_id,
        }
    }

    /// The endpoint of the external ledger of the underlying asset.
    pub fn asset(&self) -> (r: String)
        ensures
            r@ == self.asset.spec_contract_id(),
    {
        self.asset.contract_id().clone()
    }

    /// The vault's accounted balance of the underlying asset.
    pub fn total_assets(&self) -> (r: u128)
        ensures
            r == self.total_assets,
    {
        self.total_assets
    }

    /// The total supply of vault shares.
    pub fn ft_total_supply(&self) -> (r: u128)
        ensures
            r == self.spec_total_supply(),
    {
        self.token.total_supply()
    }

    /// The share balance of `account_id`.
    pub fn ft_balance_of(&self, account_id: &String) -> (r: u128)
        ensures
            r == self.spec_balance_of(account_id@),
    {
        self.token.balance_of(account_id)
    }

    /// Display data for the vault's shares.
    pub fn ft_metadata(&self) -> (r: &ShareMetadata)
        ensures
            *r == self.metadata,
    {
        &self.metadata
    }

    /// Shares justified by `assets`, rounded down: the deposit preview rate.
    pub fn convert_to_shares(&self, assets: u128) -> (r: Result<u128, VaultError>)
        ensures
            r is Ok <==> !shares_for_overflows(assets, self.total_assets, self.spec_total_supply()),
            r is Ok ==> r->Ok_0 as int == spec_shares_for(
                assets,
                self.total_assets,
                self.spec_total_supply(),
                Rounding::Down,
            ),
            r is Err ==> r->Err_0 == VaultError::ArithmeticOverflow,
    {
        self.convert_to_shares_internal(assets, Rounding::Down)
    }

    /// Assets owed for `shares`, rounded down: the redeem preview rate.
    pub fn convert_to_assets(&self, shares: u128) -> (r: Result<u128, VaultError>)
        ensures
            r is Ok <==> !assets_for_overflows(shares, self.total_assets, self.spec_total_supply()),
            r is Ok ==> r->Ok_0 as int == spec_assets_for(
                shares,
                self.total_assets,
                self.spec_total_supply(),
                Rounding::Down,
            ),
            r is Err ==> r->Err_0 == VaultError::ArithmeticOverflow,
    {
        self.convert_to_assets_internal(shares, Rounding::Down)
    }

    /// Shares that a withdrawal of `assets` would burn, rounded up so the
    /// vault is never short-changed.
    pub fn preview_withdraw(&self, assets: u128) -> (r: Result<u128, VaultError>)
        ensures
            r is Ok <==> !shares_for_overflows(assets, self.total_assets, self.spec_total_supply()),
            r is Ok ==> r->Ok_0 as int == spec_shares_for(
                assets,
                self.total_assets,
                self.spec_total_supply(),
                Rounding::Up,
            ),
            r is Err ==> r->Err_0 == VaultError::ArithmeticOverflow,
    {
        self.convert_to_shares_internal(assets, Rounding::Up)
    }

    /// The largest share amount `owner` can redeem: its balance.
    pub fn max_redeem(&self, owner: &String) -> (r: u128)
        ensures
            r == self.spec_balance_of(owner@),
    {
        self.token.balance_of(owner)
    }

    /// The largest asset amount `owner` can withdraw: the assets owed for its
    /// whole balance, rounded down.
    pub fn max_withdraw(&self, owner: &String) -> (r: Result<u128, VaultError>)
        ensures
            r is Ok <==> !assets_for_overflows(
                self.spec_balance_of(owner@),
                self.total_assets,
                self.spec_total_supply(),
            ),
            r is Ok ==> r->Ok_0 as int == spec_assets_for(
                self.spec_balance_of(owner@),
                self.total_assets,
                self.spec_total_supply(),
                Rounding::Down,
            ),
            r is Err ==> r->Err_0 == VaultError::ArithmeticOverflow,
    {
        let bal = self.token.balance_of(owner);
        self.convert_to_assets_internal(bal, Rounding::Down)
    }

    /// Burns exactly `shares` and starts the withdrawal saga for the assets
    /// they are owed, rounded down. Fails with `Unauthorized` without the
    /// one-yoctounit proof of caller intent, and with `InsufficientBalance`
    /// beyond `max_redeem`; every failure leaves the vault untouched.
    pub fn redeem(
        &mut self,
        owner: String,
        shares: u128,
        receiver_id: Option<String>,
        memo: Option<String>,
        attached_yocto: u128,
    ) -> (r: Result<TransferCall, VaultError>)
        requires
            old(self).wf(),
        ensures
            final(self).wf(),
            r is Err <==> redeem_rejection(*old(self), owner@, shares, attached_yocto) is Some,
            r is Err ==> Some(r->Err_0) == redeem_rejection(*old(self), owner@, shares, attached_yocto)
                && *final(self) == *old(self),
            r is Ok ==> commit_transition(
                *old(self),
                *final(self),
                owner@,
                shares,
                spec_redeem_assets(*old(self), shares),
            ),
            r is Ok ==> transfer_call_spec(
                r->Ok_0,
                old(self).asset,
                resolve_receiver(receiver_id.deep_view(), owner@),
                spec_redeem_assets(*old(self), shares),
                owner@,
                shares,
                memo.deep_view(),
            ),
    {
        if attached_yocto != 1 {
            return Err(VaultError::Unauthorized);
        }
        let bal = self.max_redeem(&owner);
        if shares > bal {
            return Err(VaultError::InsufficientBalance);
        }
        let assets = match self.convert_to_assets_internal(shares, Rounding::Down) {
            Ok(a) => a,
            Err(e) => {
                return Err(e);
            },
        };
        self.internal_execute_withdrawal(owner, receiver_id, shares, assets, memo)
    }

    /// Starts the withdrawal saga for exactly `assets`, burning the shares
    /// they require, rounded up. Fails with `Unauthorized` without the
    /// one-yoctounit proof of caller intent, and with `InsufficientBalance`
    /// beyond `max_withdraw`; every failure leaves the vault untouched.
    pub fn withdraw(
        &mut self,
        owner: String,
        assets: u128,
        receiver_id: Option<String>,
        memo: Option<String>,
        attached_yocto: u128,
    ) -> (r: Result<TransferCall, VaultError>)
        requires
            old(self).wf(),
        ensures
            final(self).wf(),
            r is Err <==> withdraw_rejection(*old(self), owner@, assets, attached_yocto) is Some,
            r is Err ==> Some(r->Err_0) == withdraw_rejection(
                *old(self),
                owner@,
                assets,
                attached_yocto,
            ) && *final(self) == *old(self),
            r is Ok ==> commit_transition(
                *old(self),
                *final(self),
                owner@,
                spec_withdraw_shares(*old(self), assets),
                assets,
            ),
            r is Ok ==> transfer_call_spec(
                r->Ok_0,
                old(self).asset,
                resolve_receiver(receiver_id.deep_view(), owner@),
                assets,
                owner@,
                spec_withdraw_shares(*old(self), assets),
                memo.deep_view(),
            ),
    {
        if attached_yocto != 1 {
            return Err(VaultError::Unauthorized);
        }
        let max_assets = match self.max_withdraw(&owner) {
            Ok(a) => a,
            Err(e) => {
                return Err(e);
            },
        };
        if assets > max_assets {
            return Err(VaultError::InsufficientBalance);
        }
        let shares = match self.convert_to_shares_internal(assets, Rounding::Up) {
            Ok(s) => s,
            Err(e) => {
                return Err(e);
            },
        };
        self.internal_execute_withdrawal(owner, receiver_id, shares, assets, memo)
    }

    /// The resolution step of the withdrawal saga, run exactly once after the
    /// external transfer settles, with the exact saga payload it was
    /// scheduled with. On success the committed state stands and the caller
    /// is owed `assets`; on failure the shares and the pooled assets return
    /// to where they were and the caller observes zero.
    #[allow(unused_variables)]
    pub fn resolve_withdraw(
        &mut self,
        owner: String,
        receiver: String,
        shares: u128,
        assets: u128,
        memo: Option<String>,
        transfer_succeeded: bool,
    ) -> (r: u128)
        requires
            old(self).wf(),
            !transfer_succeeded ==> old(self).spec_total_supply() + shares <= u128::MAX,
            !transfer_succeeded ==> old(self).total_assets + assets <= u128::MAX,
        ensures
            final(self).wf(),
            transfer_succeeded ==> *final(self) == *old(self) && r == assets,
            !transfer_succeeded ==> compensation_transition(
                *old(self),
                *final(self),
                owner@,
                shares,
                assets,
            ) && r == 0,
    {
        if transfer_succeeded {
            assets
        } else {
            self.token.credit(&owner, shares);
            self.total_assets = self.total_assets + assets;
            0
        }
    }

    /// Handles an inbound transfer notification from the external asset
    /// ledger: validates the origin, applies the slippage bounds carried in
    /// `msg`, mints the justified shares to the resolved receiver, grows the
    /// pool by exactly the assets those shares cost, and reports the unused
    /// remainder for refund — the vault never issues its own transfer for
    /// it. A deposit too small to earn a share is refused whole, and every
    /// refusal leaves the vault untouched.
    pub fn ft_on_transfer(
        &mut self,
        predecessor_id: &String,
        sender_id: String,
        amount: u128,
        msg: String,
    ) -> (r: Result<u128, VaultError>)
        requires
            old(self).wf(),
        ensures
            final(self).wf(),
            r is Err <==> deposit_rejection(*old(self), predecessor_id@, amount, msg@) is Some,
            r is Err ==> Some(r->Err_0) == deposit_rejection(
                *old(self),
                predecessor_id@,
                amount,
                msg@,
            ) && *final(self) == *old(self),
            r is Ok ==> final(self).spec_balance_of(spec_deposit_receiver(msg@, sender_id@)) == old(
                self,
            ).spec_balance_of(spec_deposit_receiver(msg@, sender_id@)) + spec_deposit_shares(
                *old(self),
                amount,
                msg@,
            ),
            r is Ok ==> forall|id: Seq<char>|
                id != spec_deposit_receiver(msg@, sender_id@) ==> final(self).spec_balance_of(id)
                    == old(self).spec_balance_of(id),
            r is Ok ==> final(self).spec_total_supply() == old(self).spec_total_supply()
                + spec_deposit_shares(*old(self), amount, msg@),
            r is Ok ==> final(self).total_assets == old(self).total_assets + spec_deposit_used(
                *old(self),
                amount,
                msg@,
            ),
            r is Ok ==> final(self).asset == old(self).asset && final(self).metadata == old(
                self,
            ).metadata && final(self).owner == old(self).owner,
            r is Ok ==> r->Ok_0 as int == amount - spec_deposit_used(*old(self), amount, msg@),
    {
        if !(*predecessor_id == *self.asset.contract_id()) {
            return Err(VaultError::Unauthorized);
        }
        let parsed = parse_deposit_message(msg.as_str());
        let max_new_shares = match self.convert_to_shares_internal(amount, Rounding::Down) {
            Ok(v) => v,
            Err(e) => {
                return Err(e);
            },
        };
        match parsed.min_shares {
            Some(m) => if max_new_shares < m {
                return Err(VaultError::SlippageViolation);
            },
            None => {},
        }
        let shares = match parsed.max_shares {
            Some(m) => if max_new_shares > m {
                m
            } else {
                max_new_shares
            },
            None => max_new_shares,
        };
        let supply = self.token.total_supply();
        let used: u128;
        if supply == 0 {
            used = shares;
        } else {
            proof {
                lemma_deposit_used_bounds(amount, self.total_assets, supply, shares);
            }
            used = match self.convert_to_assets_internal(shares, Rounding::Up) {
                Ok(u) => u,
                Err(e) => {
                    return Err(e);
                },
            };
        }
        let unused = amount - used;
        if used == 0 {
            return Err(VaultError::ZeroAmount);
        }
        let receiver = match parsed.receiver_id {
            Some(rid) => rid,
            None => sender_id,
        };
        match supply.checked_add(shares) {
            None => {
                return Err(VaultError::ArithmeticOverflow);
            },
            Some(_) => {},
        }
        let new_total = match self.total_assets.checked_add(used) {
            None => {
                return Err(VaultError::ArithmeticOverflow);
            },
            Some(t) => t,
        };
        self.token.credit(&receiver, shares);
        self.total_assets = new_total;
        Ok(unused)
    }
}

/// The largest share count a deposit of `amount` can mint: the preview
/// rate, rounded down.
pub open spec fn spec_deposit_max_new_shares(v: ERC4626Vault, amount: u128) -> int {
    spec_shares_for(amount, v.total_assets, v.spec_total_supply(), Rounding::Down)
}

/// The shares a deposit of `amount` mints: the preview rate, capped by the
/// `max_shares` bound of the message when one is present.
pub open spec fn spec_deposit_shares(v: ERC4626Vault, amount: u128, msg: Seq<char>) -> int {
    let n = spec_deposit_max_new_shares(v, amount);
    match spec_field_u128(msg, "max_shares"@) {
        Some(m) => if n > m { m as int } else { n },
        None => n,
    }
}

/// The assets a deposit of `amount` actually costs: what the minted shares
/// are worth rounded up — one-to-one while no shares exist.
pub open spec fn spec_deposit_used(v: ERC4626Vault, amount: u128, msg: Seq<char>) -> int {
    if v.spec_total_supply() == 0 {
        spec_deposit_shares(v, amount, msg)
    } else {
        spec_assets_for(
            spec_deposit_shares(v, amount, msg) as u128,
            v.total_assets,
            v.spec_total_supply(),
            Rounding::Up,
        )
    }
}

/// The account credited with the minted shares: the receiver named in the
/// message, defaulting to the sender.
pub open spec fn spec_deposit_receiver(msg: Seq<char>, sender: Seq<char>) -> Seq<char> {
    resolve_receiver(json_string_field(msg, "receiver_id"@), sender)
}

/// Why a deposit notification is refused, if it is: wrong origin, a product
/// beyond the 128-bit range, a missed `min_shares` bound, a deposit too small
/// to earn a share, or growth beyond the 128-bit range.
pub open spec fn deposit_rejection(
    v: ERC4626Vault,
    predecessor: Seq<char>,
    amount: u128,
    msg: Seq<char>,
) -> Option<VaultError> {
    if predecessor != v.asset.spec_contract_id() {
        Some(VaultError::Unauthorized)
    } else if shares_for_overflows(amount, v.total_assets, v.spec_total_supply()) {
        Some(VaultError::ArithmeticOverflow)
    } else if (match spec_field_u128(msg, "min_shares"@) {
        Some(m) => spec_deposit_max_new_shares(v, amount) < m,
        None => false,
    }) {
        Some(VaultError::SlippageViolation)
    } else if spec_deposit_used(v, amount, msg) == 0 {
        Some(VaultError::ZeroAmount)
    } else if v.spec_total_supply() + spec_deposit_shares(v, amount, msg) > u128::MAX {
        Some(VaultError::ArithmeticOverflow)
    } else if v.total_assets + spec_deposit_used(v, amount, msg) > u128::MAX {
        Some(VaultError::ArithmeticOverflow)
    } else {
        None
    }
}

/// Why a redeem is refused at the given state, if it is.
pub open spec fn redeem_rejection(
    v: ERC4626Vault,
    owner: Seq<char>,
    shares: u128,
    attached_yocto: u128,
) -> Option<VaultError> {
    if attached_yocto != 1 {
        Some(VaultError::Unauthorized)
    } else if shares > v.spec_balance_of(owner) {
        Some(VaultError::InsufficientBalance)
    } else if assets_for_overflows(shares, v.total_assets, v.spec_total_supply()) {
        Some(VaultError::ArithmeticOverflow)
    } else {
        withdrawal_rejection(v, owner, shares, spec_redeem_assets(v, shares))
    }
}

/// The assets a redeem of `shares` transfers: the owed amount, rounded down.
pub open spec fn spec_redeem_assets(v: ERC4626Vault, shares: u128) -> u128 {
    spec_assets_for(shares, v.total_assets, v.spec_total_supply(), Rounding::Down) as u128
}

/// Why a withdraw is refused at the given state, if it is.
pub open spec fn withdraw_rejection(
    v: ERC4626Vault,
    owner: Seq<char>,
    assets: u128,
    attached_yocto: u128,
) -> Option<VaultError> {
    if attached_yocto != 1 {
        Some(VaultError::Unauthorized)
    } else if assets_for_overflows(v.spec_balance_of(owner), v.total_assets, v.spec_total_supply()) {
        Some(VaultError::ArithmeticOverflow)
    } else if assets as int > spec_assets_for(
        v.spec_balance_of(owner),
        v.total_assets,
        v.spec_total_supply(),
        Rounding::Down,
    ) {
        Some(VaultError::InsufficientBalance)
    } else if shares_for_overflows(assets, v.total_assets, v.spec_total_supply()) {
        Some(VaultError::ArithmeticOverflow)
    } else {
        withdrawal_rejection(v, owner, spec_withdraw_shares(v, assets), assets)
    }
}

/// The shares a withdraw of `assets` burns: the required amount, rounded up.
pub open spec fn spec_withdraw_shares(v: ERC4626Vault, assets: u128) -> u128 {
    spec_shares_for(assets, v.total_assets, v.spec_total_supply(), Rounding::Up) as u128
}

} // verus!
