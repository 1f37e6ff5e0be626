use vstd::prelude::*;
use vstd::string::StringExecFns;

use crate::asset_type::AssetType;
use crate::error::VaultError;
use crate::mul_div::{
    lemma_div_mul_le, lemma_div_up_le, lemma_mul_div_exact, mul_div, rounded_div, Rounding,
};
use crate::payload::{append_dec, append_json_opt_string, dec_digits, json_opt_string};
use crate::ERC4626Vault;

verus! {

/// Attached compute budget for the outbound asset transfer, in teragas.
pub const GAS_FOR_FT_TRANSFER_TGAS: u64 = 30;

/// Attached compute budget for the resolution continuation, in teragas.
pub const GAS_FOR_RESOLVE_TGAS: u64 = 10;

/// The saga payload of an in-flight withdrawal, carried through the
/// asynchronous call chain. It is the sole record of the withdrawal: the
/// resolution step receives exactly these values and either finalizes or
/// compensates with them.
#[derive(PartialEq, Eq, Debug)]
pub struct WithdrawalContext {
    pub owner: String,
    pub receiver: String,
    pub shares: u128,
    pub assets: u128,
    pub memo: Option<String>,
}

/// The outbound transfer invocation of a withdrawal, together with the
/// resolution continuation chained after it.
#[derive(PartialEq, Eq, Debug)]
pub struct TransferCall {
    /// The external asset ledger to call.
    pub contract_id: String,
    /// The transfer method on that ledger.
    pub method_name: String,
    /// The JSON arguments of the transfer.
    pub args: String,
    /// Attached payment, in yoctounits.
    pub deposit_yoctonear: u128,
    /// Attached compute budget of the transfer, in teragas.
    pub gas_tgas: u64,
    /// The self-addressed resolution method to run after the transfer.
    pub callback_method: String,
    /// The JSON arguments of the resolution continuation.
    pub callback_args: String,
    /// Attached compute budget of the continuation, in teragas.
    pub callback_gas_tgas: u64,
    /// The saga payload, as plain values.
    pub context: WithdrawalContext,
}

/// Shares justified by `assets` at the given state: one-to-one while no
/// shares exist, otherwise `assets * supply / (total_assets + 1)` under the
/// given rounding. The `+ 1` virtual offset applies to the asset side only.
pub open spec fn spec_shares_for(
    assets: u128,
    total_assets: u128,
    supply: u128,
    rounding: Rounding,
) -> int {
    if supply == 0 {
        assets as int
    } else {
        rounded_div(assets as int * supply as int, total_assets as int + 1, rounding)
    }
}

/// Whether computing `spec_shares_for` leaves the 128-bit range.
pub open spec fn shares_for_overflows(assets: u128, total_assets: u128, supply: u128) -> bool {
    supply != 0 && (total_assets == u128::MAX || assets as int * supply as int > u128::MAX)
}

/// Assets owed for `shares` at the given state: nothing when no shares
/// exist, otherwise `shares * (total_assets + 1) / supply` under the given
/// rounding.
pub open spec fn spec_assets_for(
    shares: u128,
    total_assets: u128,
    supply: u128,
    rounding: Rounding,
) -> int {
    if supply == 0 {
        0
    } else {
        rounded_div(shares as int * (total_assets as int + 1), supply as int, rounding)
    }
}

/// Whether computing `spec_assets_for` leaves the 128-bit range.
pub open spec fn assets_for_overflows(shares: u128, total_assets: u128, supply: u128) -> bool {
    supply != 0 && (total_assets == u128::MAX || shares as int * (total_assets as int + 1)
        > u128::MAX)
}

/// The JSON arguments of a single-token transfer.
pub open spec fn ft_transfer_args(receiver: Seq<char>, amount: u128) -> Seq<char> {
    "{\"receiver_id\": \""@ + receiver + "\", \"amount\": \""@ + dec_digits(amount as int) + "\"}"@
}

/// The JSON arguments of a multi-token transfer.
pub open spec fn mt_transfer_args(receiver: Seq<char>, token_id: Seq<char>, amount: u128) -> Seq<
    char,
> {
    "{\"receiver_id\": \""@ + receiver + "\", \"token_id\": \""@ + token_id + "\", \"amount\": \""@
        + dec_digits(amount as int) + "\", \"approval\": null, \"memo\": null}"@
}

/// The JSON arguments of the resolution continuation.
pub open spec fn resolve_withdraw_args(
    owner: Seq<char>,
    receiver: Seq<char>,
    shares: u128,
    assets: u128,
    memo: Option<Seq<char>>,
) -> Seq<char> {
    "{\"owner\": \""@ + owner + "\", \"receiver\": \""@ + receiver + "\", \"shares\": \""@
        + dec_digits(shares as int) + "\", \"assets\": \""@ + dec_digits(assets as int)
        + "\", \"memo\": "@ + json_opt_string(memo) + "}"@
}

/// What a well-built outbound transfer invocation holds: the transfer call
/// that the asset descriptor prescribes for `amount` to `receiver`, and a
/// resolution continuation carrying exactly the saga payload.
pub open spec fn transfer_call_spec(
    r: TransferCall,
    asset: AssetType,
    receiver: Seq<char>,
    amount: u128,
    owner: Seq<char>,
    shares: u128,
    memo: Option<Seq<char>>,
) -> bool {
    &&& r.contract_id@ == asset.spec_contract_id()
    &&& match asset {
        AssetType::FungibleToken { .. } => {
            &&& r.method_name@ == "ft_transfer"@
            &&& r.args@ == ft_transfer_args(receiver, amount)
        },
        AssetType::MultiToken { token_id, .. } => {
            &&& r.method_name@ == "mt_transfer"@
            &&& r.args@ == mt_transfer_args(receiver, token_id@, amount)
        },
    }
    &&& r.deposit_yoctonear == 1
    &&& r.gas_tgas == GAS_FOR_FT_TRANSFER_TGAS
    &&& r.callback_method@ == "resolve_withdraw"@
    &&& r.callback_args@ == resolve_withdraw_args(owner, receiver, shares, amount, memo)
    &&& r.callback_gas_tgas == GAS_FOR_RESOLVE_TGAS
    &&& r.context.owner@ == owner
    &&& r.context.receiver@ == receiver
    &&& r.context.shares == shares
    &&& r.context.assets == amount
    &&& r.context.memo.deep_view() == memo
}

/// Why a withdrawal commit is refused at the given state, if it is: the
/// owner must hold the shares, the transfer must move something, and the
/// pool must cover it.
pub open spec fn withdrawal_rejection(
    v: ERC4626Vault,
    owner: Seq<char>,
    shares: u128,
    assets: u128,
) -> Option<VaultError> {
    if v.spec_balance_of(owner) < shares {
        Some(VaultError::InsufficientBalance)
    } else if assets == 0 {
        Some(VaultError::ZeroAmount)
    } else if assets > v.total_assets {
        Some(VaultError::InsufficientBalance)
    } else {
        None
    }
}

/// Share counts bounded by the deposit preview never cost more than the
/// deposited amount: their asset price stays within the 128-bit range and,
/// rounded up, within `amount`.
pub(crate) proof fn lemma_deposit_used_bounds(amount: u128, ta: u128, s: u128, shares: u128)
    requires
        s > 0,
        !shares_for_overflows(amount, ta, s),
        shares as int <= spec_shares_for(amount, ta, s, Rounding::Down),
    ensures
        shares as int * (ta as int + 1) <= amount as int * s as int,
        !assets_for_overflows(shares, ta, s),
        spec_assets_for(shares, ta, s, Rounding::Up) <= amount,
{
    let x = amount as int * s as int;
    let d = ta as int + 1;
    lemma_div_mul_le(x, d);
    vstd::arithmetic::mul::lemma_mul_inequality(shares as int, x / d, d);
    vstd::arithmetic::mul::lemma_mul_nonnegative(shares as int, d);
    lemma_div_up_le(shares as int * d, x, s as int);
    lemma_mul_div_exact(amount as int, s as int);
}

/// Shares minted for a multi-token deposit of `amount`: the plain preview
/// rate, with no slippage bounds.
pub open spec fn mt_deposit_shares(v: ERC4626Vault, amount: u128) -> int {
    spec_shares_for(amount, v.total_assets, v.spec_total_supply(), Rounding::Down)
}

/// Why a multi-token deposit into a multi-token vault is refused, if it is:
/// the notification must come from the configured contract, carry exactly
/// one item, name the configured item, and fit the 128-bit range.
pub open spec fn mt_deposit_rejection(
    v: ERC4626Vault,
    predecessor: Seq<char>,
    token_ids: Seq<Seq<char>>,
    amounts: Seq<u128>,
) -> Option<VaultError> {
    if predecessor != v.asset.spec_contract_id() {
        Some(VaultError::Unauthorized)
    } else if token_ids.len() != 1 || amounts.len() != 1 {
        Some(VaultError::Unauthorized)
    } else if Some(token_ids[0]) != v.asset.spec_token_id() {
        Some(VaultError::Unauthorized)
    } else if shares_for_overflows(amounts[0], v.total_assets, v.spec_total_supply()) {
        Some(VaultError::ArithmeticOverflow)
    } else if v.spec_total_supply() + mt_deposit_shares(v, amounts[0]) > u128::MAX {
        Some(VaultError::ArithmeticOverflow)
    } else if v.total_assets + amounts[0] > u128::MAX {
        Some(VaultError::ArithmeticOverflow)
    } else {
        None
    }
}

fn build_ft_transfer_args(receiver_id: &String, amount: u128) -> (r: String)
    ensures
        r@ == ft_transfer_args(receiver_id@, amount),
{
    let mut s = String::new();
    s.append("{\"receiver_id\": \"");
    s.append(receiver_id.as_str());
    s.append("\", \"amount\": \"");
    append_dec(&mut s, amount);
    s.append("\"}");
    proof {
        assert(s@ =~= ft_transfer_args(receiver_id@, amount));
    }
    s
}

fn build_mt_transfer_args(receiver_id: &String, token_id: &String, amount: u128) -> (r: String)
    ensures
        r@ == mt_transfer_args(receiver_id@, token_id@, amount),
{
    let mut s = String::new();
    s.append("{\"receiver_id\": \"");
    s.append(receiver_id.as_str());
    s.append("\", \"token_id\": \"");
    s.append(token_id.as_str());
    s.append("\", \"amount\": \"");
    append_dec(&mut s, amount);
    s.append("\", \"approval\": null, \"memo\": null}");
    proof {
        assert(s@ =~= mt_transfer_args(receiver_id@, token_id@, amount));
    }
    s
}

fn build_resolve_withdraw_args(
    owner: &String,
    receiver: &String,
    shares: u128,
    assets: u128,
    memo: &Option<String>,
) -> (r: String)
    ensures
        r@ == resolve_withdraw_args(owner@, receiver@, shares, assets, memo.deep_view()),
{
    let mut s = String::new();
    s.append("{\"owner\": \"");
    s.append(owner.as_str());
    s.append("\", \"receiver\": \"");
    s.append(receiver.as_str());
    s.append("\", \"shares\": \"");
    append_dec(&mut s, shares);
    s.append("\", \"assets\": \"");
    append_dec(&mut s, assets);
    s.append("\", \"memo\": ");
    append_json_opt_string(&mut s, memo);
    s.append("}");
    proof {
        assert(s@ =~= resolve_withdraw_args(owner@, receiver@, shares, assets, memo.deep_view()));
    }
    s
}

impl ERC4626Vault {
    /// Shares justified by `assets` at the current state, or the overflow
    /// error when the product leaves the 128-bit range.
    pub fn convert_to_shares_internal(&self, assets: u128, rounding: Rounding) -> (r: Result<
        u128,
        VaultError,
    >)
        ensures
            r is Ok <==> !shares_for_overflows(assets, self.total_assets, self.spec_total_supply()),
            r is Ok ==> r->Ok_0 as int == spec_shares_for(
                assets,
                self.total_assets,
                self.spec_total_supply(),
                rounding,
            ),
            r is Err ==> r->Err_0 == VaultError::ArithmeticOverflow,
    {
        let supply = self.token.total_supply();
        if supply == 0 {
            return Ok(assets);
        }
        match self.total_assets.checked_add(1) {
            None => Err(VaultError::ArithmeticOverflow),
            Some(assets_adj) => mul_div(assets, supply, assets_adj, rounding),
        }
    }

    /// Assets owed for `shares` at the current state, or the overflow error
    /// when the product leaves the 128-bit range.
    pub fn convert_to_assets_internal(&self, shares: u128, rounding: Rounding) -> (r: Result<
        u128,
        VaultError,
    >)
        ensures
            r is Ok <==> !assets_for_overflows(shares, self.total_assets, self.spec_total_supply()),
            r is Ok ==> r->Ok_0 as int == spec_assets_for(
                shares,
                self.total_assets,
                self.spec_total_supply(),
                rounding,
            ),
            r is Err ==> r->Err_0 == VaultError::ArithmeticOverflow,
    {
        let supply = self.token.total_supply();
        if supply == 0 {
            return Ok(0);
        }
        match self.total_assets.checked_add(1) {
            None => Err(VaultError::ArithmeticOverflow),
            Some(assets_adj) => mul_div(shares, assets_adj, supply, rounding),
        }
    }

    /// Builds the outbound transfer invocation for `amount` of the underlying
    /// asset to `receiver_id`, chained to the resolution continuation that
    /// carries the full saga payload.
    pub fn internal_transfer_assets_with_callback(
        &self,
        receiver_id: String,
        amount: u128,
        owner: String,
        shares: u128,
        memo: Option<String>,
    ) -> (r: TransferCall)
        ensures
            transfer_call_spec(
                r,
                self.asset,
                receiver_id@,
                amount,
                owner@,
                shares,
                memo.deep_view(),
            ),
    {
        let callback_args = build_resolve_withdraw_args(&owner, &receiver_id, shares, amount, &memo);
        let (method_name, args) = match &self.asset {
            AssetType::FungibleToken { contract_id: _ } => {
                (String::from_str("ft_transfer"), build_ft_transfer_args(&receiver_id, amount))
            },
            AssetType::MultiToken { contract_id: _, token_id } => {
                (String::from_str("mt_transfer"), build_mt_transfer_args(
                    &receiver_id,
                    token_id,
                    amount,
                ))
            },
        };
        TransferCall {
            contract_id: self.asset.contract_id().clone(),
            method_name,
            args,
            deposit_yoctonear: 1,
            gas_tgas: GAS_FOR_FT_TRANSFER_TGAS,
            callback_method: String::from_str("resolve_withdraw"),
            callback_args,
            callback_gas_tgas: GAS_FOR_RESOLVE_TGAS,
            context: WithdrawalContext { owner, receiver: receiver_id, shares, assets: amount, memo },
        }
    }

    /// The synchronous leg of the withdrawal saga: validates entitlement,
    /// burns `shares_to_burn` and removes `assets_to_transfer` from the pool
    /// before any external interaction, and hands back the outbound transfer
    /// to issue. A rejected withdrawal leaves the vault untouched.
    pub fn internal_execute_withdrawal(
        &mut self,
        owner: String,
        receiver_id: Option<String>,
        shares_to_burn: u128,
        assets_to_transfer: u128,
        memo: Option<String>,
    ) -> (r: Result<TransferCall, VaultError>)
        requires
            old(self).wf(),
        ensures
            final(self).wf(),
            r is Err <==> withdrawal_rejection(
                *old(self),
                owner@,
                shares_to_burn,
                assets_to_transfer,
            ) is Some,
            r is Err ==> Some(r->Err_0) == withdrawal_rejection(
                *old(self),
                owner@,
                shares_to_burn,
                assets_to_transfer,
            ) && *final(self) == *old(self),
            r is Ok ==> crate::commit_transition(
                *old(self),
                *final(self),
                owner@,
                shares_to_burn,
                assets_to_transfer,
            ),
            r is Ok ==> transfer_call_spec(
                r->Ok_0,
                old(self).asset,
                crate::resolve_receiver(receiver_id.deep_view(), owner@),
                assets_to_transfer,
                owner@,
                shares_to_burn,
                memo.deep_view(),
            ),
    {
        let receiver_id = match receiver_id {
            Some(r) => r,
            None => owner.clone(),
        };
        if self.token.balance_of(&owner) < shares_to_burn {
            return Err(VaultError::InsufficientBalance);
        }
        if assets_to_transfer == 0 {
            return Err(VaultError::ZeroAmount);
        }
        if assets_to_transfer > self.total_assets {
            return Err(VaultError::InsufficientBalance);
        }
        self.token.debit(&owner, shares_to_burn);
        self.total_assets = self.total_assets - assets_to_transfer;
        Ok(self.internal_transfer_assets_with_callback(
            receiver_id,
            assets_to_transfer,
            owner,
            shares_to_burn,
            memo,
        ))
    }

    /// Handles a multi-token transfer notification. A vault over a
    /// single-token asset echoes the amounts back, rejecting them all. A
    /// multi-token vault validates origin and item, then takes the whole
    /// amount as a plain deposit — no slippage bounds, no dust rejection —
    /// minting the justified shares to the sender and accepting every unit;
    /// any refusal leaves the vault untouched.
    #[allow(unused_variables)]
    pub fn handle_mt_deposit(
        &mut self,
        predecessor_id: &String,
        sender_id: String,
        token_ids: Vec<String>,
        amounts: Vec<u128>,
        msg: String,
    ) -> (r: Result<Vec<u128>, VaultError>)
        requires
            old(self).wf(),
        ensures
            final(self).wf(),
            !(old(self).asset is MultiToken) ==> r is Ok && r->Ok_0@ == amounts@ && *final(self)
                == *old(self),
            old(self).asset is MultiToken ==> (r is Err <==> mt_deposit_rejection(
                *old(self),
                predecessor_id@,
                token_ids.deep_view(),
                amounts@,
            ) is Some),
            old(self).asset is MultiToken && r is Err ==> Some(r->Err_0) == mt_deposit_rejection(
                *old(self),
                predecessor_id@,
                token_ids.deep_view(),
                amounts@,
            ) && *final(self) == *old(self),
            old(self).asset is MultiToken && r is Ok ==> {
                &&& final(self).spec_balance_of(sender_id@) == old(self).spec_balance_of(sender_id@)
                    + mt_deposit_shares(*old(self), amounts@[0])
                &&& forall|id: Seq<char>|
                    id != sender_id@ ==> final(self).spec_balance_of(id) == old(
                        self,
                    ).spec_balance_of(id)
                &&& final(self).spec_total_supply() == old(self).spec_total_supply()
                    + mt_deposit_shares(*old(self), amounts@[0])
                &&& final(self).total_assets == old(self).total_assets + amounts@[0]
                &&& final(self).asset == old(self).asset
                &&& final(self).metadata == old(self).metadata
                &&& final(self).owner == old(self).owner
                &&& r->Ok_0@ == seq![0u128]
            },
    {
        if !self.asset.is_multi_token() {
            return Ok(amounts);
        }
        if !(*predecessor_id == *self.asset.contract_id()) {
            return Err(VaultError::Unauthorized);
        }
        if token_ids.len() != 1 {
            return Err(VaultError::Unauthorized);
        }
        if amounts.len() != 1 {
            return Err(VaultError::Unauthorized);
        }
        let configured = match self.asset.token_id() {
            Some(t) => t,
            None => {
                return Err(VaultError::Unauthorized);
            },
        };
        if !(token_ids[0] == *configured) {
            return Err(VaultError::Unauthorized);
        }
        let amount = amounts[0];
        let shares = match self.convert_to_shares_internal(amount, Rounding::Down) {
            Ok(v) => v,
            Err(e) => {
                return Err(e);
            },
        };
        let supply = self.token.total_supply();
        match supply.checked_add(shares) {
            None => {
                return Err(VaultError::ArithmeticOverflow);
            },
            Some(_) => {},
        }
        let new_total = match self.total_assets.checked_add(amount) {
            None => {
                return Err(VaultError::ArithmeticOverflow);
            },
            Some(t) => t,
        };
        self.token.credit(&sender_id, shares);
        self.total_assets = new_total;
        let mut accepted: Vec<u128> = Vec::new();
        accepted.push(0);
        Ok(accepted)
    }
}

} // verus!
