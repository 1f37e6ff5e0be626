use vstd::prelude::*;

verus! {

/// Receiver side of a multi-token transfer notification: what a contract
/// accepting multi-token deposits exposes to the external asset ledger. The
/// result echoes, per item, the amount it does not keep.
pub trait MultiTokenReceiver {
    fn mt_on_transfer(
        &mut self,
        sender_id: String,
        previous_owner_id: String,
        token_ids: Vec<String>,
        amounts: Vec<u128>,
        msg: String,
    ) -> Vec<u128>;
}

} // verus!
