use vstd::prelude::*;

verus! {

/// The descriptor of the underlying asset: either one line of a single-token
/// ledger, or one item of a multi-token ledger, each identified by the
/// endpoint of its external contract. Chosen at vault creation and never
/// changed.
pub enum AssetType {
    FungibleToken { contract_id: String },
    MultiToken { contract_id: String, token_id: String },
}

impl AssetType {
    /// The endpoint of the external asset ledger, as a specification value.
    pub open spec fn spec_contract_id(&self) -> Seq<char> {
        match self {
            AssetType::FungibleToken { contract_id } => contract_id@,
            AssetType::MultiToken { contract_id, .. } => contract_id@,
        }
    }

    /// The item identifier for a multi-token asset, as a specification value.
    pub open spec fn spec_token_id(&self) -> Option<Seq<char>> {
        match self {
            AssetType::FungibleToken { .. } => None,
            AssetType::MultiToken { token_id, .. } => Some(token_id@),
        }
    }

    /// The endpoint of the external asset ledger.
    pub fn contract_id(&self) -> (r: &String)
        ensures
            r@ == self.spec_contract_id(),
    {
        match self {
            AssetType::FungibleToken { contract_id } => contract_id,
            AssetType::MultiToken { contract_id, .. } => contract_id,
        }
    }

    /// The item identifier inside a multi-token ledger, when there is one.
    pub fn token_id(&self) -> (r: Option<&String>)
        ensures
            match r {
                Some(t) => self.spec_token_id() == Some(t@),
                None => self.spec_token_id() is None,
            },
    {
        match self {
            AssetType::FungibleToken { .. } => None,
            AssetType::MultiToken { token_id, .. } => Some(token_id),
        }
    }

    /// Whether the underlying asset lives on a single-token ledger.
    pub fn is_fungible_token(&self) -> (r: bool)
        ensures
            r == (self is FungibleToken),
    {
        matches!(self, AssetType::FungibleToken { .. })
    }

    /// Whether the underlying asset lives on a multi-token ledger.
    pub fn is_multi_token(&self) -> (r: bool)
        ensures
            r == (self is MultiToken),
    {
        matches!(self, AssetType::MultiToken { .. })
    }
}

} // verus!
