use vstd::prelude::*;

verus! {

/// Parameters of `instantiate`: the ledger's metadata.
#[derive(Clone, Debug, PartialEq)]
pub struct InstantiateMsg {
    pub name: String,
    pub symbol: String,
    pub decimals: u8,
}

/// Actions handled by `execute`.
#[derive(Clone, Debug, PartialEq)]
pub enum ExecuteMsg {
    /// Record `option` as the choice of `address` (controller only).
    ChooseOption { address: String, option: String },
    /// Issue `amount` new units to `recipient` (controller only).
    Mint { recipient: String, amount: u128 },
}

/// Requests answered by `query`.
#[derive(Clone, Debug, PartialEq)]
pub enum QueryMsg {
    /// The recorded choices of two participants.
    Compare { address_one: String, address_two: String },
    /// The ledger's metadata.
    TokenInfo {},
}

/// The recorded choices of the two participants named in a `Compare` query.
#[derive(Clone, Debug, PartialEq)]
pub struct CompareResponse {
    pub option_addr_one: String,
    pub option_addr_two: String,
}

/// The ledger's metadata as a `TokenInfo` query reports it.
#[derive(Clone, Debug, PartialEq)]
pub struct TokenInfoResponse {
    pub name: String,
    pub symbol: String,
    pub decimals: u8,
    pub total_supply: u128,
}

/// The answer to a `QueryMsg`, one variant per request.
#[derive(Clone, Debug, PartialEq)]
pub enum QueryResponse {
    Compare(CompareResponse),
    TokenInfo(TokenInfoResponse),
}

/// A key/value pair reported by a successful action.
#[derive(Clone, Debug, PartialEq)]
pub struct Attribute {
    pub key: String,
    pub value: String,
}

/// What a successful `instantiate` or `execute` hands back to the host.
#[derive(Clone, Debug, PartialEq)]
pub struct Response {
    /// Observable attributes of the action.
    pub attributes: Vec<Attribute>,
    /// Encoded messages for the host to dispatch after the call; this contract emits none.
    pub messages: Vec<Vec<u8>>,
}

} // verus!
