//! The fungible-token ledger: cw20-base's state, kept in a cosmwasm
//! `MemoryStorage`, and the address normalization of cosmwasm's `Api`.
//! Every call into those crates goes through one of the items below.
use cosmwasm_std::testing::{mock_env, mock_info, MockApi, MockQuerier};
use cosmwasm_std::{Addr, Api, CanonicalAddr, Deps, DepsMut, MemoryStorage, QuerierWrapper, Uint128};
use cw20_base::state::TOKEN_INFO;
use cw20_base::ContractError as Cw20Error;
use vstd::prelude::*;

use crate::error::ContractError;
use crate::msg::{Attribute, TokenInfoResponse};

verus! {

#[verifier::external_type_specification]
#[verifier::external_body]
pub struct ExMemoryStorage(MemoryStorage);

/// The metadata record as plain values:
/// (name, symbol, decimals, total supply, controller and its optional supply cap).
pub type LedgerMeta = (Seq<char>, Seq<char>, u8, u128, Option<(Seq<char>, Option<u128>)>);

/// The metadata record that cw20-base keeps in a storage (`TOKEN_INFO`);
/// `None` where no record decodes.
pub uninterp spec fn ledger_token_info(s: MemoryStorage) -> Option<(Seq<char>, Seq<char>, u8, u128, Option<(Seq<char>, Option<u128>)>)>;

/// The balances that cw20-base keeps in a storage (`BALANCES`), by address;
/// `None` where an entry does not decode.
pub uninterp spec fn ledger_balances(s: MemoryStorage) -> Option<Map<Seq<char>, u128>>;

/// The (contract, version) record that cw2 keeps in a storage; `None` where
/// no record decodes.
pub uninterp spec fn contract_version_of(s: MemoryStorage) -> Option<(Seq<char>, Seq<char>)>;

/// The canonical bytes that `MockApi::addr_canonicalize` gives for a text address.
pub uninterp spec fn canonical_of(a: Seq<char>) -> Option<Seq<u8>>;

/// The text address that `MockApi::addr_humanize` gives for canonical bytes.
pub uninterp spec fn humanized_of(c: Seq<u8>) -> Option<Seq<char>>;

/// The controller of a ledger and the cap on what it may mint.
#[derive(Clone, Debug, PartialEq)]
pub struct MinterData {
    pub minter: String,
    pub cap: Option<u128>,
}

/// The ledger's metadata record.
#[derive(Clone, Debug, PartialEq)]
pub struct TokenInfo {
    pub name: String,
    pub symbol: String,
    pub decimals: u8,
    pub total_supply: u128,
    pub mint: Option<MinterData>,
}

pub open spec fn minter_view(m: Option<MinterData>) -> Option<(Seq<char>, Option<u128>)> {
    match m {
        Some(d) => Some((d.minter@, d.cap)),
        None => None,
    }
}

impl View for TokenInfo {
    type V = LedgerMeta;

    open spec fn view(&self) -> LedgerMeta {
        (self.name@, self.symbol@, self.decimals, self.total_supply, minter_view(self.mint))
    }
}

pub open spec fn token_info_view(t: Option<TokenInfo>) -> Option<LedgerMeta> {
    match t {
        Some(i) => Some(i@),
        None => None,
    }
}

pub open spec fn bytes_view(v: Option<Vec<u8>>) -> Option<Seq<u8>> {
    match v {
        Some(b) => Some(b@),
        None => None,
    }
}

pub open spec fn text_view(v: Option<String>) -> Option<Seq<char>> {
    match v {
        Some(s) => Some(s@),
        None => None,
    }
}

/// The canonical form of a text address: canonicalize, then humanize.
pub open spec fn normalized_address(a: Seq<char>) -> Option<Seq<char>> {
    match canonical_of(a) {
        Some(c) => humanized_of(c),
        None => None,
    }
}

/// Why the ledger refuses a mint by `sender`, if it does: no metadata, a caller
/// other than the controller, or a supply that would pass the cap.
pub open spec fn mint_refusal(m: Option<LedgerMeta>, sender: Seq<char>, amount: u128) -> Option<ContractError> {
    match m {
        None => Some(ContractError::Unauthorized),
        Some(info) => match info.4 {
            None => Some(ContractError::Unauthorized),
            Some(d) => if d.0 != sender {
                Some(ContractError::Unauthorized)
            } else if d.1 matches Some(cap) && info.3 + amount > cap {
                Some(ContractError::CannotExceedCap)
            } else {
                None
            },
        },
    }
}

/// The metadata with `amount` more units in circulation.
pub open spec fn raised_supply(m: Option<LedgerMeta>, amount: u128) -> Option<LedgerMeta> {
    match m {
        Some(info) => Some((info.0, info.1, info.2, (info.3 + amount) as u128, info.4)),
        None => None,
    }
}

/// The balance of `a`: zero where it holds none.
pub open spec fn balance_of(b: Map<Seq<char>, u128>, a: Seq<char>) -> u128 {
    if b.contains_key(a) {
        b[a]
    } else {
        0
    }
}

/// The balances after `amount` units are credited to `a`.
pub open spec fn credited(b: Map<Seq<char>, u128>, a: Seq<char>, amount: u128) -> Map<Seq<char>, u128> {
    b.insert(a, (balance_of(b, a) + amount) as u128)
}

pub open spec fn digit_char(d: nat) -> char {
    if d == 0 { '0' } else if d == 1 { '1' } else if d == 2 { '2' } else if d == 3 { '3' }
    else if d == 4 { '4' } else if d == 5 { '5' } else if d == 6 { '6' } else if d == 7 { '7' }
    else if d == 8 { '8' } else { '9' }
}

/// The decimal digits of `n`, most significant first, with no leading zero.
pub open spec fn decimal_digits(n: nat) -> Seq<char>
    decreases n,
{
    if n < 10 {
        seq![digit_char(n)]
    } else {
        decimal_digits(n / 10).push(digit_char(n % 10))
    }
}

/// The attributes that cw20-base's mint reports: the action, the recipient
/// and the amount in decimal.
pub open spec fn mint_attributes(a: Seq<Attribute>, recipient: Seq<char>, amount: u128) -> bool {
    &&& a.len() == 3
    &&& a[0].key@ == "action"@ && a[0].value@ == "mint"@
    &&& a[1].key@ == "to"@ && a[1].value@ == recipient
    &&& a[2].key@ == "amount"@ && a[2].value@ == decimal_digits(amount as nat)
}

/// Relies on `MemoryStorage::new`: a storage with no entries, so no metadata,
/// no balance and no version record.
#[verifier::external_body]
pub(crate) fn new_storage() -> (r: MemoryStorage)
    ensures
        ledger_token_info(r) is None,
        ledger_balances(r) == Some(Map::<Seq<char>, u128>::empty()),
        contract_version_of(r) is None,
{
    MemoryStorage::new()
}

/// Relies on cw-storage-plus `Item::may_load` of cw20-base's `TOKEN_INFO`:
/// the record stored under its key, decoded.
#[verifier::external_body]
pub(crate) fn load_token_info(s: &MemoryStorage) -> (r: Option<TokenInfo>)
    ensures
        token_info_view(r) == ledger_token_info(*s),
{
    TOKEN_INFO.may_load(s).ok().flatten().map(|t| TokenInfo {
        name: t.name,
        symbol: t.symbol,
        decimals: t.decimals,
        total_supply: t.total_supply.u128(),
        mint: t.mint.map(|m| MinterData { minter: m.minter.into_string(), cap: m.cap.map(|c| c.u128()) }),
    })
}

/// Relies on cw-storage-plus `Item::save` of cw20-base's `TOKEN_INFO`: it fails
/// only where the record does not encode, which a record of strings and
/// integers always does; it writes the record's own key alone, and the record
/// reads back as saved.
#[verifier::external_body]
pub(crate) fn save_token_info(s: &mut MemoryStorage, t: &TokenInfo) -> (r: Result<(), ContractError>)
    ensures
        r is Ok,
        ledger_token_info(*final(s)) == Some(t@),
        ledger_balances(*final(s)) == ledger_balances(*old(s)),
        contract_version_of(*final(s)) == contract_version_of(*old(s)),
{
    let mint = t.mint.as_ref().map(|m| cw20_base::state::MinterData {
        minter: Addr::unchecked(m.minter.clone()),
        cap: m.cap.map(Uint128::new),
    });
    let data = cw20_base::state::TokenInfo {
        name: t.name.clone(), symbol: t.symbol.clone(), decimals: t.decimals,
        total_supply: Uint128::new(t.total_supply), mint,
    };
    TOKEN_INFO.save(s, &data).map_err(|e| ContractError::Std(e.to_string()))
}

/// Relies on `cw2::set_contract_version`: it saves (name, version) under cw2's
/// own key, which a record of two strings always encodes, and writes nothing else.
#[verifier::external_body]
pub(crate) fn set_contract_version(s: &mut MemoryStorage, name: &str, version: &str) -> (r: Result<(), ContractError>)
    ensures
        r is Ok,
        contract_version_of(*final(s)) == Some((name@, version@)),
        ledger_token_info(*final(s)) == ledger_token_info(*old(s)),
        ledger_balances(*final(s)) == ledger_balances(*old(s)),
{
    cw2::set_contract_version(s, name, version).map_err(|e| ContractError::Std(e.to_string()))
}

/// Relies on `MockApi::addr_canonicalize`: the canonical bytes of a text
/// address, or `None` where it is not a valid address.
#[verifier::external_body]
pub(crate) fn addr_canonicalize(a: &String) -> (r: Option<Vec<u8>>)
    ensures
        bytes_view(r) == canonical_of(a@),
{
    MockApi::default().addr_canonicalize(a).ok().map(Vec::<u8>::from)
}

/// Relies on `MockApi::addr_humanize`: the text address of canonical bytes,
/// or `None` where they encode none.
#[verifier::external_body]
pub(crate) fn addr_humanize(c: &Vec<u8>) -> (r: Option<String>)
    ensures
        text_view(r) == humanized_of(c@),
{
    MockApi::default().addr_humanize(&CanonicalAddr::from(c.as_slice())).ok().map(Addr::into_string)
}

/// Relies on cw20-base `execute_mint`, run with the sender as caller. It reads
/// the metadata, and refuses a caller other than the controller and a supply
/// over the cap before it writes anything. It then stores the raised supply,
/// validates the recipient and credits it, and reports the action, the
/// recipient and the amount. Its `+` on the supply and on the balance panics
/// past `u128::MAX`, and the recipient is validated only after the supply is
/// stored, so `requires` bounds both sums and asks for a recipient in
/// canonical form, and that every balance decodes.
#[verifier::external_body]
pub(crate) fn ledger_mint(s: &mut MemoryStorage, sender: &String, recipient: &String, amount: u128) -> (r: Result<Vec<Attribute>, ContractError>)
    requires
        ledger_balances(*old(s)) is Some,
        normalized_address(recipient@) == Some(recipient@),
        ledger_token_info(*old(s)) matches Some(m) ==> m.3 + amount <= u128::MAX,
        ledger_token_info(*old(s)) is Some ==> balance_of(ledger_balances(*old(s))->Some_0, recipient@) + amount <= u128::MAX,
    ensures
        ledger_token_info(*old(s)) is None ==> r is Err && *final(s) == *old(s),
        ledger_token_info(*old(s)) is Some ==> (mint_refusal(ledger_token_info(*old(s)), sender@, amount) matches Some(e)
            ==> r is Err && r->Err_0 == e && *final(s) == *old(s)),
        ledger_token_info(*old(s)) is Some && mint_refusal(ledger_token_info(*old(s)), sender@, amount) is None ==> r is Ok,
        r is Ok ==> mint_refusal(ledger_token_info(*old(s)), sender@, amount) is None,
        r is Ok ==> ledger_token_info(*final(s)) == raised_supply(ledger_token_info(*old(s)), amount),
        r is Ok ==> ledger_balances(*final(s)) == Some(credited(ledger_balances(*old(s))->Some_0, recipient@, amount)),
        r is Ok ==> contract_version_of(*final(s)) == contract_version_of(*old(s)),
        r is Ok ==> mint_attributes(r->Ok_0@, recipient@, amount),
{
    let (api, querier): (MockApi, MockQuerier) = (MockApi::default(), MockQuerier::default());
    let deps = DepsMut { storage: s, api: &api, querier: QuerierWrapper::new(&querier) };
    let info = mock_info(sender, &[]);
    match cw20_base::contract::execute_mint(deps, mock_env(), info, recipient.clone(), Uint128::new(amount)) {
        Ok(res) => Ok(res.attributes.into_iter().map(|a| Attribute { key: a.key, value: a.value }).collect()),
        Err(Cw20Error::Unauthorized {}) => Err(ContractError::Unauthorized),
        Err(Cw20Error::CannotExceedCap {}) => Err(ContractError::CannotExceedCap),
        Err(e) => Err(ContractError::Std(e.to_string())),
    }
}

/// Relies on cw20-base `query_token_info`: the stored metadata without the
/// controller, or a failure where none is stored.
#[verifier::external_body]
pub(crate) fn ledger_token_info_query(s: &MemoryStorage) -> (r: Option<TokenInfoResponse>)
    ensures
        r is Some <==> ledger_token_info(*s) is Some,
        r matches Some(t) ==> {
            let m = ledger_token_info(*s)->Some_0;
            t.name@ == m.0 && t.symbol@ == m.1 && t.decimals == m.2 && t.total_supply == m.3
        },
{
    let (api, querier): (MockApi, MockQuerier) = (MockApi::default(), MockQuerier::default());
    let deps = Deps { storage: s, api: &api, querier: QuerierWrapper::new(&querier) };
    cw20_base::contract::query_token_info(deps).ok().map(|t| TokenInfoResponse {
        name: t.name, symbol: t.symbol, decimals: t.decimals, total_supply: t.total_supply.u128(),
    })
}

} // verus!
