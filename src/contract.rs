use cosmwasm_std::MemoryStorage;
use vstd::prelude::*;

use crate::choices::ChoiceBook;
use crate::error::ContractError;
use crate::ledger::{
    addr_canonicalize, addr_humanize, contract_version_of, credited, ledger_balances,
    ledger_mint, ledger_token_info, ledger_token_info_query, load_token_info, mint_attributes,
    mint_refusal, new_storage, normalized_address, raised_supply, save_token_info,
    set_contract_version, LedgerMeta, MinterData, TokenInfo,
};
use crate::msg::{
    Attribute, CompareResponse, ExecuteMsg, InstantiateMsg, QueryMsg, QueryResponse, Response,
};

verus! {

/// Name under which the contract registers itself with cw2.
pub const CONTRACT_NAME: &'static str = "crates.io:krzyzyk";

/// Version under which the contract registers itself with cw2.
pub const CONTRACT_VERSION: &'static str = "0.1.0";

/// The persistent state: the ledger's storage, which holds its metadata
/// record, and the participants' recorded choices.
pub struct ContractState {
    ledger: MemoryStorage,
    choices: ChoiceBook,
}

impl ContractState {
    /// Well-formedness: the choices have unique keys, every balance decodes,
    /// there is no balance before initialization, and none exceeds the supply.
    pub closed spec fn wf(&self) -> bool {
        &&& self.choices.wf()
        &&& ledger_balances(self.ledger) is Some
        &&& self.meta() is None ==> self.balances() == Map::<Seq<char>, u128>::empty()
        &&& self.meta() matches Some(m) ==> forall|a: Seq<char>| #[trigger] self.balances().contains_key(a) ==> self.balances()[a] <= m.3
    }

    /// The ledger's balances, by address.
    pub closed spec fn balances(&self) -> Map<Seq<char>, u128> {
        ledger_balances(self.ledger)->Some_0
    }

    /// The (contract, version) record registered with cw2, if any.
    pub closed spec fn version(&self) -> Option<(Seq<char>, Seq<char>)> {
        contract_version_of(self.ledger)
    }

    /// The ledger's whole storage.
    pub closed spec fn storage(&self) -> MemoryStorage {
        self.ledger
    }

    /// The ledger's metadata record, if the contract was initialized.
    pub closed spec fn meta(&self) -> Option<LedgerMeta> {
        ledger_token_info(self.ledger)
    }

    /// The recorded choices, keyed by canonical address.
    pub closed spec fn book(&self) -> Map<Seq<char>, Seq<char>> {
        self.choices@
    }

    /// A state that was never initialized and holds no choice.
    pub fn new() -> (r: ContractState)
        ensures
            r.wf(),
            r.meta() is None,
            r.version() is None,
            r.balances() == Map::<Seq<char>, u128>::empty(),
            r.book() == Map::<Seq<char>, Seq<char>>::empty(),
    {
        ContractState { ledger: new_storage(), choices: ChoiceBook::new() }
    }
}

/// The controller that the metadata names, if any.
pub open spec fn controller_of(m: Option<LedgerMeta>) -> Option<Seq<char>> {
    match m {
        Some(info) => match info.4 {
            Some(d) => Some(d.0),
            None => None,
        },
        None => None,
    }
}

/// What `instantiate` makes of the prior metadata: a conflict if there is one,
/// else a record with no supply and the sender as uncapped controller.
pub open spec fn instantiate_outcome(
    m: Option<LedgerMeta>,
    sender: Seq<char>,
    name: Seq<char>,
    symbol: Seq<char>,
    decimals: u8,
) -> Result<LedgerMeta, ContractError> {
    if m is Some {
        Err(ContractError::StateConflict)
    } else {
        Ok((name, symbol, decimals, 0u128, Some((sender, None))))
    }
}

/// What recording `option` for `address` on behalf of `sender` makes of the
/// recorded choices, or why it fails.
pub open spec fn choose_outcome(
    m: Option<LedgerMeta>,
    book: Map<Seq<char>, Seq<char>>,
    sender: Seq<char>,
    address: Seq<char>,
    option: Seq<char>,
) -> Result<Map<Seq<char>, Seq<char>>, ContractError> {
    if m is None {
        Err(ContractError::NotFound)
    } else if controller_of(m) != Some(sender) {
        Err(ContractError::Unauthorized)
    } else {
        match normalized_address(address) {
            Some(key) => Ok(book.insert(key, option)),
            None => Err(ContractError::InvalidAddress),
        }
    }
}

/// The recorded choices of two addresses, or why there are none.
pub open spec fn compare_outcome(
    book: Map<Seq<char>, Seq<char>>,
    address_one: Seq<char>,
    address_two: Seq<char>,
) -> Result<(Seq<char>, Seq<char>), ContractError> {
    match (normalized_address(address_one), normalized_address(address_two)) {
        (Some(k1), Some(k2)) => if book.contains_key(k1) && book.contains_key(k2) {
            Ok((book[k1], book[k2]))
        } else {
            Err(ContractError::NotFound)
        },
        _ => Err(ContractError::InvalidAddress),
    }
}

/// Why a mint of `amount` to `recipient` by `sender` fails, if it does: the
/// caller first (no metadata, or not the controller), then a zero amount, a
/// recipient not in canonical form, a supply past `u128::MAX` or over the cap.
pub open spec fn mint_outcome_error(
    m: Option<LedgerMeta>,
    sender: Seq<char>,
    recipient: Seq<char>,
    amount: u128,
) -> Option<ContractError> {
    if m is None || controller_of(m) != Some(sender) {
        Some(ContractError::Unauthorized)
    } else if amount == 0 {
        Some(ContractError::InvalidZeroAmount)
    } else if normalized_address(recipient) != Some(recipient) {
        Some(ContractError::InvalidAddress)
    } else if m->Some_0.3 + amount > u128::MAX {
        Some(ContractError::CannotExceedCap)
    } else {
        mint_refusal(m, sender, amount)
    }
}

/// The canonical form of a text address.
fn normalize(address: &String) -> (r: Result<String, ContractError>)
    ensures
        match normalized_address(address@) {
            Some(key) => r is Ok && r->Ok_0@ == key,
            None => r is Err && r->Err_0 == ContractError::InvalidAddress,
        },
{
    match addr_canonicalize(address) {
        Some(canonical) => match addr_humanize(&canonical) {
            Some(human) => Ok(human),
            None => Err(ContractError::InvalidAddress),
        },
        None => Err(ContractError::InvalidAddress),
    }
}

fn empty_response() -> (r: Response)
    ensures
        r.attributes@.len() == 0,
        r.messages@.len() == 0,
{
    Response { attributes: Vec::new(), messages: Vec::new() }
}

/// Creates the ledger's metadata with the sender as controller and no supply,
/// and registers the contract's version. Fails with `StateConflict`, changing
/// nothing, where the metadata already exists.
pub fn instantiate(state: &mut ContractState, sender: &String, msg: InstantiateMsg) -> (r: Result<Response, ContractError>)
    requires
        old(state).wf(),
    ensures
        final(state).wf(),
        final(state).book() == old(state).book(),
        instantiate_outcome(old(state).meta(), sender@, msg.name@, msg.symbol@, msg.decimals) matches Err(e)
            ==> r is Err && r->Err_0 == e && *final(state) == *old(state),
        r is Ok ==> final(state).meta() == Some(
            instantiate_outcome(old(state).meta(), sender@, msg.name@, msg.symbol@, msg.decimals)->Ok_0,
        ),
        old(state).meta() is None ==> r is Ok,
        r is Ok ==> r->Ok_0.attributes@.len() == 0 && r->Ok_0.messages@.len() == 0,
        r is Ok ==> final(state).version() == Some((CONTRACT_NAME@, CONTRACT_VERSION@)),
        r is Ok ==> final(state).balances() == old(state).balances(),
        r is Err ==> *final(state) == *old(state),
{
    if load_token_info(&state.ledger).is_some() {
        return Err(ContractError::StateConflict);
    }
    set_contract_version(&mut state.ledger, CONTRACT_NAME, CONTRACT_VERSION)?;
    let data = TokenInfo {
        name: msg.name,
        symbol: msg.symbol,
        decimals: msg.decimals,
        total_supply: 0,
        mint: Some(MinterData { minter: sender.clone(), cap: None }),
    };
    save_token_info(&mut state.ledger, &data)?;
    Ok(empty_response())
}

/// Records `option` as the choice of `address`, overwriting an earlier one.
/// Only the controller named in the metadata may do so; the address is
/// normalized first and the option is stored as given. A failure changes nothing.
pub fn try_choose_option(state: &mut ContractState, sender: &String, address: String, option: String) -> (r: Result<Response, ContractError>)
    requires
        old(state).wf(),
    ensures
        final(state).wf(),
        final(state).storage() == old(state).storage(),
        r is Ok <==> choose_outcome(old(state).meta(), old(state).book(), sender@, address@, option@) is Ok,
        r is Ok ==> final(state).book() == choose_outcome(old(state).meta(), old(state).book(), sender@, address@, option@)->Ok_0,
        r is Ok ==> r->Ok_0.messages@.len() == 0 && r->Ok_0.attributes@.len() == 1,
        r is Ok ==> r->Ok_0.attributes@[0].key@ == "saved_option"@ && r->Ok_0.attributes@[0].value@ == option@,
        r is Err ==> r->Err_0 == choose_outcome(old(state).meta(), old(state).book(), sender@, address@, option@)->Err_0,
        r is Err ==> *final(state) == *old(state),
{
    let config = match load_token_info(&state.ledger) {
        Some(config) => config,
        None => return Err(ContractError::NotFound),
    };
    let authorized = match &config.mint {
        Some(m) => m.minter == *sender,
        None => false,
    };
    if !authorized {
        return Err(ContractError::Unauthorized);
    }
    let key = normalize(&address)?;
    let attribute = Attribute { key: "saved_option".to_owned(), value: option.clone() };
    state.choices.set(key, option);
    proof {
        assert(state.balances() == old(state).balances());
    }
    Ok(Response { attributes: vec![attribute], messages: Vec::new() })
}

/// The recorded choices of two addresses, returned as stored. Fails with
/// `InvalidAddress` where either address does not normalize, else with
/// `NotFound` where either has no recorded choice.
pub fn query_compare(state: &ContractState, address_one: String, address_two: String) -> (r: Result<CompareResponse, ContractError>)
    requires
        state.wf(),
    ensures
        r is Ok <==> compare_outcome(state.book(), address_one@, address_two@) is Ok,
        r is Ok ==> (r->Ok_0.option_addr_one@, r->Ok_0.option_addr_two@) == compare_outcome(state.book(), address_one@, address_two@)->Ok_0,
        r is Err ==> r->Err_0 == compare_outcome(state.book(), address_one@, address_two@)->Err_0,
{
    let first_address = normalize(&address_one)?;
    let second_address = normalize(&address_two)?;
    let option_first_addr = state.choices.get(&first_address);
    let option_second_addr = state.choices.get(&second_address);
    match (option_first_addr, option_second_addr) {
        (Some(option_addr_one), Some(option_addr_two)) => Ok(CompareResponse { option_addr_one, option_addr_two }),
        _ => Err(ContractError::NotFound),
    }
}

/// Issues `amount` new units to `recipient` through the ledger. Refuses a
/// caller other than the controller, then a zero amount, a recipient not in
/// canonical form and a supply past `u128::MAX`; the ledger then refuses a
/// supply over the cap. A refusal changes nothing; otherwise the mint succeeds.
fn try_mint(state: &mut ContractState, sender: &String, recipient: String, amount: u128) -> (r: Result<Response, ContractError>)
    requires
        old(state).wf(),
    ensures
        final(state).wf(),
        final(state).book() == old(state).book(),
        mint_outcome_error(old(state).meta(), sender@, recipient@, amount) matches Some(e)
            ==> r is Err && r->Err_0 == e,
        r is Ok <==> mint_outcome_error(old(state).meta(), sender@, recipient@, amount) is None,
        r is Err ==> *final(state) == *old(state),
        r is Ok ==> final(state).meta() == raised_supply(old(state).meta(), amount),
        r is Ok ==> final(state).balances() == credited(old(state).balances(), recipient@, amount),
        r is Ok ==> final(state).version() == old(state).version(),
        r is Ok ==> r->Ok_0.messages@.len() == 0 && mint_attributes(r->Ok_0.attributes@, recipient@, amount),
{
    let config = match load_token_info(&state.ledger) {
        Some(config) => config,
        None => return Err(ContractError::Unauthorized),
    };
    let authorized = match &config.mint {
        Some(m) => m.minter == *sender,
        None => false,
    };
    if !authorized {
        return Err(ContractError::Unauthorized);
    }
    if amount == 0 {
        return Err(ContractError::InvalidZeroAmount);
    }
    match normalize(&recipient) {
        Ok(normal) => {
            if normal != recipient {
                return Err(ContractError::InvalidAddress);
            }
        },
        Err(e) => return Err(e),
    }
    if config.total_supply > u128::MAX - amount {
        return Err(ContractError::CannotExceedCap);
    }
    proof {
        let b = state.balances();
        if b.contains_key(recipient@) {
            assert(b[recipient@] <= config.total_supply);
        }
    }
    let attributes = ledger_mint(&mut state.ledger, sender, &recipient, amount)?;
    proof {
        let b = old(state).balances();
        let supply = (config.total_supply + amount) as u128;
        assert forall|a: Seq<char>| #[trigger] state.balances().contains_key(a) implies state.balances()[a] <= supply by {
            if a != recipient@ {
                assert(b.contains_key(a));
            }
        }
    }
    Ok(Response { attributes, messages: Vec::new() })
}

/// Runs one action: records a choice or mints, as the message says, and
/// returns that handler's outcome unchanged.
pub fn execute(state: &mut ContractState, sender: &String, msg: ExecuteMsg) -> (r: Result<Response, ContractError>)
    requires
        old(state).wf(),
    ensures
        final(state).wf(),
        msg matches ExecuteMsg::ChooseOption { address, option } ==> {
            let outcome = choose_outcome(old(state).meta(), old(state).book(), sender@, address@, option@);
            &&& final(state).meta() == old(state).meta()
            &&& r is Ok <==> outcome is Ok
            &&& r is Ok ==> final(state).book() == outcome->Ok_0
            &&& final(state).storage() == old(state).storage()
            &&& r is Ok ==> r->Ok_0.attributes@.len() == 1 && r->Ok_0.attributes@[0].key@ == "saved_option"@
            &&& r is Ok ==> r->Ok_0.attributes@[0].value@ == option@
            &&& r is Err ==> r->Err_0 == outcome->Err_0
        },
        msg matches ExecuteMsg::Mint { recipient, amount } ==> {
            let refusal = mint_outcome_error(old(state).meta(), sender@, recipient@, amount);
            &&& final(state).book() == old(state).book()
            &&& refusal matches Some(e) ==> r is Err && r->Err_0 == e
            &&& r is Ok <==> refusal is None
            &&& r is Ok ==> final(state).meta() == raised_supply(old(state).meta(), amount)
            &&& r is Ok ==> final(state).balances() == credited(old(state).balances(), recipient@, amount)
            &&& r is Ok ==> final(state).version() == old(state).version()
            &&& r is Ok ==> mint_attributes(r->Ok_0.attributes@, recipient@, amount)
        },
        r is Ok ==> r->Ok_0.messages@.len() == 0,
        r is Err ==> *final(state) == *old(state),
{
    match msg {
        ExecuteMsg::ChooseOption { address, option } => try_choose_option(state, sender, address, option),
        ExecuteMsg::Mint { recipient, amount } => try_mint(state, sender, recipient, amount),
    }
}

/// Answers one request: the recorded choices of two addresses, or the
/// ledger's metadata (`NotFound` before initialization).
pub fn query(state: &ContractState, msg: QueryMsg) -> (r: Result<QueryResponse, ContractError>)
    requires
        state.wf(),
    ensures
        msg matches QueryMsg::Compare { address_one, address_two } ==> {
            let outcome = compare_outcome(state.book(), address_one@, address_two@);
            &&& r is Ok <==> outcome is Ok
            &&& r matches Ok(QueryResponse::Compare(c)) ==> (c.option_addr_one@, c.option_addr_two@) == outcome->Ok_0
            &&& r is Ok ==> r->Ok_0 is Compare
            &&& r is Err ==> r->Err_0 == outcome->Err_0
        },
        msg is TokenInfo ==> {
            &&& r is Ok <==> state.meta() is Some
            &&& r is Err ==> r->Err_0 == ContractError::NotFound
            &&& r is Ok ==> r->Ok_0 is TokenInfo
            &&& r matches Ok(QueryResponse::TokenInfo(t)) ==> {
                let m = state.meta()->Some_0;
                t.name@ == m.0 && t.symbol@ == m.1 && t.decimals == m.2 && t.total_supply == m.3
            }
        },
{
    match msg {
        QueryMsg::Compare { address_one, address_two } => match query_compare(state, address_one, address_two) {
            Ok(c) => Ok(QueryResponse::Compare(c)),
            Err(e) => Err(e),
        },
        QueryMsg::TokenInfo {} => match ledger_token_info_query(&state.ledger) {
            Some(t) => Ok(QueryResponse::TokenInfo(t)),
            None => Err(ContractError::NotFound),
        },
    }
}

/// A participant without a recorded choice cannot be compared: with both
/// addresses valid, a comparison that names it, in either slot, fails with
/// `NotFound`.
pub proof fn lemma_compare_unrecorded_fails(book: Map<Seq<char>, Seq<char>>, a: Seq<char>, b: Seq<char>)
    requires
        normalized_address(a) is Some,
        normalized_address(b) is Some,
        !book.contains_key(normalized_address(a)->Some_0),
    ensures
        compare_outcome(book, a, b) == Err::<(Seq<char>, Seq<char>), ContractError>(ContractError::NotFound),
        compare_outcome(book, b, a) == Err::<(Seq<char>, Seq<char>), ContractError>(ContractError::NotFound),
{
}

/// Only a successful recording adds a participant: a fresh state holds no
/// choice, and a recording adds at most the key of the address it names.
pub proof fn lemma_choose_adds_only_its_key(
    m: Option<LedgerMeta>,
    book: Map<Seq<char>, Seq<char>>,
    sender: Seq<char>,
    address: Seq<char>,
    option: Seq<char>,
    other: Seq<char>,
)
    requires
        !book.contains_key(other),
        normalized_address(address) != Some(other),
    ensures
        choose_outcome(m, book, sender, address, option) matches Ok(next) ==> !next.contains_key(other),
{
}

/// A recorded choice reads back unchanged: after the controller records
/// `choice` for `a`, a comparison of `a` with any recorded `b` returns exactly
/// `choice` in `a`'s slot, in either order.
pub proof fn lemma_choice_round_trip(
    m: Option<LedgerMeta>,
    book: Map<Seq<char>, Seq<char>>,
    sender: Seq<char>,
    a: Seq<char>,
    choice: Seq<char>,
    b: Seq<char>,
)
    requires
        choose_outcome(m, book, sender, a, choice) is Ok,
        normalized_address(b) is Some,
        choose_outcome(m, book, sender, a, choice)->Ok_0.contains_key(normalized_address(b)->Some_0),
    ensures
        ({
            let next = choose_outcome(m, book, sender, a, choice)->Ok_0;
            let other = next[normalized_address(b)->Some_0];
            &&& compare_outcome(next, a, b) == Ok::<(Seq<char>, Seq<char>), ContractError>((choice, other))
            &&& compare_outcome(next, b, a) == Ok::<(Seq<char>, Seq<char>), ContractError>((other, choice))
        }),
{
}

/// Recording twice for one address keeps the later choice: after `x` and then
/// `y` are recorded for `a`, comparing `a` with itself yields `y` in both slots.
pub proof fn lemma_choice_overwrite(
    m: Option<LedgerMeta>,
    book: Map<Seq<char>, Seq<char>>,
    sender: Seq<char>,
    a: Seq<char>,
    x: Seq<char>,
    y: Seq<char>,
)
    requires
        choose_outcome(m, book, sender, a, x) is Ok,
    ensures
        choose_outcome(m, choose_outcome(m, book, sender, a, x)->Ok_0, sender, a, y) is Ok,
        ({
            let last = choose_outcome(m, choose_outcome(m, book, sender, a, x)->Ok_0, sender, a, y)->Ok_0;
            &&& last == book.insert(normalized_address(a)->Some_0, y)
            &&& compare_outcome(last, a, a) == Ok::<(Seq<char>, Seq<char>), ContractError>((y, y))
        }),
{
    let key = normalized_address(a)->Some_0;
    assert(book.insert(key, x).insert(key, y) =~= book.insert(key, y));
}

/// Only the controller may record: on an initialized ledger any other sender
/// is refused with `Unauthorized`, and a refused call changes nothing, so
/// every comparison answers as before.
pub proof fn lemma_non_controller_refused(
    m: Option<LedgerMeta>,
    book: Map<Seq<char>, Seq<char>>,
    sender: Seq<char>,
    address: Seq<char>,
    option: Seq<char>,
)
    requires
        m is Some,
        controller_of(m) != Some(sender),
    ensures
        choose_outcome(m, book, sender, address, option) == Err::<Map<Seq<char>, Seq<char>>, ContractError>(ContractError::Unauthorized),
{
}

/// Initialization happens once: once one has succeeded, any further one, by
/// any sender and with any metadata, fails with `StateConflict` (and a failed
/// call leaves the first metadata as it was).
pub proof fn lemma_second_instantiate_conflicts(
    prior: Option<LedgerMeta>,
    sender: Seq<char>,
    name: Seq<char>,
    symbol: Seq<char>,
    decimals: u8,
    sender2: Seq<char>,
    name2: Seq<char>,
    symbol2: Seq<char>,
    decimals2: u8,
)
    requires
        instantiate_outcome(prior, sender, name, symbol, decimals) is Ok,
    ensures
        instantiate_outcome(
            Some(instantiate_outcome(prior, sender, name, symbol, decimals)->Ok_0),
            sender2,
            name2,
            symbol2,
            decimals2,
        ) == Err::<LedgerMeta, ContractError>(ContractError::StateConflict),
{
}

} // verus!
