use vstd::prelude::*;
use crate::ledger::{entries_view, is_listing, Allocation, Ledger};

verus! {

/// The name under which the contract registers itself with the host.
pub const CONTRACT_NAME: &'static str = "crates.io:cosmwasm-distribution";

/// The version under which the contract registers itself with the host.
pub const CONTRACT_VERSION: &'static str = "0.1.0";

/// The storage key of the owner.
pub const OWNER_KEY: &'static str = "owner";

/// The storage namespace of the ledger.
pub const ALLOCATIONS_KEY: &'static str = "allocations";

/// The contract's view of its host for one call: the persistent store and the
/// chain's address rules.
///
/// Both are trait objects of `cosmwasm_std`, so Verus sees nothing inside.
/// What the store holds is named by [`allocations`], [`owner`] and
/// [`intact`], what the chain accepts by [`accepted`]; the functions below
/// are the only code that touches either.
#[verifier::external_body]
pub struct DepsMut<'a> {
    storage: &'a mut dyn cosmwasm_std::Storage,
    api: &'a dyn cosmwasm_std::Api,
}

/// The ledger held by the store: an address has an entry when a record is
/// stored for it under [`ALLOCATIONS_KEY`], and the entry's amount is the
/// number that this record decodes to.
pub uninterp spec fn allocations(deps: &DepsMut) -> Ledger;

/// The owner held by the store: `Some` when a record is stored under
/// [`OWNER_KEY`], with the address that this record decodes to.
pub uninterp spec fn owner(deps: &DepsMut) -> Option<Seq<char>>;

/// Whether every record that the store holds for the contract decodes: the
/// record under [`OWNER_KEY`], where there is one, to an address, and every
/// record under [`ALLOCATIONS_KEY`] to an amount, under a key that is valid
/// UTF-8. A store that only this contract has written to is intact.
pub uninterp spec fn intact(deps: &DepsMut) -> bool;

/// The texts that the chain accepts as addresses. The chain's address rules
/// have no state of their own: the same text gets the same verdict, whatever
/// the store holds.
pub uninterp spec fn accepted(deps: &DepsMut) -> Set<Seq<char>>;

/// What a handler has before it, as contracts speak of it: what the store
/// holds and what the chain accepts.
pub struct State {
    pub owner: Option<Seq<char>>,
    pub allocations: Ledger,
    pub intact: bool,
    pub accepted: Set<Seq<char>>,
}

impl<'a> View for DepsMut<'a> {
    type V = State;

    open spec fn view(&self) -> State {
        State {
            owner: owner(self),
            allocations: allocations(self),
            intact: intact(self),
            accepted: accepted(self),
        }
    }
}

impl<'a> DepsMut<'a> {
    /// Borrows a store and an address validator of the host for one call.
    /// Nothing is claimed about what the store holds.
    #[verifier::external_body]
    pub fn new<S: cosmwasm_std::Storage, A: cosmwasm_std::Api>(
        storage: &'a mut S,
        api: &'a A,
    ) -> (deps: Self) {
        DepsMut { storage, api }
    }
}

/// Calls `cosmwasm_std::Api::addr_validate`. Its documentation promises that
/// an accepted address holds the same text as the input, and that of `Api`
/// that the same instance gives the same answer to the same text. Which
/// texts are accepted is up to the chain.
#[verifier::external_body]
pub(crate) fn addr_validate(deps: &DepsMut, input: &str) -> (r: Result<
    String,
    cosmwasm_std::StdError,
>)
    ensures
        r is Ok <==> accepted(deps).contains(input@),
        r matches Ok(address) ==> address@ == input@,
{
    deps.api.addr_validate(input).map(cosmwasm_std::Addr::into_string)
}

/// Calls `cw2::set_contract_version`, which writes one record under the key
/// `contract_info`. That key is neither the owner's nor one of the ledger's,
/// so what the store holds for them is as before. The call fails only where
/// the record cannot be encoded, and a record of two texts always can: the
/// encoder has no error for a text, and the store's `set` returns nothing.
#[verifier::external_body]
pub(crate) fn set_contract_version(deps: &mut DepsMut) -> (r: Result<(), cosmwasm_std::StdError>)
    ensures
        r is Ok,
        allocations(final(deps)) == allocations(old(deps)),
        owner(final(deps)) == owner(old(deps)),
        intact(final(deps)) == intact(old(deps)),
        accepted(final(deps)) == accepted(old(deps)),
{
    cw2::set_contract_version(&mut *deps.storage, CONTRACT_NAME, CONTRACT_VERSION)
}

/// Calls `cw_storage_plus::Item::save` on the owner's key. After it the
/// stored owner is `address`, in a record that decodes; the ledger's keys
/// are not touched. The call fails only where the address cannot be encoded,
/// and an address is a text, which always can.
#[verifier::external_body]
pub(crate) fn save_owner(deps: &mut DepsMut, address: &str) -> (r: Result<
    (),
    cosmwasm_std::StdError,
>)
    ensures
        r is Ok,
        owner(final(deps)) == Some(address@),
        allocations(final(deps)) == allocations(old(deps)),
        intact(old(deps)) ==> intact(final(deps)),
        accepted(final(deps)) == accepted(old(deps)),
{
    let item: cw_storage_plus::Item<cosmwasm_std::Addr> = cw_storage_plus::Item::new(OWNER_KEY);
    item.save(&mut *deps.storage, &cosmwasm_std::Addr::unchecked(address))
}

/// Calls `cw_storage_plus::Item::load` on the owner's key. It fails when no
/// owner is stored or when the record does not decode, and in no other case;
/// what it returns on success is the stored owner.
#[verifier::external_body]
pub(crate) fn load_owner(deps: &DepsMut) -> (r: Result<String, cosmwasm_std::StdError>)
    ensures
        owner(deps) is None ==> r is Err,
        owner(deps) is Some && intact(deps) ==> r is Ok,
        r matches Ok(address) ==> owner(deps) == Some(address@),
{
    let item: cw_storage_plus::Item<cosmwasm_std::Addr> = cw_storage_plus::Item::new(OWNER_KEY);
    item.load(&*deps.storage).map(cosmwasm_std::Addr::into_string)
}

/// Calls `cw_storage_plus::Map::may_load` on the ledger. An address without
/// an entry gives `Ok(None)`; an address with one gives its amount, or an
/// error when the record does not decode.
#[verifier::external_body]
pub(crate) fn load_allocation(deps: &DepsMut, address: &str) -> (r: Result<
    Option<u128>,
    cosmwasm_std::StdError,
>)
    ensures
        intact(deps) ==> r is Ok,
        !allocations(deps).contains_key(address@) ==> (r matches Ok(None)),
        r matches Ok(None) ==> !allocations(deps).contains_key(address@),
        r matches Ok(Some(amount)) ==> allocations(deps).contains_key(address@) && allocations(
            deps,
        )[address@] == amount,
{
    let map: cw_storage_plus::Map<&cosmwasm_std::Addr, cosmwasm_std::Uint128> =
        cw_storage_plus::Map::new(ALLOCATIONS_KEY);
    let key = cosmwasm_std::Addr::unchecked(address);
    map.may_load(&*deps.storage, &key).map(|found| found.map(|amount| amount.u128()))
}

/// Calls `cw_storage_plus::Map::save` on the ledger. After it the entry of
/// `address` holds `amount`, in a record that decodes, and every other entry
/// is as before; the owner's key is not touched. The call fails only where
/// the amount cannot be encoded, and an amount is encoded as the text of its
/// decimal numeral, which always can.
#[verifier::external_body]
pub(crate) fn save_allocation(deps: &mut DepsMut, address: &str, amount: u128) -> (r: Result<
    (),
    cosmwasm_std::StdError,
>)
    ensures
        r is Ok,
        allocations(final(deps)) == allocations(old(deps)).insert(address@, amount),
        owner(final(deps)) == owner(old(deps)),
        intact(old(deps)) ==> intact(final(deps)),
        accepted(final(deps)) == accepted(old(deps)),
{
    let map: cw_storage_plus::Map<&cosmwasm_std::Addr, cosmwasm_std::Uint128> =
        cw_storage_plus::Map::new(ALLOCATIONS_KEY);
    let key = cosmwasm_std::Addr::unchecked(address);
    map.save(&mut *deps.storage, &key, &cosmwasm_std::Uint128::new(amount))
}

/// Calls `cw_storage_plus::Map::range` over the whole ledger in ascending
/// order and collects what it yields. The store walks its keys in the order
/// of their bytes, which for addresses is [`crate::ledger::precedes`]; the
/// walk fails when a record does not decode, and in no other case. On
/// success the result lists the ledger.
#[verifier::external_body]
pub(crate) fn range_allocations(deps: &DepsMut) -> (r: Result<
    Vec<Allocation>,
    cosmwasm_std::StdError,
>)
    ensures
        intact(deps) ==> r is Ok,
        r matches Ok(entries) ==> is_listing(allocations(deps), entries_view(entries@)),
{
    let map: cw_storage_plus::Map<&cosmwasm_std::Addr, cosmwasm_std::Uint128> =
        cw_storage_plus::Map::new(ALLOCATIONS_KEY);
    map.range(&*deps.storage, None, None, cosmwasm_std::Order::Ascending).map(
        |item|
            item.map(
                |(address, amount)|
                    Allocation { address: address.into_string(), amount: amount.u128() },
            ),
    ).collect()
}

} // verus!
