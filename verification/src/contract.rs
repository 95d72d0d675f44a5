use vstd::prelude::*;
use crate::decimal::{decimal, to_decimal};
use crate::error::ContractError;
use crate::ledger::{
    amount_of, entries_view, is_listing, lemma_listing_of, listing_of, partly_swept, settled,
    swept, Allocation, AllocationView,
};
use crate::msg::{AllocationResponse, ExecuteMsg, InstantiateMsg, MessageInfo, QueryMsg};
use crate::response::{transfers_view, Response, ResponseView, Transfer, TransferView, DENOM};
use crate::state::{
    accepted, addr_validate, allocations, intact, load_allocation, load_owner, owner,
    range_allocations, save_allocation, save_owner, set_contract_version, DepsMut, State,
};

verus! {

/// What a successful claim of `amount` by `sender` hands back: one transfer of
/// that amount to the claimant, and the attributes of the call.
pub open spec fn claim_response_view(sender: Seq<char>, amount: u128) -> ResponseView {
    ResponseView {
        messages: seq![TransferView { to_address: sender, denom: DENOM@, amount }],
        attributes: seq![("method"@, "claim"@), ("amount"@, decimal(amount as nat))],
    }
}

/// What a claim by `sender` does: `before` and `after` are what the handler
/// has before it at the start and at the end of the call, `result` is what
/// the call returns.
///
/// On an intact store a claimant with something outstanding is paid: the
/// claim zeroes the claimant's entry, leaves everything else alone and hands
/// back one transfer of the whole amount. A claimant with nothing outstanding
/// gets `NotClaimable`, on an intact store always and without an entry
/// always. The only other failure is a record of the claimant that does not
/// decode. Whenever the claim fails, nothing has changed.
pub open spec fn claim_spec(
    before: State,
    sender: Seq<char>,
    after: State,
    result: Result<Response, ContractError>,
) -> bool {
    let due = amount_of(before.allocations, sender);
    match result {
        Ok(response) => {
            &&& due > 0
            &&& after.allocations == settled(before.allocations, sender)
            &&& after.owner == before.owner
            &&& after.accepted == before.accepted
            &&& before.intact ==> after.intact
            &&& response@ == claim_response_view(sender, due)
        },
        Err(ContractError::NotClaimable {  }) => due == 0 && after == before,
        Err(ContractError::Std(_)) => {
            &&& before.allocations.contains_key(sender)
            &&& !before.intact
            &&& after == before
        },
        Err(_) => false,
    }
}

/// Decides a claim from what the store gave for the claimant: the amount to
/// pay out, where there is one.
pub fn claimable_amount(loaded: Result<Option<u128>, cosmwasm_std::StdError>) -> (r: Result<
    u128,
    ContractError,
>)
    ensures
        match loaded {
            Ok(Some(amount)) => if amount == 0 {
                r == Err::<u128, ContractError>(ContractError::NotClaimable {  })
            } else {
                r == Ok::<u128, ContractError>(amount)
            },
            Ok(None) => r == Err::<u128, ContractError>(ContractError::NotClaimable {  }),
            Err(e) => r == Err::<u128, ContractError>(ContractError::Std(e)),
        },
{
    match loaded {
        Ok(Some(amount)) => {
            if amount == 0 {
                Err(ContractError::NotClaimable {  })
            } else {
                Ok(amount)
            }
        },
        Ok(None) => Err(ContractError::NotClaimable {  }),
        Err(e) => Err(ContractError::from(e)),
    }
}

/// Builds the response to a successful claim of `amount` by `sender`.
pub fn claim_response(sender: &str, amount: u128) -> (response: Response)
    ensures
        response@ == claim_response_view(sender@, amount),
{
    let amount_text = to_decimal(amount);
    let response = Response::new().add_message(Transfer::new(sender, amount)).add_attribute(
        "method",
        "claim",
    ).add_attribute("amount", amount_text.as_str());
    assert(response@.attributes =~= claim_response_view(sender@, amount).attributes);
    response
}

/// Pays the caller its whole outstanding amount: the entry is zeroed first,
/// then the transfer is handed to the host.
pub fn execute_claim(deps: &mut DepsMut, info: MessageInfo) -> (r: Result<Response, ContractError>)
    ensures
        claim_spec(old(deps)@, info.sender@, final(deps)@, r),
{
    let sender = info.sender.as_str();
    let amount = match claimable_amount(load_allocation(deps, sender)) {
        Ok(amount) => amount,
        Err(e) => {
            return Err(e);
        },
    };
    match save_allocation(deps, sender, 0) {
        Ok(()) => {},
        Err(e) => {
            return Err(ContractError::from(e));
        },
    }
    Ok(claim_response(sender, amount))
}

/// The transfer that pays out `entry` in full.
pub open spec fn payout(entry: AllocationView) -> TransferView {
    TransferView { to_address: entry.address, denom: DENOM@, amount: entry.amount }
}

/// The transfers that pay out `entries`: one for each entry with something
/// outstanding, in the order of the entries. An entry that stands at zero
/// gets none.
pub open spec fn payable(entries: Seq<AllocationView>) -> Seq<TransferView> {
    entries.filter(|entry: AllocationView| entry.amount > 0).map_values(
        |entry: AllocationView| payout(entry),
    )
}

/// What a successful sweep hands back: the transfers, and the attribute of
/// the call.
pub open spec fn withdraw_response_view(transfers: Seq<TransferView>) -> ResponseView {
    ResponseView { messages: transfers, attributes: seq![("method"@, "withdraw"@)] }
}

/// What a sweep called by `sender` does: `before` and `after` are what the
/// handler has before it at the start and at the end of the call, `result` is
/// what the call returns.
///
/// On an intact store the owner's sweep succeeds: it zeroes every entry and
/// hands back one transfer for each entry that had something outstanding, in
/// ascending order of address. Where an owner is stored and the caller is
/// someone else, the sweep fails with `Unauthorized`, on an intact store
/// always. The only other failures are a store without an owner and a record
/// that does not decode. Whenever the sweep fails, nothing has changed: it
/// zeroes all entries or none.
pub open spec fn withdraw_spec(
    before: State,
    sender: Seq<char>,
    after: State,
    result: Result<Response, ContractError>,
) -> bool {
    match result {
        Ok(response) => {
            &&& before.owner == Some(sender)
            &&& is_listing(before.allocations, listing_of(before.allocations))
            &&& after.allocations == swept(before.allocations)
            &&& after.owner == before.owner
            &&& after.accepted == before.accepted
            &&& before.intact ==> after.intact
            &&& response@ == withdraw_response_view(payable(listing_of(before.allocations)))
        },
        Err(ContractError::Unauthorized {  }) => {
            &&& before.owner is Some
            &&& before.owner != Some(sender)
            &&& after == before
        },
        Err(ContractError::Std(_)) => {
            &&& before.owner is None || !before.intact
            &&& after == before
        },
        Err(_) => false,
    }
}

/// Decides whether `sender` may sweep, from what the store gave as the owner.
pub fn authorize_owner(sender: &String, loaded: Result<String, cosmwasm_std::StdError>) -> (r:
    Result<(), ContractError>)
    ensures
        match loaded {
            Ok(stored) => if stored@ == sender@ {
                r == Ok::<(), ContractError>(())
            } else {
                r == Err::<(), ContractError>(ContractError::Unauthorized {  })
            },
            Err(e) => r == Err::<(), ContractError>(ContractError::Std(e)),
        },
{
    match loaded {
        Ok(stored) => {
            if *sender == stored {
                Ok(())
            } else {
                Err(ContractError::Unauthorized {  })
            }
        },
        Err(e) => Err(ContractError::from(e)),
    }
}

/// How the transfers grow with one more entry at the end.
pub proof fn lemma_payable_push(entries: Seq<AllocationView>, entry: AllocationView)
    ensures
        payable(entries.push(entry)) == if entry.amount > 0 {
            payable(entries).push(payout(entry))
        } else {
            payable(entries)
        },
{
    reveal(Seq::filter);
    assert(entries.push(entry).drop_last() =~= entries);
}

/// Computes the transfers that pay out `entries`, skipping the entries that
/// stand at zero.
pub fn sweep_transfers(entries: &Vec<Allocation>) -> (transfers: Vec<Transfer>)
    ensures
        transfers_view(transfers@) == payable(entries_view(entries@)),
{
    let mut transfers: Vec<Transfer> = Vec::new();
    let mut i: usize = 0;
    proof {
        reveal(Seq::filter);
    }
    while i < entries.len()
        invariant
            i <= entries.len(),
            transfers_view(transfers@) == payable(entries_view(entries@).take(i as int)),
        decreases entries.len() - i,
    {
        let entry = &entries[i];
        if entry.amount != 0 {
            transfers.push(Transfer::new(entry.address.as_str(), entry.amount));
        }
        proof {
            let seen = entries_view(entries@).take(i as int);
            assert(entries_view(entries@).take(i + 1) =~= seen.push(entry@));
            lemma_payable_push(seen, entry@);
        }
        i += 1;
    }
    assert(entries_view(entries@).take(i as int) =~= entries_view(entries@));
    transfers
}

/// Builds the response to a successful sweep that pays out `transfers`.
pub fn withdraw_response(transfers: Vec<Transfer>) -> (response: Response)
    ensures
        response@ == withdraw_response_view(transfers_view(transfers@)),
{
    Response::new().add_messages(transfers).add_attribute("method", "withdraw")
}

/// Zeroes every entry of `entries` that has something outstanding. The
/// store takes every write, so the result is always `Ok`.
fn settle_entries(deps: &mut DepsMut, entries: &Vec<Allocation>) -> (r: Result<
    (),
    cosmwasm_std::StdError,
>)
    requires
        is_listing(allocations(old(deps)), entries_view(entries@)),
    ensures
        r is Ok,
        allocations(final(deps)) == swept(allocations(old(deps))),
        owner(final(deps)) == owner(old(deps)),
        accepted(final(deps)) == accepted(old(deps)),
        intact(old(deps)) ==> intact(final(deps)),
{
    let ghost before = allocations(deps);
    let ghost listed = entries_view(entries@);
    let mut i: usize = 0;
    while i < entries.len()
        invariant
            i <= entries.len(),
            listed == entries_view(entries@),
            before == allocations(old(deps)),
            is_listing(before, listed),
            owner(deps) == owner(old(deps)),
            accepted(deps) == accepted(old(deps)),
            intact(old(deps)) ==> intact(deps),
            partly_swept(before, allocations(deps)),
            forall|k: int| 0 <= k < i ==> allocations(deps)[#[trigger] listed[k].address] == 0,
        decreases entries.len() - i,
    {
        let entry = &entries[i];
        assert(before.contains_key(listed[i as int].address));
        assert(allocations(deps).contains_key(entry.address@));
        if entry.amount != 0 {
            match save_allocation(deps, entry.address.as_str(), 0) {
                Ok(()) => {},
                Err(e) => {
                    return Err(e);
                },
            }
        }
        i += 1;
    }
    Ok(())
}

/// Sends every outstanding amount to its recipient and zeroes the ledger.
/// Only the owner may do so.
pub fn execute_withdraw(deps: &mut DepsMut, info: MessageInfo) -> (r: Result<
    Response,
    ContractError,
>)
    ensures
        withdraw_spec(old(deps)@, info.sender@, final(deps)@, r),
{
    match authorize_owner(&info.sender, load_owner(deps)) {
        Ok(()) => {},
        Err(e) => {
            return Err(e);
        },
    }
    let entries = match range_allocations(deps) {
        Ok(entries) => entries,
        Err(e) => {
            return Err(ContractError::from(e));
        },
    };
    proof {
        lemma_listing_of(allocations(deps), entries_view(entries@));
    }
    let transfers = sweep_transfers(&entries);
    match settle_entries(deps, &entries) {
        Ok(()) => {},
        Err(e) => {
            return Err(ContractError::from(e));
        },
    }
    Ok(withdraw_response(transfers))
}

/// What the state-changing call `msg` of `sender` does.
pub open spec fn execute_spec(
    before: State,
    sender: Seq<char>,
    msg: ExecuteMsg,
    after: State,
    result: Result<Response, ContractError>,
) -> bool {
    match msg {
        ExecuteMsg::Claim {  } => claim_spec(before, sender, after, result),
        ExecuteMsg::Withdraw {  } => withdraw_spec(before, sender, after, result),
    }
}

/// Carries out a state-changing call of `info.sender`.
pub fn execute(deps: &mut DepsMut, info: MessageInfo, msg: ExecuteMsg) -> (r: Result<
    Response,
    ContractError,
>)
    ensures
        execute_spec(old(deps)@, info.sender@, msg, final(deps)@, r),
{
    match msg {
        ExecuteMsg::Claim {  } => execute_claim(deps, info),
        ExecuteMsg::Withdraw {  } => execute_withdraw(deps, info),
    }
}

/// What a lookup of `address` returns where the store is as `state` says.
///
/// The answer is the outstanding amount, zero for an address without an
/// entry. The lookup fails only where the address has a record that does not
/// decode.
pub open spec fn lookup_spec(
    state: State,
    address: Seq<char>,
    result: Result<AllocationResponse, ContractError>,
) -> bool {
    match result {
        Ok(response) => response.amount == amount_of(state.allocations, address),
        Err(ContractError::Std(_)) => state.allocations.contains_key(address) && !state.intact,
        Err(_) => false,
    }
}

/// What a query for `address` returns.
///
/// A text that the chain does not accept as an address gives
/// `InvalidAddress`, and no other query does. An accepted address is looked
/// up as [`lookup_spec`] says.
pub open spec fn query_spec(
    state: State,
    address: Seq<char>,
    result: Result<AllocationResponse, ContractError>,
) -> bool {
    if state.accepted.contains(address) {
        lookup_spec(state, address, result)
    } else {
        result matches Err(ContractError::InvalidAddress(_))
    }
}

/// Passes on an address that the host accepted, and reports a rejected one
/// as `InvalidAddress`.
pub fn validated_address(validated: Result<String, cosmwasm_std::StdError>) -> (r: Result<
    String,
    ContractError,
>)
    ensures
        match validated {
            Ok(address) => r == Ok::<String, ContractError>(address),
            Err(e) => r == Err::<String, ContractError>(ContractError::InvalidAddress(e)),
        },
{
    match validated {
        Ok(address) => Ok(address),
        Err(e) => Err(ContractError::InvalidAddress(e)),
    }
}

/// Turns what the store gave for an address into the answer to a query.
pub fn allocation_response(loaded: Result<Option<u128>, cosmwasm_std::StdError>) -> (r: Result<
    AllocationResponse,
    ContractError,
>)
    ensures
        match loaded {
            Ok(Some(amount)) => r == Ok::<AllocationResponse, ContractError>(
                AllocationResponse { amount },
            ),
            Ok(None) => r == Ok::<AllocationResponse, ContractError>(
                AllocationResponse { amount: 0 },
            ),
            Err(e) => r == Err::<AllocationResponse, ContractError>(ContractError::Std(e)),
        },
{
    match loaded {
        Ok(Some(amount)) => Ok(AllocationResponse { amount }),
        Ok(None) => Ok(AllocationResponse { amount: 0 }),
        Err(e) => Err(ContractError::from(e)),
    }
}

/// Answers a query from the chain's verdict on the address asked for: a
/// rejection is reported as it came, an accepted address is looked up.
pub fn query_validated(deps: &DepsMut, validated: Result<String, cosmwasm_std::StdError>) -> (r:
    Result<AllocationResponse, ContractError>)
    ensures
        match validated {
            Ok(address) => lookup_spec(deps@, address@, r),
            Err(e) => r == Err::<AllocationResponse, ContractError>(
                ContractError::InvalidAddress(e),
            ),
        },
{
    let address = match validated_address(validated) {
        Ok(address) => address,
        Err(e) => {
            return Err(e);
        },
    };
    allocation_response(load_allocation(deps, address.as_str()))
}

/// Looks up what `address` may still claim. The address is validated first.
pub fn query_allocation(deps: &DepsMut, address: String) -> (r: Result<
    AllocationResponse,
    ContractError,
>)
    ensures
        query_spec(deps@, address@, r),
{
    query_validated(deps, addr_validate(deps, address.as_str()))
}

/// Answers a read-only call.
pub fn query(deps: &DepsMut, msg: QueryMsg) -> (r: Result<AllocationResponse, ContractError>)
    ensures
        match msg {
            QueryMsg::Allocation { address } => query_spec(deps@, address@, r),
        },
{
    match msg {
        QueryMsg::Allocation { address } => query_allocation(deps, address),
    }
}

/// What a successful initialisation hands back.
pub open spec fn instantiate_response_view() -> ResponseView {
    ResponseView { messages: Seq::empty(), attributes: seq![("method"@, "instantiate"@)] }
}

/// The store after `address` has been registered as the owner: the ledger
/// is untouched, and an intact store is still intact.
pub open spec fn registered(before: State, address: Seq<char>, after: State) -> bool {
    &&& after.owner == Some(address)
    &&& after.allocations == before.allocations
    &&& after.accepted == before.accepted
    &&& before.intact ==> after.intact
}

/// What an initialisation with `owner_text` as the owner does: `before` and
/// `after` are what the handler has before it at the start and at the end of
/// the call.
///
/// A text that the chain accepts as an address becomes the stored owner. Any
/// other text gives `InvalidAddress` and changes nothing: an owner string
/// that the chain rejects leaves no owner behind.
pub open spec fn instantiate_spec(
    before: State,
    owner_text: Seq<char>,
    after: State,
    result: Result<Response, ContractError>,
) -> bool {
    if before.accepted.contains(owner_text) {
        &&& result matches Ok(response) && response@ == instantiate_response_view()
        &&& registered(before, owner_text, after)
    } else {
        &&& result matches Err(ContractError::InvalidAddress(_))
        &&& after == before
    }
}

/// Builds the response to a successful initialisation.
pub fn instantiate_response() -> (response: Response)
    ensures
        response@ == instantiate_response_view(),
{
    Response::new().add_attribute("method", "instantiate")
}

/// Initialises the contract from the chain's verdict on the owner's address:
/// a rejection is reported as it came and nothing is written; an accepted
/// address is stored as the owner, after the contract's name and version.
pub fn instantiate_validated(
    deps: &mut DepsMut,
    validated: Result<String, cosmwasm_std::StdError>,
) -> (r: Result<Response, ContractError>)
    ensures
        match validated {
            Ok(address) => {
                &&& r matches Ok(response) && response@ == instantiate_response_view()
                &&& registered(old(deps)@, address@, final(deps)@)
            },
            Err(e) => {
                &&& r == Err::<Response, ContractError>(ContractError::InvalidAddress(e))
                &&& final(deps)@ == old(deps)@
            },
        },
{
    let owner_address = match validated_address(validated) {
        Ok(address) => address,
        Err(e) => {
            return Err(e);
        },
    };
    match set_contract_version(deps) {
        Ok(()) => {},
        Err(e) => {
            return Err(ContractError::from(e));
        },
    }
    match save_owner(deps, owner_address.as_str()) {
        Ok(()) => {},
        Err(e) => {
            return Err(ContractError::from(e));
        },
    }
    Ok(instantiate_response())
}

/// Initialises the contract: validates the owner, registers the contract's
/// name and version with the host, and stores the owner.
pub fn instantiate(deps: &mut DepsMut, msg: InstantiateMsg) -> (r: Result<Response, ContractError>)
    ensures
        instantiate_spec(old(deps)@, msg.owner@, final(deps)@, r),
{
    let validated = addr_validate(deps, msg.owner.as_str());
    instantiate_validated(deps, validated)
}

} // verus!
