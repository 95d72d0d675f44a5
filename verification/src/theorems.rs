//! What holds of the handlers taken together, proved from their contracts.

use vstd::prelude::*;
use crate::contract::{
    claim_spec, execute_spec, instantiate_spec, lemma_payable_push, payable, query_spec,
    withdraw_spec,
};
use crate::error::ContractError;
use crate::ledger::{
    amount_of, entries_total, is_listing, lemma_listing_drop_last, lemma_listing_of,
    lemma_swept_listing, listing_of, zeroed, AllocationView, Ledger,
};
use crate::msg::{AllocationResponse, ExecuteMsg};
use crate::response::{total, Response, TransferView};
use crate::state::State;

verus! {

/// A query for an address that holds no entry is answered with zero, unless
/// the chain rejects the address.
pub proof fn unallocated_address_has_nothing(
    state: State,
    address: Seq<char>,
    result: Result<AllocationResponse, ContractError>,
)
    requires
        query_spec(state, address, result),
        !state.allocations.contains_key(address),
    ensures
        state.accepted.contains(address) ==> (result matches Ok(response) && response.amount
            == 0),
        !state.accepted.contains(address) ==> result matches Err(
            ContractError::InvalidAddress(_),
        ),
{
}

/// On an intact store a query is answered with the outstanding amount,
/// unless the chain rejects the address.
pub proof fn intact_store_answers(
    state: State,
    address: Seq<char>,
    result: Result<AllocationResponse, ContractError>,
)
    requires
        query_spec(state, address, result),
        state.intact,
    ensures
        state.accepted.contains(address) ==> (result matches Ok(response) && response.amount
            == amount_of(state.allocations, address)),
        !state.accepted.contains(address) ==> result matches Err(
            ContractError::InvalidAddress(_),
        ),
{
}

/// A claim by an address with nothing outstanding fails and changes nothing.
/// The failure is `NotClaimable` for an address without an entry and on an
/// intact store.
pub proof fn claim_of_nothing_fails(
    before: State,
    sender: Seq<char>,
    after: State,
    result: Result<Response, ContractError>,
)
    requires
        claim_spec(before, sender, after, result),
        amount_of(before.allocations, sender) == 0,
    ensures
        result is Err,
        after == before,
        !before.allocations.contains_key(sender) || before.intact ==> result matches Err(
            ContractError::NotClaimable {  },
        ),
{
}

/// A claim pays out exactly once. On an intact store a claimant with
/// something outstanding is paid. A claim that succeeds hands back exactly
/// one transfer, of the whole outstanding amount, and leaves the claimant's
/// entry at zero; a second claim right after it fails and changes nothing,
/// on a store that was intact with `NotClaimable`.
pub proof fn claim_pays_once(
    before: State,
    sender: Seq<char>,
    between: State,
    first: Result<Response, ContractError>,
    after: State,
    second: Result<Response, ContractError>,
)
    requires
        claim_spec(before, sender, between, first),
        claim_spec(between, sender, after, second),
        amount_of(before.allocations, sender) > 0,
    ensures
        before.intact ==> first is Ok,
        first matches Ok(response) ==> {
            &&& response@.messages.len() == 1
            &&& response@.messages[0].to_address == sender
            &&& response@.messages[0].amount == amount_of(before.allocations, sender)
            &&& amount_of(between.allocations, sender) == 0
            &&& second is Err
            &&& after == between
        },
        first is Ok && before.intact ==> second matches Err(ContractError::NotClaimable {  }),
{
}

/// A successful claim moves exactly what it takes off the ledger: the
/// transfer equals the drop of the claimant's entry, and no other entry
/// changes.
pub proof fn claim_conserves_value(
    before: State,
    sender: Seq<char>,
    after: State,
    result: Result<Response, ContractError>,
)
    requires
        claim_spec(before, sender, after, result),
        result is Ok,
    ensures
        result matches Ok(response) ==> total(response@.messages) == amount_of(
            before.allocations,
            sender,
        ) - amount_of(after.allocations, sender),
        forall|other: Seq<char>|
            other != sender ==> amount_of(after.allocations, other) == amount_of(
                before.allocations,
                other,
            ),
{
    let response = result->Ok_0;
    let sent = response@.messages;
    assert(total(sent.drop_last()) == 0);
}

/// A sweep by anyone but the stored owner fails and changes nothing,
/// whatever the ledger holds. Where an owner is stored, the failure is
/// `Unauthorized` on an intact store; where none is stored, it is the
/// store's error.
pub proof fn sweep_by_stranger_fails(
    before: State,
    sender: Seq<char>,
    after: State,
    result: Result<Response, ContractError>,
)
    requires
        withdraw_spec(before, sender, after, result),
        before.owner != Some(sender),
    ensures
        result is Err,
        after == before,
        result matches Err(e) ==> e is Unauthorized || e is Std,
        before.owner is None ==> (result matches Err(e) && e is Std),
        before.owner is Some && before.intact ==> result matches Err(
            ContractError::Unauthorized {  },
        ),
{
}

/// On an intact store the owner's sweep succeeds.
pub proof fn sweep_by_owner_succeeds(
    before: State,
    sender: Seq<char>,
    after: State,
    result: Result<Response, ContractError>,
)
    requires
        withdraw_spec(before, sender, after, result),
        before.owner == Some(sender),
        before.intact,
    ensures
        result is Ok,
{
}

/// A state-changing call that fails changes nothing: a sweep zeroes all
/// entries or none.
pub proof fn failed_call_changes_nothing(
    before: State,
    sender: Seq<char>,
    msg: ExecuteMsg,
    after: State,
    result: Result<Response, ContractError>,
)
    requires
        execute_spec(before, sender, msg, after, result),
        result is Err,
    ensures
        after == before,
{
}

/// The transfers that pay out a list of entries move exactly the sum of the
/// entries' amounts.
pub proof fn payable_moves_total(entries: Seq<AllocationView>)
    ensures
        total(payable(entries)) == entries_total(entries),
    decreases entries.len(),
{
    if entries.len() == 0 {
        lemma_payable_none(entries);
    } else {
        payable_moves_total(entries.drop_last());
        lemma_payable_push(entries.drop_last(), entries.last());
        assert(entries.drop_last().push(entries.last()) =~= entries);
        if entries.last().amount > 0 {
            let sent = payable(entries);
            assert(sent.drop_last() =~= payable(entries.drop_last()));
        }
    }
}

/// Entries that all stand at zero are paid out by no transfer at all.
pub proof fn lemma_payable_none(entries: Seq<AllocationView>)
    requires
        forall|i: int| 0 <= i < entries.len() ==> (#[trigger] entries[i]).amount == 0,
    ensures
        payable(entries) == Seq::<TransferView>::empty(),
    decreases entries.len(),
{
    if entries.len() == 0 {
        reveal(Seq::filter);
    } else {
        let rest = entries.drop_last();
        lemma_payable_none(rest);
        lemma_payable_push(rest, entries.last());
        assert(rest.push(entries.last()) =~= entries);
    }
}

/// A successful sweep moves exactly what it takes off the ledger: the
/// transfers add up to the sum of all entries before the call, and after it
/// every entry stands at zero.
pub proof fn sweep_conserves_value(
    before: State,
    sender: Seq<char>,
    after: State,
    result: Result<Response, ContractError>,
)
    requires
        withdraw_spec(before, sender, after, result),
        result is Ok,
    ensures
        result matches Ok(response) ==> total(response@.messages) == entries_total(
            listing_of(before.allocations),
        ),
        entries_total(listing_of(after.allocations)) == 0,
        forall|address: Seq<char>| amount_of(after.allocations, address) == 0,
{
    let entries = listing_of(before.allocations);
    payable_moves_total(entries);
    lemma_swept_listing(before.allocations, entries);
    lemma_listing_of(after.allocations, zeroed(entries));
    lemma_payable_none(zeroed(entries));
    payable_moves_total(zeroed(entries));
}

/// A second sweep right after a successful one moves nothing: it is never
/// refused as unauthorized, it leaves owner and ledger as the first sweep
/// left them, and where it succeeds it hands back no transfer. On a store
/// that was intact before the first sweep, the second succeeds.
pub proof fn second_sweep_moves_nothing(
    before: State,
    sender: Seq<char>,
    between: State,
    first: Result<Response, ContractError>,
    after: State,
    second: Result<Response, ContractError>,
)
    requires
        withdraw_spec(before, sender, between, first),
        first is Ok,
        withdraw_spec(between, sender, after, second),
    ensures
        second matches Err(e) ==> e is Std,
        second matches Ok(response) ==> response@.messages == Seq::<TransferView>::empty(),
        after.owner == between.owner,
        after.allocations == between.allocations,
        before.intact ==> second is Ok,
{
    if second is Ok {
        let entries = listing_of(between.allocations);
        assert forall|i: int| 0 <= i < entries.len() implies (#[trigger] entries[i]).amount
            == 0 by {
            assert(between.allocations.contains_key(entries[i].address));
        }
        lemma_payable_none(entries);
    }
}

/// No state-changing call raises an amount, removes an entry, touches the
/// owner or changes what the chain accepts: what has been paid out stays at
/// zero.
pub proof fn amounts_never_rise(
    before: State,
    sender: Seq<char>,
    msg: ExecuteMsg,
    after: State,
    result: Result<Response, ContractError>,
)
    requires
        execute_spec(before, sender, msg, after, result),
    ensures
        after.owner == before.owner,
        after.accepted == before.accepted,
        before.intact ==> after.intact,
        forall|address: Seq<char>|
            before.allocations.contains_key(address) ==> after.allocations.contains_key(address),
        forall|address: Seq<char>|
            amount_of(after.allocations, address) <= amount_of(before.allocations, address),
{
}

/// On an intact store the outcome of a state-changing call is fixed by the
/// store, the caller and the message: two such calls end in the same state,
/// both succeed or both fail, with the same response or the same kind of
/// error.
pub proof fn execute_is_determined(
    before: State,
    sender: Seq<char>,
    msg: ExecuteMsg,
    after: State,
    result: Result<Response, ContractError>,
    other_after: State,
    other_result: Result<Response, ContractError>,
)
    requires
        execute_spec(before, sender, msg, after, result),
        execute_spec(before, sender, msg, other_after, other_result),
        before.intact,
    ensures
        after == other_after,
        result is Ok <==> other_result is Ok,
        result matches Ok(response) ==> (other_result matches Ok(other) && other@ == response@),
        result matches Err(e) ==> (other_result matches Err(other) && (e is Unauthorized
            <==> other is Unauthorized) && (e is NotClaimable <==> other is NotClaimable) && (e
            is Std <==> other is Std)),
{
}

/// An initialisation with an owner string that the chain rejects fails with
/// `InvalidAddress`, and an initialisation that fails changes nothing: where
/// no owner was stored before, none is stored after.
pub proof fn failed_instantiate_stores_nothing(
    before: State,
    owner_text: Seq<char>,
    after: State,
    result: Result<Response, ContractError>,
)
    requires
        instantiate_spec(before, owner_text, after, result),
    ensures
        !before.accepted.contains(owner_text) ==> result matches Err(
            ContractError::InvalidAddress(_),
        ),
        before.accepted.contains(owner_text) ==> (result is Ok && after.owner == Some(owner_text)),
        result is Err ==> after == before,
        result is Err && before.owner is None ==> after.owner is None,
{
}

/// What `transfers` move to `address`.
pub open spec fn paid_to(transfers: Seq<TransferView>, address: Seq<char>) -> nat
    decreases transfers.len(),
{
    if transfers.len() == 0 {
        0
    } else if transfers.last().to_address == address {
        paid_to(transfers.drop_last(), address) + transfers.last().amount as nat
    } else {
        paid_to(transfers.drop_last(), address)
    }
}

/// What the result of a call moves to `address`: nothing where the call
/// failed.
pub open spec fn result_pays(result: Result<Response, ContractError>, address: Seq<char>) -> nat {
    match result {
        Ok(response) => paid_to(response@.messages, address),
        Err(_) => 0,
    }
}

/// The transfers that pay out the listing of a ledger move to every address
/// exactly what the ledger holds for it.
pub proof fn listing_pays_each_entry(
    ledger: Ledger,
    entries: Seq<AllocationView>,
    address: Seq<char>,
)
    requires
        is_listing(ledger, entries),
    ensures
        paid_to(payable(entries), address) == amount_of(ledger, address),
    decreases entries.len(),
{
    if entries.len() == 0 {
        lemma_payable_none(entries);
    } else {
        let rest = entries.drop_last();
        let last = entries.last();
        lemma_listing_drop_last(ledger, entries);
        listing_pays_each_entry(ledger.remove(last.address), rest, address);
        lemma_payable_push(rest, last);
        assert(rest.push(last) =~= entries);
        if last.amount > 0 {
            assert(payable(entries).drop_last() =~= payable(rest));
        }
    }
}

/// Every state-changing call moves to every address exactly what it takes
/// off that address's entry: a call that succeeds pays what it zeroes, and a
/// call that fails pays nothing and zeroes nothing.
pub proof fn call_pays_what_it_takes(
    before: State,
    sender: Seq<char>,
    msg: ExecuteMsg,
    after: State,
    result: Result<Response, ContractError>,
    address: Seq<char>,
)
    requires
        execute_spec(before, sender, msg, after, result),
    ensures
        result_pays(result, address) == amount_of(before.allocations, address) - amount_of(
            after.allocations,
            address,
        ),
{
    match result {
        Ok(response) => {
            match msg {
                ExecuteMsg::Claim {  } => {
                    assert(paid_to(response@.messages.drop_last(), address) == 0);
                },
                ExecuteMsg::Withdraw {  } => {
                    listing_pays_each_entry(
                        before.allocations,
                        listing_of(before.allocations),
                        address,
                    );
                },
            }
        },
        Err(_) => {},
    }
}

/// One call in a run of state-changing calls: who called, with what, what
/// came back and what the call left behind.
pub struct Step {
    pub sender: Seq<char>,
    pub msg: ExecuteMsg,
    pub result: Result<Response, ContractError>,
    pub after: State,
}

/// What a run of calls that started from `start` has left behind.
pub open spec fn state_after(start: State, steps: Seq<Step>) -> State {
    if steps.len() == 0 {
        start
    } else {
        steps.last().after
    }
}

/// `steps` is a run of state-changing calls from `start`: each call finds
/// what the one before it left behind.
pub open spec fn is_run(start: State, steps: Seq<Step>) -> bool
    decreases steps.len(),
{
    steps.len() > 0 ==> {
        &&& is_run(start, steps.drop_last())
        &&& execute_spec(
            state_after(start, steps.drop_last()),
            steps.last().sender,
            steps.last().msg,
            steps.last().after,
            steps.last().result,
        )
    }
}

/// What the calls of a run have moved to `address`, all together.
pub open spec fn run_pays(steps: Seq<Step>, address: Seq<char>) -> nat
    decreases steps.len(),
{
    if steps.len() == 0 {
        0
    } else {
        run_pays(steps.drop_last(), address) + result_pays(steps.last().result, address)
    }
}

/// Over any run of state-changing calls, by any callers in any order, every
/// address has been paid exactly what its entry has lost: nobody is paid
/// more than was allocated, and nothing is zeroed without being paid.
pub proof fn run_pays_what_it_takes(start: State, steps: Seq<Step>, address: Seq<char>)
    requires
        is_run(start, steps),
    ensures
        run_pays(steps, address) == amount_of(start.allocations, address) - amount_of(
            state_after(start, steps).allocations,
            address,
        ),
        run_pays(steps, address) <= amount_of(start.allocations, address),
    decreases steps.len(),
{
    if steps.len() > 0 {
        let last = steps.last();
        run_pays_what_it_takes(start, steps.drop_last(), address);
        call_pays_what_it_takes(
            state_after(start, steps.drop_last()),
            last.sender,
            last.msg,
            last.after,
            last.result,
            address,
        );
    }
}

} // verus!
