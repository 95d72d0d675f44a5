use vstd::prelude::*;

verus! {

/// One entry of the ledger: what `address` may still claim.
#[derive(Clone, Debug, PartialEq, Eq)]
pub struct Allocation {
    pub address: String,
    pub amount: u128,
}

/// An entry of the ledger as a mathematical value.
pub struct AllocationView {
    pub address: Seq<char>,
    pub amount: u128,
}

impl View for Allocation {
    type V = AllocationView;

    open spec fn view(&self) -> AllocationView {
        AllocationView { address: self.address@, amount: self.amount }
    }
}

/// The entries of a vector, each as a mathematical value.
pub open spec fn entries_view(entries: Seq<Allocation>) -> Seq<AllocationView> {
    Seq::new(entries.len(), |i: int| entries[i]@)
}

/// The ledger as contracts speak of it: the amount stored for each address
/// that holds an entry.
pub type Ledger = Map<Seq<char>, u128>;

/// What `address` may still claim: the stored amount, and zero for an address
/// that holds no entry.
pub open spec fn amount_of(ledger: Ledger, address: Seq<char>) -> u128 {
    if ledger.contains_key(address) {
        ledger[address]
    } else {
        0
    }
}

/// The ledger after `address` has been paid out: its entry stands at zero.
pub open spec fn settled(ledger: Ledger, address: Seq<char>) -> Ledger {
    ledger.insert(address, 0u128)
}

/// The ledger after a sweep: the same addresses, every amount at zero.
pub open spec fn swept(ledger: Ledger) -> Ledger {
    Map::new(|address: Seq<char>| ledger.contains_key(address), |address: Seq<char>| 0u128)
}

/// Address order: `a` comes strictly before `b` when it is a proper prefix of
/// `b`, or holds the smaller character at the first place where they differ.
/// This is the order of the addresses' UTF-8 bytes, by which the store keeps
/// its keys.
pub open spec fn precedes(a: Seq<char>, b: Seq<char>) -> bool
    decreases a.len(),
{
    if b.len() == 0 {
        false
    } else if a.len() == 0 {
        true
    } else if a[0] != b[0] {
        (a[0] as int) < (b[0] as int)
    } else {
        precedes(a.drop_first(), b.drop_first())
    }
}

/// The addresses of `entries` stand in strictly ascending order.
pub open spec fn ascending(entries: Seq<AllocationView>) -> bool {
    forall|i: int, j: int|
        0 <= i < j < entries.len() ==> precedes(
            #[trigger] entries[i].address,
            #[trigger] entries[j].address,
        )
}

/// `entries` lists `ledger`: every entry of the ledger once, with its amount,
/// in ascending order of address, and nothing else.
pub open spec fn is_listing(ledger: Ledger, entries: Seq<AllocationView>) -> bool {
    &&& ascending(entries)
    &&& forall|i: int|
        0 <= i < entries.len() ==> ledger.contains_key(#[trigger] entries[i].address)
            && ledger[entries[i].address] == entries[i].amount
    &&& forall|address: Seq<char>| #[trigger]
        ledger.contains_key(address) ==> exists|i: int|
            0 <= i < entries.len() && #[trigger] entries[i].address == address
}

/// The listing of `ledger`, where it has one. A ledger has at most one
/// listing ([`lemma_listing_unique`]), and the one that a store holds has one
/// whenever the store can be walked.
pub open spec fn listing_of(ledger: Ledger) -> Seq<AllocationView> {
    choose|entries: Seq<AllocationView>| is_listing(ledger, entries)
}

/// The sum of the amounts of `entries`.
pub open spec fn entries_total(entries: Seq<AllocationView>) -> nat
    decreases entries.len(),
{
    if entries.len() == 0 {
        0
    } else {
        entries_total(entries.drop_last()) + entries.last().amount as nat
    }
}

/// The entries of `entries`, each with its amount at zero.
pub open spec fn zeroed(entries: Seq<AllocationView>) -> Seq<AllocationView> {
    entries.map_values(|entry: AllocationView| AllocationView { address: entry.address, amount: 0 })
}

/// Every entry that `after` holds, `before` holds too, and its amount is
/// either what it was in `before` or zero.
pub open spec fn partly_swept(before: Ledger, after: Ledger) -> bool {
    &&& forall|address: Seq<char>|
        before.contains_key(address) <==> #[trigger] after.contains_key(address)
    &&& forall|address: Seq<char>| #[trigger]
        after.contains_key(address) ==> after[address] == before[address] || after[address] == 0
}

/// No address comes before itself.
pub proof fn lemma_precedes_irreflexive(a: Seq<char>)
    ensures
        !precedes(a, a),
    decreases a.len(),
{
    if a.len() > 0 {
        lemma_precedes_irreflexive(a.drop_first());
    }
}

/// Address order is transitive.
pub proof fn lemma_precedes_transitive(a: Seq<char>, b: Seq<char>, c: Seq<char>)
    requires
        precedes(a, b),
        precedes(b, c),
    ensures
        precedes(a, c),
    decreases a.len(),
{
    if a.len() > 0 && a[0] == b[0] && b[0] == c[0] {
        lemma_precedes_transitive(a.drop_first(), b.drop_first(), c.drop_first());
    }
}

/// Without its last entry, a listing lists the ledger without that entry's
/// address.
pub proof fn lemma_listing_drop_last(ledger: Ledger, entries: Seq<AllocationView>)
    requires
        is_listing(ledger, entries),
        entries.len() > 0,
    ensures
        is_listing(ledger.remove(entries.last().address), entries.drop_last()),
{
    let last = entries.last();
    let rest = entries.drop_last();
    let smaller = ledger.remove(last.address);
    assert forall|i: int| 0 <= i < rest.len() implies smaller.contains_key(
        #[trigger] rest[i].address,
    ) && smaller[rest[i].address] == rest[i].amount by {
        lemma_precedes_irreflexive(last.address);
    }
    assert forall|address: Seq<char>| #[trigger] smaller.contains_key(address) implies exists|
        i: int,
    |
        0 <= i < rest.len() && #[trigger] rest[i].address == address by {
        let i = choose|i: int| 0 <= i < entries.len() && #[trigger] entries[i].address == address;
        assert(rest[i].address == address);
    }
}

/// A ledger has at most one listing: the order that a listing keeps leaves
/// no choice.
pub proof fn lemma_listing_unique(
    ledger: Ledger,
    first: Seq<AllocationView>,
    second: Seq<AllocationView>,
)
    requires
        is_listing(ledger, first),
        is_listing(ledger, second),
    ensures
        first == second,
    decreases first.len(),
{
    if first.len() == 0 {
        if second.len() > 0 {
            assert(ledger.contains_key(second[0].address));
        }
    } else {
        let a = first.last();
        let b = second.last();
        if a.address != b.address {
            lemma_precedes_transitive(a.address, b.address, a.address);
            lemma_precedes_irreflexive(a.address);
        }
        lemma_listing_drop_last(ledger, first);
        lemma_listing_drop_last(ledger, second);
        lemma_listing_unique(ledger.remove(a.address), first.drop_last(), second.drop_last());
        assert(second =~= second.drop_last().push(b));
    }
}

/// After a sweep, the listing of a ledger is its listing before, with every
/// amount at zero.
pub proof fn lemma_swept_listing(ledger: Ledger, entries: Seq<AllocationView>)
    requires
        is_listing(ledger, entries),
    ensures
        is_listing(swept(ledger), zeroed(entries)),
{
    let after = zeroed(entries);
    assert forall|address: Seq<char>| #[trigger] swept(ledger).contains_key(address) implies exists|
        i: int,
    |
        0 <= i < after.len() && #[trigger] after[i].address == address by {
        let i = choose|i: int| 0 <= i < entries.len() && #[trigger] entries[i].address == address;
        assert(after[i].address == address);
    }
}

/// A sequence that lists a ledger is the listing of that ledger.
pub proof fn lemma_listing_of(ledger: Ledger, entries: Seq<AllocationView>)
    requires
        is_listing(ledger, entries),
    ensures
        listing_of(ledger) == entries,
{
    lemma_listing_unique(ledger, listing_of(ledger), entries);
}

} // verus!
