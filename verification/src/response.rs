use vstd::prelude::*;

verus! {

/// The denomination in which every amount of the ledger is paid out.
pub const DENOM: &'static str = "token";

/// An instruction to the host's bank: send `amount` of `denom` from the
/// contract to `to_address`.
#[derive(Clone, Debug, PartialEq, Eq)]
pub struct Transfer {
    pub to_address: String,
    pub denom: String,
    pub amount: u128,
}

/// A transfer as a mathematical value.
pub struct TransferView {
    pub to_address: Seq<char>,
    pub denom: Seq<char>,
    pub amount: u128,
}

impl View for Transfer {
    type V = TransferView;

    open spec fn view(&self) -> TransferView {
        TransferView { to_address: self.to_address@, denom: self.denom@, amount: self.amount }
    }
}

/// A key and a value that a handler reports with its result.
#[derive(Clone, Debug, PartialEq, Eq)]
pub struct Attribute {
    pub key: String,
    pub value: String,
}

impl View for Attribute {
    type V = (Seq<char>, Seq<char>);

    open spec fn view(&self) -> (Seq<char>, Seq<char>) {
        (self.key@, self.value@)
    }
}

/// What a handler hands back on success: the transfers that the host is to
/// carry out, in order, and the attributes of the call.
#[derive(Clone, Debug, PartialEq, Eq)]
pub struct Response {
    pub messages: Vec<Transfer>,
    pub attributes: Vec<Attribute>,
}

/// A response as a mathematical value.
pub struct ResponseView {
    pub messages: Seq<TransferView>,
    pub attributes: Seq<(Seq<char>, Seq<char>)>,
}

/// The transfers of a vector, each as a mathematical value.
pub open spec fn transfers_view(transfers: Seq<Transfer>) -> Seq<TransferView> {
    Seq::new(transfers.len(), |i: int| transfers[i]@)
}

/// The attributes of a vector, each as a pair of texts.
pub open spec fn attributes_view(attributes: Seq<Attribute>) -> Seq<(Seq<char>, Seq<char>)> {
    Seq::new(attributes.len(), |i: int| attributes[i]@)
}

impl View for Response {
    type V = ResponseView;

    open spec fn view(&self) -> ResponseView {
        ResponseView {
            messages: transfers_view(self.messages@),
            attributes: attributes_view(self.attributes@),
        }
    }
}

/// The sum of the amounts that `transfers` move.
pub open spec fn total(transfers: Seq<TransferView>) -> nat
    decreases transfers.len(),
{
    if transfers.len() == 0 {
        0
    } else {
        total(transfers.drop_last()) + transfers.last().amount as nat
    }
}

impl Transfer {
    /// A transfer of `amount` in the ledger's denomination to `to_address`.
    pub fn new(to_address: &str, amount: u128) -> (transfer: Transfer)
        ensures
            transfer@ == (TransferView { to_address: to_address@, denom: DENOM@, amount }),
    {
        Transfer { to_address: to_address.to_owned(), denom: DENOM.to_owned(), amount }
    }
}

impl Response {
    /// A response without transfers or attributes.
    pub fn new() -> (response: Response)
        ensures
            response@ == (ResponseView { messages: Seq::empty(), attributes: Seq::empty() }),
    {
        let response = Response { messages: Vec::new(), attributes: Vec::new() };
        assert(response@.messages =~= Seq::empty());
        assert(response@.attributes =~= Seq::empty());
        response
    }

    /// Appends one transfer.
    pub fn add_message(self, transfer: Transfer) -> (response: Response)
        ensures
            response@ == (ResponseView {
                messages: self@.messages.push(transfer@),
                attributes: self@.attributes,
            }),
    {
        let mut response = self;
        response.messages.push(transfer);
        assert(response@.messages =~= self@.messages.push(transfer@));
        response
    }

    /// Appends transfers, keeping their order.
    pub fn add_messages(self, transfers: Vec<Transfer>) -> (response: Response)
        ensures
            response@ == (ResponseView {
                messages: self@.messages + transfers_view(transfers@),
                attributes: self@.attributes,
            }),
    {
        let mut response = self;
        let mut transfers = transfers;
        let ghost added = transfers@;
        response.messages.append(&mut transfers);
        assert(response@.messages =~= self@.messages + transfers_view(added));
        response
    }

    /// Appends one attribute.
    pub fn add_attribute(self, key: &str, value: &str) -> (response: Response)
        ensures
            response@ == (ResponseView {
                messages: self@.messages,
                attributes: self@.attributes.push((key@, value@)),
            }),
    {
        let mut response = self;
        response.attributes.push(Attribute { key: key.to_owned(), value: value.to_owned() });
        assert(response@.attributes =~= self@.attributes.push((key@, value@)));
        response
    }
}

} // verus!
