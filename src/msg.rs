//! Messages the host hands in and the replies handed back.

use vstd::prelude::*;

verus! {

/// The identities of a list, as character sequences.
pub open spec fn ids(v: Seq<String>) -> Seq<Seq<char>> {
    v.map_values(|s: String| s@)
}

/// Read-only requests.
#[derive(Clone, Debug, PartialEq, Eq)]
pub enum QueryMsg {
    Greet {},
    AdminsList {},
}

#[derive(Clone, Debug, PartialEq, Eq)]
pub struct GreetResp {
    pub message: String,
}

/// Creates a contract instance: the first administrators (raw identities)
/// and the one denomination that donations must be paid in.
#[derive(Clone, Debug, PartialEq, Eq)]
pub struct InstantiateMsg {
    pub admins: Vec<String>,
    pub donation_denom: String,
}

/// State-changing requests.
#[derive(Clone, Debug, PartialEq, Eq)]
pub enum ExecuteMsg {
    AddMembers { admins: Vec<String> },
    Leave {},
    Donate {},
}

/// The administrators, in the order in which they were added.
#[derive(Clone, Debug, PartialEq, Eq)]
pub struct AdminListResp {
    pub admins: Vec<String>,
}

/// The answer to a `QueryMsg`, one variant per request.
#[derive(Clone, Debug, PartialEq, Eq)]
pub enum QueryResp {
    Greet(GreetResp),
    AdminsList(AdminListResp),
}

/// An amount of one denomination.
#[derive(Clone, Debug, PartialEq, Eq)]
pub struct Coin {
    pub denom: String,
    pub amount: u128,
}

/// Who sent a message and what payment came with it.
#[derive(Clone, Debug, PartialEq, Eq)]
pub struct MessageInfo {
    pub sender: String,
    pub funds: Vec<Coin>,
}

#[derive(Clone, Debug, PartialEq, Eq)]
pub struct Attribute {
    pub key: String,
    pub value: String,
}

impl View for Attribute {
    type V = (Seq<char>, Seq<char>);

    open spec fn view(&self) -> (Seq<char>, Seq<char>) {
        (self.key@, self.value@)
    }
}

pub open spec fn attrs_view(v: Seq<Attribute>) -> Seq<(Seq<char>, Seq<char>)> {
    v.map_values(|a: Attribute| a@)
}

/// An observability event: a type tag and its attributes.
#[derive(Clone, Debug, PartialEq, Eq)]
pub struct Event {
    pub ty: String,
    pub attributes: Vec<Attribute>,
}

impl View for Event {
    type V = (Seq<char>, Seq<(Seq<char>, Seq<char>)>);

    open spec fn view(&self) -> (Seq<char>, Seq<(Seq<char>, Seq<char>)>) {
        (self.ty@, attrs_view(self.attributes@))
    }
}

pub open spec fn events_view(v: Seq<Event>) -> Seq<(Seq<char>, Seq<(Seq<char>, Seq<char>)>)> {
    v.map_values(|e: Event| e@)
}

/// An instruction to the host to transfer `amount` of `denom` to `to_address`.
#[derive(Clone, Debug, PartialEq, Eq)]
pub struct BankSend {
    pub to_address: String,
    pub denom: String,
    pub amount: u128,
}

impl View for BankSend {
    type V = (Seq<char>, Seq<char>, nat);

    open spec fn view(&self) -> (Seq<char>, Seq<char>, nat) {
        (self.to_address@, self.denom@, self.amount as nat)
    }
}

pub open spec fn sends_view(v: Seq<BankSend>) -> Seq<(Seq<char>, Seq<char>, nat)> {
    v.map_values(|m: BankSend| m@)
}

/// What a successful execution hands back to the host.
#[derive(Clone, Debug, PartialEq, Eq)]
pub struct Response {
    pub messages: Vec<BankSend>,
    pub attributes: Vec<Attribute>,
    pub events: Vec<Event>,
}

impl Response {
    pub open spec fn is_empty(&self) -> bool {
        &&& self.messages@.len() == 0
        &&& self.attributes@.len() == 0
        &&& self.events@.len() == 0
    }

    pub fn new() -> (r: Response)
        ensures
            r.is_empty(),
    {
        Response { messages: Vec::new(), attributes: Vec::new(), events: Vec::new() }
    }
}

/// Why a payment was refused.
#[derive(Clone, Debug, PartialEq, Eq)]
pub enum PaymentError {
    MissingDenom(String),
    ExtraDenom(String),
    MultipleDenoms {},
    NoFunds {},
    NonPayable {},
}

#[derive(Clone, Debug, PartialEq, Eq)]
pub enum ContractError {
    /// The sender is not an administrator.
    Unauthorized { sender: String },
    /// The attached payment is not exactly one non-zero coin of the
    /// configured denomination.
    Payment(PaymentError),
    /// The host refused the raw identity `identity`.
    IdentityValidationFailed { identity: String },
    /// A donation arrived while there were no administrators to share it.
    NoRecipients {},
}

} // verus!
