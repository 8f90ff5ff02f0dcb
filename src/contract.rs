//! Instantiation, the query and execute dispatchers, and their handlers.
//!
//! Identity validation belongs to the host: for every raw identity that a
//! message carries, the caller passes the host's verdict (`Some` of the
//! validated form, or `None` if the host refused it), in the same order.

use crate::decimal::{decimal, decimal_string};
use crate::msg::{
    attrs_view, events_view, ids, sends_view, AdminListResp, Attribute, BankSend, ContractError,
    Event, ExecuteMsg, GreetResp, InstantiateMsg, MessageInfo, QueryMsg, QueryResp, Response,
};
use crate::payment::{accepted, must_pay, refusal};
use crate::state::{State, StateView};
use vstd::prelude::*;

verus! {

/// The host accepted every identity.
pub open spec fn all_valid(verdicts: Seq<Option<String>>) -> bool {
    forall|i: int| 0 <= i < verdicts.len() ==> verdicts[i] is Some
}

/// The validated identities, in order.
pub open spec fn valid_ids(verdicts: Seq<Option<String>>) -> Seq<Seq<char>> {
    verdicts.map_values(|o: Option<String>| o->Some_0@)
}

/// `identity` is the first raw identity that the host refused.
pub open spec fn first_refused(
    raw: Seq<String>,
    verdicts: Seq<Option<String>>,
    identity: Seq<char>,
) -> bool {
    exists|i: int|
        0 <= i < verdicts.len() && verdicts[i] is None && raw[i]@ == identity && forall|j: int|
            0 <= j < i ==> verdicts[j] is Some
}

/// The state that instantiation creates once every identity is valid.
pub open spec fn instantiated(verdicts: Seq<Option<String>>, denom: Seq<char>) -> StateView {
    StateView { admins: valid_ids(verdicts), denom }
}

pub open spec fn is_admin(s: StateView, who: Seq<char>) -> bool {
    s.admins.contains(who)
}

/// The state after appending the validated identities.
pub open spec fn with_members(s: StateView, verdicts: Seq<Option<String>>) -> StateView {
    StateView { admins: s.admins + valid_ids(verdicts), denom: s.denom }
}

/// Holds of every identity but `who`.
pub open spec fn other_than(who: Seq<char>) -> spec_fn(Seq<char>) -> bool {
    |a: Seq<char>| a != who
}

/// The state after every occurrence of `who` has left.
pub open spec fn without(s: StateView, who: Seq<char>) -> StateView {
    StateView { admins: s.admins.filter(other_than(who)), denom: s.denom }
}

/// One transfer per administrator slot, each of `total / admins.len()`.
pub open spec fn donation_sends(s: StateView, total: nat) -> Seq<(Seq<char>, Seq<char>, nat)> {
    s.admins.map_values(|a: Seq<char>| (a, s.denom, total / s.admins.len()))
}

/// One `admin_added` event per new administrator, tagged with its identity.
pub open spec fn added_events(added: Seq<Seq<char>>) -> Seq<
    (Seq<char>, Seq<(Seq<char>, Seq<char>)>),
> {
    added.map_values(|a: Seq<char>| ("admin_added"@, seq![("addr"@, a)]))
}

pub open spec fn add_members_attrs(count: nat) -> Seq<(Seq<char>, Seq<char>)> {
    seq![("action"@, "add_members"@), ("added_count"@, decimal(count))]
}

pub open spec fn donate_attrs(total: nat, per_admin: nat) -> Seq<(Seq<char>, Seq<char>)> {
    seq![("action"@, "donate"@), ("amount"@, decimal(total)), ("per_admin"@, decimal(per_admin))]
}

/// What instantiation returns: the new state when the host accepted every
/// identity, else the first refused one.
pub open spec fn instantiate_outcome(
    msg: InstantiateMsg,
    verdicts: Seq<Option<String>>,
    r: Result<State, ContractError>,
) -> bool {
    match r {
        Ok(s) => all_valid(verdicts) && s@ == instantiated(verdicts, msg.donation_denom@),
        Err(ContractError::IdentityValidationFailed { identity }) => !all_valid(verdicts)
            && first_refused(msg.admins@, verdicts, identity@),
        _ => false,
    }
}

/// What `AddMembers` does: only an administrator may add; every new identity
/// must be valid; then they are appended in order, with one event each.
pub open spec fn add_members_outcome(
    pre: State,
    post: State,
    sender: Seq<char>,
    raw: Seq<String>,
    verdicts: Seq<Option<String>>,
    r: Result<Response, ContractError>,
) -> bool {
    &&& r is Err ==> post == pre
    &&& match r {
        Ok(resp) => {
            &&& is_admin(pre@, sender)
            &&& all_valid(verdicts)
            &&& post@ == with_members(pre@, verdicts)
            &&& resp.messages@.len() == 0
            &&& events_view(resp.events@) == added_events(valid_ids(verdicts))
            &&& attrs_view(resp.attributes@) == add_members_attrs(verdicts.len())
        },
        Err(ContractError::Unauthorized { sender: s }) => !is_admin(pre@, sender) && s@ == sender,
        Err(ContractError::IdentityValidationFailed { identity }) => {
            &&& is_admin(pre@, sender)
            &&& !all_valid(verdicts)
            &&& first_refused(raw, verdicts, identity@)
        },
        _ => false,
    }
}

/// What `Donate` does: the payment must be exactly one non-zero coin of the
/// configured denomination, and there must be someone to pay; then every
/// administrator slot gets the same whole share.
pub open spec fn donate_outcome(
    s: State,
    info: MessageInfo,
    r: Result<Response, ContractError>,
) -> bool {
    match r {
        Ok(resp) => {
            &&& accepted(info.funds@, s@.denom)
            &&& s@.admins.len() > 0
            &&& sends_view(resp.messages@) == donation_sends(s@, info.funds@[0].amount as nat)
            &&& attrs_view(resp.attributes@) == donate_attrs(
                info.funds@[0].amount as nat,
                info.funds@[0].amount as nat / s@.admins.len(),
            )
            &&& resp.events@.len() == 0
        },
        Err(ContractError::Payment(e)) => refusal(info.funds@, s@.denom, e),
        Err(ContractError::NoRecipients {  }) => accepted(info.funds@, s@.denom) && s@.admins.len()
            == 0,
        _ => false,
    }
}

fn contains_identity(v: &Vec<String>, who: &String) -> (r: bool)
    ensures
        r == ids(v@).contains(who@),
{
    let mut i: usize = 0;
    while i < v.len()
        invariant
            i <= v@.len(),
            forall|j: int| 0 <= j < i ==> ids(v@)[j] != who@,
        decreases v@.len() - i,
    {
        if v[i] == *who {
            assert(ids(v@)[i as int] == who@);
            return true;
        }
        i += 1;
    }
    false
}

fn copy_ids(v: &Vec<String>) -> (r: Vec<String>)
    ensures
        ids(r@) == ids(v@),
{
    let mut r: Vec<String> = Vec::new();
    let mut i: usize = 0;
    while i < v.len()
        invariant
            i <= v@.len(),
            r@.len() == i,
            ids(r@) =~= ids(v@).take(i as int),
        decreases v@.len() - i,
    {
        let id = v[i].clone();
        assert(id@ == v@[i as int]@);
        r.push(id);
        assert(r@[i as int]@ == ids(v@)[i as int]);
        assert(ids(r@) =~= ids(v@).take(i + 1));
        i += 1;
    }
    assert(ids(v@).take(v@.len() as int) =~= ids(v@));
    r
}

/// Keeps the validated identities if the host accepted them all, else
/// reports the first raw identity that it refused.
fn validate_all(raw: &Vec<String>, verdicts: Vec<Option<String>>) -> (r: Result<
    Vec<String>,
    ContractError,
>)
    requires
        verdicts@.len() == raw@.len(),
    ensures
        match r {
            Ok(v) => all_valid(verdicts@) && ids(v@) == valid_ids(verdicts@),
            Err(ContractError::IdentityValidationFailed { identity }) => !all_valid(verdicts@)
                && first_refused(raw@, verdicts@, identity@),
            _ => false,
        },
{
    let mut out: Vec<String> = Vec::new();
    let mut i: usize = 0;
    while i < verdicts.len()
        invariant
            i <= verdicts@.len(),
            verdicts@.len() == raw@.len(),
            forall|j: int| 0 <= j < i ==> verdicts@[j] is Some,
            out@.len() == i,
            ids(out@) =~= valid_ids(verdicts@).take(i as int),
        decreases verdicts@.len() - i,
    {
        match &verdicts[i] {
            Some(id) => {
                let id = id.clone();
                assert(id@ == valid_ids(verdicts@)[i as int]);
                out.push(id);
                assert(ids(out@) =~= valid_ids(verdicts@).take(i + 1));
            },
            None => {
                let identity = raw[i].clone();
                assert(first_refused(raw@, verdicts@, identity@)) by {
                    assert(verdicts@[i as int] is None);
                }
                return Err(ContractError::IdentityValidationFailed { identity });
            },
        }
        i += 1;
    }
    assert(valid_ids(verdicts@).take(verdicts@.len() as int) =~= valid_ids(verdicts@));
    Ok(out)
}

/// Creates the initial state from the host's verdicts on `msg.admins`.
/// Nothing is created unless every identity is valid.
pub fn instantiate(msg: InstantiateMsg, verdicts: Vec<Option<String>>) -> (r: Result<
    State,
    ContractError,
>)
    requires
        verdicts@.len() == msg.admins@.len(),
    ensures
        instantiate_outcome(msg, verdicts@, r),
{
    match validate_all(&msg.admins, verdicts) {
        Ok(admins) => Ok(State { admins, donation_denom: msg.donation_denom }),
        Err(e) => Err(e),
    }
}

/// The fixed greeting.
pub fn greet() -> (r: GreetResp)
    ensures
        r.message@ == "Hello World"@,
{
    GreetResp { message: String::from_str("Hello World") }
}

/// The administrators as stored, in order.
pub fn admins_list(state: &State) -> (r: AdminListResp)
    ensures
        ids(r.admins@) == state@.admins,
{
    AdminListResp { admins: copy_ids(&state.admins) }
}

/// Answers a read-only request.
pub fn query(state: &State, msg: QueryMsg) -> (r: QueryResp)
    ensures
        match msg {
            QueryMsg::Greet {  } => r matches QueryResp::Greet(g) && g.message@ == "Hello World"@,
            QueryMsg::AdminsList {  } => r matches QueryResp::AdminsList(l) && ids(l.admins@)
                == state@.admins,
        },
{
    match msg {
        QueryMsg::Greet {  } => QueryResp::Greet(greet()),
        QueryMsg::AdminsList {  } => QueryResp::AdminsList(admins_list(state)),
    }
}

/// Appends administrators on behalf of `info.sender`, who must already be
/// one. `verdicts` are the host's verdicts on `admins`, in order.
pub fn add_members(
    state: &mut State,
    info: &MessageInfo,
    admins: Vec<String>,
    verdicts: Vec<Option<String>>,
) -> (r: Result<Response, ContractError>)
    requires
        verdicts@.len() == admins@.len(),
    ensures
        add_members_outcome(*old(state), *final(state), info.sender@, admins@, verdicts@, r),
{
    if !contains_identity(&state.admins, &info.sender) {
        return Err(ContractError::Unauthorized { sender: info.sender.clone() });
    }
    let mut added = match validate_all(&admins, verdicts) {
        Ok(v) => v,
        Err(e) => return Err(e),
    };
    let ghost added_ids = ids(added@);
    let count = added.len();
    let mut events: Vec<Event> = Vec::new();
    let mut i: usize = 0;
    while i < added.len()
        invariant
            i <= added@.len(),
            events@.len() == i,
            events_view(events@) =~= added_events(ids(added@)).take(i as int),
        decreases added@.len() - i,
    {
        let attr = Attribute { key: String::from_str("addr"), value: added[i].clone() };
        let attributes = vec![attr];
        assert(attrs_view(attributes@) =~= seq![("addr"@, ids(added@)[i as int])]);
        events.push(Event { ty: String::from_str("admin_added"), attributes });
        assert(events_view(events@) =~= added_events(ids(added@)).take(i + 1));
        i += 1;
    }
    assert(added_events(ids(added@)).take(count as int) =~= added_events(ids(added@)));
    let action = Attribute { key: String::from_str("action"), value: String::from_str("add_members") };
    let added_count = Attribute {
        key: String::from_str("added_count"),
        value: decimal_string(count as u128),
    };
    let attributes = vec![action, added_count];
    assert(attrs_view(attributes@) =~= add_members_attrs(count as nat));
    let ghost pre = state@;
    state.admins.append(&mut added);
    assert(state@.admins =~= pre.admins + added_ids);
    Ok(Response { messages: Vec::new(), attributes, events })
}

proof fn lemma_filter_push(s: Seq<Seq<char>>, x: Seq<char>, who: Seq<char>)
    ensures
        s.push(x).filter(other_than(who)) == if x != who {
            s.filter(other_than(who)).push(x)
        } else {
            s.filter(other_than(who))
        },
{
    reveal(Seq::filter);
    assert(s.push(x).drop_last() =~= s);
}

/// Removes every occurrence of the sender from the administrators. Never
/// fails: a sender who is not an administrator changes nothing.
pub fn leave(state: &mut State, info: &MessageInfo) -> (r: Response)
    ensures
        final(state)@ == without(old(state)@, info.sender@),
        r.is_empty(),
{
    let ghost pre = ids(state.admins@);
    let mut kept: Vec<String> = Vec::new();
    let mut i: usize = 0;
    while i < state.admins.len()
        invariant
            i <= state.admins@.len(),
            pre == ids(state.admins@),
            ids(kept@) == pre.take(i as int).filter(other_than(info.sender@)),
        decreases state.admins@.len() - i,
    {
        proof {
            assert(pre.take(i + 1) =~= pre.take(i as int).push(pre[i as int]));
            lemma_filter_push(pre.take(i as int), pre[i as int], info.sender@);
        }
        if !(state.admins[i] == info.sender) {
            let id = state.admins[i].clone();
            let ghost before = kept@;
            kept.push(id);
            assert(ids(kept@) =~= ids(before).push(pre[i as int]));
        }
        i += 1;
    }
    assert(pre.take(i as int) =~= pre);
    state.admins = kept;
    Response::new()
}

/// Splits the attached payment evenly over the administrator slots; the
/// remainder of the division stays with the contract.
pub fn donate(state: &State, info: &MessageInfo) -> (r: Result<Response, ContractError>)
    ensures
        donate_outcome(*state, *info, r),
{
    let donation = match must_pay(info, &state.donation_denom) {
        Ok(a) => a,
        Err(e) => return Err(ContractError::Payment(e)),
    };
    let n = state.admins.len();
    if n == 0 {
        return Err(ContractError::NoRecipients {  });
    }
    let per_admin = donation / (n as u128);
    let ghost sends = donation_sends(state@, donation as nat);
    let mut messages: Vec<BankSend> = Vec::new();
    let mut i: usize = 0;
    while i < n
        invariant
            i <= n,
            n == state.admins@.len(),
            n > 0,
            per_admin == donation / (n as u128),
            sends == donation_sends(state@, donation as nat),
            messages@.len() == i,
            sends_view(messages@) =~= sends.take(i as int),
        decreases n - i,
    {
        let m = BankSend {
            to_address: state.admins[i].clone(),
            denom: state.donation_denom.clone(),
            amount: per_admin,
        };
        assert(m@ == sends[i as int]);
        messages.push(m);
        assert(sends_view(messages@) =~= sends.take(i + 1));
        i += 1;
    }
    assert(sends.take(n as int) =~= sends);
    let action = Attribute { key: String::from_str("action"), value: String::from_str("donate") };
    let amount = Attribute { key: String::from_str("amount"), value: decimal_string(donation) };
    let share = Attribute {
        key: String::from_str("per_admin"),
        value: decimal_string(per_admin),
    };
    let attributes = vec![action, amount, share];
    assert(attrs_view(attributes@) =~= donate_attrs(donation as nat, donation as nat / n as nat));
    Ok(Response { messages, attributes, events: Vec::new() })
}

/// Carries out a state-changing request. For `AddMembers`, `verdicts` are the
/// host's verdicts on the identities it names; the other requests ignore them.
/// On failure the state is left as it was.
pub fn execute(
    state: &mut State,
    info: &MessageInfo,
    msg: ExecuteMsg,
    verdicts: Vec<Option<String>>,
) -> (r: Result<Response, ContractError>)
    requires
        msg matches ExecuteMsg::AddMembers { admins } ==> verdicts@.len() == admins@.len(),
    ensures
        match msg {
            ExecuteMsg::AddMembers { admins } => add_members_outcome(
                *old(state),
                *final(state),
                info.sender@,
                admins@,
                verdicts@,
                r,
            ),
            ExecuteMsg::Leave {  } => r matches Ok(resp) && resp.is_empty() && final(state)@
                == without(old(state)@, info.sender@),
            ExecuteMsg::Donate {  } => donate_outcome(*old(state), *info, r) && *final(state)
                == *old(state),
        },
{
    match msg {
        ExecuteMsg::AddMembers { admins } => add_members(state, info, admins, verdicts),
        ExecuteMsg::Leave {  } => Ok(leave(state, info)),
        ExecuteMsg::Donate {  } => donate(state, info),
    }
}

} // verus!
