//! Properties that relate the operations, proved over their contracts.

use crate::contract::{
    add_members_attrs, add_members_outcome, added_events, all_valid, donate_outcome,
    donation_sends, instantiated, is_admin, valid_ids, without,
};
use crate::msg::{attrs_view, events_view, ContractError, MessageInfo, Response};
use crate::payment::accepted;
use crate::state::{State, StateView};
use vstd::prelude::*;

verus! {

/// The sum of the amounts of a list of transfers.
pub open spec fn sent_total(sends: Seq<(Seq<char>, Seq<char>, nat)>) -> nat
    decreases sends.len(),
{
    if sends.len() == 0 {
        0
    } else {
        sent_total(sends.drop_last()) + sends.last().2
    }
}

/// Instantiating with identities that are all valid lists exactly the
/// validated identities, in the order given.
pub proof fn instantiate_lists_in_order(verdicts: Seq<Option<String>>, denom: Seq<char>)
    requires
        all_valid(verdicts),
    ensures
        instantiated(verdicts, denom).admins.len() == verdicts.len(),
        forall|i: int|
            0 <= i < verdicts.len() ==> instantiated(verdicts, denom).admins[i]
                == verdicts[i]->Some_0@,
{
}

/// A sender who is not an administrator cannot add members: the request
/// fails with `Unauthorized` and the state stays as it was.
pub proof fn outsider_cannot_add(
    pre: State,
    post: State,
    sender: Seq<char>,
    raw: Seq<String>,
    verdicts: Seq<Option<String>>,
    r: Result<Response, ContractError>,
)
    requires
        add_members_outcome(pre, post, sender, raw, verdicts, r),
        !is_admin(pre@, sender),
    ensures
        r matches Err(ContractError::Unauthorized { sender: s }) && s@ == sender,
        post == pre,
{
}

/// An administrator who adds N valid identities grows the list by exactly N,
/// appended in input order, with N `admin_added` events and a count of N.
pub proof fn admin_adds_in_order(
    pre: State,
    post: State,
    sender: Seq<char>,
    raw: Seq<String>,
    verdicts: Seq<Option<String>>,
    r: Result<Response, ContractError>,
)
    requires
        add_members_outcome(pre, post, sender, raw, verdicts, r),
        is_admin(pre@, sender),
        all_valid(verdicts),
    ensures
        r is Ok,
        post@.admins.len() == pre@.admins.len() + verdicts.len(),
        post@.admins.take(pre@.admins.len() as int) == pre@.admins,
        forall|i: int|
            0 <= i < verdicts.len() ==> post@.admins[pre@.admins.len() + i]
                == verdicts[i]->Some_0@,
        r matches Ok(resp) && events_view(resp.events@) == added_events(valid_ids(verdicts))
            && events_view(resp.events@).len() == verdicts.len() && attrs_view(resp.attributes@)
            == add_members_attrs(verdicts.len()),
{
    assert(post@.admins.take(pre@.admins.len() as int) =~= pre@.admins);
}

/// Leaving removes every occurrence of the one who leaves and keeps every
/// other entry, whether or not that identity was an administrator.
pub proof fn leave_removes_every_occurrence(s: StateView, who: Seq<char>)
    ensures
        !without(s, who).admins.contains(who),
        forall|i: int| 0 <= i < s.admins.len() && s.admins[i] != who
            ==> #[trigger] without(s, who).admins.contains(s.admins[i]),
        !s.admins.contains(who) ==> without(s, who).admins == s.admins,
        without(s, who).denom == s.denom,
{
    broadcast use vstd::seq_lib::group_filter_ensures;

    if !s.admins.contains(who) {
        lemma_filter_keeps_all(s.admins, who);
    }
}

proof fn lemma_filter_keeps_all(admins: Seq<Seq<char>>, who: Seq<char>)
    requires
        !admins.contains(who),
    ensures
        admins.filter(crate::contract::other_than(who)) == admins,
    decreases admins.len(),
{
    reveal(Seq::filter);
    if admins.len() > 0 {
        let rest = admins.drop_last();
        assert(!rest.contains(who)) by {
            if rest.contains(who) {
                let j = choose|j: int| 0 <= j < rest.len() && rest[j] == who;
                assert(admins[j] == who);
            }
        }
        lemma_filter_keeps_all(rest, who);
        assert(admins.last() != who) by {
            assert(admins[admins.len() - 1] == admins.last());
        }
        assert(rest.push(admins.last()) =~= admins);
    }
}

proof fn lemma_constant_total(sends: Seq<(Seq<char>, Seq<char>, nat)>, share: nat)
    requires
        forall|i: int| 0 <= i < sends.len() ==> sends[i].2 == share,
    ensures
        sent_total(sends) == sends.len() * share,
    decreases sends.len(),
{
    if sends.len() > 0 {
        lemma_constant_total(sends.drop_last(), share);
        assert(sends.last() == sends[sends.len() - 1]);
        assert((sends.len() - 1) * share + share == sends.len() * share) by (nonlinear_arith);
    }
}

/// A donation of `total` over K administrator slots pays each slot
/// `total / K`, sends `K * (total / K)` in all, and keeps back the remainder,
/// which is less than K.
pub proof fn donation_split(s: StateView, total: nat)
    requires
        s.admins.len() > 0,
    ensures
        donation_sends(s, total).len() == s.admins.len(),
        forall|i: int|
            0 <= i < s.admins.len() ==> #[trigger] donation_sends(s, total)[i] == (
                s.admins[i],
                s.denom,
                total / s.admins.len(),
            ),
        sent_total(donation_sends(s, total)) == s.admins.len() * (total / s.admins.len()),
        sent_total(donation_sends(s, total)) <= total,
        total - sent_total(donation_sends(s, total)) == total % s.admins.len(),
        total % s.admins.len() < s.admins.len(),
{
    let k = s.admins.len();
    lemma_constant_total(donation_sends(s, total), total / k);
    assert(k * (total / k) + total % k == total) by (nonlinear_arith)
        requires
            k > 0,
    ;
}

/// A donation whose payment is not exactly one non-zero coin of the
/// configured denomination fails, so nothing is sent.
pub proof fn refused_payment_sends_nothing(
    s: State,
    info: MessageInfo,
    r: Result<Response, ContractError>,
)
    requires
        donate_outcome(s, info, r),
        !accepted(info.funds@, s@.denom),
    ensures
        r is Err,
{
}

} // verus!
