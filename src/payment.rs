//! The payment requirement of a donation, checked by `cw_utils::must_pay`.

use crate::msg::{Coin, MessageInfo, PaymentError};
use vstd::prelude::*;

verus! {

/// The attached funds are exactly one non-zero coin of `denom`.
pub open spec fn accepted(funds: Seq<Coin>, denom: Seq<char>) -> bool {
    funds.len() == 1 && funds[0].amount != 0 && funds[0].denom@ == denom
}

/// `e` is the refusal that the funds earn when `denom` is required.
pub open spec fn refusal(funds: Seq<Coin>, denom: Seq<char>, e: PaymentError) -> bool {
    match e {
        PaymentError::NoFunds {  } => funds.len() == 0 || (funds.len() == 1 && funds[0].amount
            == 0),
        PaymentError::MultipleDenoms {  } => funds.len() > 1,
        PaymentError::MissingDenom(d) => funds.len() == 1 && funds[0].amount != 0
            && funds[0].denom@ != denom && d@ == denom,
        _ => false,
    }
}

/// Relies on cw_utils::must_pay: with no coin or a zero one it refuses with
/// `NoFunds`, with two or more with `MultipleDenoms`, with one of another
/// denomination with `MissingDenom(denom)`; else it returns the amount.
#[verifier::external_body]
pub(crate) fn must_pay(info: &MessageInfo, denom: &String) -> (r: Result<u128, PaymentError>)
    ensures
        match r {
            Ok(a) => accepted(info.funds@, denom@) && a == info.funds@[0].amount,
            Err(e) => refusal(info.funds@, denom@, e),
        },
{
    let funds = info.funds.iter().map(|c| cosmwasm_std::Coin::new(c.amount, c.denom.clone()));
    let info = cosmwasm_std::MessageInfo {
        sender: cosmwasm_std::Addr::unchecked(info.sender.clone()),
        funds: funds.collect(),
    };
    match cw_utils::must_pay(&info, denom) {
        Ok(a) => Ok(a.u128()),
        Err(cw_utils::PaymentError::MissingDenom(d)) => Err(PaymentError::MissingDenom(d)),
        Err(cw_utils::PaymentError::ExtraDenom(d)) => Err(PaymentError::ExtraDenom(d)),
        Err(cw_utils::PaymentError::MultipleDenoms {}) => Err(PaymentError::MultipleDenoms {}),
        Err(cw_utils::PaymentError::NoFunds {}) => Err(PaymentError::NoFunds {}),
        Err(cw_utils::PaymentError::NonPayable {}) => Err(PaymentError::NonPayable {}),
    }
}

} // verus!
