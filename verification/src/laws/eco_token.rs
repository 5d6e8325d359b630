//! Laws of the token ledger.

use crate::address::{Address, AddressId};
use crate::eco_token::{TokenCall, TokenState};
use crate::error::Error;
use crate::sums::{
    lemma_sum_of_empty, lemma_sum_of_insert, lemma_sum_of_nonnegative, lemma_sum_of_remove,
};
use vstd::prelude::*;

verus! {

/// Whatever a call is and however it ends, a ledger whose supply is the sum
/// of its balances is left with a supply that is the sum of its balances.
pub proof fn law_call_keeps_supply_sum(s: TokenState, call: TokenCall)
    requires
        s.supply_is_sum_of_balances(),
    ensures
        s.after(call).supply_is_sum_of_balances(),
{
    match call {
        TokenCall::Initialize { auth, admin } => {},
        TokenCall::Mint { auth, to, amount } => {
            if s.mint_result(auth, to, amount) is Ok {
                lemma_sum_of_insert(s.balances, to@, (s.balance_of(to@) + amount) as i128);
            }
        },
        TokenCall::Transfer { auth, from, to, amount } => {
            if s.transfer_result(auth, from, to, amount) is Ok {
                let debit = (s.balance_of(from@) - amount) as i128;
                let debited = s.balances.insert(from@, debit);
                lemma_sum_of_insert(s.balances, from@, debit);
                if from@ == to@ {
                    lemma_sum_of_insert(debited, to@, s.balance_of(from@));
                } else {
                    lemma_sum_of_insert(debited, to@, (s.balance_of(to@) + amount) as i128);
                }
            }
        },
    }
}

/// After any sequence of calls on a new ledger, the supply is the sum of all
/// balances.
pub proof fn law_supply_is_sum_of_balances(calls: Seq<TokenCall>)
    ensures
        TokenState::fresh().after_all(calls).supply_is_sum_of_balances(),
    decreases calls.len(),
{
    if calls.len() == 0 {
        lemma_sum_of_empty::<AddressId>();
    } else {
        law_supply_is_sum_of_balances(calls.drop_last());
        law_call_keeps_supply_sum(TokenState::fresh().after_all(calls.drop_last()), calls.last());
    }
}

/// No call makes the supply of an initialized ledger smaller, and only a
/// mint that succeeds changes it: it grows by the amount minted.
pub proof fn law_supply_never_shrinks(s: TokenState, call: TokenCall)
    requires
        s.initialized(),
    ensures
        s.after(call).total_supply >= s.total_supply,
        match call {
            TokenCall::Mint { auth, to, amount } => s.after(call).total_supply == if s.mint_result(
                auth,
                to,
                amount,
            ) is Ok {
                s.total_supply + amount
            } else {
                s.total_supply as int
            },
            _ => s.after(call).total_supply == s.total_supply,
        },
{
}

/// The admin is set once: no call changes the admin of an initialized ledger.
pub proof fn law_admin_is_set_once(s: TokenState, call: TokenCall)
    requires
        s.initialized(),
    ensures
        s.after(call).admin == s.admin,
{
}

/// No call takes a balance away: an address that was credited once has a
/// balance ever after.
pub proof fn law_balances_are_never_deleted(s: TokenState, call: TokenCall, who: AddressId)
    requires
        s.balances.contains_key(who),
    ensures
        s.after(call).balances.contains_key(who),
{
}

/// No balance is ever negative in a ledger that started without negative
/// balances.
pub proof fn law_balances_stay_nonnegative(s: TokenState, call: TokenCall)
    requires
        forall|who: AddressId| s.balance_of(who) >= 0,
    ensures
        forall|who: AddressId| #[trigger] s.after(call).balance_of(who) >= 0,
{
    assert forall|who: AddressId| #[trigger] s.after(call).balance_of(who) >= 0 by {
        assert(s.balance_of(who) >= 0);
        match call {
            TokenCall::Initialize { auth, admin } => {},
            TokenCall::Mint { auth, to, amount } => {
                assert(s.balance_of(to@) >= 0);
            },
            TokenCall::Transfer { auth, from, to, amount } => {
                assert(s.balance_of(to@) >= 0);
                assert(s.balance_of(from@) >= 0);
            },
        }
    }
}

/// A call that is refused changes nothing.
pub proof fn law_refused_call_changes_nothing(s: TokenState, call: TokenCall)
    requires
        match call {
            TokenCall::Initialize { auth, admin } => s.initialize_result(auth, admin) is Err,
            TokenCall::Mint { auth, to, amount } => s.mint_result(auth, to, amount) is Err,
            TokenCall::Transfer { auth, from, to, amount } => s.transfer_result(
                auth,
                from,
                to,
                amount,
            ) is Err,
        },
    ensures
        s.after(call) == s,
{
}

/// A mint that succeeds adds `amount` to the balance of `to` and to the
/// supply, and leaves every other balance as it was.
pub proof fn law_mint_credits_amount(
    s: TokenState,
    auth: Set<AddressId>,
    to: Address,
    amount: i128,
    other: AddressId,
)
    requires
        s.mint_result(auth, to, amount) is Ok,
        other != to@,
    ensures
        ({
            let after = s.after_mint(auth, to, amount);
            &&& after.balance_of(to@) == s.balance_of(to@) + amount
            &&& after.total_supply == s.total_supply + amount
            &&& after.balance_of(other) == s.balance_of(other)
        }),
{
}

/// A transfer of an amount that is not positive, or of more than the sender
/// holds, is refused and changes no balance, nor anything else.
pub proof fn law_transfer_refused(
    s: TokenState,
    auth: Set<AddressId>,
    from: Address,
    to: Address,
    amount: i128,
)
    requires
        amount <= 0 || s.balance_of(from@) < amount,
    ensures
        s.transfer_result(auth, from, to, amount) is Err,
        s.after_transfer(auth, from, to, amount) == s,
{
}

/// A transfer that succeeds takes `amount` from the sender and gives it to
/// the recipient, and leaves the supply and every other balance as they
/// were. A transfer to oneself leaves the balance as it was.
pub proof fn law_transfer_moves_amount(
    s: TokenState,
    auth: Set<AddressId>,
    from: Address,
    to: Address,
    amount: i128,
    other: AddressId,
)
    requires
        s.transfer_result(auth, from, to, amount) is Ok,
        other != from@,
        other != to@,
    ensures
        ({
            let after = s.after_transfer(auth, from, to, amount);
            &&& after.total_supply == s.total_supply
            &&& after.balance_of(other) == s.balance_of(other)
            &&& from@ != to@ ==> after.balance_of(from@) == s.balance_of(from@) - amount
            &&& from@ != to@ ==> after.balance_of(to@) == s.balance_of(to@) + amount
            &&& from@ == to@ ==> after.balance_of(from@) == s.balance_of(from@)
        }),
{
}

/// In a ledger whose supply is the sum of its balances, none of them
/// negative, a transfer is never refused for `Overflow`.
pub proof fn law_transfer_never_overflows(
    s: TokenState,
    auth: Set<AddressId>,
    from: Address,
    to: Address,
    amount: i128,
)
    requires
        s.supply_is_sum_of_balances(),
        forall|who: AddressId| s.balance_of(who) >= 0,
    ensures
        s.transfer_result(auth, from, to, amount) != Err::<(), Error>(Error::Overflow),
{
    if from@ != to@ && s.balances.contains_key(from@) && s.balances.contains_key(to@) {
        lemma_sum_of_remove(s.balances, from@);
        lemma_sum_of_remove(s.balances.remove(from@), to@);
        let rest = s.balances.remove(from@).remove(to@);
        assert forall|k: AddressId| rest.contains_key(k) implies rest[k] >= 0 by {
            assert(s.balance_of(k) >= 0);
        }
        lemma_sum_of_nonnegative(rest);
    }
}

/// Once a ledger has been initialized, `initialize` with an approved admin
/// is refused with `AlreadyInitialized`, and changes nothing.
pub proof fn law_initialize_only_once(
    s: TokenState,
    first_auth: Set<AddressId>,
    first_admin: Address,
    auth: Set<AddressId>,
    admin: Address,
)
    requires
        s.initialize_result(first_auth, first_admin) is Ok,
        auth.contains(admin@),
    ensures
        ({
            let initialized = s.after_initialize(first_auth, first_admin);
            &&& initialized.initialize_result(auth, admin) == Err::<(), Error>(
                Error::AlreadyInitialized,
            )
            &&& initialized.after_initialize(auth, admin) == initialized
        }),
{
}

} // verus!
