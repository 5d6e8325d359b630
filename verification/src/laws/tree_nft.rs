//! Laws of the registry of tree tokens.

use crate::address::{Address, AddressId};
use crate::error::Error;
use crate::tree_nft::{Collection, NftCall, NftState, TreeMetadata};
use vstd::prelude::*;

verus! {

/// The tokens of one owner are finitely many where all tokens are.
proof fn lemma_tokens_of_finite(s: NftState, owner: AddressId)
    requires
        s.owners.dom().finite(),
    ensures
        s.tokens_of(owner).finite(),
{
    vstd::set_lib::lemma_len_subset(s.tokens_of(owner), s.owners.dom());
}

/// Whatever a call is and however it ends, it leaves counts that match the
/// owners if they did before: every owner's count is the number of tokens
/// whose owner it is.
pub proof fn law_call_keeps_counts(s: NftState, call: NftCall)
    requires
        s.counts_match_owners(),
    ensures
        s.after(call).counts_match_owners(),
{
    let after = s.after(call);
    match call {
        NftCall::Initialize { auth, collection } => {
            assert forall|owner: AddressId| #[trigger]
                after.balance_of(owner) == after.tokens_of(owner).len() by {
                assert(after.tokens_of(owner) =~= s.tokens_of(owner));
                assert(s.balance_of(owner) == s.tokens_of(owner).len());
            }
        },
        NftCall::Mint { auth, to, tree } => {
            if s.mint_result(auth, to) is Ok {
                let token_id = (s.total_supply + 1) as u64;
                assert(!s.owners.contains_key(token_id));
                assert(after.owners.dom() =~= s.owners.dom().insert(token_id));
                assert forall|owner: AddressId| #[trigger]
                    after.balance_of(owner) == after.tokens_of(owner).len() by {
                    lemma_tokens_of_finite(s, owner);
                    assert(s.balance_of(owner) == s.tokens_of(owner).len());
                    if owner == to@ {
                        assert(after.tokens_of(owner) =~= s.tokens_of(owner).insert(token_id));
                    } else {
                        assert(after.tokens_of(owner) =~= s.tokens_of(owner));
                    }
                }
            }
        },
        NftCall::Burn { auth, token_id } => {
            if s.burn_result(auth, token_id) is Ok {
                let burned_owner = s.owners[token_id]@;
                assert(after.owners.dom() =~= s.owners.dom().remove(token_id));
                lemma_owner_has_a_token(s, token_id);
                assert forall|owner: AddressId| #[trigger]
                    after.balance_of(owner) == after.tokens_of(owner).len() by {
                    lemma_tokens_of_finite(s, owner);
                    assert(s.balance_of(owner) == s.tokens_of(owner).len());
                    if owner == burned_owner {
                        assert(after.tokens_of(owner) =~= s.tokens_of(owner).remove(token_id));
                    } else {
                        assert(after.tokens_of(owner) =~= s.tokens_of(owner));
                    }
                }
            }
        },
    }
}

/// Where the counts match the owners, the owner of a token has a count of at
/// least 1.
proof fn lemma_owner_has_a_token(s: NftState, token_id: u64)
    requires
        s.counts_match_owners(),
        s.owners.contains_key(token_id),
    ensures
        s.balance_of(s.owners[token_id]@) >= 1,
{
    let owner = s.owners[token_id]@;
    lemma_tokens_of_finite(s, owner);
    assert(s.tokens_of(owner).contains(token_id));
    assert(s.balance_of(owner) == s.tokens_of(owner).len());
    if s.tokens_of(owner).len() == 0 {
        assert(s.tokens_of(owner) =~= Set::empty());
    }
}

/// After any sequence of calls on a new registry, every owner's count is the
/// number of tokens whose owner it is.
pub proof fn law_counts_match_owners(calls: Seq<NftCall>)
    ensures
        NftState::fresh().after_all(calls).counts_match_owners(),
    decreases calls.len(),
{
    if calls.len() == 0 {
        let s = NftState::fresh();
        assert forall|owner: AddressId| #[trigger]
            s.balance_of(owner) == s.tokens_of(owner).len() by {
            assert(s.tokens_of(owner) =~= Set::empty());
        }
    } else {
        law_counts_match_owners(calls.drop_last());
        law_call_keeps_counts(NftState::fresh().after_all(calls.drop_last()), calls.last());
    }
}

/// After a token is burned it has no owner, no metadata and no URI of its
/// own, its owner has one token fewer (none, where the count stood at 0),
/// every other count and every other token is as before, and so is the
/// number of tokens ever minted.
pub proof fn law_burn_removes_token(s: NftState, auth: Set<AddressId>, token_id: u64)
    requires
        s.burn_result(auth, token_id) is Ok,
    ensures
        ({
            let after = s.after_burn(auth, token_id);
            let owner = s.owners[token_id]@;
            &&& after.owner_of(token_id) == Err::<Address, Error>(Error::NotFound)
            &&& after.get_tree_data(token_id) == Err::<TreeMetadata, Error>(Error::NotFound)
            &&& !after.token_uris.contains_key(token_id)
            &&& after.balance_of(owner) == if s.balance_of(owner) > 0 {
                s.balance_of(owner) - 1
            } else {
                0
            }
            &&& after.total_supply == s.total_supply
            &&& forall|other: AddressId|
                other != owner ==> #[trigger] after.balance_of(other) == s.balance_of(other)
            &&& forall|other: u64|
                other != token_id ==> #[trigger] after.owner_of(other) == s.owner_of(other)
            &&& forall|other: u64|
                other != token_id ==> #[trigger] after.get_tree_data(other) == s.get_tree_data(
                    other,
                )
        }),
{
}

/// Where the counts match the owners, burning a token takes exactly 1 from
/// its owner's count: the count does not stand at 0.
pub proof fn law_burn_takes_one_from_owner(s: NftState, auth: Set<AddressId>, token_id: u64)
    requires
        s.counts_match_owners(),
        s.burn_result(auth, token_id) is Ok,
    ensures
        s.after_burn(auth, token_id).balance_of(s.owners[token_id]@) == s.balance_of(
            s.owners[token_id]@,
        ) - 1,
{
    lemma_owner_has_a_token(s, token_id);
}

/// A token that is minted gets the id that follows the number of tokens ever
/// minted, which no token has; it belongs to `to`, whose count goes up by 1,
/// and says of its tree what was given. Every other token and count is as
/// before.
pub proof fn law_mint_adds_token(
    s: NftState,
    auth: Set<AddressId>,
    to: Address,
    tree: TreeMetadata,
)
    requires
        s.counts_match_owners(),
        s.mint_result(auth, to) is Ok,
    ensures
        ({
            let after = s.after_mint(auth, to, tree);
            let token_id = s.mint_result(auth, to)->Ok_0;
            &&& token_id == s.total_supply + 1
            &&& !s.owners.contains_key(token_id)
            &&& after.total_supply == token_id
            &&& after.owner_of(token_id) == Ok::<Address, Error>(to)
            &&& after.get_tree_data(token_id) == Ok::<TreeMetadata, Error>(tree)
            &&& after.balance_of(to@) == s.balance_of(to@) + 1
            &&& forall|other: AddressId|
                other != to@ ==> #[trigger] after.balance_of(other) == s.balance_of(other)
            &&& forall|other: u64|
                other != token_id ==> #[trigger] after.owner_of(other) == s.owner_of(other)
        }),
{
}

/// The number of tokens ever minted never goes down in an initialized
/// registry, and no token has an id above it: so the id of a token, burned
/// or not, is never given to a token minted later.
pub proof fn law_ids_are_not_reused(s: NftState, call: NftCall, token_id: u64)
    requires
        s.initialized(),
        s.counts_match_owners(),
        1 <= token_id <= s.total_supply,
    ensures
        s.after(call).total_supply >= s.total_supply,
        match call {
            NftCall::Mint { auth, to, tree } => s.mint_result(auth, to) is Ok ==> s.mint_result(
                auth,
                to,
            )->Ok_0 > token_id,
            _ => true,
        },
        !s.owners.contains_key(token_id) ==> !s.after(call).owners.contains_key(token_id),
{
}

/// The collection is set once: no call changes the admin, the name, the
/// symbol or the base URI of an initialized registry.
pub proof fn law_collection_is_set_once(s: NftState, call: NftCall)
    requires
        s.initialized(),
    ensures
        s.after(call).collection == s.collection,
{
}

/// Once a registry has been initialized, `initialize` is refused with
/// `AlreadyInitialized`, and changes nothing.
pub proof fn law_initialize_only_once(
    s: NftState,
    first_auth: Set<AddressId>,
    first: Collection,
    auth: Set<AddressId>,
    collection: Collection,
)
    requires
        s.initialize_result(first_auth, first.admin) is Ok,
    ensures
        ({
            let initialized = s.after_initialize(first_auth, first);
            &&& initialized.initialize_result(auth, collection.admin) == Err::<(), Error>(
                Error::AlreadyInitialized,
            )
            &&& initialized.after_initialize(auth, collection) == initialized
        }),
{
}

} // verus!
