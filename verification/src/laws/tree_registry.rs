//! Laws of the plain registry of tree certificates.

use crate::address::{Address, AddressId};
use crate::error::Error;
use crate::tree_registry::{RegistryCall, RegistryState, TreeCertificate};
use vstd::prelude::*;

verus! {

/// Minting certificates to one player, one after the other, gives them the
/// ids that follow the number minted before, and appends exactly these ids,
/// in the order minted, to the player's list.
pub proof fn law_player_trees_in_mint_order(
    s: RegistryState,
    auth: Set<AddressId>,
    player: Address,
    trees: Seq<TreeCertificate>,
)
    requires
        s.initialized(),
        auth.contains(s.admin->0@),
        s.counter + trees.len() <= u64::MAX,
        forall|i: int| 0 <= i < trees.len() ==> (#[trigger] trees[i]).owner@ == player@,
    ensures
        s.after_mints(auth, trees).counter == s.counter + trees.len(),
        s.after_mints(auth, trees).admin == s.admin,
        s.after_mints(auth, trees).trees_of(player@) == s.trees_of(player@) + Seq::new(
            trees.len(),
            |i: int| (s.counter + 1 + i) as u64,
        ),
        forall|i: int|
            0 <= i < trees.len() ==> (#[trigger] s.after_mints(auth, trees.take(i))).mint_result(
                auth,
            ) == Ok::<u64, Error>((s.counter + 1 + i) as u64),
    decreases trees.len(),
{
    let ids = Seq::new(trees.len(), |i: int| (s.counter + 1 + i) as u64);
    if trees.len() == 0 {
        assert(s.trees_of(player@) + ids =~= s.trees_of(player@));
    } else {
        let earlier = trees.drop_last();
        let earlier_ids = Seq::new(earlier.len(), |i: int| (s.counter + 1 + i) as u64);
        law_player_trees_in_mint_order(s, auth, player, earlier);
        let before = s.after_mints(auth, earlier);
        assert(before.mint_result(auth) == Ok::<u64, Error>((s.counter + trees.len()) as u64));
        assert(trees.last().owner@ == player@);
        assert(s.trees_of(player@) + ids =~= (s.trees_of(player@) + earlier_ids).push(
            (s.counter + trees.len()) as u64,
        ));
        assert forall|i: int| 0 <= i < trees.len() implies (#[trigger] s.after_mints(
            auth,
            trees.take(i),
        )).mint_result(auth) == Ok::<u64, Error>((s.counter + 1 + i) as u64) by {
            if i < earlier.len() {
                assert(trees.take(i) =~= earlier.take(i));
            } else {
                assert(trees.take(i) =~= earlier);
            }
        }
    }
}

/// Whatever a call is and however it ends, it leaves lists that match the
/// certificates if they did before.
pub proof fn law_call_keeps_lists(s: RegistryState, call: RegistryCall)
    requires
        s.lists_match_certificates(),
    ensures
        s.after(call).lists_match_certificates(),
{
    let after = s.after(call);
    match call {
        RegistryCall::Initialize { auth, admin } => {
            assert forall|player: AddressId| #[trigger]
                after.trees_of(player) == s.trees_of(player) by {}
        },
        RegistryCall::Mint { auth, tree } => {
            if s.mint_result(auth) is Ok {
                let tree_id = (s.counter + 1) as u64;
                let owner = tree.owner@;
                assert(!s.trees.contains_key(tree_id));
                assert forall|player: AddressId, i: int|
                    0 <= i < after.trees_of(player).len() implies after.trees.contains_key(
                    #[trigger] after.trees_of(player)[i],
                ) && after.trees[after.trees_of(player)[i]].owner@ == player by {
                    if i < s.trees_of(player).len() {
                        assert(s.trees.contains_key(s.trees_of(player)[i]));
                    }
                }
                assert forall|id: u64| #[trigger] after.trees.contains_key(id) implies after.trees_of(
                    after.trees[id].owner@,
                ).contains(id) by {
                    if id == tree_id {
                        assert(after.trees_of(owner)[s.trees_of(owner).len() as int] == id);
                    } else {
                        let holder = s.trees[id].owner@;
                        assert(s.trees_of(holder).contains(id));
                        let i = choose|i: int|
                            0 <= i < s.trees_of(holder).len() && s.trees_of(holder)[i] == id;
                        assert(after.trees_of(holder)[i] == id);
                    }
                }
                assert forall|player: AddressId, i: int, j: int|
                    0 <= i < j < after.trees_of(player).len() implies #[trigger] after.trees_of(
                    player,
                )[i] < #[trigger] after.trees_of(player)[j] by {
                    if j >= s.trees_of(player).len() {
                        assert(s.trees.contains_key(s.trees_of(player)[i]));
                    }
                }
            }
        },
    }
}

/// After any sequence of calls on a new registry, each player's list holds
/// the ids of exactly the certificates that were minted to the player, each
/// once and in the order minted.
pub proof fn law_lists_match_certificates(calls: Seq<RegistryCall>)
    ensures
        RegistryState::fresh().after_all(calls).lists_match_certificates(),
    decreases calls.len(),
{
    if calls.len() > 0 {
        law_lists_match_certificates(calls.drop_last());
        law_call_keeps_lists(RegistryState::fresh().after_all(calls.drop_last()), calls.last());
    }
}

/// No call changes or removes a certificate: it stays with the player it was
/// minted to. And no call takes an id out of a player's list, or moves it:
/// the list before the call is the beginning of the list after it.
pub proof fn law_certificates_are_permanent(
    s: RegistryState,
    call: RegistryCall,
    id: u64,
    player: AddressId,
)
    requires
        s.ids_are_issued(),
        s.trees.contains_key(id),
    ensures
        s.after(call).ids_are_issued(),
        s.after(call).trees.contains_key(id),
        s.after(call).trees[id] == s.trees[id],
        s.trees_of(player).is_prefix_of(s.after(call).trees_of(player)),
        s.after(call).counter >= s.counter,
{
}

/// The admin is set once: no call changes the admin of an initialized
/// registry.
pub proof fn law_admin_is_set_once(s: RegistryState, call: RegistryCall)
    requires
        s.initialized(),
    ensures
        s.after(call).admin == s.admin,
{
}

/// Once a registry has been initialized, `initialize` is refused with
/// `AlreadyInitialized`, and changes nothing.
pub proof fn law_initialize_only_once(
    s: RegistryState,
    first_auth: Set<AddressId>,
    first_admin: Address,
    auth: Set<AddressId>,
    admin: Address,
)
    requires
        s.initialize_result(first_auth, first_admin) is Ok,
    ensures
        ({
            let initialized = s.after_initialize(first_auth, first_admin);
            &&& initialized.initialize_result(auth, admin) == Err::<(), Error>(
                Error::AlreadyInitialized,
            )
            &&& initialized.after_initialize(auth, admin) == initialized
        }),
{
}

} // verus!
