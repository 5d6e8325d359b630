//! Laws of the session ledger.

use crate::address::{Address, AddressId};
use crate::eco_token::TokenState;
use crate::error::Error;
use crate::game_rewards::{reward_for, tally, GameCall, GameSession, GameState};
use vstd::prelude::*;

verus! {

/// The reward is a whole number of tokens, from 0 to 1000 of them, and does
/// not go down as the score goes up.
pub proof fn law_reward_bounds(score: u32, higher: u32)
    requires
        score <= higher,
    ensures
        0 <= reward_for(score) <= 1000 * 10_000_000,
        reward_for(score) % 10_000_000 == 0,
        reward_for(score) <= reward_for(higher),
        reward_for(score) == (if score < 50 {
            0
        } else if score / 10 <= 1000 {
            score / 10
        } else {
            1000
        }) * 10_000_000,
{
}

/// A session stored under an id above `last` does not change the tally up
/// to `last`.
proof fn lemma_tally_ignores_later_ids(
    sessions: Map<u64, GameSession>,
    player: AddressId,
    last: nat,
    id: u64,
    session: GameSession,
)
    requires
        id > last,
    ensures
        tally(sessions.insert(id, session), player, last) == tally(sessions, player, last),
    decreases last,
{
    if last > 0 {
        lemma_tally_ignores_later_ids(sessions, player, (last - 1) as nat, id, session);
    }
}

/// With one more session recorded, the books are in order if they were.
proof fn lemma_session_keeps_books(
    s: GameState,
    auth: Set<AddressId>,
    player: Address,
    score: u32,
    game_type: String,
    ledger_sequence: u32,
)
    requires
        s.books_are_in_order(),
        s.session_result(auth, player, score) is Ok,
    ensures
        s.with_session(player, score, game_type, ledger_sequence).books_are_in_order(),
{
    let after = s.with_session(player, score, game_type, ledger_sequence);
    let id = after.session_counter;
    let session = after.sessions[id];
    assert forall|other: AddressId|
        {
            let totals = #[trigger] after.stats_of(other);
            let counted = tally(after.sessions, other, after.session_counter as nat);
            &&& totals.total_games_played == counted.0
            &&& totals.total_score == counted.1
            &&& totals.total_tokens_earned == counted.2
        } by {
        lemma_tally_ignores_later_ids(s.sessions, other, s.session_counter as nat, id, session);
        let before = s.stats_of(other);
        assert(before.total_games_played == tally(s.sessions, other, s.session_counter as nat).0);
    }
}

/// Whatever a call is and however it ends, it leaves the books in order if
/// they were: the sessions numbered, and every player's totals those of the
/// player's recorded sessions.
pub proof fn law_call_keeps_books(s: GameState, call: GameCall)
    requires
        s.books_are_in_order(),
    ensures
        s.after(call).books_are_in_order(),
{
    let after = s.after(call);
    match call {
        GameCall::Initialize { auth, admin, eco_token_contract } => {
            assert forall|player: AddressId|
                {
                    let totals = #[trigger] after.stats_of(player);
                    let counted = tally(after.sessions, player, after.session_counter as nat);
                    &&& totals.total_games_played == counted.0
                    &&& totals.total_score == counted.1
                    &&& totals.total_tokens_earned == counted.2
                } by {
                assert(after.stats_of(player) == s.stats_of(player));
            }
        },
        GameCall::RecordSession { auth, player, score, game_type, ledger_sequence } => {
            if s.session_result(auth, player, score) is Ok {
                lemma_session_keeps_books(s, auth, player, score, game_type, ledger_sequence);
            }
        },
        GameCall::RecordGameSession { token, auth, player, score, game_type, ledger_sequence } => {
            if s.record_result(token, auth, player, score) is Ok {
                lemma_session_keeps_books(s, auth, player, score, game_type, ledger_sequence);
            }
        },
    }
}

/// After any sequence of calls on a new ledger the books are in order.
pub proof fn law_books_are_in_order(calls: Seq<GameCall>)
    ensures
        GameState::fresh().after_all(calls).books_are_in_order(),
    decreases calls.len(),
{
    if calls.len() > 0 {
        law_books_are_in_order(calls.drop_last());
        law_call_keeps_books(GameState::fresh().after_all(calls.drop_last()), calls.last());
    }
}

/// The admin and the linked token ledger are set once: no call changes them
/// in an initialized ledger.
pub proof fn law_config_is_set_once(s: GameState, call: GameCall)
    requires
        s.initialized(),
    ensures
        s.after(call).config == s.config,
{
}

/// No call changes or removes a recorded session of an initialized ledger
/// whose sessions are numbered, and the session counter goes up by 1 with
/// every session recorded and never otherwise.
pub proof fn law_sessions_are_permanent(s: GameState, call: GameCall, id: u64)
    requires
        s.initialized(),
        s.sessions_are_numbered(),
        s.sessions.contains_key(id),
    ensures
        s.after(call).sessions.contains_key(id),
        s.after(call).sessions[id] == s.sessions[id],
        s.after(call).session_counter == s.session_counter || (s.after(call).session_counter
            == s.session_counter + 1 && s.after(call).sessions.dom() == s.sessions.dom().insert(
            (s.session_counter + 1) as u64,
        )),
{
}

/// Once a ledger has been initialized, `initialize` with an approved admin
/// is refused with `AlreadyInitialized`, and changes nothing.
pub proof fn law_initialize_only_once(
    s: GameState,
    first_auth: Set<AddressId>,
    first_admin: Address,
    first_token: Address,
    auth: Set<AddressId>,
    admin: Address,
    eco_token_contract: Address,
)
    requires
        s.initialize_result(first_auth, first_admin) is Ok,
        auth.contains(admin@),
    ensures
        ({
            let initialized = s.after_initialize(first_auth, first_admin, first_token);
            &&& initialized.initialize_result(auth, admin) == Err::<(), Error>(
                Error::AlreadyInitialized,
            )
            &&& initialized.after_initialize(auth, admin, eco_token_contract) == initialized
        }),
{
}

/// A session that is refused, by this ledger or by the token ledger, changes
/// neither of them.
pub proof fn law_refused_session_changes_nothing(
    s: GameState,
    token: TokenState,
    auth: Set<AddressId>,
    player: Address,
    score: u32,
    game_type: String,
    ledger_sequence: u32,
)
    requires
        s.record_result(token, auth, player, score) is Err,
    ensures
        s.after_record(token, auth, player, score, game_type, ledger_sequence) == s,
        s.token_after_record(token, auth, player, score) == token,
{
}

/// A session that is recorded gets the id that follows the last one, earns
/// the reward of its score, adds itself to the player's totals, and its
/// reward is what the player's balance and the supply of the token ledger
/// grow by.
pub proof fn law_recorded_session_is_paid(
    s: GameState,
    token: TokenState,
    auth: Set<AddressId>,
    player: Address,
    score: u32,
    game_type: String,
    ledger_sequence: u32,
)
    requires
        s.record_result(token, auth, player, score) is Ok,
    ensures
        ({
            let result = s.record_result(token, auth, player, score)->Ok_0;
            let after = s.after_record(token, auth, player, score, game_type, ledger_sequence);
            let paid = s.token_after_record(token, auth, player, score);
            &&& result.session_id == s.session_counter + 1
            &&& result.tokens_earned == reward_for(score)
            &&& after.session_counter == result.session_id
            &&& after.sessions.contains_key(result.session_id)
            &&& after.sessions[result.session_id] == (GameSession {
                session_id: result.session_id,
                player,
                score,
                game_type,
                tokens_earned: reward_for(score),
                timestamp: ledger_sequence as u64,
            })
            &&& after.stats_of(player@).total_games_played == s.stats_of(
                player@,
            ).total_games_played + 1
            &&& after.stats_of(player@).total_score == s.stats_of(player@).total_score + score
            &&& after.stats_of(player@).total_tokens_earned == s.stats_of(
                player@,
            ).total_tokens_earned + reward_for(score)
            &&& paid.balance_of(player@) == token.balance_of(player@) + reward_for(score)
            &&& paid.total_supply == token.total_supply + reward_for(score)
        }),
{
}

} // verus!
