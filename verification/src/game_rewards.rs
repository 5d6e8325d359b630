//! The game-session ledger: records sessions, keeps each player's totals and
//! pays the reward of a session in tokens.

use crate::address::{Address, AddressId, Auth};
use crate::eco_token::{EcoToken, TokenState};
use crate::entries::{address_map, id_map, into_address_map, into_id_map};
use crate::error::Error;
use std::collections::HashMap;
use vstd::hash_map::StringHashMap;
use vstd::prelude::*;

verus! {

broadcast use vstd::std_specs::hash::group_hash_axioms;

/// Score below which a session earns nothing.
pub const MIN_REWARDED_SCORE: u32 = 50;

/// Points of score that earn one whole token.
pub const POINTS_PER_TOKEN: u32 = 10;

/// Most whole tokens that one session can earn.
pub const MAX_TOKENS_PER_SESSION: u32 = 1000;

/// Smallest units in one whole token (seven decimal places).
pub const UNITS_PER_TOKEN: i128 = 10_000_000;

/// The reward, in smallest token units, that a score earns: one token for
/// every ten full points, at most a thousand tokens, and nothing below fifty
/// points.
pub open spec fn reward_for(score: u32) -> i128 {
    if score < 50 {
        0
    } else if score / 10 > 1000 {
        10_000_000_000
    } else {
        ((score / 10) * 10_000_000) as i128
    }
}

/// One recorded game session. A record is never changed.
#[derive(Debug, PartialEq, Eq)]
pub struct GameSession {
    /// The session's id: sessions are numbered from 1 in the order recorded.
    pub session_id: u64,
    /// The player of the session.
    pub player: Address,
    /// The score reached.
    pub score: u32,
    /// The kind of game played.
    pub game_type: String,
    /// The reward paid for the session, in smallest token units.
    pub tokens_earned: i128,
    /// The ledger sequence number at which the session was recorded.
    pub timestamp: u64,
}

impl Clone for GameSession {
    fn clone(&self) -> (r: Self)
        ensures
            r == *self,
    {
        GameSession {
            session_id: self.session_id,
            player: self.player.clone(),
            score: self.score,
            game_type: self.game_type.clone(),
            tokens_earned: self.tokens_earned,
            timestamp: self.timestamp,
        }
    }
}

/// The totals of one player over all recorded sessions.
#[derive(Copy, Clone, Debug, PartialEq, Eq, Structural)]
pub struct PlayerStats {
    /// The number of sessions recorded.
    pub total_games_played: u32,
    /// The sum of the scores.
    pub total_score: u64,
    /// The sum of the rewards, in smallest token units.
    pub total_tokens_earned: i128,
}

impl PlayerStats {
    /// The totals of a player who never played.
    pub open spec fn zero() -> PlayerStats {
        PlayerStats { total_games_played: 0, total_score: 0, total_tokens_earned: 0 }
    }

    /// Whether one more session can be added without a total leaving the
    /// range of its type.
    pub open spec fn fits(self, score: u32, tokens: i128) -> bool {
        &&& self.total_games_played < u32::MAX
        &&& self.total_score + score <= u64::MAX
        &&& i128::MIN <= self.total_tokens_earned + tokens <= i128::MAX
    }

    /// The totals with one more session added.
    pub open spec fn plus(self, score: u32, tokens: i128) -> PlayerStats {
        PlayerStats {
            total_games_played: (self.total_games_played + 1) as u32,
            total_score: (self.total_score + score) as u64,
            total_tokens_earned: (self.total_tokens_earned + tokens) as i128,
        }
    }

    /// The totals with one more session added, or `None` where a total would
    /// leave the range of its type.
    pub fn with_session(self, score: u32, tokens: i128) -> (r: Option<PlayerStats>)
        ensures
            r == if self.fits(score, tokens) {
                Some(self.plus(score, tokens))
            } else {
                None
            },
    {
        let total_games_played: u32 = match self.total_games_played.checked_add(1) {
            Some(sum) => sum,
            None => {
                return None;
            },
        };
        let total_score: u64 = match self.total_score.checked_add(score as u64) {
            Some(sum) => sum,
            None => {
                return None;
            },
        };
        let total_tokens_earned: i128 = match self.total_tokens_earned.checked_add(tokens) {
            Some(sum) => sum,
            None => {
                return None;
            },
        };
        Some(PlayerStats { total_games_played, total_score, total_tokens_earned })
    }
}

/// What `record_game_session` hands back.
#[derive(Copy, Clone, Debug, PartialEq, Eq, Structural)]
pub struct SessionResult {
    /// The id of the session that was recorded.
    pub session_id: u64,
    /// The reward that was paid, in smallest token units.
    pub tokens_earned: i128,
}

/// What the session ledger publishes when it changes.
#[derive(Debug, PartialEq, Eq)]
pub enum GameEvent {
    /// A session of `player` was recorded.
    GameDone { player: Address, session_id: u64, score: u32, tokens_earned: i128 },
}

/// What `initialize` sets, once and for all.
#[derive(Debug, PartialEq, Eq)]
pub struct GameConfig {
    /// The address that may record sessions.
    pub admin: Address,
    /// The address of the token ledger in which rewards are paid.
    pub eco_token_contract: Address,
}

/// The state of a session ledger, as contracts speak of it.
pub struct GameState {
    /// `None` until the ledger is initialized.
    pub config: Option<GameConfig>,
    /// The number of sessions recorded, which is the id of the last one.
    pub session_counter: u64,
    /// The recorded sessions by id.
    pub sessions: Map<u64, GameSession>,
    /// The totals of each player who ever played.
    pub stats: Map<AddressId, PlayerStats>,
    /// The events published so far and not yet collected, oldest first.
    pub events: Seq<GameEvent>,
}

impl GameState {
    /// The ledger before it is initialized.
    pub open spec fn fresh() -> GameState {
        GameState {
            config: None,
            session_counter: 0,
            sessions: Map::empty(),
            stats: Map::empty(),
            events: Seq::empty(),
        }
    }

    /// Whether `initialize` has succeeded.
    pub open spec fn initialized(self) -> bool {
        self.config is Some
    }

    /// The totals of `player`: all zero for one who never played.
    pub open spec fn stats_of(self, player: AddressId) -> PlayerStats {
        if self.stats.contains_key(player) {
            self.stats[player]
        } else {
            PlayerStats::zero()
        }
    }

    /// How `initialize` ends.
    pub open spec fn initialize_result(self, auth: Set<AddressId>, admin: Address) -> Result<
        (),
        Error,
    > {
        if !auth.contains(admin@) {
            Err(Error::NotAuthorized)
        } else if self.initialized() {
            Err(Error::AlreadyInitialized)
        } else {
            Ok(())
        }
    }

    /// The state that `initialize` leaves.
    pub open spec fn after_initialize(
        self,
        auth: Set<AddressId>,
        admin: Address,
        eco_token_contract: Address,
    ) -> GameState {
        if self.initialize_result(auth, admin) is Ok {
            GameState {
                config: Some(GameConfig { admin, eco_token_contract }),
                session_counter: 0,
                ..self
            }
        } else {
            self
        }
    }

    /// Why this ledger itself refuses to record a session, if it does.
    pub open spec fn session_refusal(self, auth: Set<AddressId>, player: Address, score: u32)
        -> Option<Error> {
        if !self.initialized() {
            Some(Error::NotInitialized)
        } else if score == 0 {
            Some(Error::InvalidAmount)
        } else if !auth.contains(self.config->0.admin@) {
            Some(Error::NotAuthorized)
        } else if self.session_counter == u64::MAX {
            Some(Error::Overflow)
        } else if !self.stats_of(player@).fits(score, reward_for(score)) {
            Some(Error::Overflow)
        } else {
            None
        }
    }

    /// How `record_session` ends: with the id of the new session, which is
    /// the number of sessions recorded before it plus 1, and its reward; or
    /// refused.
    pub open spec fn session_result(self, auth: Set<AddressId>, player: Address, score: u32)
        -> Result<SessionResult, Error> {
        match self.session_refusal(auth, player, score) {
            Some(refusal) => Err(refusal),
            None => Ok(
                SessionResult {
                    session_id: (self.session_counter + 1) as u64,
                    tokens_earned: reward_for(score),
                },
            ),
        }
    }

    /// The state with one more session recorded.
    pub open spec fn with_session(
        self,
        player: Address,
        score: u32,
        game_type: String,
        ledger_sequence: u32,
    ) -> GameState {
        let session_id = (self.session_counter + 1) as u64;
        let tokens_earned = reward_for(score);
        GameState {
            session_counter: session_id,
            sessions: self.sessions.insert(
                session_id,
                GameSession {
                    session_id,
                    player,
                    score,
                    game_type,
                    tokens_earned,
                    timestamp: ledger_sequence as u64,
                },
            ),
            stats: self.stats.insert(player@, self.stats_of(player@).plus(score, tokens_earned)),
            events: self.events.push(
                GameEvent::GameDone { player, session_id, score, tokens_earned },
            ),
            ..self
        }
    }

    /// The state that `record_session` leaves.
    pub open spec fn after_session(
        self,
        auth: Set<AddressId>,
        player: Address,
        score: u32,
        game_type: String,
        ledger_sequence: u32,
    ) -> GameState {
        if self.session_result(auth, player, score) is Ok {
            self.with_session(player, score, game_type, ledger_sequence)
        } else {
            self
        }
    }

    /// How `record_game_session` ends, with `token` the linked token ledger.
    ///
    /// A session whose reward is not 0 is recorded only if the token ledger
    /// mints the reward; where it refuses, its reason is the result.
    pub open spec fn record_result(
        self,
        token: TokenState,
        auth: Set<AddressId>,
        player: Address,
        score: u32,
    ) -> Result<SessionResult, Error> {
        let reward = reward_for(score);
        if self.session_result(auth, player, score) is Ok && reward > 0 && token.mint_result(
            auth,
            player,
            reward,
        ) is Err {
            Err(token.mint_result(auth, player, reward)->Err_0)
        } else {
            self.session_result(auth, player, score)
        }
    }

    /// The state in which `record_game_session` leaves this ledger.
    pub open spec fn after_record(
        self,
        token: TokenState,
        auth: Set<AddressId>,
        player: Address,
        score: u32,
        game_type: String,
        ledger_sequence: u32,
    ) -> GameState {
        if self.record_result(token, auth, player, score) is Ok {
            self.with_session(player, score, game_type, ledger_sequence)
        } else {
            self
        }
    }

    /// The state in which `record_game_session` leaves the token ledger.
    pub open spec fn token_after_record(
        self,
        token: TokenState,
        auth: Set<AddressId>,
        player: Address,
        score: u32,
    ) -> TokenState {
        if self.record_result(token, auth, player, score) is Ok && reward_for(score) > 0 {
            token.after_mint(auth, player, reward_for(score))
        } else {
            token
        }
    }
}

/// The number of sessions, the sum of the scores and the sum of the rewards
/// of the sessions of `player` among those with ids from 1 to `last`.
pub open spec fn tally(sessions: Map<u64, GameSession>, player: AddressId, last: nat) -> (
    int,
    int,
    int,
)
    decreases last,
{
    if last == 0 {
        (0, 0, 0)
    } else {
        let before = tally(sessions, player, (last - 1) as nat);
        let id = last as u64;
        if last <= u64::MAX && sessions.contains_key(id) && sessions[id].player@ == player {
            (
                before.0 + 1,
                before.1 + sessions[id].score,
                before.2 + sessions[id].tokens_earned,
            )
        } else {
            before
        }
    }
}

impl GameState {
    /// Every player's totals are those of the player's recorded sessions:
    /// the number of them, the sum of their scores and the sum of their
    /// rewards. Before the ledger is initialized no session is counted.
    pub open spec fn stats_match_sessions(self) -> bool {
        &&& !self.initialized() ==> self.session_counter == 0
        &&& forall|player: AddressId|
            {
                let totals = #[trigger] self.stats_of(player);
                let counted = tally(self.sessions, player, self.session_counter as nat);
                &&& totals.total_games_played == counted.0
                &&& totals.total_score == counted.1
                &&& totals.total_tokens_earned == counted.2
            }
    }
}

/// One call of an entry point that can change the ledger.
pub enum GameCall {
    Initialize { auth: Set<AddressId>, admin: Address, eco_token_contract: Address },
    RecordSession {
        auth: Set<AddressId>,
        player: Address,
        score: u32,
        game_type: String,
        ledger_sequence: u32,
    },
    RecordGameSession {
        token: TokenState,
        auth: Set<AddressId>,
        player: Address,
        score: u32,
        game_type: String,
        ledger_sequence: u32,
    },
}

impl GameState {
    /// The state that one call leaves, whether it succeeds or is refused.
    pub open spec fn after(self, call: GameCall) -> GameState {
        match call {
            GameCall::Initialize { auth, admin, eco_token_contract } => self.after_initialize(
                auth,
                admin,
                eco_token_contract,
            ),
            GameCall::RecordSession { auth, player, score, game_type, ledger_sequence } => {
                self.after_session(auth, player, score, game_type, ledger_sequence)
            },
            GameCall::RecordGameSession {
                token,
                auth,
                player,
                score,
                game_type,
                ledger_sequence,
            } => self.after_record(token, auth, player, score, game_type, ledger_sequence),
        }
    }

    /// The state that a sequence of calls leaves, made one after the other.
    pub open spec fn after_all(self, calls: Seq<GameCall>) -> GameState
        decreases calls.len(),
    {
        if calls.len() == 0 {
            self
        } else {
            self.after_all(calls.drop_last()).after(calls.last())
        }
    }

    /// Every recorded session has an id from 1 to the number of sessions
    /// recorded, and stands under its own id.
    pub open spec fn sessions_are_numbered(self) -> bool {
        forall|id: u64| #[trigger]
            self.sessions.contains_key(id) ==> 1 <= id <= self.session_counter
                && self.sessions[id].session_id == id
    }

    /// The ledger's books are in order: the sessions are numbered, and the
    /// totals match them.
    pub open spec fn books_are_in_order(self) -> bool {
        self.sessions_are_numbered() && self.stats_match_sessions()
    }
}

/// A session ledger.
pub struct GameRewards {
    config: Option<GameConfig>,
    session_counter: u64,
    sessions: HashMap<u64, GameSession>,
    stats: StringHashMap<PlayerStats>,
    events: Vec<GameEvent>,
}

impl View for GameRewards {
    type V = GameState;

    closed spec fn view(&self) -> GameState {
        GameState {
            config: self.config,
            session_counter: self.session_counter,
            sessions: self.sessions@,
            stats: self.stats@,
            events: self.events@,
        }
    }
}

impl GameRewards {
    /// A ledger that is not initialized yet.
    pub fn new() -> (r: GameRewards)
        ensures
            r@ == GameState::fresh(),
    {
        GameRewards {
            config: None,
            session_counter: 0,
            sessions: HashMap::new(),
            stats: StringHashMap::new(),
            events: Vec::new(),
        }
    }

    /// A ledger in the given state, with no event to collect: `config` is
    /// `None` for a ledger that is not initialized, and a player who is not
    /// listed in `stats` has totals of zero.
    pub fn restore(
        config: Option<GameConfig>,
        session_counter: u64,
        sessions: Vec<(u64, GameSession)>,
        stats: Vec<(Address, PlayerStats)>,
    ) -> (r: GameRewards)
        ensures
            r@ == (GameState {
                config,
                session_counter,
                sessions: id_map(sessions@),
                stats: address_map(stats@),
                events: Seq::empty(),
            }),
    {
        GameRewards {
            config,
            session_counter,
            sessions: into_id_map(sessions),
            stats: into_address_map(stats),
            events: Vec::new(),
        }
    }

    /// Makes `admin` the address that may record sessions, links the token
    /// ledger at `eco_token_contract`, and sets the session counter to 0.
    ///
    /// Refused with `NotAuthorized` unless `admin` has approved the call, and
    /// with `AlreadyInitialized` if the ledger is initialized already.
    pub fn initialize(&mut self, auth: &Auth, admin: &Address, eco_token_contract: &Address) -> (r:
        Result<(), Error>)
        ensures
            r == old(self)@.initialize_result(auth@, *admin),
            final(self)@ == old(self)@.after_initialize(auth@, *admin, *eco_token_contract),
    {
        if !auth.includes(admin) {
            return Err(Error::NotAuthorized);
        }
        if self.config.is_some() {
            return Err(Error::AlreadyInitialized);
        }
        self.config = Some(
            GameConfig { admin: admin.clone(), eco_token_contract: eco_token_contract.clone() },
        );
        self.session_counter = 0;
        Ok(())
    }

    /// Records a session of `player` and pays its reward.
    ///
    /// `token` is the ledger at the linked token address, and
    /// `ledger_sequence` the sequence number of the ledger being closed. The
    /// session gets the next id; the player's totals grow by the score and
    /// the reward; a reward that is not 0 is minted to the player in `token`,
    /// under the approvals of this call.
    ///
    /// Refused, in this order: with `NotInitialized` before `initialize`;
    /// with `InvalidAmount` for a score of 0; with `NotAuthorized` unless the
    /// admin has approved the call; with `Overflow` if the session counter or
    /// one of the player's totals would leave its range; and with the reason
    /// of the token ledger if that refuses to mint. A call that is refused
    /// changes neither ledger.
    pub fn record_game_session(
        &mut self,
        token: &mut EcoToken,
        auth: &Auth,
        player: &Address,
        score: u32,
        game_type: String,
        ledger_sequence: u32,
    ) -> (r: Result<SessionResult, Error>)
        ensures
            r == old(self)@.record_result(old(token)@, auth@, *player, score),
            final(self)@ == old(self)@.after_record(
                old(token)@,
                auth@,
                *player,
                score,
                game_type,
                ledger_sequence,
            ),
            final(token)@ == old(self)@.token_after_record(old(token)@, auth@, *player, score),
    {
        let planned: SessionResult = match self.plan_session(auth, player, score) {
            Ok(planned) => planned,
            Err(refusal) => {
                return Err(refusal);
            },
        };
        if planned.tokens_earned > 0 {
            match self.mint_rewards(token, auth, player, planned.tokens_earned) {
                Ok(()) => {},
                Err(refusal) => {
                    return Err(refusal);
                },
            }
        }
        self.store_session(player, score, game_type, ledger_sequence);
        Ok(planned)
    }

    /// Records a session of `player` as `record_game_session` does, but
    /// mints nothing: the caller sees to it that the reward in the result,
    /// where it is not 0, is minted to the player in the linked token ledger,
    /// and that the session is not kept where that fails.
    ///
    /// Refused, in this order: with `NotInitialized` before `initialize`;
    /// with `InvalidAmount` for a score of 0; with `NotAuthorized` unless the
    /// admin has approved the call; with `Overflow` if the session counter or
    /// one of the player's totals would leave its range.
    pub fn record_session(
        &mut self,
        auth: &Auth,
        player: &Address,
        score: u32,
        game_type: String,
        ledger_sequence: u32,
    ) -> (r: Result<SessionResult, Error>)
        ensures
            r == old(self)@.session_result(auth@, *player, score),
            final(self)@ == old(self)@.after_session(
                auth@,
                *player,
                score,
                game_type,
                ledger_sequence,
            ),
    {
        let planned: SessionResult = match self.plan_session(auth, player, score) {
            Ok(planned) => planned,
            Err(refusal) => {
                return Err(refusal);
            },
        };
        self.store_session(player, score, game_type, ledger_sequence);
        Ok(planned)
    }

    /// Decides whether a session can be recorded, and with which id and
    /// reward.
    fn plan_session(&self, auth: &Auth, player: &Address, score: u32) -> (r: Result<
        SessionResult,
        Error,
    >)
        ensures
            r == self@.session_result(auth@, *player, score),
    {
        match &self.config {
            None => {
                return Err(Error::NotInitialized);
            },
            Some(config) => {
                if score == 0 {
                    return Err(Error::InvalidAmount);
                }
                if !auth.includes(&config.admin) {
                    return Err(Error::NotAuthorized);
                }
            },
        }
        let tokens_earned: i128 = Self::calculate_rewards(score);
        let session_id: u64 = match self.session_counter.checked_add(1) {
            Some(next) => next,
            None => {
                return Err(Error::Overflow);
            },
        };
        if self.get_player_stats(player).with_session(score, tokens_earned).is_none() {
            return Err(Error::Overflow);
        }
        Ok(SessionResult { session_id, tokens_earned })
    }

    /// Stores a session that `plan_session` has accepted.
    fn store_session(
        &mut self,
        player: &Address,
        score: u32,
        game_type: String,
        ledger_sequence: u32,
    )
        requires
            old(self)@.session_counter < u64::MAX,
            old(self)@.stats_of(player@).fits(score, reward_for(score)),
        ensures
            final(self)@ == old(self)@.with_session(*player, score, game_type, ledger_sequence),
    {
        let tokens_earned: i128 = Self::calculate_rewards(score);
        let session_id: u64 = self.session_counter + 1;
        self.session_counter = session_id;
        self.sessions.insert(
            session_id,
            GameSession {
                session_id,
                player: player.clone(),
                score,
                game_type,
                tokens_earned,
                timestamp: ledger_sequence as u64,
            },
        );
        self.update_player_stats(player, score, tokens_earned);
        self.events.push(
            GameEvent::GameDone { player: player.clone(), session_id, score, tokens_earned },
        );
    }

    /// The totals of `player`: all zero for one who never played.
    pub fn get_player_stats(&self, player: &Address) -> (r: PlayerStats)
        ensures
            r == self@.stats_of(player@),
    {
        match self.stats.get(player.as_str()) {
            Some(stats) => *stats,
            None => PlayerStats { total_games_played: 0, total_score: 0, total_tokens_earned: 0 },
        }
    }

    /// The session recorded under `session_id`; `NotFound` if there is none.
    pub fn get_game_session(&self, session_id: u64) -> (r: Result<GameSession, Error>)
        ensures
            r == if self@.sessions.contains_key(session_id) {
                Ok::<GameSession, Error>(self@.sessions[session_id])
            } else {
                Err(Error::NotFound)
            },
    {
        match self.sessions.get(&session_id) {
            Some(session) => Ok(session.clone()),
            None => Err(Error::NotFound),
        }
    }

    /// The number of sessions recorded so far.
    pub fn get_total_sessions(&self) -> (r: u64)
        ensures
            r == self@.session_counter,
    {
        self.session_counter
    }

    /// The address of the linked token ledger; `NotInitialized` before
    /// `initialize`.
    pub fn get_eco_token_contract(&self) -> (r: Result<Address, Error>)
        ensures
            r == match self@.config {
                Some(config) => Ok::<Address, Error>(config.eco_token_contract),
                None => Err(Error::NotInitialized),
            },
    {
        match &self.config {
            Some(config) => Ok(config.eco_token_contract.clone()),
            None => Err(Error::NotInitialized),
        }
    }

    /// Computes the reward for a score: one token per ten full points, at
    /// most a thousand tokens, nothing below fifty points.
    pub fn calculate_rewards(score: u32) -> (tokens: i128)
        ensures
            tokens == reward_for(score),
    {
        if score < MIN_REWARDED_SCORE {
            return 0;
        }
        let base: u32 = score / POINTS_PER_TOKEN;
        let whole: u32 = if base > MAX_TOKENS_PER_SESSION {
            MAX_TOKENS_PER_SESSION
        } else {
            base
        };
        (whole as i128) * UNITS_PER_TOKEN
    }

    /// Adds one session to the totals of `player`.
    fn update_player_stats(&mut self, player: &Address, score: u32, tokens: i128)
        requires
            old(self)@.stats_of(player@).fits(score, tokens),
        ensures
            final(self)@ == (GameState {
                stats: old(self)@.stats.insert(
                    player@,
                    old(self)@.stats_of(player@).plus(score, tokens),
                ),
                ..old(self)@
            }),
    {
        let stats = self.get_player_stats(player);
        let updated = PlayerStats {
            total_games_played: stats.total_games_played + 1,
            total_score: stats.total_score + score as u64,
            total_tokens_earned: stats.total_tokens_earned + tokens,
        };
        self.stats.insert(player.as_str().to_owned(), updated);
    }

    /// Mints `amount` to `player` in `token`, the ledger at the linked token
    /// address, under the approvals of the current call. Refused with
    /// `NotInitialized` where no token ledger is linked, else as the token
    /// ledger decides.
    fn mint_rewards(&self, token: &mut EcoToken, auth: &Auth, player: &Address, amount: i128) -> (r:
        Result<(), Error>)
        ensures
            r == if self@.initialized() {
                old(token)@.mint_result(auth@, *player, amount)
            } else {
                Err(Error::NotInitialized)
            },
            final(token)@ == if self@.initialized() {
                old(token)@.after_mint(auth@, *player, amount)
            } else {
                old(token)@
            },
    {
        if self.config.is_none() {
            return Err(Error::NotInitialized);
        }
        token.mint(auth, player, amount)
    }

    /// Hands out the events published since they were last collected, oldest
    /// first, and forgets them.
    pub fn take_events(&mut self) -> (r: Vec<GameEvent>)
        ensures
            r@ == old(self)@.events,
            final(self)@ == (GameState { events: Seq::empty(), ..old(self)@ }),
    {
        let mut taken: Vec<GameEvent> = Vec::new();
        std::mem::swap(&mut self.events, &mut taken);
        taken
    }
}

} // verus!
