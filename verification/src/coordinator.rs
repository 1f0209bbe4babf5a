//! The game coordinator: the state machine that watches the session
//! registry and, once the player quota is reached, generates the shared
//! tile map and pushes it, followed by a start signal, to every registered
//! session's outbound channel.
//!
//! The state moves forward only: once in game, no further registration
//! causes another broadcast. The surrounding thread polls `step` while the
//! coordinator is waiting, holding the registry lock across each call so
//! that the check and the broadcast are atomic against the reader tasks.

use vstd::prelude::*;

use crate::message::spec_new_message;
use crate::message::Message;
use crate::message::MessageModel;
use crate::message::PUSH_MAP_ACTION;
use crate::message::START_GAME_ACTION;
use crate::registry::SessionRegistry;
use crate::tiles::grid_wf;
use crate::tiles::load_tiles;

verus! {

/// Number of registered player identities that triggers the game start; the
/// fixed per-game player quota.
pub const REQUIRED_PLAYERS_AMOUNT: usize = 2;

/// The two phases of a game: the lobby, then the running game. The
/// transition is forward-only and happens once.
#[derive(Clone, Copy, Debug, PartialEq, Eq, Structural)]
pub enum GameState {
    /// Initial state: waiting for the player quota to be reached.
    WaitingForPlayers,
    /// Terminal state: the map was broadcast and the game started.
    InGame,
}

/// The model of the message pushing the given grid: the push-map action and
/// the grid as payload.
pub open spec fn spec_push_map_message(grid: Seq<u8>) -> MessageModel {
    MessageModel { action: PUSH_MAP_ACTION, data: grid }
}

/// The model of the start-game message: the start action and an unused,
/// zero-filled payload.
pub open spec fn spec_start_game_message() -> MessageModel {
    spec_new_message(START_GAME_ACTION)
}

/// The channels after the start broadcast: every channel registered before
/// the transition got the push-map message for the one shared grid,
/// immediately followed by the start-game message; nothing else changed.
pub open spec fn channels_after_game_start(
    before: Seq<Seq<MessageModel>>,
    after: Seq<Seq<MessageModel>>,
    grid: Seq<u8>,
) -> bool {
    &&& after.len() == before.len()
    &&& forall|j: int|
        0 <= j < before.len() ==> #[trigger] after[j] == before[j] + seq![
            spec_push_map_message(grid),
            spec_start_game_message(),
        ]
}

/// The coordinator: holds the game state and drives the one transition.
pub struct GameCoordinator {
    state: GameState,
}

impl GameCoordinator {
    /// The coordinator's current state.
    pub closed spec fn spec_state(&self) -> GameState {
        self.state
    }

    /// A coordinator in the initial lobby state.
    pub fn new() -> (coordinator: GameCoordinator)
        ensures
            coordinator.spec_state() is WaitingForPlayers,
    {
        GameCoordinator { state: GameState::WaitingForPlayers }
    }

    /// The coordinator's current state.
    pub fn state(&self) -> (state: GameState)
        ensures
            state == self.spec_state(),
    {
        self.state
    }

    /// One poll of the coordinator against the registry. While waiting and
    /// the identity count is not exactly the quota, nothing changes. When
    /// the quota is reached, the transition runs exactly once: one map is
    /// generated, every registered session's channel gets the push-map
    /// message then the start-game message, and the state becomes in-game.
    /// Once in game, nothing ever changes again, so no further registration
    /// causes another broadcast.
    pub fn step(&mut self, registry: &mut SessionRegistry) -> (started: bool)
        ensures
            final(registry).spec_identities() == old(registry).spec_identities(),
            old(self).spec_state() is InGame ==> !started && final(self).spec_state() is InGame
                && final(registry).spec_channels() == old(registry).spec_channels(),
            old(self).spec_state() is WaitingForPlayers && old(registry).spec_identities().len()
                != REQUIRED_PLAYERS_AMOUNT ==> !started
                && final(self).spec_state() is WaitingForPlayers
                && final(registry).spec_channels() == old(registry).spec_channels(),
            old(self).spec_state() is WaitingForPlayers && old(registry).spec_identities().len()
                == REQUIRED_PLAYERS_AMOUNT ==> started && final(self).spec_state() is InGame
                && (exists|grid: Seq<u8>|
                grid_wf(grid) && #[trigger] channels_after_game_start(
                    old(registry).spec_channels(),
                    final(registry).spec_channels(),
                    grid,
                )),
    {
        match self.state {
            GameState::InGame => false,
            GameState::WaitingForPlayers => {
                if registry.identity_count() != REQUIRED_PLAYERS_AMOUNT {
                    return false;
                }
                let tiles = load_tiles();
                let session_count = registry.session_count();
                let mut session: usize = 0;
                while session < session_count
                    invariant
                        session <= session_count,
                        session_count == old(registry).spec_channels().len(),
                        registry.spec_channels().len() == session_count,
                        registry.spec_identities() == old(registry).spec_identities(),
                        tiles@.len() == 400,
                        forall|j: int|
                            0 <= j < session ==> #[trigger] registry.spec_channels()[j]
                                == old(registry).spec_channels()[j] + seq![
                                spec_push_map_message(tiles@),
                                spec_start_game_message(),
                            ],
                        forall|j: int|
                            session <= j < session_count ==> #[trigger] registry.spec_channels()[j]
                                == old(registry).spec_channels()[j],
                    decreases session_count - session,
                {
                    let ghost channel_before = registry.spec_channels()[session as int];
                    let mut push_map = Message::new(PUSH_MAP_ACTION);
                    push_map.set_data(crate::message::copy_bytes(&tiles));
                    registry.enqueue_message(session, push_map);
                    let start_game = Message::new(START_GAME_ACTION);
                    registry.enqueue_message(session, start_game);
                    proof {
                        assert(registry.spec_channels()[session as int] =~= channel_before + seq![
                            spec_push_map_message(tiles@),
                            spec_start_game_message(),
                        ]);
                    }
                    session = session + 1;
                }
                self.state = GameState::InGame;
                proof {
                    assert(channels_after_game_start(
                        old(registry).spec_channels(),
                        registry.spec_channels(),
                        tiles@,
                    ));
                }
                true
            },
        }
    }
}

} // verus!
