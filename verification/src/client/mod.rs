//! # Client
//!
//! The players' way of interacting with a universe through a central authority, the server.
use vstd::prelude::*;
use crate::client::view::{lemma_fresh_game_views_alike, GameView, WorldView};
use crate::server::messages::{ServerConnectionMessage, ServerMessage};

/// The client's running understanding of the game.
pub mod view;

/// Plain data the renderer draws from.
pub mod render;

verus! {

/// What handling `message` makes of the game view `old`: an accepted connection starts
/// from a fresh view, a disconnection changes nothing, and a world message patches the
/// world view and leaves the universe view as it was.
pub open spec fn handled(old: GameView, new: GameView, message: ServerMessage) -> bool {
    match message {
        ServerMessage::Connection(ServerConnectionMessage::Connect {}) => new.is_fresh(),
        ServerMessage::Connection(ServerConnectionMessage::Disconnect { .. }) => new == old,
        ServerMessage::World(m) => {
            &&& new.current_universe == old.current_universe
            &&& WorldView::patched(old.current_world, new.current_world, m)
        },
    }
}

/// After the server accepts a connection, the client shows the same game whatever it
/// showed before.
pub proof fn lemma_connection_forgets_the_past(a: GameView, a2: GameView, b: GameView, b2: GameView)
    requires
        handled(a, a2, ServerMessage::Connection(ServerConnectionMessage::Connect {})),
        handled(b, b2, ServerMessage::Connection(ServerConnectionMessage::Connect {})),
    ensures
        GameView::same_contents(a2, b2),
{
    lemma_fresh_game_views_alike(a2, b2);
}

/// Updates the client's game view on a message from the server.
pub fn handle_server_message(game_view: &mut GameView, server_message: ServerMessage)
    ensures
        handled(*old(game_view), *final(game_view), server_message),
{
    match server_message {
        ServerMessage::Connection(server_connection_message) => match server_connection_message {
            ServerConnectionMessage::Connect {} => {
                game_view.reset();
            },
            ServerConnectionMessage::Disconnect { reason: _ } => {},
        },
        ServerMessage::World(server_world_message) => {
            game_view.current_world.patch(&server_world_message);
        },
    }
}

} // verus!
