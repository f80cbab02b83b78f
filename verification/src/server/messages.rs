//! Messages the server sends to its clients.
use vstd::prelude::*;
use crate::geometry::UVec3;

verus! {

/// Any message from the server.
#[derive(Debug)]
pub enum ServerMessage {
    Connection(ServerConnectionMessage),
    World(ServerWorldMessage),
}

/// Messages about the connection itself.
#[derive(Debug)]
pub enum ServerConnectionMessage {
    /// The server accepted the connection attempt.
    Connect {},
    /// The server disconnected the client for some reason.
    Disconnect { reason: String },
}

/// Messages about the universe the server uses.
#[derive(Debug)]
pub enum ServerUniverseMessage {
    /// Declares the universe the server is using.
    Let { id: String },
}

/// Messages about the world the client is in.
#[derive(Debug)]
pub enum ServerWorldMessage {
    /// The client was transported to a new (or its first) world.
    EnterWorld {
        /// The identifier of the world.
        id: String,
    },
    /// The player left the current world.
    LeaveWorld,
    /// A message about the current scene.
    CurrentScene(ServerSceneMessage),
}

/// Messages about the scene the client is in.
#[derive(Debug)]
pub enum ServerSceneMessage {
    /// The client was transported to a new (or its first) scene within a world.
    EnterScene {
        /// The identifier of the scene.
        id: String,
    },
    /// The player left the current scene.
    LeaveScene {},
    /// A message about a block group in the current scene.
    BlockGroup(ServerBlockGroupMessage),
}

/// Messages about a block group.
#[derive(Debug)]
pub enum ServerBlockGroupMessage {
    /// Declares the existence of a block group.
    Define {
        /// The identifier of the block group.
        id: String,
        size: UVec3,
        transform: glam::Affine3A,
    },
    /// Declares the content of a block group.
    Content {
        id: String,
        blocks: Vec<BlockGroupBlock>,
    },
}

/// One block of a block group's content.
#[derive(Debug, Clone, Copy, PartialEq, Eq, Structural)]
pub struct BlockGroupBlock {
    pub index_in_block_palette: u32,
}

} // verus!
