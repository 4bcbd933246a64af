use vstd::prelude::*;

pub mod browser_comms;
pub mod gamedata;
pub mod messaging;

verus! {

/// Code of the request that asks the simulator to generate a batch of plays.
pub const GENERATE: &'static str = "A3A3";

/// What the server does at start-up: run a draft, and have the simulator
/// generate a fresh pool of players.
#[derive(Clone, Copy, Debug, PartialEq, Eq, Structural)]
pub struct Settings {
    pub draft: bool,
    pub gen_players: bool,
}

impl Settings {
    /// The settings used when none were saved: draft on, player generation on.
    pub fn new() -> (s: Settings)
        ensures
            s.draft,
            s.gen_players,
    {
        Settings { draft: true, gen_players: true }
    }
}

} // verus!
