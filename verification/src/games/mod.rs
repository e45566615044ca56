//! Built-in game engines.

use crate::game_traits::GameEngineRegistry;
use vstd::prelude::*;

pub mod rock_paper_scissors;

pub use rock_paper_scissors::RPSEngine;

verus! {

/// Registers every built-in engine; bootstrap code calls this once before
/// handing the registry to a session manager.
pub fn register_builtin_games(registry: &mut GameEngineRegistry<RPSEngine>)
    ensures
        final(registry).spec_engines() == old(registry).spec_engines().push(RPSEngine {}),
        forall|type_id: Seq<char>|
            #[trigger] final(registry).spec_get(type_id) == if type_id == "rock_paper_scissors"@ {
                Some(RPSEngine {})
            } else {
                old(registry).spec_get(type_id)
            },
{
    registry.register_engine(RPSEngine::new());
}

} // verus!
