//! A battle engine's verified core: the instruction set that records every
//! change to a battle, the ability classifications and side updates, and the
//! integer planning behind the tree searches.

pub mod state;

pub mod abilities;
pub mod instruction;
pub mod search;
pub mod mcts;
pub mod debug_text;
pub mod end_of_turn;
pub mod before_move;
pub mod after_hit;
pub mod on_start;
