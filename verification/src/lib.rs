//! A battle engine for Pokemon: a state, the instructions that change it and
//! undo the change, the options of each side, and the instructions of parts
//! of a turn: a switch, what the attacker's status does as it tries to move,
//! which side moves first, the side conditions, statuses, heals and stat
//! changes that a move gives, and the end of the turn.

pub mod abilities;
pub mod apply;
pub mod checks;
pub mod choices;
pub mod effects;
pub mod end_of_turn;
pub mod generate;
pub mod healing;
pub mod instruction;
pub mod items;
pub mod laws;
pub mod options;
pub mod order;
pub mod pokemon;
pub mod reversal;
pub mod state;
pub mod turn;
