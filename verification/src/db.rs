//! The records of the database, one module per table.
pub mod country_restriction;
pub mod player;
pub mod pool_bracket;
pub mod pool_map;
pub mod rank_restriction;
pub mod stage;
pub mod team;
pub mod tournament;
