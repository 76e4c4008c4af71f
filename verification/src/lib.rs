//! Helpers of an encounter parser: lookups in the game's data tables, status
//! effect classification, class and engraving rules, and the damage-per-second
//! arithmetic of a stored encounter.
pub mod model;
pub mod tables;
pub mod text;
pub mod buff_flags;
pub mod status_effect;
pub mod skills;
pub mod classes;
pub mod engravings;
pub mod damage;
pub mod entity;
pub mod encounter;
