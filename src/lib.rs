//! Encounter counters and the odds of meeting a shiny Pokémon.

pub mod calculator;
pub mod command;
pub mod counter;
pub mod odds;
