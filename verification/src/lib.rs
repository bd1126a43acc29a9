//! The engine of a password generator.
//!
//! A filter says which character classes take part and which characters
//! are added or removed by hand. From it the engine derives the effective
//! pool, a set of distinct characters, and draws a password of the wanted
//! length from that pool.
//!
//! - `alphabet`: the four predefined classes.
//! - `filter`: the filter settings and their edits.
//! - `pool`: the effective pool of a filter.
//! - `generate`: drawing a password from the pool.
//! - `password`: the password on display.
//! - `message`, `state`: the application state and its reaction to events.
//! - `ordset`, `random`: the ordered set and the random generator that the
//!   engine rests on. Their contracts are taken on trust.

pub mod alphabet;
pub mod filter;
pub mod generate;
pub mod message;
pub mod ordset;
pub mod password;
pub mod pool;
pub mod random;
pub mod state;
