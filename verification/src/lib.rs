//! Ant-colony foraging on a toroidal grid.
//!
//! Agents search the grid for food, carry it back to their nest and guide each
//! other through decaying scent markers. This crate holds the decision logic of
//! one agent for one tick, the trail dynamics it reads and writes, and the
//! bookkeeping of nest and food sources, all over plain values: a driver hands
//! each agent a picture of its surroundings and applies what comes back.

pub mod chance;
pub mod entity;
pub mod env;
pub mod game;
pub mod space;
