//! Fixtures for a local Bitcoin regression-test network: the rules of a
//! containerised node harness and the decision logic of a background block
//! generator, with contracts proved by Verus.
pub mod generator;
pub mod harness;
pub mod run_loop;
pub mod text;
