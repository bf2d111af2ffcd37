//! Onboarding wizard: the step graph that walks an operator through setup, and the
//! synthesis of the configuration document from the answers.
pub mod catalog;
pub mod channels;
pub mod config;
pub mod dashboard;
pub mod finalize;
pub mod events;
pub mod flow;
pub mod laws;
pub mod state;
pub mod text;
pub mod workspace;
