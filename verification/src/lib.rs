//! Decision core of a chat bot that drives a receipt printer, a still camera
//! and a script sandbox: every rule that picks a reply, orders a job or spends
//! a budget lives here, with its contract.

pub mod camera;
pub mod command;
pub mod failure;
pub mod message;
pub mod number;
pub mod printer;
pub mod queue;
pub mod router;
pub mod sandbox;
pub mod social;
pub mod text;
pub mod time_range;
