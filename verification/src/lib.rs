//! A multisig contract: a board of members proposes, signs and executes
//! privileged actions under an M-of-N quorum rule.
//!
//! The governance engine:
//! - [`multisig`]: the contract, its state and its operations;
//! - [`state`]: the mathematical model that the operations are specified by;
//! - [`laws`]: what holds of the model whatever is done with the contract;
//! - [`users`], [`user_role`], [`action`], [`address`], [`error`]: the types
//!   it works with.
//!
//! The call data that carries calls into and out of the contract:
//! - [`hex_call_data`] writes it and [`call_data`] reads it;
//! - [`codec`] turns values into argument bytes and back;
//! - [`arg_loader_cd`] loads the arguments of an endpoint;
//! - [`async_call`] and [`token_identifier`] build calls to other contracts;
//! - [`sc_error`] and [`err_msg`] hold the errors that reading can give.

pub mod action;
pub mod address;
pub mod arg_loader_cd;
pub mod async_call;
pub mod call_data;
pub mod codec;
pub mod err_msg;
pub mod error;
pub mod hex_call_data;
pub mod laws;
pub mod multisig;
pub mod sc_error;
pub mod state;
pub mod token_identifier;
pub mod user_role;
pub mod users;
