//! A conversational engine for a chat bot.
//!
//! One incoming message makes one turn. A turn is answered by a local
//! command where one is meant, and by a remote language model otherwise;
//! the model may call registered tools, a bounded number of times. Before
//! every request the history is cut down to a window; after the turn the
//! history is handed back to be saved.
//!
//! The library decides and computes. It does no input or output: what
//! must be loaded, sent, delivered or saved is told to the caller, who
//! hands the result back.
//!
//! * [`message`], [`history`], [`reply`]: the data and its rules;
//! * [`window`]: the part of a history that is sent to the model;
//! * [`commands`], [`function_register`]: the local commands;
//! * [`mcp_loader`], [`json`]: the tools that the model may call;
//! * [`openai_api`]: the exchange with the model, step by step;
//! * [`turn`], [`locks`]: a whole turn, and one turn at a time per user;
//! * [`onebot`], [`config`]: what comes from the host and the operator;
//! * [`text`], [`lookup`]: helpers.

pub mod commands;
pub mod config;
pub mod function_register;
pub mod history;
pub mod json;
pub mod locks;
pub mod lookup;
pub mod mcp_loader;
pub mod message;
pub mod onebot;
pub mod openai_api;
pub mod reply;
pub mod text;
pub mod turn;
pub mod window;
