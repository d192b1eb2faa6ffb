//! Remote-control protocol for a handheld client and the host it drives.
//!
//! A client sends [`config::RemoteCommand`] values as text frames of JSON.
//! The host turns the command of each frame into the pointer events and CEC
//! frames that realise it, and keeps the connection alive whatever a single
//! frame or action does. This crate holds the rules of that exchange and
//! performs no input or output itself: a driver feeds a [`session::Session`]
//! with what it received, each text frame together with what its reader of
//! JSON made of it, and carries out what the session asks for.
//!
//! * [`config`]: the commands, and the layout of the panels that offer them.
//! * [`decimal`]: decimal text of integers.
//! * [`wire`]: the text form of a command.
//! * [`pointer`]: trackpad gestures as pointer events.
//! * [`cec`]: CEC frames for the television commands.
//! * [`dispatch`]: the actions that carry out one command.
//! * [`session`]: the life of one connection.
//! * [`client`]: what the sending side shows of its connection.

pub mod cec;
pub mod client;
pub mod config;
pub mod decimal;
pub mod dispatch;
pub mod pointer;
pub mod session;
pub mod wire;
