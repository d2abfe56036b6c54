//! AS2 messaging.

pub mod as2_incoming_messages;
