//! Session logic of a browser chat client for a locally hosted language-model
//! server: endpoint discovery, the model catalog and its selection rule, and the
//! request/response cycle of one conversation.

pub mod connection;
pub mod conversation;
pub mod laws;
pub mod media;
pub mod protocol;
pub mod routes;
pub mod text;
