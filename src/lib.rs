//! Answers a small tool-calling protocol with the status of well-known
//! services: a fixed catalogue of status-page providers, the routing of
//! request envelopes, the reading of a provider's status document, and its
//! normalisation into a display table. Fetching the documents is left to the
//! caller, which hands the library each answer as a JSON value.
pub mod json;
pub mod registry;
pub mod status;
pub mod table;
pub mod dispatch;
