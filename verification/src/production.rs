//! The requests of the daemon, from what they ask to what they are answered.

pub mod answers;
pub mod clock;
pub mod development_v2;
pub mod failure_causes;
pub mod failures;
pub mod frozen;
pub mod graph_envelope;
pub mod graph_requests;
pub mod kept_results;
pub mod mutations;
pub mod preview;
pub mod reads;
pub mod receipts;
pub mod sealed_results;
pub mod sealing;
pub mod terminal;
pub mod workspaces;
