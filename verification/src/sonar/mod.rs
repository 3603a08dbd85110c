//! Talking to the local Sonar API: the values it answers with, and one state
//! machine per operation. Each machine decides which request comes next from
//! the replies so far; the host program performs the request and hands the
//! reply back.

pub mod types;
pub mod http;
pub mod protocol;
pub mod lookup;
pub mod state_query;
pub mod redirect;
pub mod volume;
