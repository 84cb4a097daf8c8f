//! Game-server query building blocks: the master-server filter encoding, the
//! protocol routing decision of a game descriptor, and the request shapes of
//! the matchmaking HTTP service.

pub mod filter;
pub mod search;
pub mod region;
pub mod games;
pub mod epic;
