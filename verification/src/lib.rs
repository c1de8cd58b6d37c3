//! A minimal HTTP service: a constant greeting on `/`, a constant health
//! check on `/health`, and nothing else. The library computes every
//! observable response from the request's method and path alone and proves
//! that mapping exact; the listener around it only moves bytes.

pub mod http;
pub mod router;
pub mod startup;
