//! Request logic of a small online task manager: what each endpoint
//! decides, which database operation it issues, and how form input
//! becomes a stored task.
use vstd::prelude::*;

pub mod text;
pub mod models;
pub mod db;
pub mod store;
pub mod ids;
pub mod server;
pub mod api;
pub mod laws;
pub mod request_laws;

verus! {

} // verus!
