//! Authentication and authorization core of a multi-tenant file host:
//! dual-token sessions with rotation and reuse detection, a bearer-token
//! gate, and the access policy for projects, folders and files.
use vstd::prelude::*;

pub mod auth;
pub mod catalog;
pub mod error;
pub mod external;
pub mod folder_path;
pub mod gate;
pub mod jwt;
pub mod models;
pub mod role;
pub mod session;
pub mod text;

verus! {

} // verus!
