//! An ACL-enforced, generic CRUD data-access core over a relational database:
//! a dynamic SQL statement builder, a pluggable authorization engine, and a
//! repository engine that threads a pooled connection through every operation,
//! success or failure.

pub mod acl;
pub mod currency;
pub mod delivery;
pub mod emails;
pub mod language;
pub mod moderation_status;
pub mod order_state;
pub mod orders;
pub mod repo;
pub mod roles;
pub mod routes;
pub mod statement;
pub mod system;
pub mod text;
pub mod types;
pub mod validation;
