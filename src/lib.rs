//! A JSON gateway in front of a relational database: credential checks,
//! session identifiers, pooled query execution and the marshalling of result
//! sets into a transport-safe wire shape.

pub mod decimal;
pub mod session;
pub mod auth;
pub mod column;
pub mod wire;
pub mod marshal;
pub mod pool;
pub mod gateway;
