//! A typed schema and query-execution core: record shapes are declared once in
//! a registry, projections choose columns, rows are encoded and decoded by
//! position, and a bounded pool hands out connections one operation at a time.
//!
//! Everything here is pure decision logic. The caller performs the actual
//! store round trips and feeds the replies back in.

pub mod error;
pub mod value;
pub mod schema;
pub mod pool;
pub mod projection;
pub mod record;
pub mod executor;
pub mod handle;
pub mod reply;

