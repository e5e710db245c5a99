//! A two-asset constant-product market maker: one pool holding a reserve of a
//! native settlement asset and a reserve of a token, priced against each other
//! by the product fixed when the pool was created.
//!
//! - [`model`]: the pool as natural numbers, the outcome of each operation as
//!   a function of that state, and the arithmetic facts behind them.
//! - [`pool`]: the pool itself, with quotes, trades and the search for the
//!   buy that makes a later sale pay a desired amount.
//! - [`laws`]: what holds of every pool and every trade.
//! - [`error`]: the failures an operation can report.

pub mod error;
pub mod laws;
pub mod model;
pub mod pool;

pub use error::PoolError;
pub use model::PoolState;
pub use pool::LiquidityPool;
