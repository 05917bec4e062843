pub mod error;
pub mod epoch;
pub mod helpers;
pub mod msg;
pub mod oracle;
pub mod pool;

pub use crate::error::ContractError;
