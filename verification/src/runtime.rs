pub mod execution_policy;
pub mod executor;

pub use executor::Executor;
