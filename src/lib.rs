pub mod chain;
pub mod closure;
pub mod future;
