pub mod checks;
pub mod deposit;
pub mod lending;
pub mod obligation;
pub mod create;
