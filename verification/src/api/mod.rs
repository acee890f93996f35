pub mod order;

pub use order::OrderBuilder;
