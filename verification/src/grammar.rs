pub mod expr;
pub mod stmt;
pub mod top_level;
pub mod types;
