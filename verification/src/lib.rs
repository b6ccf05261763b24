pub mod instructions;
pub mod query;
pub mod query_operations;
pub mod specifics;
pub mod number_text;
pub mod timestamp;
pub mod card_entry;
pub mod download;
