pub mod color;
pub mod date_time;
pub mod file;
pub mod rich_text;
pub mod select;
pub mod user;
