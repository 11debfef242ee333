pub mod db;
pub mod decimal;
pub mod encrypt;
pub mod process;
pub mod text;
