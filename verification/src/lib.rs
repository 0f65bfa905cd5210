pub mod admin;
pub mod contract;
pub mod create;
pub mod custody;
pub mod dispute;
pub mod errors;
pub mod events;
pub mod fees;
pub mod laws;
pub mod flow;
pub mod lifecycle;
pub mod queries;
pub mod recipients;
pub mod settle;
pub mod table;
pub mod types;
