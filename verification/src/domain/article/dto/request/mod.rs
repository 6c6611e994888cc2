pub mod create;
pub mod edit;
