pub mod create;
pub mod read_article;
