pub mod article;
