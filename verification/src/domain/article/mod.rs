pub mod dto;
pub mod entity;
pub mod handler;
pub mod repository;
pub mod usecase;
