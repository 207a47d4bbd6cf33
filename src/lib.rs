pub mod config;
pub mod confirmation;
pub mod domain;
pub mod email_client;
pub mod repository;
pub mod subscriptions;
