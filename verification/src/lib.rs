pub mod aggregator;
pub mod cache;
pub mod config;
pub mod gateway;
pub mod manager;
pub mod message_parser;
pub mod presence;
pub mod proxy;
pub mod regex_ops;
pub mod text;
pub mod types;
pub mod ui;
