pub mod text;
pub mod numbers;
pub mod ini;
pub mod custom_tunnel;
pub mod models;
pub mod config;
pub mod sanitize;
pub mod paths;
pub mod persistence;
pub mod tui;
pub mod download;
pub mod process;
pub mod auth;
pub mod api;
pub mod clock;
pub mod app;
pub mod keys;
pub mod desktop;
pub mod view;
pub mod screens;
pub mod config_laws;
pub mod split_laws;
