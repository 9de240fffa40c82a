pub mod mode;
pub mod text;
pub mod keys;
pub mod action;
pub mod styles;
pub mod openapi;
pub mod hivemq_rest_client;
pub mod repository;
pub mod editor;
pub mod filter_popup;
pub mod popup;
pub mod list_with_details;
pub mod tabs;
pub mod home;
pub mod config;
pub mod services;
pub mod views;
