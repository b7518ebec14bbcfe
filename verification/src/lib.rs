pub mod api;
pub mod chat;
pub mod config;
pub mod editor;
pub mod gui;
pub mod json;
pub mod laws;
pub mod llm;
pub mod text;
pub mod widgets;
