//! Verified core of a Chinese chess (xiangqi) engine, client and server.

pub mod board;
pub mod clock;
pub mod zobrist;
pub mod search;
pub mod evaluate;
pub mod transposition;
pub mod text;
pub mod llm;
pub mod icons;
pub mod editor;
pub mod outcome;
pub mod server;
pub mod storage;
pub mod settings;
pub mod settings_menu;
pub mod client;
pub mod network;
pub mod local_game;
pub mod menu;
