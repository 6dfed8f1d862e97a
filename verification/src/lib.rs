pub mod clock;
pub mod text;
pub mod formatting;
pub mod chat;
pub mod json;
pub mod protocol;
pub mod rpc;
pub mod render;
pub mod entries;
pub mod sorting;
pub mod textorder;
pub mod stats;
pub mod controller;
pub mod actions;
pub mod turns;
pub mod binary64;
pub mod wire;
pub mod window_laws;
