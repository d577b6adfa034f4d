pub mod hex_codec;
pub mod text;
pub mod error;
pub mod types;
pub mod network;
pub mod normalization;
pub mod dummy;
