//! Track hub core: catalogue model, request planning and text handling for a
//! music hub that resolves, downloads and tags tracks.

pub mod text;
pub mod hash;
pub mod model;
pub mod video_id;
pub mod json;
pub mod python_client;
pub mod repository;
pub mod lyrics;
pub mod download;
pub mod manager;
pub mod server;
pub mod python_service;
pub mod laws;
