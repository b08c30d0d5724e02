pub mod text;
pub mod digest;
pub mod params;
pub mod config;
pub mod model;
pub mod pay;
pub mod keyed;
pub mod cache;
pub mod service;
pub mod session;
pub mod wx;
pub mod db;
pub mod clock;
