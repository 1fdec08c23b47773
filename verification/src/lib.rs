//! Verified core of the HomeNode web module.

pub mod analyzer;
pub mod autolink;
pub mod category;
pub mod correlate;
pub mod device;
pub mod docs;
pub mod energy;
pub mod events;
pub mod fabrics;
pub mod health;
pub mod history;
pub mod html;
pub mod json;
pub mod laws;
pub mod lights;
pub mod links;
pub mod matterd;
pub mod mobile_ble;
pub mod ordering;
pub mod pages;
pub mod ping;
pub mod records;
pub mod rooms;
pub mod startup;
pub mod text;
pub mod text_map;
pub mod unify;
