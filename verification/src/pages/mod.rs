//! The pages of the web module.

pub mod catalog;
pub mod catalog_parts;
pub mod device_data;
pub mod device_json;
pub mod device_parts;
pub mod device_row;
pub mod devices;
pub mod devices_frame;
pub mod layout;
pub mod matter;
pub mod matter_parts;
pub mod overview;
pub mod rooms;
pub mod rooms_frame;
