//! What holds of the library, said of what comes in and what goes out.

pub mod alike;
pub mod analyzing;
pub mod banners;
pub mod documentation;
pub mod entries;
pub mod frame;
pub mod hearing;
pub mod kinds;
pub mod linking;
pub mod listing;
pub mod matter_page;
pub mod merging;
pub mod other_pages;
pub mod owning;
pub mod placing;
pub mod plain_letters;
pub mod reaching;
pub mod remembering;
pub mod rooms;
pub mod rooms_page;
pub mod rooms_told;
pub mod rows;
pub mod running;
pub mod scans;
pub mod sharing;
pub mod supply;
pub mod switching;
pub mod telling;
pub mod texts;
