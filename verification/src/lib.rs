//! A turn-based role-playing engine: attributes that grow with use, a health
//! pool derived from them, and a combat loop that consumes both.

pub mod accessible;
pub mod adventure_parser;
pub mod character;
pub mod choice;
pub mod combat;
pub mod hp;
pub mod inventory;
pub mod io;
pub mod stat;
pub mod story_graph;
pub mod table;
pub mod template;
pub mod text;
pub mod unit;
pub mod world;
