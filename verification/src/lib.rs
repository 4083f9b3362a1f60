//! Verified core of a deterministic procedural world-map generator.
pub mod prng;
pub mod text;
pub mod game_time;
pub mod game_loop;
pub mod types;
pub mod config;
pub mod colors;
pub mod settlement;
pub mod settlements_draw;
pub mod view;
pub mod seed_input;
pub mod road_network;
pub mod road_links;
pub mod road_search;
pub mod ecology;
pub mod ecology_view;
