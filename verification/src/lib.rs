//! Shared stabilization-context cache, keyframe baking and instance lifecycle
//! for host plugins.

pub mod baking;
pub mod cache;
pub mod cache_laws;
pub mod changes;
pub mod chars;
pub mod definitions;
pub mod edits;
pub mod fixed;
pub mod frames;
pub mod fuscript;
pub mod geometry;
pub mod hosts;
pub mod image;
pub mod instance;
pub mod instances;
pub mod keyframe_laws;
pub mod keyframes;
pub mod launch;
pub mod lifecycle;
pub mod loading;
pub mod param_map;
pub mod pacing;
pub mod params;
pub mod port;
pub mod recency;
pub mod scan;
pub mod status;
pub mod stored;
pub mod table;
pub mod text;
pub mod time;
