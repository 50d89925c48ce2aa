//! Now-playing metadata of a media player: reading the player's property
//! bag into a typed record, and rendering that record through a template.

pub mod cli;
pub mod decimal;
pub mod duration;
pub mod placeholder;
pub mod property;
pub mod scan;
pub mod schema;
pub mod song;
pub mod template;
pub mod text;

pub use duration::milliseconds_to_time;
pub use placeholder::access_song_infos;
pub use song::SongInfos;
pub use template::render;
