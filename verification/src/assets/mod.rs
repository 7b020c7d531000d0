//! Everything the asset registry owns: sprite atlases with their animation
//! tables, audio clip descriptions, and the registry itself.

pub mod audio;

mod key_table;

pub mod asset_database;
pub use asset_database::{AssetContainer, AssetDatabase, ContainerView};

pub mod ingest;
pub use ingest::{asset_kind_for, ingest_sprite_sheet, register_sprite_atlas, AssetKind, SpriteSheetConfig};

pub mod sprite_sheet;
pub use sprite_sheet::{DrawCommand, SheetView, SpriteAnimation, SpritePos, SpriteSheet};
