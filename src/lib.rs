//! Resolution of tile atlases ("tilesets") into a validated, queryable model.
mod attrs;
mod error;
mod paths;
mod registry;
mod resolve;
mod tile;
mod tileset;

pub use attrs::{Attribute, find_attr, parse_u32, u32_attr};
pub use error::Error;
pub use registry::TileRegistry;
pub use resolve::{EmbeddedParseResult, EmbeddedParseResultType, Gid};
pub use tile::{Image, Properties, Property, PropertyValue, TileData, TileId};
pub use tileset::{Tile, Tileset, TilesetChild, TilesetProperties};
