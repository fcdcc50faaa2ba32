use vstd::prelude::*;

verus! {

/// Local id of a tile within its tileset.
pub type TileId = u32;

/// A picture that tiles are cut from, as its loader described it.
#[derive(Debug, Clone, PartialEq, Eq)]
pub struct Image {
    /// Where the picture lives, resolved against the tileset's directory.
    pub source: String,
    /// Width in pixels.
    pub width: u32,
    /// Height in pixels.
    pub height: u32,
}

/// The typed value of a custom property.
#[derive(Debug, Clone, PartialEq, Eq)]
pub enum PropertyValue {
    BoolValue(bool),
    IntValue(i32),
    ColorValue(u32),
    StringValue(String),
    FileValue(String),
    ObjectValue(u32),
}

/// A named custom property.
#[derive(Debug, Clone, PartialEq, Eq)]
pub struct Property {
    pub name: String,
    pub value: PropertyValue,
}

/// Custom properties, in the order they were declared.
pub type Properties = Vec<Property>;

/// What a tileset records of one tile.
#[derive(Debug, Clone, PartialEq, Eq)]
pub struct TileData {
    /// The tile's own picture (collection tilesets).
    pub image: Option<Image>,
    /// The tile's custom properties.
    pub properties: Properties,
    /// The class the user gave the tile.
    pub user_type: Option<String>,
}

impl TileData {
    /// A tile that declares nothing of its own.
    pub open spec fn is_blank(&self) -> bool {
        &&& self.image is None
        &&& self.properties@.len() == 0
        &&& self.user_type is None
    }
}

impl Default for TileData {
    fn default() -> (r: TileData)
        ensures
            r.is_blank(),
    {
        TileData { image: None, properties: Vec::new(), user_type: None }
    }
}

} // verus!
