use vstd::prelude::*;
use crate::error::Error;
use crate::registry::TileRegistry;
use crate::tile::{Image, Properties, TileData, TileId};

verus! {

/// A collection of tiles for use in maps and template objects.
#[derive(Debug, PartialEq, Eq)]
pub struct Tileset {
    /// The name of the tileset, set by the user.
    pub name: String,
    /// The (maximum) width in pixels of the tiles.
    pub tile_width: u32,
    /// The (maximum) height in pixels of the tiles.
    pub tile_height: u32,
    /// The spacing in pixels between the tiles of the tileset image.
    pub spacing: u32,
    /// The margin in pixels around the tiles of the tileset image.
    pub margin: u32,
    /// The number of tiles. For collection tilesets ids need not stay below it.
    pub tilecount: u32,
    /// The number of tile columns, given or derived from the image.
    pub columns: u32,
    /// The spritesheet that all tiles are cut from; absent for collection
    /// tilesets, whose tiles carry their own images.
    pub image: Option<Image>,
    /// All the tiles of this tileset, keyed by local id.
    pub tiles: TileRegistry,
    /// The custom properties of the tileset.
    pub properties: Properties,
}

/// A tile of a tileset, seen together with the tileset it belongs to.
#[derive(Debug, Clone, Copy)]
pub struct Tile<'a> {
    pub tileset: &'a Tileset,
    pub data: &'a TileData,
}

impl<'a> Tile<'a> {
    /// The picture the tile is drawn from: its own where it has one, else the
    /// tileset's spritesheet.
    pub fn image(&self) -> (r: Option<&'a Image>)
        ensures
            r is Some == (self.data.image is Some || self.tileset.image is Some),
            r matches Some(i) ==> *i == if self.data.image is Some {
                self.data.image->Some_0
            } else {
                self.tileset.image->Some_0
            },
    {
        match &self.data.image {
            Some(i) => Some(i),
            None => match &self.tileset.image {
                Some(i) => Some(i),
                None => None,
            },
        }
    }
}

/// Validated attributes of a tileset, before its child elements are read.
#[derive(Debug, Clone, PartialEq, Eq)]
pub struct TilesetProperties {
    pub spacing: Option<u32>,
    pub margin: Option<u32>,
    pub tilecount: u32,
    pub columns: Option<u32>,
    pub name: String,
    pub tile_width: u32,
    pub tile_height: u32,
    /// The directory that relative paths inside the tileset are resolved against.
    pub root_path: String,
}

/// A child element of a tileset, as its reader produced it.
#[derive(Debug, Clone, PartialEq, Eq)]
pub enum TilesetChild {
    /// The spritesheet image.
    Image(Image),
    /// The tileset's custom properties.
    Properties(Properties),
    /// The declaration of one tile.
    Tile(TileId, TileData),
}

/// The spritesheet among the children: the last one declared.
pub open spec fn image_of(children: Seq<TilesetChild>) -> Option<Image>
    decreases children.len(),
{
    if children.len() == 0 {
        None
    } else {
        let later = image_of(children.drop_first());
        match children[0] {
            TilesetChild::Image(img) => if later is Some { later } else { Some(img) },
            _ => later,
        }
    }
}

/// The custom properties among the children: the last block declared.
pub open spec fn properties_of(children: Seq<TilesetChild>) -> Option<Properties>
    decreases children.len(),
{
    if children.len() == 0 {
        None
    } else {
        let later = properties_of(children.drop_first());
        match children[0] {
            TilesetChild::Properties(p) => if later is Some { later } else { Some(p) },
            _ => later,
        }
    }
}

/// The tiles that the children declare, by id: a later declaration of an id
/// replaces an earlier one.
pub open spec fn declared_tiles(children: Seq<TilesetChild>) -> Map<TileId, TileData>
    decreases children.len(),
{
    if children.len() == 0 {
        Map::empty()
    } else {
        let later = declared_tiles(children.drop_first());
        match children[0] {
            TilesetChild::Tile(id, data) => if later.contains_key(id) {
                later
            } else {
                later.insert(id, data)
            },
            _ => later,
        }
    }
}

/// The number of columns that an image of width `w` holds, for tiles of width
/// `tw` with the given margin and spacing.
pub open spec fn derived_columns(w: int, tw: int, margin: int, spacing: int) -> int {
    (w - margin + spacing) / (tw + spacing)
}

/// Whether the column count can be derived from that geometry.
pub open spec fn columns_derivable(w: int, tw: int, margin: int, spacing: int) -> bool {
    &&& tw + spacing > 0
    &&& w - margin + spacing >= 0
    &&& derived_columns(w, tw, margin, spacing) <= u32::MAX
}

/// The column count that a tileset gets: the one given, else the one derived
/// from its image.
pub open spec fn resolved_columns(
    columns: Option<u32>,
    image: Option<Image>,
    tile_width: u32,
    margin: u32,
    spacing: u32,
) -> Option<u32> {
    match columns {
        Some(c) => Some(c),
        None => match image {
            Some(img) => if columns_derivable(img.width as int, tile_width as int, margin as int, spacing as int) {
                Some(derived_columns(img.width as int, tile_width as int, margin as int, spacing as int) as u32)
            } else {
                None
            },
            None => None,
        },
    }
}

impl Tileset {
    /// Gets the tile with the specified id from the tileset.
    pub fn get_tile(&self, id: TileId) -> (r: Option<Tile<'_>>)
        ensures
            r is Some == self.tiles@.contains_key(id),
            r matches Some(t) ==> *t.tileset == *self && *t.data == self.tiles@[id],
    {
        match self.tiles.get(id) {
            Some(data) => Some(Tile { tileset: self, data }),
            None => None,
        }
    }

    /// Lists every tile of the tileset once, with its id.
    pub fn tiles(&self) -> (r: Vec<(TileId, Tile<'_>)>)
        ensures
            r@.len() == self.tiles@.len(),
            forall|i: int| 0 <= i < r@.len() ==> {
                &&& self.tiles@.contains_key(#[trigger] r@[i].0)
                &&& *r@[i].1.data == self.tiles@[r@[i].0]
                &&& *r@[i].1.tileset == *self
            },
            forall|i: int, j: int| 0 <= i < j < r@.len() ==> r@[i].0 != r@[j].0,
            forall|k: TileId| #[trigger] self.tiles@.contains_key(k) ==> exists|i: int|
                0 <= i < r@.len() && r@[i].0 == k,
    {
        let entries = self.tiles.entries();
        let mut r: Vec<(TileId, Tile<'_>)> = Vec::new();
        let mut i: usize = 0;
        while i < entries.len()
            invariant
                i <= entries@.len(),
                r@.len() == i,
                forall|j: int| 0 <= j < i ==> {
                    &&& #[trigger] r@[j].0 == entries@[j].0
                    &&& r@[j].1.data == entries@[j].1
                    &&& *r@[j].1.tileset == *self
                },
            decreases entries@.len() - i,
        {
            r.push((entries[i].0, Tile { tileset: self, data: entries[i].1 }));
            i = i + 1;
        }
        assert forall|k: TileId| #[trigger] self.tiles@.contains_key(k) implies exists|i: int|
            0 <= i < r@.len() && r@[i].0 == k by {
            let j = choose|j: int| 0 <= j < entries@.len() && entries@[j].0 == k;
            assert(r@[j].0 == k);
        }
        r
    }

    /// Derives the number of columns from the tileset image: how many tiles of
    /// width `tile_width` fit across it, given the margin and spacing.
    pub fn calculate_columns(image: &Option<Image>, tile_width: u32, margin: u32, spacing: u32) -> (r:
        Result<u32, Error>)
        ensures
            r matches Ok(c) ==> resolved_columns(None, *image, tile_width, margin, spacing) == Some(c),
            r is Err ==> resolved_columns(None, *image, tile_width, margin, spacing) is None,
            r matches Err(e) ==> e is MalformedAttributes,
    {
        match image {
            Some(img) => {
                let w = img.width as u64;
                let tw = tile_width as u64;
                let m = margin as u64;
                let s = spacing as u64;
                if tw + s == 0 || w + s < m {
                    return Err(Error::MalformedAttributes("the tileset image cannot hold a column".to_owned()));
                }
                let c = (w + s - m) / (tw + s);
                if c > u32::MAX as u64 {
                    return Err(Error::MalformedAttributes("the tileset image holds too many columns".to_owned()));
                }
                Ok(c as u32)
            },
            None => Err(Error::MalformedAttributes("No <image> nor columns attribute in <tileset>".to_owned())),
        }
    }
}


/// A number that was left out, read as zero.
pub open spec fn or_zero(v: Option<u32>) -> u32 {
    match v {
        Some(x) => x,
        None => 0,
    }
}

/// Whether `reg` is the registry that a tileset with these children gets:
/// every declared tile under its id, and, for a spritesheet (`dense`), a blank
/// tile for every other id below `tilecount`.
pub open spec fn registry_from_children(
    reg: Map<TileId, TileData>,
    children: Seq<TilesetChild>,
    tilecount: u32,
    dense: bool,
) -> bool {
    let declared = declared_tiles(children);
    &&& forall|k: TileId| #[trigger] reg.contains_key(k) <==> (declared.contains_key(k) || (dense
        && k < tilecount))
    &&& forall|k: TileId| #[trigger] declared.contains_key(k) ==> reg[k] == declared[k]
    &&& forall|k: TileId|
        #[trigger] reg.contains_key(k) && !declared.contains_key(k) ==> reg[k].is_blank()
}

/// Whether a tileset with these attributes and children can be built: its
/// column count is given or can be derived.
pub open spec fn tileset_buildable(prop: TilesetProperties, children: Seq<TilesetChild>) -> bool {
    resolved_columns(
        prop.columns,
        image_of(children),
        prop.tile_width,
        or_zero(prop.margin),
        or_zero(prop.spacing),
    ) is Some
}

/// Whether `t` is the tileset built from these attributes and children.
pub open spec fn tileset_built(t: Tileset, prop: TilesetProperties, children: Seq<TilesetChild>) -> bool {
    &&& t.name@ == prop.name@
    &&& t.tile_width == prop.tile_width
    &&& t.tile_height == prop.tile_height
    &&& t.spacing == or_zero(prop.spacing)
    &&& t.margin == or_zero(prop.margin)
    &&& t.tilecount == prop.tilecount
    &&& Some(t.columns) == resolved_columns(
        prop.columns,
        image_of(children),
        prop.tile_width,
        or_zero(prop.margin),
        or_zero(prop.spacing),
    )
    &&& t.image == image_of(children)
    &&& match properties_of(children) {
        Some(p) => t.properties == p,
        None => t.properties@.len() == 0,
    }
    &&& registry_from_children(t.tiles@, children, prop.tilecount, image_of(children) is Some)
}

/// The ids below `n`.
pub open spec fn ids_below(n: u32) -> Set<TileId> {
    Set::new(|k: TileId| k < n)
}

/// There are `n` ids below `n`.
pub proof fn lemma_ids_below_len(n: u32)
    ensures
        ids_below(n).finite(),
        ids_below(n).len() == n,
    decreases n,
{
    if n == 0 {
        assert(ids_below(n) =~= Set::empty());
    } else {
        lemma_ids_below_len((n - 1) as u32);
        assert(ids_below(n) =~= ids_below((n - 1) as u32).insert((n - 1) as u32));
    }
}

/// A spritesheet tileset whose declared tile ids all stay below its tile
/// count `N` holds exactly `N` tiles, with the ids `0..N`, however many tiles
/// were declared.
pub proof fn lemma_spritesheet_registry_dense(
    t: Tileset,
    prop: TilesetProperties,
    children: Seq<TilesetChild>,
)
    requires
        tileset_built(t, prop, children),
        image_of(children) is Some,
        forall|k: TileId| #[trigger] declared_tiles(children).contains_key(k) ==> k < prop.tilecount,
    ensures
        t.tiles@.dom() == ids_below(prop.tilecount),
        t.tiles@.len() == prop.tilecount,
{
    lemma_ids_below_len(prop.tilecount);
    assert(t.tiles@.dom() =~= ids_below(prop.tilecount));
}

/// A collection tileset holds exactly the tiles its children declare, and no
/// others.
pub proof fn lemma_collection_registry_declared(
    t: Tileset,
    prop: TilesetProperties,
    children: Seq<TilesetChild>,
)
    requires
        tileset_built(t, prop, children),
        image_of(children) is None,
    ensures
        t.tiles@ == declared_tiles(children),
{
    assert(t.tiles@ =~= declared_tiles(children));
}

impl Tileset {
    /// Builds the tileset from its validated attributes and its child elements,
    /// in document order. A spritesheet tileset gets a blank tile for every id
    /// below its tile count that no child declares.
    pub fn finish_parsing_xml(prop: TilesetProperties, children: Vec<TilesetChild>) -> (r: Result<
        Tileset,
        Error,
    >)
        ensures
            r is Ok <==> tileset_buildable(prop, children@),
            r matches Err(e) ==> e is MalformedAttributes,
            r matches Ok(t) ==> tileset_built(t, prop, children@),
            // A spritesheet whose declared ids stay below its tile count holds
            // exactly the ids below the tile count.
            r matches Ok(t) ==> image_of(children@) is Some && (forall|k: TileId|
                #[trigger] declared_tiles(children@).contains_key(k) ==> k < prop.tilecount) ==> {
                &&& t.tiles@.dom() == ids_below(prop.tilecount)
                &&& t.tiles@.len() == prop.tilecount
            },
            // A collection tileset holds exactly the declared tiles.
            r matches Ok(t) ==> image_of(children@) is None ==> t.tiles@
                == declared_tiles(children@),
    {
        let ghost all = children@;
        let mut children = children;
        let mut image: Option<Image> = None;
        let mut properties: Option<Properties> = None;
        let mut tiles = TileRegistry::new();
        assert(all.subrange(children@.len() as int, all.len() as int) =~= Seq::<TilesetChild>::empty());
        loop
            invariant
                children@.len() <= all.len(),
                children@ == all.subrange(0, children@.len() as int),
                image == image_of(all.subrange(children@.len() as int, all.len() as int)),
                properties == properties_of(all.subrange(children@.len() as int, all.len() as int)),
                tiles@ == declared_tiles(
                    all.subrange(children@.len() as int, all.len() as int),
                ),
            ensures
                children@.len() == 0,
                image == image_of(all),
                properties == properties_of(all),
                tiles@ == declared_tiles(all),
            decreases children@.len(),
        {
            let ghost before = all.subrange(children@.len() as int, all.len() as int);
            let child = match children.pop() {
                Some(c) => c,
                None => {
                    assert(before =~= all);
                    break;
                },
            };
            let ghost after = all.subrange(children@.len() as int, all.len() as int);
            assert(after.drop_first() =~= before);
            assert(after[0] == child);
            match child {
                TilesetChild::Image(img) => {
                    if image.is_none() {
                        image = Some(img);
                    }
                },
                TilesetChild::Properties(p) => {
                    if properties.is_none() {
                        properties = Some(p);
                    }
                },
                TilesetChild::Tile(id, data) => {
                    tiles = tiles.insert_if_absent(id, data);
                },
            }
        }
        if image.is_some() {
            tiles = tiles.fill_blank_below(prop.tilecount);
        }
        let margin = match prop.margin {
            Some(m) => m,
            None => 0,
        };
        let spacing = match prop.spacing {
            Some(s) => s,
            None => 0,
        };
        let columns = match prop.columns {
            Some(c) => c,
            None => match Self::calculate_columns(&image, prop.tile_width, margin, spacing) {
                Ok(c) => c,
                Err(e) => return Err(e),
            },
        };
        let properties = match properties {
            Some(p) => p,
            None => Vec::new(),
        };
        let t = Tileset {
            name: prop.name,
            tile_width: prop.tile_width,
            tile_height: prop.tile_height,
            spacing,
            margin,
            columns,
            tilecount: prop.tilecount,
            image,
            tiles,
            properties,
        };
        proof {
            if image_of(all) is Some && (forall|k: TileId|
                #[trigger] declared_tiles(all).contains_key(k) ==> k < prop.tilecount) {
                lemma_spritesheet_registry_dense(t, prop, all);
            }
            if image_of(all) is None {
                lemma_collection_registry_declared(t, prop, all);
            }
        }
        Ok(t)
    }
}

} // verus!
