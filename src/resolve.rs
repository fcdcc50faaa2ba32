use vstd::prelude::*;
use crate::attrs::{Attribute, attr_value, find_attr, u32_attr, u32_attr_of};
use crate::error::Error;
use crate::paths::{joined, parent_of, path_join, path_parent};
use crate::tileset::{
    Tileset, TilesetChild, TilesetProperties, tileset_buildable, tileset_built,
};

verus! {

/// A global tile id: a map-wide identifier of a tile.
#[derive(Debug, Clone, Copy, PartialEq, Eq, Structural)]
pub struct Gid(pub u32);

/// What a tileset element inside a map turned out to be.
#[derive(Debug, PartialEq, Eq)]
pub enum EmbeddedParseResultType {
    /// A reference to a standalone tileset document at this path.
    ExternalReference { tileset_path: String },
    /// A tileset defined in place.
    Embedded { tileset: Tileset },
}

/// A tileset element inside a map, with the first global id the map gives it.
#[derive(Debug, PartialEq, Eq)]
pub struct EmbeddedParseResult {
    pub first_gid: Gid,
    pub result_type: EmbeddedParseResultType,
}

/// The attributes that every tileset definition needs are there and are numbers.
pub open spec fn definition_attrs_present(attrs: Seq<Attribute>) -> bool {
    &&& u32_attr_of(attrs, "tilecount"@) is Some
    &&& u32_attr_of(attrs, "tilewidth"@) is Some
    &&& u32_attr_of(attrs, "tileheight"@) is Some
}

/// The attributes of a tileset defined inside a map are there and are numbers.
pub open spec fn embedded_attrs_present(attrs: Seq<Attribute>) -> bool {
    &&& definition_attrs_present(attrs)
    &&& u32_attr_of(attrs, "firstgid"@) is Some
}

/// The attributes of a reference to a standalone tileset are there.
pub open spec fn reference_attrs_present(attrs: Seq<Attribute>) -> bool {
    &&& u32_attr_of(attrs, "firstgid"@) is Some
    &&& attr_value(attrs, "source"@) is Some
}

/// The first global id that the attributes give.
pub open spec fn first_gid_of(attrs: Seq<Attribute>) -> Gid {
    Gid(u32_attr_of(attrs, "firstgid"@)->Some_0)
}

/// Whether `p` holds what the attributes say of a tileset whose relative paths
/// are resolved against `root`: optional numbers that are missing or not
/// numbers are left out, and a missing name is empty.
pub open spec fn properties_read(p: TilesetProperties, attrs: Seq<Attribute>, root: Seq<char>) -> bool {
    &&& p.spacing == u32_attr_of(attrs, "spacing"@)
    &&& p.margin == u32_attr_of(attrs, "margin"@)
    &&& p.columns == u32_attr_of(attrs, "columns"@)
    &&& p.name@ == match attr_value(attrs, "name"@) {
        Some(v) => v,
        None => Seq::<char>::empty(),
    }
    &&& Some(p.tilecount) == u32_attr_of(attrs, "tilecount"@)
    &&& Some(p.tile_width) == u32_attr_of(attrs, "tilewidth"@)
    &&& Some(p.tile_height) == u32_attr_of(attrs, "tileheight"@)
    &&& p.root_path@ == root
}

/// Reads the attributes of a tileset definition; its root path is left empty.
fn read_definition_attrs(attrs: &Vec<Attribute>) -> (r: Option<TilesetProperties>)
    ensures
        r is Some == definition_attrs_present(attrs@),
        r matches Some(p) ==> properties_read(p, attrs@, Seq::empty()),
{
    let tilecount = match u32_attr(attrs, "tilecount") {
        Some(v) => v,
        None => return None,
    };
    let tile_width = match u32_attr(attrs, "tilewidth") {
        Some(v) => v,
        None => return None,
    };
    let tile_height = match u32_attr(attrs, "tileheight") {
        Some(v) => v,
        None => return None,
    };
    let name = match find_attr(attrs, "name") {
        Some(v) => v.clone(),
        None => String::new(),
    };
    Some(TilesetProperties {
        spacing: u32_attr(attrs, "spacing"),
        margin: u32_attr(attrs, "margin"),
        tilecount,
        columns: u32_attr(attrs, "columns"),
        name,
        tile_width,
        tile_height,
        root_path: String::new(),
    })
}

/// The directory of the document at `path`, which relative paths in it are
/// resolved against.
fn document_dir(path: &str) -> (r: Result<String, Error>)
    ensures
        r is Ok == parent_of(path@) is Some,
        r matches Ok(d) ==> parent_of(path@) == Some(d@),
        r matches Err(e) ==> e is PathIsNotFile,
{
    match path_parent(path) {
        Some(d) => Ok(d),
        None => Err(Error::PathIsNotFile),
    }
}

impl Tileset {
    /// Reads a tileset element inside the map (or template) at `path`: a
    /// tileset defined in place where the attributes hold `firstgid`,
    /// `tilecount`, `tilewidth` and `tileheight`, else a reference to a
    /// standalone tileset document.
    pub fn parse_xml_in_map(attrs: &Vec<Attribute>, path: &str, children: Vec<TilesetChild>) -> (r:
        Result<EmbeddedParseResult, Error>)
        ensures
            embedded_attrs_present(attrs@) ==> embedded_outcome(r, attrs@, path@, children@),
            !embedded_attrs_present(attrs@) ==> reference_outcome(r, attrs@, path@),
    {
        if u32_attr(attrs, "firstgid").is_some() && read_definition_attrs(attrs).is_some() {
            Self::parse_xml_embedded(attrs, path, children)
        } else {
            Self::parse_xml_reference(attrs, path)
        }
    }

    /// Reads a tileset defined in place inside the map at `path`.
    pub fn parse_xml_embedded(attrs: &Vec<Attribute>, path: &str, children: Vec<TilesetChild>) -> (r:
        Result<EmbeddedParseResult, Error>)
        ensures
            embedded_outcome(r, attrs@, path@, children@),
    {
        let first_gid = u32_attr(attrs, "firstgid");
        let definition = read_definition_attrs(attrs);
        let (first_gid, mut properties) = match (first_gid, definition) {
            (Some(g), Some(p)) => (Gid(g), p),
            _ => return Err(
                Error::MalformedAttributes(
                    "tileset must have a firstgid, tilecount, tilewidth, and tileheight with correct types".to_owned(),
                ),
            ),
        };
        properties.root_path = match document_dir(path) {
            Ok(d) => d,
            Err(e) => return Err(e),
        };
        match Self::finish_parsing_xml(properties, children) {
            Ok(tileset) => Ok(
                EmbeddedParseResult {
                    first_gid,
                    result_type: EmbeddedParseResultType::Embedded { tileset },
                },
            ),
            Err(e) => Err(e),
        }
    }

    /// Reads a reference to a standalone tileset document from a tileset
    /// element inside the map at `path`.
    pub fn parse_xml_reference(attrs: &Vec<Attribute>, path: &str) -> (r: Result<
        EmbeddedParseResult,
        Error,
    >)
        ensures
            reference_outcome(r, attrs@, path@),
    {
        let (first_gid, source) = match (u32_attr(attrs, "firstgid"), find_attr(attrs, "source")) {
            (Some(g), Some(s)) => (Gid(g), s),
            _ => return Err(
                Error::MalformedAttributes(
                    "Tileset reference must have a firstgid and source with correct types".to_owned(),
                ),
            ),
        };
        let dir = match document_dir(path) {
            Ok(d) => d,
            Err(e) => return Err(e),
        };
        Ok(
            EmbeddedParseResult {
                first_gid,
                result_type: EmbeddedParseResultType::ExternalReference {
                    tileset_path: path_join(dir.as_str(), source.as_str()),
                },
            },
        )
    }

    /// Reads a standalone tileset document at `path`.
    pub fn parse_external_tileset(attrs: &Vec<Attribute>, path: &str, children: Vec<TilesetChild>) -> (r:
        Result<Tileset, Error>)
        ensures
            !definition_attrs_present(attrs@) ==> r matches Err(Error::MalformedAttributes(_)),
            definition_attrs_present(attrs@) && parent_of(path@) is None ==> r matches Err(
                Error::PathIsNotFile,
            ),
            definition_attrs_present(attrs@) && parent_of(path@) is Some ==> forall|
                p: TilesetProperties,
            | #[trigger] properties_read(p, attrs@, parent_of(path@)->Some_0) ==> {
                &&& r is Ok <==> tileset_buildable(p, children@)
                &&& (r matches Err(e) ==> e is MalformedAttributes)
                &&& (r matches Ok(t) ==> tileset_built(t, p, children@))
            },
    {
        let mut properties = match read_definition_attrs(attrs) {
            Some(p) => p,
            None => return Err(
                Error::MalformedAttributes(
                    "tileset must have a name, tile width and height with correct types".to_owned(),
                ),
            ),
        };
        properties.root_path = match document_dir(path) {
            Ok(d) => d,
            Err(e) => return Err(e),
        };
        Self::finish_parsing_xml(properties, children)
    }
}

/// What reading a tileset defined in place inside the map at `path` gives.
pub open spec fn embedded_outcome(
    r: Result<EmbeddedParseResult, Error>,
    attrs: Seq<Attribute>,
    path: Seq<char>,
    children: Seq<TilesetChild>,
) -> bool {
    &&& !embedded_attrs_present(attrs) ==> (r matches Err(Error::MalformedAttributes(_)))
    &&& embedded_attrs_present(attrs) && parent_of(path) is None ==> (r matches Err(
        Error::PathIsNotFile,
    ))
    &&& embedded_attrs_present(attrs) && parent_of(path) is Some ==> forall|p: TilesetProperties|
        #[trigger] properties_read(p, attrs, parent_of(path)->Some_0) ==> {
            &&& r is Ok <==> tileset_buildable(p, children)
            &&& (r matches Err(e) ==> e is MalformedAttributes)
            &&& (r matches Ok(res) ==> {
                &&& res.first_gid == first_gid_of(attrs)
                &&& (res.result_type matches EmbeddedParseResultType::Embedded { tileset }
                    && tileset_built(tileset, p, children))
            })
        }
}

/// What reading a reference to a standalone tileset inside the map at `path`
/// gives.
pub open spec fn reference_outcome(
    r: Result<EmbeddedParseResult, Error>,
    attrs: Seq<Attribute>,
    path: Seq<char>,
) -> bool {
    &&& !reference_attrs_present(attrs) ==> (r matches Err(Error::MalformedAttributes(_)))
    &&& reference_attrs_present(attrs) && parent_of(path) is None ==> (r matches Err(
        Error::PathIsNotFile,
    ))
    &&& reference_attrs_present(attrs) && parent_of(path) is Some ==> {
        &&& r is Ok
        &&& r->Ok_0.first_gid == first_gid_of(attrs)
        &&& (r->Ok_0.result_type matches EmbeddedParseResultType::ExternalReference { tileset_path }
            && tileset_path@ == joined(parent_of(path)->Some_0, attr_value(attrs, "source"@)->Some_0))
    }
}

} // verus!
