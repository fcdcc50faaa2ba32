use tiled::{
    Attribute, EmbeddedParseResultType, Error, Gid, Image, Property, PropertyValue, TileData,
    Tileset, TilesetChild, TilesetProperties, find_attr, parse_u32, u32_attr,
};

fn attrs(pairs: &[(&str, &str)]) -> Vec<Attribute> {
    pairs
        .iter()
        .map(|(n, v)| Attribute { name: n.to_string(), value: v.to_string() })
        .collect()
}

fn image(width: u32) -> Image {
    Image { source: "sheet.png".to_string(), width, height: 64 }
}

fn props(tilecount: u32, columns: Option<u32>) -> TilesetProperties {
    TilesetProperties {
        spacing: None,
        margin: None,
        tilecount,
        columns,
        name: "tiles".to_string(),
        tile_width: 32,
        tile_height: 32,
        root_path: "maps".to_string(),
    }
}

fn tagged(kind: &str) -> TileData {
    TileData { image: None, properties: Vec::new(), user_type: Some(kind.to_string()) }
}

fn sorted_ids(t: &Tileset) -> Vec<u32> {
    let mut ids: Vec<u32> = t.tiles().iter().map(|(id, _)| *id).collect();
    ids.sort();
    ids
}

#[test]
fn parse_u32_reads_decimal_numbers() {
    assert_eq!(parse_u32("0"), Some(0));
    assert_eq!(parse_u32("264"), Some(264));
    assert_eq!(parse_u32("+17"), Some(17));
    assert_eq!(parse_u32("007"), Some(7));
    assert_eq!(parse_u32("4294967295"), Some(u32::MAX));
}

#[test]
fn parse_u32_rejects_other_text() {
    assert_eq!(parse_u32(""), None);
    assert_eq!(parse_u32("+"), None);
    assert_eq!(parse_u32("-1"), None);
    assert_eq!(parse_u32("12a"), None);
    assert_eq!(parse_u32(" 1"), None);
    assert_eq!(parse_u32("4294967296"), None);
    assert_eq!(parse_u32("99999999999"), None);
}

#[test]
fn later_attribute_of_a_name_wins() {
    let a = attrs(&[("margin", "1"), ("name", "x"), ("margin", "3")]);
    assert_eq!(find_attr(&a, "margin").map(|s| s.as_str()), Some("3"));
    assert_eq!(find_attr(&a, "spacing"), None);
    assert_eq!(u32_attr(&a, "margin"), Some(3));
    assert_eq!(u32_attr(&a, "name"), None);
}

#[test]
fn columns_derived_from_plain_image() {
    assert_eq!(Tileset::calculate_columns(&Some(image(264)), 32, 0, 0), Ok(8));
}

#[test]
fn columns_derived_with_margin_and_spacing() {
    assert_eq!(Tileset::calculate_columns(&Some(image(300)), 32, 4, 2), Ok(8));
}

#[test]
fn columns_need_an_image() {
    assert!(matches!(
        Tileset::calculate_columns(&None, 32, 0, 0),
        Err(Error::MalformedAttributes(_))
    ));
}

#[test]
fn columns_need_a_positive_step() {
    assert!(matches!(
        Tileset::calculate_columns(&Some(image(64)), 0, 0, 0),
        Err(Error::MalformedAttributes(_))
    ));
    assert!(matches!(
        Tileset::calculate_columns(&Some(image(4)), 32, 10, 2),
        Err(Error::MalformedAttributes(_))
    ));
}

#[test]
fn spritesheet_registry_is_dense() {
    let t = Tileset::finish_parsing_xml(props(6, None), vec![TilesetChild::Image(image(96))])
        .unwrap();
    assert_eq!(sorted_ids(&t), vec![0, 1, 2, 3, 4, 5]);
    assert_eq!(t.columns, 3);
    for id in 0..6 {
        assert_eq!(*t.get_tile(id).unwrap().data, TileData::default());
    }
    assert!(t.get_tile(6).is_none());
}

#[test]
fn spritesheet_keeps_declared_tiles() {
    let children = vec![
        TilesetChild::Tile(1, tagged("water")),
        TilesetChild::Image(image(96)),
        TilesetChild::Tile(9, tagged("far")),
    ];
    let t = Tileset::finish_parsing_xml(props(4, None), children).unwrap();
    assert_eq!(sorted_ids(&t), vec![0, 1, 2, 3, 9]);
    assert_eq!(*t.get_tile(1).unwrap().data, tagged("water"));
    assert_eq!(*t.get_tile(9).unwrap().data, tagged("far"));
    assert_eq!(*t.get_tile(0).unwrap().data, TileData::default());
}

#[test]
fn collection_registry_holds_declared_ids_only() {
    let children = vec![
        TilesetChild::Tile(3, tagged("a")),
        TilesetChild::Tile(40, tagged("b")),
    ];
    let t = Tileset::finish_parsing_xml(props(10, Some(2)), children).unwrap();
    assert_eq!(sorted_ids(&t), vec![3, 40]);
    assert_eq!(t.columns, 2);
    assert!(t.image.is_none());
    assert!(t.get_tile(0).is_none());
}

#[test]
fn later_tile_declaration_wins() {
    let children = vec![
        TilesetChild::Tile(2, tagged("first")),
        TilesetChild::Tile(2, tagged("second")),
    ];
    let t = Tileset::finish_parsing_xml(props(1, Some(1)), children).unwrap();
    assert_eq!(t.tiles().len(), 1);
    assert_eq!(*t.get_tile(2).unwrap().data, tagged("second"));
}

#[test]
fn collection_without_columns_fails() {
    let r = Tileset::finish_parsing_xml(props(2, None), vec![TilesetChild::Tile(0, tagged("a"))]);
    assert!(matches!(r, Err(Error::MalformedAttributes(_))));
}

#[test]
fn explicit_columns_win_over_image() {
    let t = Tileset::finish_parsing_xml(props(2, Some(5)), vec![TilesetChild::Image(image(64))])
        .unwrap();
    assert_eq!(t.columns, 5);
}

#[test]
fn defaults_and_properties_carried_over() {
    let p = Property { name: "solid".to_string(), value: PropertyValue::BoolValue(true) };
    let children = vec![
        TilesetChild::Properties(vec![p.clone()]),
        TilesetChild::Image(image(64)),
    ];
    let t = Tileset::finish_parsing_xml(props(2, None), children).unwrap();
    assert_eq!(t.name, "tiles");
    assert_eq!((t.spacing, t.margin, t.tilecount), (0, 0, 2));
    assert_eq!(t.properties, vec![p]);
    assert_eq!(t.image, Some(image(64)));
}

#[test]
fn tile_inherits_spritesheet_image() {
    let own = Image { source: "own.png".to_string(), width: 8, height: 8 };
    let children = vec![
        TilesetChild::Image(image(64)),
        TilesetChild::Tile(1, TileData { image: Some(own.clone()), properties: Vec::new(), user_type: None }),
    ];
    let t = Tileset::finish_parsing_xml(props(2, None), children).unwrap();
    assert_eq!(t.get_tile(0).unwrap().image(), Some(&image(64)));
    assert_eq!(t.get_tile(1).unwrap().image(), Some(&own));
}

#[test]
fn get_tile_agrees_with_enumeration() {
    let children = vec![
        TilesetChild::Image(image(64)),
        TilesetChild::Tile(7, tagged("x")),
    ];
    let t = Tileset::finish_parsing_xml(props(3, None), children).unwrap();
    let all = t.tiles();
    assert_eq!(all.len(), 4);
    let present = (0..20).filter(|id| t.get_tile(*id).is_some()).count();
    assert_eq!(present, all.len());
    for (id, tile) in all {
        assert_eq!(t.get_tile(id).unwrap().data, tile.data);
    }
    assert!(t.get_tile(5).is_none());
}

#[test]
fn reference_inside_map() {
    let a = attrs(&[("firstgid", "5"), ("source", "shared.tsx")]);
    let r = Tileset::parse_xml_in_map(&a, "maps/level.tmx", Vec::new()).unwrap();
    assert_eq!(r.first_gid, Gid(5));
    match r.result_type {
        EmbeddedParseResultType::ExternalReference { tileset_path } => {
            assert_eq!(tileset_path, "maps/shared.tsx")
        }
        _ => panic!("expected a reference"),
    }
}

#[test]
fn embedded_inside_map() {
    let a = attrs(&[("firstgid", "1"), ("tilecount", "10"), ("tilewidth", "16"), ("tileheight", "16")]);
    let r = Tileset::parse_xml_in_map(&a, "maps/level.tmx", vec![TilesetChild::Image(image(160))])
        .unwrap();
    assert_eq!(r.first_gid, Gid(1));
    match r.result_type {
        EmbeddedParseResultType::Embedded { tileset } => {
            assert_eq!(tileset.tiles().len(), 10);
            assert_eq!(tileset.columns, 10);
            assert_eq!(tileset.tile_width, 16);
            assert_eq!(tileset.name, "");
        }
        _ => panic!("expected an embedded tileset"),
    }
}

#[test]
fn embedded_collection_without_columns_fails() {
    let a = attrs(&[("firstgid", "1"), ("tilecount", "2"), ("tilewidth", "16"), ("tileheight", "16")]);
    let r = Tileset::parse_xml_in_map(&a, "maps/level.tmx", vec![TilesetChild::Tile(0, tagged("a"))]);
    assert!(matches!(r, Err(Error::MalformedAttributes(_))));
}

#[test]
fn reference_needs_source() {
    let a = attrs(&[("firstgid", "5")]);
    assert!(matches!(
        Tileset::parse_xml_in_map(&a, "maps/level.tmx", Vec::new()),
        Err(Error::MalformedAttributes(_))
    ));
    let bad = attrs(&[("firstgid", "x"), ("source", "a.tsx")]);
    assert!(matches!(
        Tileset::parse_xml_reference(&bad, "maps/level.tmx"),
        Err(Error::MalformedAttributes(_))
    ));
}

#[test]
fn path_without_parent_is_refused() {
    let a = attrs(&[("firstgid", "5"), ("source", "shared.tsx")]);
    assert_eq!(Tileset::parse_xml_in_map(&a, "/", Vec::new()).err(), Some(Error::PathIsNotFile));
    let e = attrs(&[("firstgid", "1"), ("tilecount", "1"), ("tilewidth", "8"), ("tileheight", "8")]);
    assert_eq!(
        Tileset::parse_xml_embedded(&e, "", vec![TilesetChild::Image(image(8))]).err(),
        Some(Error::PathIsNotFile)
    );
}

#[test]
fn embedded_needs_its_attributes() {
    let a = attrs(&[("firstgid", "1"), ("tilecount", "1"), ("tilewidth", "8")]);
    assert!(matches!(
        Tileset::parse_xml_embedded(&a, "maps/level.tmx", Vec::new()),
        Err(Error::MalformedAttributes(_))
    ));
}

#[test]
fn external_tileset_document() {
    let a = attrs(&[
        ("name", "terrain"),
        ("tilecount", "4"),
        ("tilewidth", "32"),
        ("tileheight", "32"),
        ("spacing", "2"),
        ("margin", "oops"),
    ]);
    let t = Tileset::parse_external_tileset(&a, "sets/terrain.tsx", vec![TilesetChild::Image(image(134))])
        .unwrap();
    assert_eq!(t.name, "terrain");
    assert_eq!((t.spacing, t.margin), (2, 0));
    assert_eq!(t.columns, 4);
    assert_eq!(sorted_ids(&t), vec![0, 1, 2, 3]);
    let missing = attrs(&[("tilecount", "4"), ("tilewidth", "32")]);
    assert!(matches!(
        Tileset::parse_external_tileset(&missing, "sets/terrain.tsx", Vec::new()),
        Err(Error::MalformedAttributes(_))
    ));
}

#[test]
fn spritesheet_with_no_tiles() {
    let t = Tileset::finish_parsing_xml(props(0, None), vec![TilesetChild::Image(image(64))])
        .unwrap();
    assert_eq!(t.tiles().len(), 0);
    assert!(t.get_tile(0).is_none());
}

#[test]
fn no_attributes_at_all() {
    assert!(matches!(
        Tileset::parse_xml_in_map(&Vec::new(), "maps/level.tmx", Vec::new()),
        Err(Error::MalformedAttributes(_))
    ));
}

#[test]
fn definition_wins_over_source() {
    let a = attrs(&[
        ("firstgid", "3"),
        ("source", "shared.tsx"),
        ("tilecount", "2"),
        ("tilewidth", "16"),
        ("tileheight", "16"),
    ]);
    let r = Tileset::parse_xml_in_map(&a, "level.tmx", vec![TilesetChild::Image(image(32))]).unwrap();
    assert_eq!(r.first_gid, Gid(3));
    assert!(matches!(r.result_type, EmbeddedParseResultType::Embedded { .. }));
}

#[test]
fn reference_next_to_map_without_directory() {
    let a = attrs(&[("firstgid", "2"), ("source", "shared.tsx")]);
    let r = Tileset::parse_xml_reference(&a, "level.tmx").unwrap();
    match r.result_type {
        EmbeddedParseResultType::ExternalReference { tileset_path } => {
            assert_eq!(tileset_path, "shared.tsx")
        }
        _ => panic!("expected a reference"),
    }
}
