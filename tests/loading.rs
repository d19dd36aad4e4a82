use std::collections::HashMap;

use tiled_level::error::LoadError;
use tiled_level::json::{Json, Num};
use tiled_level::layer::Layer;
use tiled_level::level::{Level, RenderOrder};
use tiled_level::tileset::{decode_tileset, TileProperties, TileTerrain, Tileset, TilesetSource};
use tiled_level::{GlobalTile, LocalTile};

fn assert_err<T>(r: Result<T, LoadError>, expected: LoadError) {
    match r {
        Ok(_) => panic!("expected {:?}", expected),
        Err(e) => assert_eq!(format!("{:?}", e), format!("{:?}", expected)),
    }
}

fn in_file(path: &str, cause: LoadError) -> LoadError {
    LoadError::InFile(path.to_string(), Box::new(cause))
}

fn json(text: &str) -> Json {
    Json::parse(text).expect("test input is JSON")
}

fn set(firstgid: u32, tilecount: u32) -> Tileset {
    Tileset {
        name: format!("set{}", firstgid),
        firstgid: GlobalTile(firstgid),
        tilecount,
        tileheight: 16,
        tilewidth: 16,
        columns: 4,
        image: "a.png".to_string(),
        imageheight: 64,
        imagewidth: 64,
        margin: 0,
        spacing: 0,
        properties: None,
        terrains: Vec::new(),
        tileproperties: TileProperties { tiles: HashMap::new() },
        tiles: TileTerrain { tiles: HashMap::new() },
    }
}

const EXTERNAL_TILESET: &str = r#"{
    "name": "goodly", "tilecount": 4, "tileheight": 32, "tilewidth": 32,
    "columns": 2, "image": "atlas.png", "imageheight": 64, "imagewidth": 64,
    "margin": 0, "spacing": 0,
    "properties": {"kind": "ground"},
    "terrains": [{"name": "grass", "tile": 0}, {"name": "water", "tile": 3}],
    "tileproperties": {"1": {"solid": "true"}},
    "tiles": {"0": {"terrain": [0, 0, 0, 1]}, "3": {"terrain": [1, 1, 1, 1]}}
}"#;

const LEVEL: &str = r#"{
    "height": 2, "width": 2, "orientation": "orthogonal", "renderorder": "right-down",
    "tileheight": 32, "tilewidth": 32, "properties": {"music": "theme.ogg"},
    "layers": [
        {"type": "tilelayer", "name": "ground", "opacity": 1, "visible": true,
         "width": 2, "height": 2, "x": 0, "y": 0, "data": [1, 2, 0, 5]},
        {"type": "objectgroup", "name": "things", "opacity": 0.5, "visible": true,
         "width": 2, "height": 2, "x": 0, "y": 0, "draworder": "topdown",
         "objects": [
            {"id": 1, "name": "door", "type": "exit", "gid": 5, "rotation": 0,
             "visible": true, "height": 32, "width": 32, "x": 32, "y": -16},
            {"id": 2, "name": "pond", "type": "", "polygon": [{"x": 0, "y": 0}, {"x": 8.5, "y": 4}],
             "rotation": 0, "visible": true, "height": 0, "width": 0, "x": 1, "y": 2},
            {"id": 3, "name": "rock", "type": "", "ellipse": true, "rotation": 45,
             "visible": false, "height": 4, "width": 4, "x": 1, "y": 2}
         ]}
    ],
    "tilesets": [
        {"firstgid": 1, "name": "inline", "tilecount": 4, "tileheight": 32, "tilewidth": 32,
         "columns": 2, "image": "inline.png", "imageheight": 64, "imagewidth": 64,
         "margin": 0, "spacing": 0, "terrains": [], "tileproperties": {}, "tiles": {}},
        {"source": "goodly-2x.json", "firstgid": 5}
    ]
}"#;

#[test]
fn load_level() {
    let pending = Level::load(LEVEL, "test-assets/levels/simple2.json").unwrap();
    assert_eq!(pending.level.layers.len(), 2);
    assert_eq!(pending.sources.len(), 2);
    let mut tilesets = Vec::new();
    for source in pending.sources.into_iter() {
        match source {
            TilesetSource::Inline(t) => tilesets.push(t),
            TilesetSource::External { path, firstgid } => {
                assert_eq!(path, "test-assets/levels/goodly-2x.json");
                tilesets.push(Tileset::load_external(EXTERNAL_TILESET, &path, firstgid).unwrap());
            }
        }
    }
    let level = pending.level;
    let level = tiled_level::level::PendingLevel { level, sources: Vec::new() }.finish(tilesets);
    assert_eq!(level.tilesets.len(), 2);
    assert_eq!(level.tilesets[0].image, "test-assets/levels/inline.png");
    assert_eq!(level.tilesets[1].firstgid, GlobalTile(5));
    assert_eq!(GlobalTile(6).find_local(&level.tilesets), Some((1, LocalTile(1))));
}

#[test]
fn deserialize_external() {
    let t = Tileset::load_external(EXTERNAL_TILESET, "tilesets/goodly-2x.json", GlobalTile(1)).unwrap();
    assert_eq!(t.name, "goodly");
    assert_eq!(t.terrains.len(), 2);
    assert_eq!(t.terrains[1].name, "water");
    assert_eq!(t.terrains[1].tile, LocalTile(3));
    assert_eq!(t.properties, Some(vec![("kind".to_string(), "ground".to_string())]));
}

#[test]
fn resolve_picks_owning_tileset() {
    let sets = vec![set(1, 10), set(11, 5)];
    assert_eq!(GlobalTile(1).find_local(&sets), Some((0, LocalTile(0))));
    assert_eq!(GlobalTile(3).find_local(&sets), Some((0, LocalTile(2))));
    assert_eq!(GlobalTile(12).find_local(&sets), Some((1, LocalTile(1))));
    assert_eq!(GlobalTile(15).find_local(&sets), Some((1, LocalTile(4))));
}

#[test]
fn resolve_outside_every_range_is_none() {
    let sets = vec![set(1, 10), set(11, 5)];
    assert_eq!(GlobalTile(0).find_local(&sets), None);
    assert_eq!(GlobalTile(16).find_local(&sets), None);
    assert_eq!(GlobalTile(u32::MAX).find_local(&sets), None);
    assert_eq!(GlobalTile(3).find_local(&[]), None);
}

#[test]
fn resolve_takes_first_match_on_overlap() {
    let sets = vec![set(1, 10), set(5, 10)];
    assert_eq!(GlobalTile(7).find_local(&sets), Some((0, LocalTile(6))));
}

#[test]
fn contains_tile_bounds() {
    let t = set(u32::MAX, 1);
    assert!(t.contains_tile(GlobalTile(u32::MAX)));
    assert!(!t.contains_tile(GlobalTile(u32::MAX - 1)));
    let empty = set(4, 0);
    assert!(!empty.contains_tile(GlobalTile(4)));
}

#[test]
fn tilelayer_gives_tiles() {
    let j = json(r#"{"type": "tilelayer", "name": "g", "opacity": 0.75, "visible": true,
        "width": 2, "height": 1, "x": -3, "y": 0, "data": [0, 7]}"#);
    match Layer::decode(&j).unwrap() {
        Layer::Tiles(t) => {
            assert_eq!(t.data, vec![GlobalTile(0), GlobalTile(7)]);
            assert_eq!(t.opacity, Num::Real("0.75".to_string()));
            assert_eq!(t.x, Num::Negative(-3));
            assert_eq!(t.y, Num::Unsigned(0));
            assert_eq!(t.properties, None);
        }
        Layer::Objects(_) => panic!("expected a tile layer"),
    }
}

#[test]
fn objectgroup_gives_objects() {
    let j = json(r#"{"type": "objectgroup", "name": "o", "opacity": 1, "visible": false,
        "width": 2, "height": 1, "x": 0, "y": 0, "draworder": "index",
        "properties": {"a": "b"}, "objects": []}"#);
    let layer = Layer::decode(&j).unwrap();
    assert_eq!(layer.name(), "o");
    match layer {
        Layer::Objects(o) => {
            assert_eq!(o.draworder, "index");
            assert!(o.objects.is_empty());
            assert_eq!(o.properties, Some(vec![("a".to_string(), "b".to_string())]));
        }
        Layer::Tiles(_) => panic!("expected an object group"),
    }
}

#[test]
fn unknown_layer_type_fails() {
    let j = json(r#"{"type": "imagelayer", "name": "i"}"#);
    assert_err(Layer::decode(&j), LoadError::UnknownVariant("imagelayer".to_string()));
}

#[test]
fn missing_layer_type_fails() {
    let j = json(r#"{"name": "i"}"#);
    assert_err(Layer::decode(&j), LoadError::MissingDiscriminator);
    let j = json(r#"{"type": 3}"#);
    assert_err(Layer::decode(&j), LoadError::MissingDiscriminator);
    let j = json(r#"[1]"#);
    assert_err(Layer::decode(&j), LoadError::Malformed("layer".to_string()));
}

#[test]
fn layer_field_error_names_kind() {
    let j = json(r#"{"type": "tilelayer", "name": "g", "opacity": 1, "visible": true,
        "width": 2, "height": 1, "x": 0, "y": 0, "data": [0, -1]}"#);
    assert_err(Layer::decode(&j), LoadError::LayerField("tilelayer".to_string(), "data".to_string())
    );
}

#[test]
fn objects_keep_optional_geometry() {
    let pending = Level::load(LEVEL, "map.json").unwrap();
    match &pending.level.layers[1] {
        Layer::Objects(o) => {
            assert_eq!(o.objects.len(), 3);
            assert_eq!(o.objects[0].gid, Some(GlobalTile(5)));
            assert_eq!(o.objects[0]._type, "exit");
            assert_eq!(o.objects[0].y, Num::Negative(-16));
            assert!(o.objects[0].polygon.is_none());
            let poly = o.objects[1].polygon.as_ref().unwrap();
            assert_eq!(poly.len(), 2);
            assert_eq!(poly[1].x, Num::Real("8.5".to_string()));
            assert_eq!(o.objects[2].ellipse, Some(true));
            assert_eq!(o.objects[2].gid, None);
        }
        Layer::Tiles(_) => panic!("expected an object group"),
    }
}

#[test]
fn sparse_map_with_word_key_fails() {
    let j = json(r#"{"0": {"a": "b"}, "abc": {"c": "d"}}"#);
    assert_err(TileProperties::decode(&j), LoadError::InvalidKey("abc".to_string()));
    let j = json(r#"{"abc": {"terrain": [0, 0, 0, 0]}}"#);
    assert_err(TileTerrain::decode(&j), LoadError::InvalidKey("abc".to_string()));
    let j = json(r#"{"-1": {"terrain": [0, 0, 0, 0]}}"#);
    assert_err(TileTerrain::decode(&j), LoadError::InvalidKey("-1".to_string()));
}

#[test]
fn sparse_map_with_numeric_keys() {
    let j = json(r#"{"0": {"a": "b"}, "17": {"c": "d", "e": "f"}}"#);
    let p = TileProperties::decode(&j).unwrap();
    assert_eq!(p.tiles.len(), 2);
    assert_eq!(p.tiles[&0], vec![("a".to_string(), "b".to_string())]);
    assert_eq!(p.tiles[&17].len(), 2);
    let j = json(r#"{"4": {"terrain": [0, 1, 2, 3]}, "+9": {"terrain": [3, 3, 3, 3]}}"#);
    let t = TileTerrain::decode(&j).unwrap();
    assert_eq!(t.tiles.len(), 2);
    assert_eq!(t.tiles[&4], [0, 1, 2, 3]);
    assert_eq!(t.tiles[&9], [3, 3, 3, 3]);
}

#[test]
fn sparse_map_bad_values_fail() {
    let j = json(r#"{"4": {"terrain": [0, 1, 2]}}"#);
    assert_err(TileTerrain::decode(&j), LoadError::Malformed("tiles".to_string()));
    let j = json(r#"{"4": {"a": 1}}"#);
    assert_err(TileProperties::decode(&j), LoadError::Malformed("tileproperties".to_string()));
    let j = json(r#"{"99999999999": {"a": "b"}}"#);
    assert_err(TileProperties::decode(&j), LoadError::InvalidKey("99999999999".to_string()));
}

#[test]
fn external_reference_reads_sibling_file() {
    let j = json(r#"{"source": "tiles.json", "firstgid": 5}"#);
    match Tileset::load(&j, "levels/map.json").unwrap() {
        TilesetSource::External { path, firstgid } => {
            assert_eq!(path, "levels/tiles.json");
            assert_eq!(firstgid, GlobalTile(5));
            let t = Tileset::load_external(EXTERNAL_TILESET, &path, firstgid).unwrap();
            assert_eq!(t.firstgid, GlobalTile(5));
        }
        TilesetSource::Inline(_) => panic!("expected an external reference"),
    }
}

#[test]
fn external_firstgid_comes_from_level() {
    let text = EXTERNAL_TILESET.replacen("\"name\"", "\"firstgid\": 99, \"name\"", 1);
    let t = Tileset::load_external(&text, "levels/tiles.json", GlobalTile(5)).unwrap();
    assert_eq!(t.firstgid, GlobalTile(5));
}

#[test]
fn external_image_is_relative_to_tileset_file() {
    let t = Tileset::load_external(EXTERNAL_TILESET, "levels/tiles.json", GlobalTile(5)).unwrap();
    assert_eq!(t.image, "levels/atlas.png");
    assert_eq!(t.tileproperties.tiles[&1], vec![("solid".to_string(), "true".to_string())]);
    assert_eq!(t.tiles.tiles[&0], [0, 0, 0, 1]);
}

#[test]
fn external_reference_without_firstgid_fails() {
    let j = json(r#"{"source": "tiles.json"}"#);
    assert_err(Tileset::load(&j, "levels/map.json"), LoadError::MissingField("firstgid".to_string())
    );
}

#[test]
fn inline_tileset_image_is_relative_to_level() {
    let j = json(r#"{"firstgid": 3, "name": "in", "tilecount": 4, "tileheight": 8, "tilewidth": 8,
        "columns": 2, "image": "img/in.png", "imageheight": 16, "imagewidth": 16,
        "margin": 1, "spacing": 2, "terrains": [], "tileproperties": {}, "tiles": {}}"#);
    match Tileset::load(&j, "maps/one/map.json").unwrap() {
        TilesetSource::Inline(t) => {
            assert_eq!(t.image, "maps/one/img/in.png");
            assert_eq!(t.firstgid, GlobalTile(3));
            assert_eq!(t.margin, 1);
            assert_eq!(t.spacing, 2);
        }
        TilesetSource::External { .. } => panic!("expected an inline tileset"),
    }
}

#[test]
fn inline_tileset_missing_field_fails() {
    let j = json(r#"{"firstgid": 3, "name": "in"}"#);
    assert_err(Tileset::load(&j, "map.json"), LoadError::Malformed("tilecount".to_string()));
    let j = json(r#""in""#);
    assert_err(Tileset::load(&j, "map.json"), LoadError::Malformed("tileset".to_string()));
}

#[test]
fn external_tileset_not_json_fails() {
    assert_err(Tileset::load_external("{", "t.json", GlobalTile(1)), in_file("t.json", LoadError::Syntax));
}

#[test]
fn minimal_level_loads_empty() {
    let text = r#"{"height": 10, "width": 20, "orientation": "orthogonal", "renderorder": "left-up",
        "tileheight": 16, "tilewidth": 8, "layers": [], "tilesets": []}"#;
    let pending = Level::load(text, "levels/map.json").unwrap();
    assert!(pending.sources.is_empty());
    let level = pending.finish(Vec::new());
    assert!(level.layers.is_empty());
    assert!(level.tilesets.is_empty());
    assert!(level.properties.is_empty());
    assert_eq!(level.height, 10);
    assert_eq!(level.width, 20);
    assert_eq!(level.tileheight, 16);
    assert_eq!(level.tilewidth, 8);
    assert_eq!(level.renderorder, RenderOrder::LeftUp);
}

#[test]
fn unknown_renderorder_fails() {
    let text = r#"{"height": 10, "width": 20, "orientation": "orthogonal", "renderorder": "diagonal",
        "tileheight": 16, "tilewidth": 8, "layers": [], "tilesets": []}"#;
    assert_err(Level::load(text, "map.json"), in_file("map.json", LoadError::Malformed("renderorder".to_string())));
}

#[test]
fn render_orders_parse() {
    assert_eq!(RenderOrder::parse(&"right-down".to_string()), Some(RenderOrder::RightDown));
    assert_eq!(RenderOrder::parse(&"right-up".to_string()), Some(RenderOrder::RightUp));
    assert_eq!(RenderOrder::parse(&"left-down".to_string()), Some(RenderOrder::LeftDown));
    assert_eq!(RenderOrder::parse(&"left-up".to_string()), Some(RenderOrder::LeftUp));
    assert_eq!(RenderOrder::parse(&"Right-Down".to_string()), None);
}

#[test]
fn level_properties_and_syntax() {
    let pending = Level::load(LEVEL, "map.json").unwrap();
    assert_eq!(pending.level.properties, vec![("music".to_string(), "theme.ogg".to_string())]);
    assert_eq!(pending.level.orientation, "orthogonal");
    assert_err(Level::load("not json", "map.json"), in_file("map.json", LoadError::Syntax));
    assert_err(Level::load("[]", "map.json"), in_file("map.json", LoadError::Malformed("level".to_string())));
}

#[test]
fn external_tileset_errors_name_the_file() {
    let text = EXTERNAL_TILESET.replacen("\"tilecount\": 4", "\"tilecount\": \"four\"", 1);
    assert_err(
        Tileset::load_external(&text, "levels/tiles.json", GlobalTile(5)),
        in_file("levels/tiles.json", LoadError::Malformed("tilecount".to_string())),
    );
    assert_err(
        Tileset::load_external("[1, 2]", "levels/tiles.json", GlobalTile(5)),
        in_file("levels/tiles.json", LoadError::Malformed("tileset".to_string())),
    );
}

#[test]
fn failing_tileset_entry_has_its_position() {
    let text = r#"{"height": 1, "width": 1, "orientation": "orthogonal", "renderorder": "right-up",
        "tileheight": 8, "tilewidth": 8, "layers": [],
        "tilesets": [{"source": "a.json", "firstgid": 1}, {"source": "b.json"}]}"#;
    assert_err(
        Level::load(text, "levels/map.json"),
        in_file(
            "levels/map.json",
            LoadError::InTileset(1, Box::new(LoadError::MissingField("firstgid".to_string()))),
        ),
    );
}

#[test]
fn layer_errors_name_the_field() {
    let j = json(r#"{"type": "objectgroup", "name": "o", "opacity": 1, "visible": "yes",
        "width": 2, "height": 1, "x": 0, "y": 0, "draworder": "index", "objects": []}"#);
    assert_err(Layer::decode(&j), LoadError::LayerField("objectgroup".to_string(), "visible".to_string()));
    let j = json(r#"{"type": "objectgroup", "name": "o", "opacity": 1, "visible": true,
        "width": 2, "height": 1, "x": 0, "y": 0, "objects": []}"#);
    assert_err(Layer::decode(&j), LoadError::LayerField("objectgroup".to_string(), "draworder".to_string()));
    let j = json(r#"{"type": "tilelayer", "name": "g", "visible": true,
        "width": 2, "height": 1, "x": 0, "y": 0, "data": []}"#);
    assert_err(Layer::decode(&j), LoadError::LayerField("tilelayer".to_string(), "opacity".to_string()));
}

#[test]
fn level_decode_from_members() {
    let j = json(r#"{"height": 3, "width": 4, "orientation": "isometric", "renderorder": "left-down",
        "tileheight": 8, "tilewidth": 8, "layers": [], "tilesets": [{"source": "t.json", "firstgid": 2}]}"#);
    match &j {
        Json::Object(m) => {
            let pending = Level::decode(m, "a/b/map.json").unwrap();
            assert_eq!(pending.level.renderorder, RenderOrder::LeftDown);
            assert_eq!(pending.level.orientation, "isometric");
            match &pending.sources[0] {
                TilesetSource::External { path, firstgid } => {
                    assert_eq!(path, "a/b/t.json");
                    assert_eq!(*firstgid, GlobalTile(2));
                }
                TilesetSource::Inline(_) => panic!("expected an external reference"),
            }
        }
        _ => panic!("expected an object"),
    }
}

#[test]
fn decode_tileset_from_members() {
    let j = json(EXTERNAL_TILESET);
    match &j {
        Json::Object(m) => {
            let t = decode_tileset(m, "sets", GlobalTile(9)).unwrap();
            assert_eq!(t.firstgid, GlobalTile(9));
            assert_eq!(t.image, "sets/atlas.png");
            assert_eq!(t.tilecount, 4);
            assert_eq!(t.tileproperties.get(LocalTile(1)).unwrap().len(), 1);
            assert!(t.tileproperties.get(LocalTile(0)).is_none());
            assert_eq!(t.tiles.get(LocalTile(3)), Some(&[1, 1, 1, 1]));
            assert!(t.tiles.get(LocalTile(2)).is_none());
        }
        _ => panic!("expected an object"),
    }
}
