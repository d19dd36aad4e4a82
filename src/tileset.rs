use vstd::prelude::*;
use std::collections::HashMap;
use crate::{GlobalTile, LocalTile};
use crate::error::{LoadError, malformed, malformed_at, in_file_error};
use crate::json::{
    Json, Properties, field, u32_of, u32_at, str_at, get_field, read_u32, read_string,
    read_opt_bag, opt_bag_fits, opt_bag_of, bag_fits, bag_of, decode_bag, parse_json, json_text,
    u32_value,
};

verus! {

broadcast use vstd::std_specs::hash::group_hash_axioms;

/// A tileset: everything needed to draw its tiles and to look up their
/// per-tile data.
#[derive(Debug)]
pub struct Tileset {
    /// Name given by the tileset's creator.
    pub name: String,
    /// Global id of the first tile of this set; it comes from the level
    /// that refers to the set.
    pub firstgid: GlobalTile,
    /// Number of tiles in the set.
    pub tilecount: u32,
    /// Height in pixels of each tile.
    pub tileheight: u32,
    /// Width in pixels of each tile.
    pub tilewidth: u32,
    /// Number of tiles per row of the image.
    pub columns: u32,
    /// Path of the image, relative to the file that named it.
    pub image: String,
    /// Height in pixels of the image.
    pub imageheight: u32,
    /// Width in pixels of the image.
    pub imagewidth: u32,
    /// Margin in pixels between the image's edges and the first tile.
    pub margin: u32,
    /// Pixels between neighbouring tiles.
    pub spacing: u32,
    /// Properties of the whole set.
    pub properties: Option<Properties>,
    /// The terrain kinds of the set; the corner arrays of `tiles` index it.
    pub terrains: Vec<Terrain>,
    /// Properties of single tiles.
    pub tileproperties: TileProperties,
    /// Terrain kinds at the four corners of single tiles.
    pub tiles: TileTerrain,
}

/// A terrain kind: its name and the tile that shows it.
#[derive(Debug)]
pub struct Terrain {
    pub name: String,
    pub tile: LocalTile,
}

/// Properties of single tiles, keyed by the local tile id.
#[derive(Debug)]
pub struct TileProperties {
    pub tiles: HashMap<u32, Properties>,
}

/// Terrain corners of single tiles, keyed by the local tile id: indices
/// into the tileset's terrain list.
#[derive(Debug)]
pub struct TileTerrain {
    pub tiles: HashMap<u32, [u32; 4]>,
}

/// What one tileset entry of a level asks for: a tileset given in full in
/// the level, or one to be read from another file.
#[derive(Debug)]
pub enum TilesetSource {
    Inline(Tileset),
    /// The file at `path` holds the tileset, whose tiles start at `firstgid`.
    External { path: String, firstgid: GlobalTile },
}


/// The value of a decimal numeral as `u32::from_str` reads it: an optional
/// `+`, then one or more ASCII digits, with a value that fits in a `u32`.
pub open spec fn decimal_u32(s: Seq<char>) -> Option<u32> {
    let d = if s.len() > 0 && s[0] == '+' {
        s.drop_first()
    } else {
        s
    };
    if d.len() > 0 && (forall|i: int| 0 <= i < d.len() ==> '0' <= #[trigger] d[i] <= '9')
        && digits_value(d) <= u32::MAX {
        Some(digits_value(d) as u32)
    } else {
        None
    }
}

/// The value of a string of decimal digits.
pub open spec fn digits_value(d: Seq<char>) -> nat
    decreases d.len(),
{
    if d.len() == 0 {
        0
    } else {
        digits_value(d.drop_last()) * 10 + ((d.last() as u32 - '0' as u32) as nat)
    }
}

/// Relies on `str::parse::<u32>` (`u32::from_str`): an optional `+`, then
/// ASCII digits whose value fits in a `u32`; anything else is an error.
#[verifier::external_body]
fn parse_decimal(s: &str) -> (r: Option<u32>)
    ensures
        r == decimal_u32(s@),
{
    s.parse::<u32>().ok()
}

/// The directory part of a path, as `PathBuf::pop` leaves it.
pub uninterp spec fn parent_path(p: Seq<char>) -> Seq<char>;

/// Relies on `std::path::PathBuf::pop`: truncates the path to its parent.
#[verifier::external_body]
fn path_parent(p: &str) -> (r: String)
    ensures
        r@ == parent_path(p@),
{
    let mut b = std::path::PathBuf::from(p);
    b.pop();
    b.to_string_lossy().into_owned()
}

/// `rel` appended to the path `dir`, as `PathBuf::push` does it.
pub uninterp spec fn joined_path(dir: Seq<char>, rel: Seq<char>) -> Seq<char>;

/// Relies on `std::path::PathBuf::push`: appends `rel` to `dir`.
#[verifier::external_body]
fn path_push(dir: &str, rel: &str) -> (r: String)
    ensures
        r@ == joined_path(dir@, rel@),
{
    let mut b = std::path::PathBuf::from(dir);
    b.push(rel);
    b.to_string_lossy().into_owned()
}

/// Every key of the members `m` is a decimal local tile id.
pub open spec fn keys_numeric(m: Seq<(String, Json)>) -> bool {
    forall|i: int| 0 <= i < m.len() ==> (#[trigger] decimal_u32(m[i].0@)) is Some
}

/// The ids that the keys of `m` name map to the values `t` holds, and `t`
/// holds no other id; `val(j, v)` tells whether `v` was read from `j`.
pub open spec fn sparse_map_of<V>(
    m: Seq<(String, Json)>,
    t: Map<u32, V>,
    val: spec_fn(Json, V) -> bool,
) -> bool {
    &&& forall|id: u32| #[trigger]
        t.contains_key(id) <==> exists|i: int| 0 <= i < m.len() && decimal_u32(m[i].0@) == Some(id)
    &&& forall|id: u32| #[trigger]
        t.contains_key(id) ==> exists|i: int|
            0 <= i < m.len() && decimal_u32(m[i].0@) == Some(id) && val(m[i].1, t[id])
}

/// Entering one more member into a sparse map keeps it the map of the
/// members read so far.
proof fn lemma_sparse_map_step<V>(
    m: Seq<(String, Json)>,
    t: Map<u32, V>,
    val: spec_fn(Json, V) -> bool,
    id: u32,
    v: V,
)
    requires
        m.len() > 0,
        sparse_map_of(m.drop_last(), t, val),
        decimal_u32(m.last().0@) == Some(id),
        val(m.last().1, v),
    ensures
        sparse_map_of(m, t.insert(id, v), val),
{
    let p = m.drop_last();
    let n = t.insert(id, v);
    let last = m.len() - 1;
    assert forall|x: u32| #[trigger] n.contains_key(x) implies exists|i: int|
        0 <= i < m.len() && decimal_u32(m[i].0@) == Some(x) && val(m[i].1, n[x]) by {
        if x == id {
            assert(0 <= last < m.len() && decimal_u32(m[last].0@) == Some(x) && val(m[last].1, n[x]));
        } else {
            assert(t.contains_key(x));
            let k = choose|k: int| 0 <= k < p.len() && decimal_u32(p[k].0@) == Some(x) && val(p[k].1, t[x]);
            assert(p[k] == m[k]);
            assert(0 <= k < m.len() && decimal_u32(m[k].0@) == Some(x) && val(m[k].1, n[x]));
        }
    }
    assert forall|x: u32| (exists|i: int|
        0 <= i < m.len() && decimal_u32(m[i].0@) == Some(x)) implies #[trigger] n.contains_key(x) by {
        let k = choose|k: int| 0 <= k < m.len() && decimal_u32(m[k].0@) == Some(x);
        if k < last {
            assert(p[k] == m[k]);
            assert(t.contains_key(x));
        }
    }
    assert forall|x: u32| #[trigger] n.contains_key(x) ==> exists|i: int|
        0 <= i < m.len() && decimal_u32(m[i].0@) == Some(x) by {
        if n.contains_key(x) {
            if x != id {
                assert(t.contains_key(x));
                let k = choose|k: int| 0 <= k < p.len() && decimal_u32(p[k].0@) == Some(x);
                assert(p[k] == m[k]);
            } else {
                assert(decimal_u32(m[last].0@) == Some(x));
            }
        }
    }
}

/// `j` is an object of property bags whose keys are all decimal.
pub open spec fn tile_props_fit(j: Json) -> bool {
    match j {
        Json::Object(m) => keys_numeric(m@) && forall|i: int|
            0 <= i < m@.len() ==> bag_fits((#[trigger] m@[i]).1),
        _ => false,
    }
}

pub open spec fn props_value(j: Json, b: Properties) -> bool {
    bag_of(j, b@)
}

/// `j` is an object of property bags, and some of its keys is not decimal.
pub open spec fn tile_props_bad_key(j: Json) -> bool {
    match j {
        Json::Object(m) => !keys_numeric(m@) && forall|i: int|
            0 <= i < m@.len() ==> bag_fits((#[trigger] m@[i]).1),
        _ => false,
    }
}

/// `e` reports a key of the members `m` that is not decimal.
pub open spec fn invalid_key_of(e: LoadError, m: Seq<(String, Json)>) -> bool {
    e matches LoadError::InvalidKey(k) && exists|i: int|
        0 <= i < m.len() && (#[trigger] m[i]).0 == k && decimal_u32(k@) is None
}

impl Tileset {
    /// Whether `id` lies in `[firstgid, firstgid + tilecount)`.
    pub fn contains_tile(&self, id: GlobalTile) -> (r: bool)
        ensures
            r == crate::tile_in_set(id.0, *self),
    {
        if id.0 < self.firstgid.0 {
            return false;
        }
        let local = id.0 - self.firstgid.0;
        local < self.tilecount
    }
}

impl TileProperties {
    /// The properties of the tile `tile`, if it has any.
    pub fn get(&self, tile: LocalTile) -> (r: Option<&Properties>)
        ensures
            r matches Some(v) ==> self.tiles@.contains_key(tile.0) && self.tiles@[tile.0] == *v,
            r is None ==> !self.tiles@.contains_key(tile.0),
    {
        self.tiles.get(&tile.0)
    }

    /// Reads the per-tile property bags out of an object keyed by decimal
    /// local tile ids.
    pub fn decode(j: &Json) -> (r: Result<TileProperties, LoadError>)
        ensures
            r is Ok <==> tile_props_fit(*j),
            r matches Ok(p) ==> (j matches Json::Object(m) && sparse_map_of(m@, p.tiles@, |x: Json, v: Properties| props_value(x, v))),
            tile_props_bad_key(*j) ==> (r matches Err(e) && j matches Json::Object(m) && invalid_key_of(e, m@)),
    {
        match j {
            Json::Object(m) => {
                let mut tiles: HashMap<u32, Properties> = HashMap::new();
                let mut i: usize = 0;
                while i < m.len()
                    invariant
                        i <= m@.len(),
                        *j == Json::Object(*m),
                        forall|k: int| 0 <= k < i ==> (#[trigger] decimal_u32(m@[k].0@)) is Some,
                        forall|k: int| 0 <= k < i ==> bag_fits((#[trigger] m@[k]).1),
                        sparse_map_of(m@.take(i as int), tiles@, |x: Json, v: Properties| props_value(x, v)),
                    decreases m@.len() - i,
                {
                    let id = match parse_decimal(m[i].0.as_str()) {
                        Some(id) => id,
                        None => {
                            proof {
                                if tile_props_bad_key(*j) {
                                    assert(bag_fits(m@[i as int].1));
                                }
                            }
                            return Err(LoadError::InvalidKey(m[i].0.clone()));
                        },
                    };
                    let bag = match decode_bag(&m[i].1) {
                        Some(b) => b,
                        None => {
                            return Err(malformed("tileproperties"));
                        },
                    };
                    proof {
                        assert(m@.take(i + 1).drop_last() == m@.take(i as int));
                        lemma_sparse_map_step(m@.take(i + 1), tiles@, |x: Json, v: Properties| props_value(x, v), id, bag);
                    }
                    tiles.insert(id, bag);
                    i = i + 1;
                }
                assert(m@.take(m@.len() as int) == m@);
                Ok(TileProperties { tiles })
            },
            _ => Err(malformed("tileproperties")),
        }
    }
}


/// `j` is `{"terrain": [a, b, c, d]}` with four `u32` corners.
pub open spec fn corners_fit(j: Json) -> bool {
    match j {
        Json::Object(m) => match field(m@, "terrain"@) {
            Some(Json::Array(a)) => a@.len() == 4 && forall|i: int| 0 <= i < 4 ==> (#[trigger] u32_of(a@[i])) is Some,
            _ => false,
        },
        _ => false,
    }
}

/// `c` holds the four corners that `j` gives.
pub open spec fn corners_of(j: Json, c: [u32; 4]) -> bool {
    match j {
        Json::Object(m) => match field(m@, "terrain"@) {
            Some(Json::Array(a)) => a@.len() == 4 && forall|i: int| 0 <= i < 4 ==> #[trigger] u32_of(a@[i]) == Some(c@[i]),
            _ => false,
        },
        _ => false,
    }
}

/// Reads the four terrain corners of one tile.
fn decode_corners(j: &Json) -> (r: Option<[u32; 4]>)
    ensures
        r is Some <==> corners_fit(*j),
        r matches Some(c) ==> corners_of(*j, c),
{
    let m = match j {
        Json::Object(m) => m,
        _ => return None,
    };
    let a = match get_field(m, "terrain") {
        Some(Json::Array(a)) => a,
        _ => return None,
    };
    if a.len() != 4 {
        return None;
    }
    let c0 = match u32_value(&a[0]) { Some(v) => v, None => return None };
    let c1 = match u32_value(&a[1]) { Some(v) => v, None => return None };
    let c2 = match u32_value(&a[2]) { Some(v) => v, None => return None };
    let c3 = match u32_value(&a[3]) { Some(v) => v, None => return None };
    let c = [c0, c1, c2, c3];
    assert(forall|i: int| 0 <= i < 4 ==> #[trigger] u32_of(a@[i]) == Some(c@[i]));
    Some(c)
}

/// `j` is an object of terrain corner records whose keys are all decimal.
pub open spec fn tile_terrain_fit(j: Json) -> bool {
    match j {
        Json::Object(m) => keys_numeric(m@) && forall|i: int|
            0 <= i < m@.len() ==> corners_fit((#[trigger] m@[i]).1),
        _ => false,
    }
}

/// `j` is an object of terrain corner records, and some of its keys is not decimal.
pub open spec fn tile_terrain_bad_key(j: Json) -> bool {
    match j {
        Json::Object(m) => !keys_numeric(m@) && forall|i: int|
            0 <= i < m@.len() ==> corners_fit((#[trigger] m@[i]).1),
        _ => false,
    }
}

impl TileTerrain {
    /// The terrain corners of the tile `tile`, if it has them.
    pub fn get(&self, tile: LocalTile) -> (r: Option<&[u32; 4]>)
        ensures
            r matches Some(v) ==> self.tiles@.contains_key(tile.0) && self.tiles@[tile.0] == *v,
            r is None ==> !self.tiles@.contains_key(tile.0),
    {
        self.tiles.get(&tile.0)
    }

    /// Reads the per-tile terrain corners out of an object keyed by decimal
    /// local tile ids.
    pub fn decode(j: &Json) -> (r: Result<TileTerrain, LoadError>)
        ensures
            r is Ok <==> tile_terrain_fit(*j),
            r matches Ok(p) ==> (j matches Json::Object(m) && sparse_map_of(m@, p.tiles@, |x: Json, v: [u32; 4]| corners_of(x, v))),
            tile_terrain_bad_key(*j) ==> (r matches Err(e) && j matches Json::Object(m) && invalid_key_of(e, m@)),
    {
        match j {
            Json::Object(m) => {
                let mut tiles: HashMap<u32, [u32; 4]> = HashMap::new();
                let mut i: usize = 0;
                while i < m.len()
                    invariant
                        i <= m@.len(),
                        *j == Json::Object(*m),
                        forall|k: int| 0 <= k < i ==> (#[trigger] decimal_u32(m@[k].0@)) is Some,
                        forall|k: int| 0 <= k < i ==> corners_fit((#[trigger] m@[k]).1),
                        sparse_map_of(m@.take(i as int), tiles@, |x: Json, v: [u32; 4]| corners_of(x, v)),
                    decreases m@.len() - i,
                {
                    let id = match parse_decimal(m[i].0.as_str()) {
                        Some(id) => id,
                        None => {
                            proof {
                                if tile_terrain_bad_key(*j) {
                                    assert(corners_fit(m@[i as int].1));
                                }
                            }
                            return Err(LoadError::InvalidKey(m[i].0.clone()));
                        },
                    };
                    let c = match decode_corners(&m[i].1) {
                        Some(c) => c,
                        None => {
                            return Err(malformed("tiles"));
                        },
                    };
                    proof {
                        assert(m@.take(i + 1).drop_last() == m@.take(i as int));
                        lemma_sparse_map_step(m@.take(i + 1), tiles@, |x: Json, v: [u32; 4]| corners_of(x, v), id, c);
                    }
                    tiles.insert(id, c);
                    i = i + 1;
                }
                assert(m@.take(m@.len() as int) == m@);
                Ok(TileTerrain { tiles })
            },
            _ => Err(malformed("tiles")),
        }
    }
}

/// `j` is an object with a string `name` and a `u32` `tile`.
pub open spec fn terrain_fits(j: Json) -> bool {
    match j {
        Json::Object(m) => str_at(m@, "name"@) is Some && u32_at(m@, "tile"@) is Some,
        _ => false,
    }
}

/// `t` is the terrain kind that `j` describes.
pub open spec fn terrain_of(j: Json, t: Terrain) -> bool {
    match j {
        Json::Object(m) => str_at(m@, "name"@) == Some(t.name) && u32_at(m@, "tile"@) == Some(t.tile.0),
        _ => false,
    }
}

pub open spec fn terrains_fit(j: Json) -> bool {
    match j {
        Json::Array(a) => forall|i: int| 0 <= i < a@.len() ==> terrain_fits(#[trigger] a@[i]),
        _ => false,
    }
}

pub open spec fn terrains_of(j: Json, ts: Seq<Terrain>) -> bool {
    match j {
        Json::Array(a) => a@.len() == ts.len() && forall|i: int| 0 <= i < a@.len() ==> terrain_of(#[trigger] a@[i], ts[i]),
        _ => false,
    }
}

/// Reads the list of terrain kinds of a tileset.
pub fn decode_terrains(j: &Json) -> (r: Result<Vec<Terrain>, LoadError>)
    ensures
        r is Ok <==> terrains_fit(*j),
        r matches Ok(ts) ==> terrains_of(*j, ts@),
{
    let a = match j {
        Json::Array(a) => a,
        _ => return Err(malformed("terrains")),
    };
    let mut ts: Vec<Terrain> = Vec::new();
    let mut i: usize = 0;
    while i < a.len()
        invariant
            i <= a@.len(),
            *j == Json::Array(*a),
            ts@.len() == i,
            forall|k: int| 0 <= k < i ==> terrain_of(#[trigger] a@[k], ts@[k]),
        decreases a@.len() - i,
    {
        assert(*j matches Json::Array(b) && b@ == a@);
        let m = match &a[i] {
            Json::Object(m) => m,
            _ => {
                assert(!terrain_fits(a@[i as int]));
                return Err(malformed("terrains"));
            },
        };
        let name = match read_string(m, "name") {
            Ok(s) => s,
            Err(e) => {
                assert(!terrain_fits(a@[i as int]));
                return Err(e);
            },
        };
        let tile = match read_u32(m, "tile") {
            Ok(t) => t,
            Err(e) => {
                assert(!terrain_fits(a@[i as int]));
                return Err(e);
            },
        };
        ts.push(Terrain { name, tile: LocalTile(tile) });
        i = i + 1;
    }
    proof {
        assert forall|k: int| 0 <= k < a@.len() implies terrain_fits(#[trigger] a@[k]) by {
            assert(terrain_of(a@[k], ts@[k]));
        }
    }
    Ok(ts)
}


/// The members `m` hold every field of a tileset besides `firstgid`, each of
/// the right kind.
pub open spec fn tileset_fits(m: Seq<(String, Json)>) -> bool {
    &&& str_at(m, "name"@) is Some
    &&& u32_at(m, "tilecount"@) is Some
    &&& u32_at(m, "tileheight"@) is Some
    &&& u32_at(m, "tilewidth"@) is Some
    &&& u32_at(m, "columns"@) is Some
    &&& str_at(m, "image"@) is Some
    &&& u32_at(m, "imageheight"@) is Some
    &&& u32_at(m, "imagewidth"@) is Some
    &&& u32_at(m, "margin"@) is Some
    &&& u32_at(m, "spacing"@) is Some
    &&& opt_bag_fits(m, "properties"@)
    &&& field(m, "terrains"@) matches Some(j) && terrains_fit(j)
    &&& field(m, "tileproperties"@) matches Some(j) && tile_props_fit(j)
    &&& field(m, "tiles"@) matches Some(j) && tile_terrain_fit(j)
}

/// `t` holds the fields that the members `m` give, besides `firstgid`, with
/// the image path taken relative to the directory `dir`.
pub open spec fn tileset_of(m: Seq<(String, Json)>, dir: Seq<char>, t: Tileset) -> bool {
    &&& str_at(m, "name"@) == Some(t.name)
    &&& u32_at(m, "tilecount"@) == Some(t.tilecount)
    &&& u32_at(m, "tileheight"@) == Some(t.tileheight)
    &&& u32_at(m, "tilewidth"@) == Some(t.tilewidth)
    &&& u32_at(m, "columns"@) == Some(t.columns)
    &&& str_at(m, "image"@) matches Some(s) && t.image@ == joined_path(dir, s@)
    &&& u32_at(m, "imageheight"@) == Some(t.imageheight)
    &&& u32_at(m, "imagewidth"@) == Some(t.imagewidth)
    &&& u32_at(m, "margin"@) == Some(t.margin)
    &&& u32_at(m, "spacing"@) == Some(t.spacing)
    &&& opt_bag_of(m, "properties"@, t.properties)
    &&& field(m, "terrains"@) matches Some(j) && terrains_of(j, t.terrains@)
    &&& field(m, "tileproperties"@) matches Some(Json::Object(pm))
        && sparse_map_of(pm@, t.tileproperties.tiles@, |x: Json, v: Properties| props_value(x, v))
    &&& field(m, "tiles"@) matches Some(Json::Object(tm))
        && sparse_map_of(tm@, t.tiles.tiles@, |x: Json, v: [u32; 4]| corners_of(x, v))
}

/// Reads the fields of a tileset besides `firstgid` out of the members `m`,
/// taking its image path relative to the directory `dir`.
pub fn decode_tileset(m: &Vec<(String, Json)>, dir: &str, firstgid: GlobalTile) -> (r: Result<Tileset, LoadError>)
    ensures
        r is Ok <==> tileset_fits(m@),
        r matches Ok(t) ==> t.firstgid == firstgid && tileset_of(m@, dir@, t),
{
    let name = read_string(m, "name")?;
    let tilecount = read_u32(m, "tilecount")?;
    let tileheight = read_u32(m, "tileheight")?;
    let tilewidth = read_u32(m, "tilewidth")?;
    let columns = read_u32(m, "columns")?;
    let image_name = read_string(m, "image")?;
    let imageheight = read_u32(m, "imageheight")?;
    let imagewidth = read_u32(m, "imagewidth")?;
    let margin = read_u32(m, "margin")?;
    let spacing = read_u32(m, "spacing")?;
    let properties = read_opt_bag(m, "properties")?;
    let terrains = match get_field(m, "terrains") {
        Some(j) => decode_terrains(j)?,
        None => return Err(malformed("terrains")),
    };
    let tileproperties = match get_field(m, "tileproperties") {
        Some(j) => TileProperties::decode(j)?,
        None => return Err(malformed("tileproperties")),
    };
    let tiles = match get_field(m, "tiles") {
        Some(j) => TileTerrain::decode(j)?,
        None => return Err(malformed("tiles")),
    };
    let image = path_push(dir, image_name.as_str());
    Ok(Tileset {
        name,
        firstgid,
        tilecount,
        tileheight,
        tilewidth,
        columns,
        image,
        imageheight,
        imagewidth,
        margin,
        spacing,
        properties,
        terrains,
        tileproperties,
        tiles,
    })
}

/// The tileset entry `data` of the level at `level_path` can be resolved.
pub open spec fn entry_fits(data: Json, level_path: Seq<char>) -> bool {
    match data {
        Json::Object(m) => match field(m@, "source"@) {
            Some(Json::Str(src)) => u32_at(m@, "firstgid"@) is Some,
            _ => u32_at(m@, "firstgid"@) is Some && tileset_fits(m@),
        },
        _ => false,
    }
}

/// `s` is what the tileset entry `data` of the level at `level_path` asks for.
pub open spec fn entry_of(data: Json, level_path: Seq<char>, s: TilesetSource) -> bool {
    match data {
        Json::Object(m) => match field(m@, "source"@) {
            Some(Json::Str(src)) => s matches TilesetSource::External { path, firstgid }
                && path@ == joined_path(parent_path(level_path), src@)
                && u32_at(m@, "firstgid"@) == Some(firstgid.0),
            _ => s matches TilesetSource::Inline(t)
                && u32_at(m@, "firstgid"@) == Some(t.firstgid.0)
                && tileset_of(m@, parent_path(level_path), t),
        },
        _ => false,
    }
}

impl Tileset {
    /// Resolves one tileset entry of the level at `data_path`. An entry with
    /// a string `source` refers to the file of that name in the level's
    /// directory, and its `firstgid` is kept for it; any other entry is a
    /// tileset in full, whose image path is taken relative to the level's
    /// directory.
    pub fn load(data: &Json, data_path: &str) -> (r: Result<TilesetSource, LoadError>)
        ensures
            match *data {
                Json::Object(m) => match field(m@, "source"@) {
                    Some(Json::Str(src)) => match u32_at(m@, "firstgid"@) {
                        Some(g) => r matches Ok(TilesetSource::External { path, firstgid })
                            && path@ == joined_path(parent_path(data_path@), src@)
                            && firstgid == GlobalTile(g),
                        None => r matches Err(LoadError::MissingField(f)) && f@ == "firstgid"@,
                    },
                    _ => {
                        &&& r is Ok <==> (u32_at(m@, "firstgid"@) is Some && tileset_fits(m@))
                        &&& r matches Ok(s) ==> (s matches TilesetSource::Inline(t)
                            && u32_at(m@, "firstgid"@) == Some(t.firstgid.0)
                            && tileset_of(m@, parent_path(data_path@), t))
                    },
                },
                _ => r matches Err(e) && malformed_at(e, "tileset"@),
            },
    {
        let m = match data {
            Json::Object(m) => m,
            _ => return Err(malformed("tileset")),
        };
        let dir = path_parent(data_path);
        match get_field(m, "source") {
            Some(Json::Str(source)) => {
                let firstgid = match read_u32(m, "firstgid") {
                    Ok(g) => g,
                    Err(_) => return Err(LoadError::MissingField("firstgid".to_owned())),
                };
                let path = path_push(dir.as_str(), source.as_str());
                Ok(TilesetSource::External { path, firstgid: GlobalTile(firstgid) })
            },
            _ => {
                let firstgid = read_u32(m, "firstgid")?;
                let t = decode_tileset(m, dir.as_str(), GlobalTile(firstgid))?;
                Ok(TilesetSource::Inline(t))
            },
        }
    }

    /// Reads the text of an external tileset file found at `path`. The
    /// tileset's tiles start at `firstgid`, which the referring level gives,
    /// and its image path is taken relative to the file's directory. Every
    /// error names the file.
    pub fn load_external(text: &str, path: &str, firstgid: GlobalTile) -> (r: Result<Tileset, LoadError>)
        ensures
            match json_text(text@) {
                None => r matches Err(LoadError::InFile(p, c)) && p@ == path@ && *c is Syntax,
                Some(Json::Object(m)) => {
                    &&& r is Ok <==> tileset_fits(m@)
                    &&& r matches Ok(t) ==> t.firstgid == firstgid && tileset_of(m@, parent_path(path@), t)
                },
                Some(_) => r matches Err(LoadError::InFile(p, c)) && p@ == path@ && malformed_at(*c, "tileset"@),
            },
            r matches Err(e) ==> (e matches LoadError::InFile(p, _) && p@ == path@),
    {
        let data = match parse_json(text) {
            Some(d) => d,
            None => return Err(in_file_error(path, LoadError::Syntax)),
        };
        match &data {
            Json::Object(m) => {
                let dir = path_parent(path);
                match decode_tileset(m, dir.as_str(), firstgid) {
                    Ok(t) => Ok(t),
                    Err(e) => Err(in_file_error(path, e)),
                }
            },
            _ => Err(in_file_error(path, malformed("tileset"))),
        }
    }
}

} // verus!
