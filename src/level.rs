use vstd::prelude::*;
use crate::error::{LoadError, malformed, malformed_at, in_file_error};
use crate::json::{
    Json, Properties, field, u32_at, str_at, bag_of, decode_bag, get_field, read_u32, read_string,
    parse_json, json_text,
};
use crate::layer::{Layer, layer_fits, layer_of};
use crate::tileset::{Tileset, TilesetSource, entry_fits, entry_of};

verus! {

/// The order in which the cells of a level are drawn: from which corner,
/// across which way.
#[derive(Clone, Copy, Debug, PartialEq, Eq, Structural)]
pub enum RenderOrder {
    RightDown,
    RightUp,
    LeftDown,
    LeftUp,
}

/// The render order that a `renderorder` member names.
pub open spec fn render_order_of(s: Seq<char>) -> Option<RenderOrder> {
    if s == "right-down"@ {
        Some(RenderOrder::RightDown)
    } else if s == "right-up"@ {
        Some(RenderOrder::RightUp)
    } else if s == "left-down"@ {
        Some(RenderOrder::LeftDown)
    } else if s == "left-up"@ {
        Some(RenderOrder::LeftUp)
    } else {
        None
    }
}

pub open spec fn render_order_at(m: Seq<(String, Json)>) -> Option<RenderOrder> {
    match str_at(m, "renderorder"@) {
        Some(s) => render_order_of(s@),
        None => None,
    }
}

impl RenderOrder {
    /// Reads a render order out of its name.
    pub fn parse(s: &String) -> (r: Option<RenderOrder>)
        ensures
            r == render_order_of(s@),
    {
        if *s == "right-down".to_owned() {
            Some(RenderOrder::RightDown)
        } else if *s == "right-up".to_owned() {
            Some(RenderOrder::RightUp)
        } else if *s == "left-down".to_owned() {
            Some(RenderOrder::LeftDown)
        } else if *s == "left-up".to_owned() {
            Some(RenderOrder::LeftUp)
        } else {
            None
        }
    }
}

/// A loaded level.
#[derive(Debug)]
pub struct Level {
    pub height: u32,
    pub width: u32,
    pub properties: Properties,
    pub orientation: String,
    pub renderorder: RenderOrder,
    pub tileheight: u32,
    pub tilewidth: u32,
    pub layers: Vec<Layer>,
    /// In the order of the level file: the order partitions the global
    /// tile ids.
    pub tilesets: Vec<Tileset>,
}

/// A level whose tilesets are still to be resolved: `level` holds every
/// other part, and `sources` the tileset entries in order.
#[derive(Debug)]
pub struct PendingLevel {
    pub level: Level,
    pub sources: Vec<TilesetSource>,
}

/// The level's property bag: absent and `null` give an empty bag.
pub open spec fn level_props_fit(m: Seq<(String, Json)>) -> bool {
    match field(m, "properties"@) {
        None => true,
        Some(Json::Null) => true,
        Some(j) => crate::json::bag_fits(j),
    }
}

pub open spec fn level_props_of(m: Seq<(String, Json)>, b: Seq<(String, String)>) -> bool {
    match field(m, "properties"@) {
        None => b.len() == 0,
        Some(Json::Null) => b.len() == 0,
        Some(j) => bag_of(j, b),
    }
}

pub open spec fn layers_fit(m: Seq<(String, Json)>) -> bool {
    match field(m, "layers"@) {
        Some(Json::Array(a)) => forall|i: int| 0 <= i < a@.len() ==> layer_fits(#[trigger] a@[i]),
        _ => false,
    }
}

pub open spec fn layers_of(m: Seq<(String, Json)>, ls: Seq<Layer>) -> bool {
    match field(m, "layers"@) {
        Some(Json::Array(a)) => a@.len() == ls.len() && forall|i: int|
            0 <= i < a@.len() ==> layer_of(#[trigger] a@[i], ls[i]),
        _ => false,
    }
}

pub open spec fn sources_fit(m: Seq<(String, Json)>, path: Seq<char>) -> bool {
    match field(m, "tilesets"@) {
        Some(Json::Array(a)) => forall|i: int| 0 <= i < a@.len() ==> entry_fits(#[trigger] a@[i], path),
        _ => false,
    }
}

pub open spec fn sources_of(m: Seq<(String, Json)>, path: Seq<char>, ss: Seq<TilesetSource>) -> bool {
    match field(m, "tilesets"@) {
        Some(Json::Array(a)) => a@.len() == ss.len() && forall|i: int|
            0 <= i < a@.len() ==> entry_of(#[trigger] a@[i], path, ss[i]),
        _ => false,
    }
}

/// `e` reports the first tileset entry of the members `m` that cannot be
/// resolved, with its position, or a `tilesets` member that is no array.
pub open spec fn sources_fault(m: Seq<(String, Json)>, path: Seq<char>, e: LoadError) -> bool {
    match field(m, "tilesets"@) {
        Some(Json::Array(a)) => e matches LoadError::InTileset(i, _) && i < a@.len()
            && !entry_fits(a@[i as int], path)
            && forall|k: int| 0 <= k < i ==> entry_fits(#[trigger] a@[k], path),
        _ => malformed_at(e, "tilesets"@),
    }
}

/// The members `m` of the level file at `path` describe a level that can
/// be loaded, up to the reading of its external tilesets.
pub open spec fn level_fits(m: Seq<(String, Json)>, path: Seq<char>) -> bool {
    level_head_fits(m) && sources_fit(m, path)
}

/// Every part of the level but its tileset entries fits.
pub open spec fn level_head_fits(m: Seq<(String, Json)>) -> bool {
    &&& render_order_at(m) is Some
    &&& u32_at(m, "height"@) is Some
    &&& u32_at(m, "width"@) is Some
    &&& level_props_fit(m)
    &&& str_at(m, "orientation"@) is Some
    &&& u32_at(m, "tileheight"@) is Some
    &&& u32_at(m, "tilewidth"@) is Some
    &&& layers_fit(m)
}

/// `p` holds what the members `m` of the level file at `path` give.
pub open spec fn level_of(m: Seq<(String, Json)>, path: Seq<char>, p: PendingLevel) -> bool {
    &&& render_order_at(m) == Some(p.level.renderorder)
    &&& u32_at(m, "height"@) == Some(p.level.height)
    &&& u32_at(m, "width"@) == Some(p.level.width)
    &&& level_props_of(m, p.level.properties@)
    &&& str_at(m, "orientation"@) == Some(p.level.orientation)
    &&& u32_at(m, "tileheight"@) == Some(p.level.tileheight)
    &&& u32_at(m, "tilewidth"@) == Some(p.level.tilewidth)
    &&& layers_of(m, p.level.layers@)
    &&& p.level.tilesets@.len() == 0
    &&& sources_of(m, path, p.sources@)
}


/// Reads the layers of a level.
fn decode_layers(m: &Vec<(String, Json)>) -> (r: Result<Vec<Layer>, LoadError>)
    ensures
        r is Ok <==> layers_fit(m@),
        r matches Ok(ls) ==> layers_of(m@, ls@),
{
    let a = match get_field(m, "layers") {
        Some(Json::Array(a)) => a,
        _ => return Err(malformed("layers")),
    };
    let ghost fa = field(m@, "layers"@);
    let mut ls: Vec<Layer> = Vec::new();
    let mut i: usize = 0;
    while i < a.len()
        invariant
            i <= a@.len(),
            fa == Some(Json::Array(*a)),
            fa == field(m@, "layers"@),
            ls@.len() == i,
            forall|k: int| 0 <= k < i ==> layer_of(#[trigger] a@[k], ls@[k]),
            forall|k: int| 0 <= k < i ==> layer_fits(#[trigger] a@[k]),
        decreases a@.len() - i,
    {
        assert(fa matches Some(Json::Array(b)) && b@ == a@);
        let l = match Layer::decode(&a[i]) {
            Ok(l) => l,
            Err(e) => {
                assert(!layer_fits(a@[i as int]));
                return Err(e);
            },
        };
        ls.push(l);
        i = i + 1;
    }
    assert(fa matches Some(Json::Array(b)) && b@ == a@);
    Ok(ls)
}

/// Resolves the tileset entries of the level at `path`, in order.
fn decode_sources(m: &Vec<(String, Json)>, path: &str) -> (r: Result<Vec<TilesetSource>, LoadError>)
    ensures
        r is Ok <==> sources_fit(m@, path@),
        r matches Ok(ss) ==> sources_of(m@, path@, ss@),
        r matches Err(e) ==> sources_fault(m@, path@, e),
{
    let a = match get_field(m, "tilesets") {
        Some(Json::Array(a)) => a,
        _ => return Err(malformed("tilesets")),
    };
    let ghost fa = field(m@, "tilesets"@);
    let mut ss: Vec<TilesetSource> = Vec::new();
    let mut i: usize = 0;
    while i < a.len()
        invariant
            i <= a@.len(),
            fa == Some(Json::Array(*a)),
            fa == field(m@, "tilesets"@),
            ss@.len() == i,
            forall|k: int| 0 <= k < i ==> entry_of(#[trigger] a@[k], path@, ss@[k]),
            forall|k: int| 0 <= k < i ==> entry_fits(#[trigger] a@[k], path@),
        decreases a@.len() - i,
    {
        assert(fa matches Some(Json::Array(b)) && b@ == a@);
        let s = match Tileset::load(&a[i], path) {
            Ok(s) => s,
            Err(e) => {
                assert(!entry_fits(a@[i as int], path@));
                return Err(LoadError::InTileset(i, Box::new(e)));
            },
        };
        ss.push(s);
        i = i + 1;
    }
    assert(fa matches Some(Json::Array(b)) && b@ == a@);
    Ok(ss)
}

/// Reads the level's property bag; absent or `null`, it is empty.
fn read_level_props(m: &Vec<(String, Json)>) -> (r: Result<Properties, LoadError>)
    ensures
        r is Ok <==> level_props_fit(m@),
        r matches Ok(b) ==> level_props_of(m@, b@),
{
    match get_field(m, "properties") {
        None => Ok(Vec::new()),
        Some(Json::Null) => Ok(Vec::new()),
        Some(j) => match decode_bag(j) {
            Some(b) => Ok(b),
            None => Err(malformed("properties")),
        },
    }
}

impl Level {
    /// Reads the members `m` of the level file found at `path`. Its tileset
    /// entries are resolved in order, each relative to `path`; those that
    /// refer to other files are left in `sources` for the caller to read.
    /// A `renderorder` other than the four known ones is an error that
    /// names that field; an entry that cannot be resolved is reported with
    /// its position.
    pub fn decode(m: &Vec<(String, Json)>, path: &str) -> (r: Result<PendingLevel, LoadError>)
        ensures
            render_order_at(m@) is None ==> (r matches Err(e) && malformed_at(e, "renderorder"@)),
            r is Ok <==> level_fits(m@, path@),
            r matches Ok(p) ==> level_of(m@, path@, p),
            (level_head_fits(m@) && !sources_fit(m@, path@)) ==> (r matches Err(e) && sources_fault(m@, path@, e)),
    {
        let renderorder = match get_field(m, "renderorder") {
            Some(Json::Str(s)) => match RenderOrder::parse(s) {
                Some(o) => o,
                None => return Err(malformed("renderorder")),
            },
            _ => return Err(malformed("renderorder")),
        };
        let height = read_u32(m, "height")?;
        let width = read_u32(m, "width")?;
        let properties = read_level_props(m)?;
        let orientation = read_string(m, "orientation")?;
        let tileheight = read_u32(m, "tileheight")?;
        let tilewidth = read_u32(m, "tilewidth")?;
        let layers = decode_layers(m)?;
        let sources = decode_sources(m, path)?;
        let level = Level {
            height,
            width,
            properties,
            orientation,
            renderorder,
            tileheight,
            tilewidth,
            layers,
            tilesets: Vec::new(),
        };
        Ok(PendingLevel { level, sources })
    }

    /// Reads the text of the level file found at `path`, as `decode` reads
    /// its members. Every error names the file.
    pub fn load(text: &str, path: &str) -> (r: Result<PendingLevel, LoadError>)
        ensures
            match json_text(text@) {
                None => r matches Err(LoadError::InFile(p, c)) && p@ == path@ && *c is Syntax,
                Some(Json::Object(m)) => {
                    &&& render_order_at(m@) is None ==> (r matches Err(LoadError::InFile(_, c))
                        && malformed_at(*c, "renderorder"@))
                    &&& r is Ok <==> level_fits(m@, path@)
                    &&& r matches Ok(p) ==> level_of(m@, path@, p)
                    &&& (level_head_fits(m@) && !sources_fit(m@, path@)) ==> (r matches Err(
                        LoadError::InFile(_, c),
                    ) && sources_fault(m@, path@, *c))
                },
                Some(_) => r matches Err(LoadError::InFile(p, c)) && p@ == path@ && malformed_at(*c, "level"@),
            },
            r matches Err(e) ==> (e matches LoadError::InFile(p, _) && p@ == path@),
    {
        let data = match parse_json(text) {
            Some(d) => d,
            None => return Err(in_file_error(path, LoadError::Syntax)),
        };
        match &data {
            Json::Object(m) => match Level::decode(m, path) {
                Ok(p) => Ok(p),
                Err(e) => Err(in_file_error(path, e)),
            },
            _ => Err(in_file_error(path, malformed("level"))),
        }
    }
}

impl PendingLevel {
    /// The level, with `tilesets` in place of its tileset entries, in the
    /// order given.
    pub fn finish(self, tilesets: Vec<Tileset>) -> (r: Level)
        ensures
            r.height == self.level.height,
            r.width == self.level.width,
            r.properties == self.level.properties,
            r.orientation == self.level.orientation,
            r.renderorder == self.level.renderorder,
            r.tileheight == self.level.tileheight,
            r.tilewidth == self.level.tilewidth,
            r.layers == self.level.layers,
            r.tilesets == tilesets,
    {
        let mut level = self.level;
        level.tilesets = tilesets;
        level
    }
}

} // verus!
