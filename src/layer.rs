use vstd::prelude::*;
use crate::GlobalTile;
use crate::error::{LoadError, malformed, malformed_at};
use crate::json::{
    Json, Num, Properties, field, u32_of, u32_at, str_at, bool_at, num_at, opt_u32_at, opt_bool_at,
    get_field, read_u32, read_string, read_bool, read_num, read_opt_u32, read_opt_bool,
    read_opt_bag, opt_bag_fits, opt_bag_of, u32_value,
};

verus! {

/// A layer of a level: a grid of tiles or a group of objects.
#[derive(Debug)]
pub enum Layer {
    Tiles(TileLayer),
    Objects(ObjectLayer),
}

/// A grid of tiles.
#[derive(Debug)]
pub struct TileLayer {
    pub name: String,
    pub opacity: Num,
    pub properties: Option<Properties>,
    pub visible: bool,
    pub width: u32,
    pub height: u32,
    pub x: Num,
    pub y: Num,
    /// One global tile id per cell, row by row; 0 is an empty cell.
    pub data: Vec<GlobalTile>,
}

/// A group of objects.
#[derive(Debug)]
pub struct ObjectLayer {
    pub name: String,
    pub opacity: Num,
    pub properties: Option<Properties>,
    pub visible: bool,
    pub width: u32,
    pub height: u32,
    pub x: Num,
    pub y: Num,
    pub draworder: String,
    pub objects: Vec<Object>,
}

/// An object of an object group. Whichever of `gid`, `ellipse` and
/// `polygon` the document gives is kept.
#[derive(Debug)]
pub struct Object {
    pub id: u32,
    pub name: String,
    /// The object's `type` member.
    pub _type: String,
    pub gid: Option<GlobalTile>,
    pub ellipse: Option<bool>,
    pub polygon: Option<Vec<PolyPoint>>,
    pub properties: Option<Properties>,
    pub rotation: Num,
    pub visible: bool,
    pub height: Num,
    pub width: Num,
    pub x: Num,
    pub y: Num,
}

/// A point of a polygon.
#[derive(Debug)]
pub struct PolyPoint {
    pub x: Num,
    pub y: Num,
}

impl Layer {
    /// The layer's name.
    pub fn name(&self) -> (r: &str)
        ensures
            r@ == match *self {
                Layer::Tiles(t) => t.name@,
                Layer::Objects(o) => o.name@,
            },
    {
        match self {
            Layer::Tiles(tiles) => tiles.name.as_str(),
            Layer::Objects(objects) => objects.name.as_str(),
        }
    }
}


/// The members `m` hold the fields that both kinds of layer have.
pub open spec fn layer_common_fits(m: Seq<(String, Json)>) -> bool {
    &&& str_at(m, "name"@) is Some
    &&& num_at(m, "opacity"@) is Some
    &&& opt_bag_fits(m, "properties"@)
    &&& bool_at(m, "visible"@) is Some
    &&& u32_at(m, "width"@) is Some
    &&& u32_at(m, "height"@) is Some
    &&& num_at(m, "x"@) is Some
    &&& num_at(m, "y"@) is Some
}

/// The first field, in the order they are read, that the members `m` lack
/// or hold with the wrong kind among those that both kinds of layer have.
pub open spec fn common_fault(m: Seq<(String, Json)>) -> Option<Seq<char>> {
    if str_at(m, "name"@) is None {
        Some("name"@)
    } else if num_at(m, "opacity"@) is None {
        Some("opacity"@)
    } else if !opt_bag_fits(m, "properties"@) {
        Some("properties"@)
    } else if bool_at(m, "visible"@) is None {
        Some("visible"@)
    } else if u32_at(m, "width"@) is None {
        Some("width"@)
    } else if u32_at(m, "height"@) is None {
        Some("height"@)
    } else if num_at(m, "x"@) is None {
        Some("x"@)
    } else if num_at(m, "y"@) is None {
        Some("y"@)
    } else {
        None
    }
}

/// The field that a tile layer that does not fit is reported for.
pub open spec fn tile_layer_fault(m: Seq<(String, Json)>) -> Seq<char> {
    match common_fault(m) {
        Some(f) => f,
        None => "data"@,
    }
}

/// The field that an object group that does not fit is reported for.
pub open spec fn object_layer_fault(m: Seq<(String, Json)>) -> Seq<char> {
    match common_fault(m) {
        Some(f) => f,
        None => if str_at(m, "draworder"@) is None {
            "draworder"@
        } else {
            "objects"@
        },
    }
}

/// `j` is an array of `u32` tile ids.
pub open spec fn gids_fit(j: Json) -> bool {
    match j {
        Json::Array(a) => forall|i: int| 0 <= i < a@.len() ==> (#[trigger] u32_of(a@[i])) is Some,
        _ => false,
    }
}

pub open spec fn gids_of(j: Json, d: Seq<GlobalTile>) -> bool {
    match j {
        Json::Array(a) => a@.len() == d.len() && forall|i: int| 0 <= i < a@.len() ==> #[trigger] u32_of(a@[i]) == Some(d[i].0),
        _ => false,
    }
}

pub open spec fn tile_layer_fits(m: Seq<(String, Json)>) -> bool {
    &&& layer_common_fits(m)
    &&& field(m, "data"@) matches Some(j) && gids_fit(j)
}

/// `t` holds the fields that the members `m` give.
pub open spec fn tile_layer_of(m: Seq<(String, Json)>, t: TileLayer) -> bool {
    &&& str_at(m, "name"@) == Some(t.name)
    &&& num_at(m, "opacity"@) == Some(t.opacity)
    &&& opt_bag_of(m, "properties"@, t.properties)
    &&& bool_at(m, "visible"@) == Some(t.visible)
    &&& u32_at(m, "width"@) == Some(t.width)
    &&& u32_at(m, "height"@) == Some(t.height)
    &&& num_at(m, "x"@) == Some(t.x)
    &&& num_at(m, "y"@) == Some(t.y)
    &&& field(m, "data"@) matches Some(j) && gids_of(j, t.data@)
}

/// Reads an array of tile ids.
fn decode_gids(j: &Json) -> (r: Option<Vec<GlobalTile>>)
    ensures
        r is Some <==> gids_fit(*j),
        r matches Some(d) ==> gids_of(*j, d@),
{
    let a = match j {
        Json::Array(a) => a,
        _ => return None,
    };
    let mut d: Vec<GlobalTile> = Vec::new();
    let mut i: usize = 0;
    while i < a.len()
        invariant
            i <= a@.len(),
            *j == Json::Array(*a),
            d@.len() == i,
            forall|k: int| 0 <= k < i ==> #[trigger] u32_of(a@[k]) == Some(d@[k].0),
        decreases a@.len() - i,
    {
        assert(*j matches Json::Array(b) && b@ == a@);
        match u32_value(&a[i]) {
            Some(g) => d.push(GlobalTile(g)),
            None => return None,
        }
        i = i + 1;
    }
    assert(*j matches Json::Array(b) && b@ == a@);
    Some(d)
}

/// Reads a tile layer out of the members `m`.
pub fn decode_tile_layer(m: &Vec<(String, Json)>) -> (r: Result<TileLayer, LoadError>)
    ensures
        r is Ok <==> tile_layer_fits(m@),
        r matches Ok(t) ==> tile_layer_of(m@, t),
        r matches Err(e) ==> malformed_at(e, tile_layer_fault(m@)),
{
    let name = read_string(m, "name")?;
    let opacity = read_num(m, "opacity")?;
    let properties = read_opt_bag(m, "properties")?;
    let visible = read_bool(m, "visible")?;
    let width = read_u32(m, "width")?;
    let height = read_u32(m, "height")?;
    let x = read_num(m, "x")?;
    let y = read_num(m, "y")?;
    let data = match get_field(m, "data") {
        Some(j) => match decode_gids(j) {
            Some(d) => d,
            None => return Err(malformed("data")),
        },
        None => return Err(malformed("data")),
    };
    Ok(TileLayer { name, opacity, properties, visible, width, height, x, y, data })
}

/// `j` is an object with numbers `x` and `y`.
pub open spec fn point_fits(j: Json) -> bool {
    match j {
        Json::Object(m) => num_at(m@, "x"@) is Some && num_at(m@, "y"@) is Some,
        _ => false,
    }
}

pub open spec fn point_of(j: Json, p: PolyPoint) -> bool {
    match j {
        Json::Object(m) => num_at(m@, "x"@) == Some(p.x) && num_at(m@, "y"@) == Some(p.y),
        _ => false,
    }
}

/// An optional polygon member: absent or `null`, or an array of points.
pub open spec fn opt_polygon_fits(m: Seq<(String, Json)>) -> bool {
    match field(m, "polygon"@) {
        None => true,
        Some(Json::Null) => true,
        Some(Json::Array(a)) => forall|i: int| 0 <= i < a@.len() ==> point_fits(#[trigger] a@[i]),
        Some(_) => false,
    }
}

pub open spec fn opt_polygon_of(m: Seq<(String, Json)>, p: Option<Vec<PolyPoint>>) -> bool {
    match field(m, "polygon"@) {
        None => p is None,
        Some(Json::Null) => p is None,
        Some(Json::Array(a)) => p matches Some(v) && v@.len() == a@.len()
            && forall|i: int| 0 <= i < a@.len() ==> point_of(#[trigger] a@[i], v@[i]),
        Some(_) => false,
    }
}

/// Reads the optional polygon of an object.
fn read_polygon(m: &Vec<(String, Json)>) -> (r: Result<Option<Vec<PolyPoint>>, LoadError>)
    ensures
        r is Ok <==> opt_polygon_fits(m@),
        r matches Ok(p) ==> opt_polygon_of(m@, p),
        r matches Err(e) ==> malformed_at(e, "polygon"@),
{
    let a = match get_field(m, "polygon") {
        None => return Ok(None),
        Some(Json::Null) => return Ok(None),
        Some(Json::Array(a)) => a,
        Some(_) => return Err(malformed("polygon")),
    };
    let ghost fa = field(m@, "polygon"@);
    let mut v: Vec<PolyPoint> = Vec::new();
    let mut i: usize = 0;
    while i < a.len()
        invariant
            i <= a@.len(),
            fa == Some(Json::Array(*a)),
            fa == field(m@, "polygon"@),
            v@.len() == i,
            forall|k: int| 0 <= k < i ==> point_of(#[trigger] a@[k], v@[k]),
        decreases a@.len() - i,
    {
        assert(fa matches Some(Json::Array(b)) && b@ == a@);
        let pm = match &a[i] {
            Json::Object(pm) => pm,
            _ => {
                assert(!point_fits(a@[i as int]));
                return Err(malformed("polygon"));
            },
        };
        let x = match read_num(pm, "x") {
            Ok(x) => x,
            Err(_) => {
                assert(!point_fits(a@[i as int]));
                return Err(malformed("polygon"));
            },
        };
        let y = match read_num(pm, "y") {
            Ok(y) => y,
            Err(_) => {
                assert(!point_fits(a@[i as int]));
                return Err(malformed("polygon"));
            },
        };
        v.push(PolyPoint { x, y });
        i = i + 1;
    }
    assert(fa matches Some(Json::Array(b)) && b@ == a@);
    proof {
        assert forall|k: int| 0 <= k < a@.len() implies point_fits(#[trigger] a@[k]) by {
            assert(point_of(a@[k], v@[k]));
        }
    }
    Ok(Some(v))
}

/// `j` is an object with every field of an object of a group.
pub open spec fn object_fits(j: Json) -> bool {
    match j {
        Json::Object(m) => {
            &&& u32_at(m@, "id"@) is Some
            &&& str_at(m@, "name"@) is Some
            &&& str_at(m@, "type"@) is Some
            &&& opt_u32_at(m@, "gid"@) is Some
            &&& opt_bool_at(m@, "ellipse"@) is Some
            &&& opt_polygon_fits(m@)
            &&& opt_bag_fits(m@, "properties"@)
            &&& num_at(m@, "rotation"@) is Some
            &&& bool_at(m@, "visible"@) is Some
            &&& num_at(m@, "height"@) is Some
            &&& num_at(m@, "width"@) is Some
            &&& num_at(m@, "x"@) is Some
            &&& num_at(m@, "y"@) is Some
        },
        _ => false,
    }
}

/// `o` holds the fields that `j` gives.
pub open spec fn object_of(j: Json, o: Object) -> bool {
    match j {
        Json::Object(m) => {
            &&& u32_at(m@, "id"@) == Some(o.id)
            &&& str_at(m@, "name"@) == Some(o.name)
            &&& str_at(m@, "type"@) == Some(o._type)
            &&& opt_u32_at(m@, "gid"@) == Some(
                match o.gid {
                    Some(g) => Some(g.0),
                    None => None,
                },
            )
            &&& opt_bool_at(m@, "ellipse"@) == Some(o.ellipse)
            &&& opt_polygon_of(m@, o.polygon)
            &&& opt_bag_of(m@, "properties"@, o.properties)
            &&& num_at(m@, "rotation"@) == Some(o.rotation)
            &&& bool_at(m@, "visible"@) == Some(o.visible)
            &&& num_at(m@, "height"@) == Some(o.height)
            &&& num_at(m@, "width"@) == Some(o.width)
            &&& num_at(m@, "x"@) == Some(o.x)
            &&& num_at(m@, "y"@) == Some(o.y)
        },
        _ => false,
    }
}

/// Reads one object of a group.
pub fn decode_object(j: &Json) -> (r: Result<Object, LoadError>)
    ensures
        r is Ok <==> object_fits(*j),
        r matches Ok(o) ==> object_of(*j, o),
        r matches Err(e) ==> e is Malformed,
{
    let m = match j {
        Json::Object(m) => m,
        _ => return Err(malformed("objects")),
    };
    let id = read_u32(m, "id")?;
    let name = read_string(m, "name")?;
    let _type = read_string(m, "type")?;
    let gid = match read_opt_u32(m, "gid")? {
        Some(g) => Some(GlobalTile(g)),
        None => None,
    };
    let ellipse = read_opt_bool(m, "ellipse")?;
    let polygon = read_polygon(m)?;
    let properties = read_opt_bag(m, "properties")?;
    let rotation = read_num(m, "rotation")?;
    let visible = read_bool(m, "visible")?;
    let height = read_num(m, "height")?;
    let width = read_num(m, "width")?;
    let x = read_num(m, "x")?;
    let y = read_num(m, "y")?;
    Ok(Object { id, name, _type, gid, ellipse, polygon, properties, rotation, visible, height, width, x, y })
}


pub open spec fn objects_fit(j: Json) -> bool {
    match j {
        Json::Array(a) => forall|i: int| 0 <= i < a@.len() ==> object_fits(#[trigger] a@[i]),
        _ => false,
    }
}

pub open spec fn objects_of(j: Json, os: Seq<Object>) -> bool {
    match j {
        Json::Array(a) => a@.len() == os.len() && forall|i: int| 0 <= i < a@.len() ==> object_of(#[trigger] a@[i], os[i]),
        _ => false,
    }
}

/// Reads the objects of a group.
fn decode_objects(j: &Json) -> (r: Result<Vec<Object>, LoadError>)
    ensures
        r is Ok <==> objects_fit(*j),
        r matches Ok(os) ==> objects_of(*j, os@),
        r matches Err(e) ==> e is Malformed,
{
    let a = match j {
        Json::Array(a) => a,
        _ => return Err(malformed("objects")),
    };
    let mut os: Vec<Object> = Vec::new();
    let mut i: usize = 0;
    while i < a.len()
        invariant
            i <= a@.len(),
            *j == Json::Array(*a),
            os@.len() == i,
            forall|k: int| 0 <= k < i ==> object_of(#[trigger] a@[k], os@[k]),
        decreases a@.len() - i,
    {
        assert(*j matches Json::Array(b) && b@ == a@);
        let o = match decode_object(&a[i]) {
            Ok(o) => o,
            Err(e) => {
                assert(!object_fits(a@[i as int]));
                return Err(e);
            },
        };
        os.push(o);
        i = i + 1;
    }
    assert(*j matches Json::Array(b) && b@ == a@);
    proof {
        assert forall|k: int| 0 <= k < a@.len() implies object_fits(#[trigger] a@[k]) by {
            assert(object_of(a@[k], os@[k]));
        }
    }
    Ok(os)
}

pub open spec fn object_layer_fits(m: Seq<(String, Json)>) -> bool {
    &&& layer_common_fits(m)
    &&& str_at(m, "draworder"@) is Some
    &&& field(m, "objects"@) matches Some(j) && objects_fit(j)
}

/// `o` holds the fields that the members `m` give.
pub open spec fn object_layer_of(m: Seq<(String, Json)>, o: ObjectLayer) -> bool {
    &&& str_at(m, "name"@) == Some(o.name)
    &&& num_at(m, "opacity"@) == Some(o.opacity)
    &&& opt_bag_of(m, "properties"@, o.properties)
    &&& bool_at(m, "visible"@) == Some(o.visible)
    &&& u32_at(m, "width"@) == Some(o.width)
    &&& u32_at(m, "height"@) == Some(o.height)
    &&& num_at(m, "x"@) == Some(o.x)
    &&& num_at(m, "y"@) == Some(o.y)
    &&& str_at(m, "draworder"@) == Some(o.draworder)
    &&& field(m, "objects"@) matches Some(j) && objects_of(j, o.objects@)
}

/// Reads an object group out of the members `m`.
pub fn decode_object_layer(m: &Vec<(String, Json)>) -> (r: Result<ObjectLayer, LoadError>)
    ensures
        r is Ok <==> object_layer_fits(m@),
        r matches Ok(o) ==> object_layer_of(m@, o),
        r matches Err(e) ==> malformed_at(e, object_layer_fault(m@)),
{
    let name = read_string(m, "name")?;
    let opacity = read_num(m, "opacity")?;
    let properties = read_opt_bag(m, "properties")?;
    let visible = read_bool(m, "visible")?;
    let width = read_u32(m, "width")?;
    let height = read_u32(m, "height")?;
    let x = read_num(m, "x")?;
    let y = read_num(m, "y")?;
    let draworder = read_string(m, "draworder")?;
    let objects = match get_field(m, "objects") {
        Some(j) => match decode_objects(j) {
            Ok(os) => os,
            Err(_) => return Err(malformed("objects")),
        },
        None => return Err(malformed("objects")),
    };
    Ok(ObjectLayer { name, opacity, properties, visible, width, height, x, y, draworder, objects })
}

/// `e` reports the field `field` of a layer of the kind `kind`.
pub open spec fn layer_error(e: LoadError, kind: Seq<char>, field: Seq<char>) -> bool {
    e matches LoadError::LayerField(k, f) && k@ == kind && f@ == field
}

/// Names the layer kind `kind` in the error of one of its fields.
fn in_layer(e: LoadError, kind: &str) -> (r: LoadError)
    requires
        e is Malformed,
    ensures
        e matches LoadError::Malformed(f) && layer_error(r, kind@, f@),
{
    match e {
        LoadError::Malformed(f) => LoadError::LayerField(kind.to_owned(), f),
        _ => e,
    }
}

/// `j` is a layer of a known kind with all the fields of that kind.
pub open spec fn layer_fits(j: Json) -> bool {
    match j {
        Json::Object(m) => match field(m@, "type"@) {
            Some(Json::Str(k)) => if k@ == "tilelayer"@ {
                tile_layer_fits(m@)
            } else {
                k@ == "objectgroup"@ && object_layer_fits(m@)
            },
            _ => false,
        },
        _ => false,
    }
}

/// `l` is the layer that `j` describes.
pub open spec fn layer_of(j: Json, l: Layer) -> bool {
    match j {
        Json::Object(m) => match field(m@, "type"@) {
            Some(Json::Str(k)) => match l {
                Layer::Tiles(t) => k@ == "tilelayer"@ && tile_layer_of(m@, t),
                Layer::Objects(o) => k@ != "tilelayer"@ && k@ == "objectgroup"@ && object_layer_of(m@, o),
            },
            _ => false,
        },
        _ => false,
    }
}

impl Layer {
    /// Reads a layer. Its string `type` member tells the kind: `tilelayer`
    /// gives a grid of tiles, `objectgroup` a group of objects.
    pub fn decode(j: &Json) -> (r: Result<Layer, LoadError>)
        ensures
            match *j {
                Json::Object(m) => match field(m@, "type"@) {
                    Some(Json::Str(k)) => if k@ == "tilelayer"@ {
                        &&& r is Ok <==> tile_layer_fits(m@)
                        &&& r matches Ok(l) ==> (l matches Layer::Tiles(t) && tile_layer_of(m@, t))
                        &&& r matches Err(e) ==> layer_error(e, "tilelayer"@, tile_layer_fault(m@))
                    } else if k@ == "objectgroup"@ {
                        &&& r is Ok <==> object_layer_fits(m@)
                        &&& r matches Ok(l) ==> (l matches Layer::Objects(o) && object_layer_of(m@, o))
                        &&& r matches Err(e) ==> layer_error(e, "objectgroup"@, object_layer_fault(m@))
                    } else {
                        r matches Err(LoadError::UnknownVariant(u)) && u@ == k@
                    },
                    _ => r matches Err(LoadError::MissingDiscriminator),
                },
                _ => r matches Err(e) && malformed_at(e, "layer"@),
            },
    {
        let m = match j {
            Json::Object(m) => m,
            _ => return Err(malformed("layer")),
        };
        let kind = match get_field(m, "type") {
            Some(Json::Str(k)) => k,
            _ => return Err(LoadError::MissingDiscriminator),
        };
        let tiles_kind = "tilelayer".to_owned();
        let objects_kind = "objectgroup".to_owned();
        if *kind == tiles_kind {
            match decode_tile_layer(m) {
                Ok(t) => Ok(Layer::Tiles(t)),
                Err(e) => Err(in_layer(e, "tilelayer")),
            }
        } else if *kind == objects_kind {
            match decode_object_layer(m) {
                Ok(o) => Ok(Layer::Objects(o)),
                Err(e) => Err(in_layer(e, "objectgroup")),
            }
        } else {
            Err(LoadError::UnknownVariant(kind.clone()))
        }
    }
}

} // verus!
