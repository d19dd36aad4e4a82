use vstd::prelude::*;

verus! {

/// Why a level or one of its parts could not be loaded.
#[derive(Debug)]
pub enum LoadError {
    /// A file could not be read; holds its path.
    Io(String),
    /// A text is not a JSON document.
    Syntax,
    /// A record does not have the expected shape; holds the name of the
    /// field (or of the record) that is absent or of the wrong kind.
    Malformed(String),
    /// A layer has no string `type` field.
    MissingDiscriminator,
    /// A layer's `type` is neither `tilelayer` nor `objectgroup`; holds it.
    UnknownVariant(String),
    /// A key of a sparse tile map is not an unsigned integer; holds the key.
    InvalidKey(String),
    /// A layer of the kind named first (`tilelayer` or `objectgroup`) has
    /// the field named second absent or of the wrong kind.
    LayerField(String, String),
    /// A field that an external tileset reference needs is absent; holds
    /// its name.
    MissingField(String),
    /// Loading the file at the path held first failed for the reason held
    /// second.
    InFile(String, Box<LoadError>),
    /// The tileset entry at the position held first (counted from 0 in the
    /// level's list) failed for the reason held second.
    InTileset(usize, Box<LoadError>),
}

/// `e` reports the field `name` as absent or of the wrong kind.
pub open spec fn malformed_at(e: LoadError, name: Seq<char>) -> bool {
    e matches LoadError::Malformed(f) && f@ == name
}

/// `e` reports that loading the file at `path` failed, for a reason that
/// `cause` accepts.
pub open spec fn in_file(e: LoadError, path: Seq<char>, cause: spec_fn(LoadError) -> bool) -> bool {
    e matches LoadError::InFile(p, c) && p@ == path && cause(*c)
}

pub(crate) fn malformed(name: &str) -> (e: LoadError)
    ensures
        malformed_at(e, name@),
{
    LoadError::Malformed(name.to_owned())
}

/// Names the file at `path` as the one whose loading failed with `e`.
pub fn in_file_error(path: &str, e: LoadError) -> (r: LoadError)
    ensures
        r matches LoadError::InFile(p, c) && p@ == path@ && *c == e,
{
    LoadError::InFile(path.to_owned(), Box::new(e))
}

} // verus!
