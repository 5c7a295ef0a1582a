use vstd::prelude::*;

verus! {

/// One source unit: where it came from and its raw bytes.
pub struct PaserFile {
    pub path: String,
    pub body: Vec<u8>,
}

impl PaserFile {
    /// The path the source unit was read from.
    pub open spec fn path_text(&self) -> Seq<char> {
        self.path@
    }

    /// The raw bytes.
    pub open spec fn content(&self) -> Seq<u8> {
        self.body@
    }

    /// A source unit holding `body`, read from `path`.
    pub fn new(path: &str, body: Vec<u8>) -> (r: PaserFile)
        ensures
            r.path_text() == path@,
            r.content() == body@,
    {
        PaserFile { path: path.to_owned(), body }
    }

    pub fn file_path(&self) -> (r: &str)
        ensures
            r@ == self.path_text(),
    {
        self.path.as_str()
    }
}

} // verus!
