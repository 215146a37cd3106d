use vstd::prelude::*;

verus! {

/// What a catalog entry says, as plain mathematical values.
pub struct ModView {
    pub checksum: Seq<char>,
    pub filename: Seq<char>,
    pub size: u64,
}

/// One entry of the remote mod catalog: the archive's checksum (its
/// identity), the archive's file name and its size in bytes.
#[derive(Debug)]
pub struct JsonModTemplate {
    pub checksum_md5: String,
    pub filename: String,
    pub size_in_bytes: u64,
}

impl View for JsonModTemplate {
    type V = ModView;

    open spec fn view(&self) -> ModView {
        ModView { checksum: self.checksum_md5@, filename: self.filename@, size: self.size_in_bytes }
    }
}

/// The views of a list of catalog entries.
pub open spec fn mod_views(mods: Seq<JsonModTemplate>) -> Seq<ModView> {
    mods.map_values(|m: JsonModTemplate| m@)
}

impl JsonModTemplate {
    pub fn new(checksum_md5: String, filename: String, size_in_bytes: u64) -> (r: Self)
        ensures
            r.checksum_md5@ == checksum_md5@,
            r.filename@ == filename@,
            r.size_in_bytes == size_in_bytes,
    {
        JsonModTemplate { checksum_md5, filename, size_in_bytes }
    }

    /// A copy of this entry with the same contents.
    pub fn duplicate(&self) -> (r: Self)
        ensures
            r@ == self@,
    {
        JsonModTemplate {
            checksum_md5: self.checksum_md5.clone(),
            filename: self.filename.clone(),
            size_in_bytes: self.size_in_bytes,
        }
    }
}

} // verus!
