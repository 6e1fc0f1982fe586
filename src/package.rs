use vstd::prelude::*;

verus! {

/// One package of a search result: its name, the repository it comes
/// from, whether it is installed, and descriptive metadata.
pub struct Package {
    pub name: String,
    pub source: String,
    pub installed: bool,
    pub description: String,
    pub version: String,
    pub filename: String,
    pub base: String,
    pub url: String,
    pub packager: String,
    pub md5sum: String,
    pub sha256sum: String,
    pub arch: String,
}

impl Package {
    /// The same record with its installed flag set to `installed`.
    pub open spec fn with_installed(self, installed: bool) -> Package {
        Package { installed: installed, ..self }
    }

    /// A record with empty text fields that is not installed.
    pub fn empty() -> (r: Package)
        ensures
            r.name@ == Seq::<char>::empty(),
            r.source@ == Seq::<char>::empty(),
            !r.installed,
            r.description@ == Seq::<char>::empty(),
            r.version@ == Seq::<char>::empty(),
            r.filename@ == Seq::<char>::empty(),
            r.base@ == Seq::<char>::empty(),
            r.url@ == Seq::<char>::empty(),
            r.packager@ == Seq::<char>::empty(),
            r.md5sum@ == Seq::<char>::empty(),
            r.sha256sum@ == Seq::<char>::empty(),
            r.arch@ == Seq::<char>::empty(),
    {
        Package {
            name: String::new(),
            source: String::new(),
            installed: false,
            description: String::new(),
            version: String::new(),
            filename: String::new(),
            base: String::new(),
            url: String::new(),
            packager: String::new(),
            md5sum: String::new(),
            sha256sum: String::new(),
            arch: String::new(),
        }
    }
}

impl Clone for Package {
    fn clone(&self) -> (r: Package)
        ensures
            r == *self,
    {
        Package {
            name: self.name.clone(),
            source: self.source.clone(),
            installed: self.installed,
            description: self.description.clone(),
            version: self.version.clone(),
            filename: self.filename.clone(),
            base: self.base.clone(),
            url: self.url.clone(),
            packager: self.packager.clone(),
            md5sum: self.md5sum.clone(),
            sha256sum: self.sha256sum.clone(),
            arch: self.arch.clone(),
        }
    }
}

/// The text shown for a metadata field: the value itself, or `-` where the
/// repository gives none.
pub fn metadata_or_placeholder(value: Option<&str>) -> (r: String)
    ensures
        value matches Some(v) ==> r@ == v@,
        value is None ==> r@ == seq!['-'],
{
    match value {
        Some(v) => v.to_owned(),
        None => {
            let dash = "-";
            proof {
                reveal_strlit("-");
            }
            dash.to_owned()
        },
    }
}

} // verus!
