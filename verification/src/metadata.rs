//! The metadata kept beside each download on disk.

use vstd::prelude::*;
use crate::files::DlFile;

verus! {

/// What is written in the metadata file of a download.
pub struct MetaData {
    pub link: String,
    pub name_on_disk: String,
    pub url_name: String,
    pub content_length: usize,
    pub range_support: bool,
}

impl MetaData {
    /// The metadata of a download: its link, its name on disk, the name the link
    /// suggested, its length and whether ranges are served.
    pub fn for_file(f: &DlFile) -> (m: MetaData)
        ensures
            m.link@ == f.url.link@,
            m.name_on_disk@ == f.name_on_disk@,
            m.url_name@ == f.url.filename@,
            m.content_length == f.url.content_length,
            m.range_support == f.url.range_support,
    {
        MetaData {
            link: f.url.link.clone(),
            name_on_disk: f.name_on_disk.clone(),
            url_name: f.url.filename.clone(),
            content_length: f.url.content_length,
            range_support: f.url.range_support,
        }
    }
}

} // verus!
