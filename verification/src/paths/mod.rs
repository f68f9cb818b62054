//! Where the HMI keeps its data: the data root, its subdirectories, and USB drives.
pub mod subdirs;
pub mod usb_drives;

use vstd::prelude::*;

verus! {

/// Name of the data root, under the home directory and on USB drives.
pub const DEFAULT_ROOT_FOLDER: &'static str = "hm-pi-data";

pub open spec fn spec_root_folder() -> Seq<char> {
    "hm-pi-data"@
}

/// `base` with the relative path `rel` appended, as `PathBuf::push` appends a relative
/// path: a separator goes between them unless `base` is empty or already ends in one.
pub open spec fn join_relative(base: Seq<char>, rel: Seq<char>) -> Seq<char> {
    if base.len() == 0 || base.last() == '/' {
        base + rel
    } else {
        base + seq!['/'] + rel
    }
}

/// Appends the relative path `rel` to `base` (see `join_relative`).
pub fn join_path(base: &str, rel: &str) -> (r: String)
    ensures
        r@ == join_relative(base@, rel@),
{
    let mut r = String::from_str(base);
    let n = base.unicode_len();
    if n > 0 && base.get_char(n - 1) != '/' {
        crate::text::push_char(&mut r, '/');
    }
    crate::text::push_str(&mut r, rel);
    r
}

/// The data root: the root folder under the home directory, or, when no home directory
/// is known, the root folder relative to the working directory.
pub fn local_data_root(home: Option<&str>) -> (r: String)
    ensures
        r@ == match home {
            Some(h) => join_relative(h@, spec_root_folder()),
            None => spec_root_folder(),
        },
{
    match home {
        Some(h) => join_path(h, DEFAULT_ROOT_FOLDER),
        None => String::from_str(DEFAULT_ROOT_FOLDER),
    }
}

} // verus!
