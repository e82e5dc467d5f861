//! `tinty gallery`: where the gallery is written and the script that carries
//! the schemes into it.
pub mod server;

use crate::constants::ARTIFACTS_DIR;
use crate::paths::{join_path, path_join};
use crate::text::{cat, cat3};
use vstd::prelude::*;

verus! {

/// The gallery's directory name under the artifacts directory.
pub const GALLERY_DIR_NAME: &'static str = "gallery";

/// Where the gallery is written: the dump directory when one is given,
/// otherwise `<data dir>/artifacts/gallery`.
pub fn gallery_output_dir(data_path: &str, dump_dir: Option<&str>) -> (res: String)
    ensures
        res@ == match dump_dir {
            Some(d) => d@,
            None => path_join(path_join(data_path@, ARTIFACTS_DIR@), GALLERY_DIR_NAME@),
        },
{
    match dump_dir {
        Some(d) => d.to_string(),
        None => join_path(join_path(data_path, ARTIFACTS_DIR).as_str(), GALLERY_DIR_NAME),
    }
}

/// The gallery's script: the schemes (as JSON) bound to `SCHEMES`, then the
/// gallery's code.
pub fn gallery_script(schemes_json: &str, code: &str) -> (res: String)
    ensures
        res@ == "const SCHEMES = "@ + schemes_json@ + ";\n\n"@ + code@,
{
    let mut s = cat3("const SCHEMES = ", schemes_json, ";\n\n");
    s.append(code);
    s
}

/// The notice printed once the gallery is written.
pub fn gallery_written_message(index_path: &str) -> (res: String)
    ensures
        res@ == "Gallery written to "@ + index_path@,
{
    cat("Gallery written to ", index_path)
}

} // verus!
