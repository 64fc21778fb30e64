//! Format detection: an input path is classified by the part after its last
//! dot into one of the supported ingestion strategies, or rejected.
use vstd::prelude::*;
use vstd::string::*;

use crate::text::{str_eq, suffix_after_last, suffix_after_last_sep};

verus! {

/// The two ingestion strategies the loader knows: the self-describing
/// columnar format read by the engine's native file loader, and the framed
/// columnar format decoded batch by batch into memory.
#[derive(Clone, Copy, Debug, PartialEq, Eq, Structural)]
pub enum FileFormat {
    Parquet,
    ArrowIpc,
}

/// The extension the detector inspects: the part of the path after its last
/// dot, or the whole path when it holds no dot.
pub open spec fn extension_of(path: Seq<char>) -> Seq<char> {
    suffix_after_last(path, '.')
}

/// The format a recognized extension selects; extensions are compared
/// case-sensitively.
pub open spec fn format_for(ext: Seq<char>) -> Option<FileFormat> {
    if ext == "parquet"@ {
        Some(FileFormat::Parquet)
    } else if ext == "arrow"@ || ext == "feather"@ {
        Some(FileFormat::ArrowIpc)
    } else {
        None
    }
}

/// The slice of the path the detector compares against the recognized set.
pub fn extension_part<'a>(path: &'a str) -> (r: &'a str)
    ensures
        r@ == extension_of(path@),
{
    suffix_after_last_sep(path, '.')
}

/// Classifies the path by its extension: the selected format, or the
/// unrecognized extension itself for the caller's error report.
pub fn detect_format(path: &str) -> (r: Result<FileFormat, String>)
    ensures
        r matches Ok(f) ==> format_for(extension_of(path@)) == Some(f),
        r matches Err(e) ==> format_for(extension_of(path@)) is None && e@ == extension_of(
            path@,
        ),
{
    let ext = extension_part(path);
    if str_eq(ext, "parquet") {
        Ok(FileFormat::Parquet)
    } else if str_eq(ext, "arrow") || str_eq(ext, "feather") {
        Ok(FileFormat::ArrowIpc)
    } else {
        Err(String::from_str(ext))
    }
}

} // verus!
