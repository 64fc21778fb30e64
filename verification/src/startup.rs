//! Startup planning: the one decision made before the loop starts. A path
//! is either mapped to a load plan — a detected format and the table name to
//! register — or rejected with the error the process aborts with. Every
//! startup failure is fatal and happens before the loop; nothing here can
//! fail later.
use vstd::prelude::*;
use vstd::string::*;

use crate::format::{detect_format, extension_of, format_for, FileFormat};
use crate::naming::{table_name_for, table_name_of};

verus! {

/// The startup failures, all fatal before the loop starts: an extension
/// outside the recognized set, a file the engine could not read or decode,
/// and a registration the engine refused. The latter two carry the engine's
/// own message, forwarded without reinterpretation.
#[derive(Debug, PartialEq, Eq)]
pub enum StartupError {
    FormatUnsupported(String),
    SourceUnreadable(String),
    RegistrationFailed(String),
}

/// What a successful plan commits the loader to: one registration of the
/// derived table name, through the strategy the detected format selects.
#[derive(Debug, PartialEq, Eq)]
pub struct LoadPlan {
    pub format: FileFormat,
    pub table_name: String,
}

/// The message an unrecognized extension aborts with, naming the rejected
/// extension.
pub open spec fn unsupported_message(ext: Seq<char>) -> Seq<char> {
    "Unsupported file type '"@ + ext + "'. Only .parquet, .arrow, and .feather are supported."@
}

/// The message a startup error is reported with: the fixed text naming the
/// rejected extension, or the engine's own message forwarded as it came.
pub open spec fn startup_message_of(e: StartupError) -> Seq<char> {
    match e {
        StartupError::FormatUnsupported(ext) => unsupported_message(ext@),
        StartupError::SourceUnreadable(m) => m@,
        StartupError::RegistrationFailed(m) => m@,
    }
}

/// Plans the startup for the given input path: the detected format together
/// with the sanitized table name, or the rejection of an unrecognized
/// extension. This is the whole of the format detector's and the namer's
/// duty; performing the plan is the loader's.
pub fn plan_startup(path: &str) -> (r: Result<LoadPlan, StartupError>)
    ensures
        r matches Ok(p) ==> format_for(extension_of(path@)) == Some(p.format)
            && p.table_name@ == table_name_of(path@),
        r matches Err(e) ==> format_for(extension_of(path@)) is None && (e matches
        StartupError::FormatUnsupported(ext) && ext@ == extension_of(path@)),
{
    match detect_format(path) {
        Ok(format) => {
            let table_name = table_name_for(path);
            Ok(LoadPlan { format, table_name })
        },
        Err(ext) => Err(StartupError::FormatUnsupported(ext)),
    }
}

/// The message for a startup error, exactly as specified per variant.
pub fn startup_error_message(e: &StartupError) -> (r: String)
    ensures
        r@ == startup_message_of(*e),
{
    match e {
        StartupError::FormatUnsupported(ext) => {
            String::from_str("Unsupported file type '").concat(ext.as_str()).concat(
                "'. Only .parquet, .arrow, and .feather are supported.",
            )
        },
        StartupError::SourceUnreadable(m) => m.clone(),
        StartupError::RegistrationFailed(m) => m.clone(),
    }
}

/// The line a startup failure is printed under before the process aborts.
pub fn startup_failure_line(e: &StartupError) -> (r: String)
    ensures
        r@ == "Application error: "@ + startup_message_of(*e),
{
    let msg = startup_error_message(e);
    String::from_str("Application error: ").concat(msg.as_str())
}

/// A successful plan registers exactly one table, and its name is the
/// sanitized file stem: appending it to any registry grows the registry by
/// one, with the new name last and everything before unchanged.
pub proof fn lemma_startup_registers_one(path: Seq<char>, registry: Seq<Seq<char>>)
    ensures
        registry.push(table_name_of(path)).len() == registry.len() + 1,
        registry.push(table_name_of(path))[registry.len() as int] == table_name_of(path),
        forall|i: int| 0 <= i < registry.len() ==> registry.push(table_name_of(path))[i]
            == registry[i],
{
}

} // verus!
