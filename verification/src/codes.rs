//! The fixed table of known converter exit codes.
//!
//! The converter reports failures through its process exit status; the
//! codes below are its published error identifiers. Codes outside the
//! table are reported to callers with a generic message that preserves
//! the raw code for diagnostics.

use vstd::prelude::*;

verus! {

/// What the exit-code table says for `code`: the identifier of a known
/// converter error, or `None` for a code outside the table.
pub open spec fn error_code_message_spec(code: i32) -> Option<Seq<char>> {
    if code == 0x0001 {
        Some("AVS_FILEUTILS_ERROR_UNKNOWN"@)
    } else if code == 0x0050 {
        Some("AVS_FILEUTILS_ERROR_CONVERT"@)
    } else if code == 0x0051 {
        Some("AVS_FILEUTILS_ERROR_CONVERT_DOWNLOAD"@)
    } else if code == 0x0052 {
        Some("AVS_FILEUTILS_ERROR_CONVERT_UNKNOWN_FORMAT"@)
    } else if code == 0x0053 {
        Some("AVS_FILEUTILS_ERROR_CONVERT_TIMEOUT"@)
    } else if code == 0x0054 {
        Some("AVS_FILEUTILS_ERROR_CONVERT_READ_FILE"@)
    } else if code == 0x0055 {
        Some("AVS_FILEUTILS_ERROR_CONVERT_DRM_UNSUPPORTED"@)
    } else if code == 0x0056 {
        Some("AVS_FILEUTILS_ERROR_CONVERT_CORRUPTED"@)
    } else if code == 0x0057 {
        Some("AVS_FILEUTILS_ERROR_CONVERT_LIBREOFFICE"@)
    } else if code == 0x0058 {
        Some("AVS_FILEUTILS_ERROR_CONVERT_PARAMS"@)
    } else if code == 0x0059 {
        Some("AVS_FILEUTILS_ERROR_CONVERT_NEED_PARAMS"@)
    } else if code == 0x005a {
        Some("AVS_FILEUTILS_ERROR_CONVERT_DRM"@)
    } else if code == 0x005b {
        Some("AVS_FILEUTILS_ERROR_CONVERT_PASSWORD"@)
    } else if code == 0x005c {
        Some("AVS_FILEUTILS_ERROR_CONVERT_ICU"@)
    } else if code == 0x005d {
        Some("AVS_FILEUTILS_ERROR_CONVERT_LIMITS"@)
    } else if code == 0x005e {
        Some("AVS_FILEUTILS_ERROR_CONVERT_ROWLIMITS"@)
    } else if code == 0x005f {
        Some("AVS_FILEUTILS_ERROR_CONVERT_DETECT"@)
    } else if code == 0x0060 {
        Some("AVS_FILEUTILS_ERROR_CONVERT_CELLLIMITS"@)
    } else {
        None
    }
}

/// Translate a converter exit code to the common converter error messages.
///
/// Returns exactly what the fixed table holds for `code`.
pub fn get_error_code_message(code: i32) -> (r: Option<&'static str>)
    ensures
        match r {
            Some(s) => error_code_message_spec(code) == Some(s@),
            None => error_code_message_spec(code) is None,
        },
{
    match code {
        0x0001 => Some("AVS_FILEUTILS_ERROR_UNKNOWN"),
        0x0050 => Some("AVS_FILEUTILS_ERROR_CONVERT"),
        0x0051 => Some("AVS_FILEUTILS_ERROR_CONVERT_DOWNLOAD"),
        0x0052 => Some("AVS_FILEUTILS_ERROR_CONVERT_UNKNOWN_FORMAT"),
        0x0053 => Some("AVS_FILEUTILS_ERROR_CONVERT_TIMEOUT"),
        0x0054 => Some("AVS_FILEUTILS_ERROR_CONVERT_READ_FILE"),
        0x0055 => Some("AVS_FILEUTILS_ERROR_CONVERT_DRM_UNSUPPORTED"),
        0x0056 => Some("AVS_FILEUTILS_ERROR_CONVERT_CORRUPTED"),
        0x0057 => Some("AVS_FILEUTILS_ERROR_CONVERT_LIBREOFFICE"),
        0x0058 => Some("AVS_FILEUTILS_ERROR_CONVERT_PARAMS"),
        0x0059 => Some("AVS_FILEUTILS_ERROR_CONVERT_NEED_PARAMS"),
        0x005a => Some("AVS_FILEUTILS_ERROR_CONVERT_DRM"),
        0x005b => Some("AVS_FILEUTILS_ERROR_CONVERT_PASSWORD"),
        0x005c => Some("AVS_FILEUTILS_ERROR_CONVERT_ICU"),
        0x005d => Some("AVS_FILEUTILS_ERROR_CONVERT_LIMITS"),
        0x005e => Some("AVS_FILEUTILS_ERROR_CONVERT_ROWLIMITS"),
        0x005f => Some("AVS_FILEUTILS_ERROR_CONVERT_DETECT"),
        0x0060 => Some("AVS_FILEUTILS_ERROR_CONVERT_CELLLIMITS"),
        _ => None,
    }
}

} // verus!
