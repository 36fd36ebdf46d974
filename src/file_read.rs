//! The `file_read` tool: the sandbox rule, the MIME table, and how the outcome of a
//! read becomes a response. Touching the disk is left to the caller.

use vstd::prelude::*;
use vstd::string::*;
use vstd::utf8::encode_utf8;
use crate::mcp::{McpTool, opt_text};
use crate::text::{concat3, has_prefix, same_text, starts_with};

verus! {

/// Only paths that begin with this text are ever read.
pub open spec fn sandbox_root() -> Seq<char> {
    "/tmp/allowed_files/"@
}

/// Parameters of the `file_read` tool.
pub struct FileReadRequest {
    pub path: String,
}

/// What `file_read` hands back for a file it read.
pub struct FileReadResponse {
    pub content: String,
    pub path: String,
    pub size: usize,
    pub mime_type: Option<String>,
}

/// What the caller found on disk at a path inside the sandbox.
pub enum FileProbe {
    /// Nothing exists there.
    Missing,
    /// Something exists there, but it is not a regular file.
    NotAFile,
    /// The file could not be read as text; the reason is given.
    Unreadable(String),
    /// The file's text.
    Contents(String),
}

/// Why `file_read` gave no content.
pub enum FileReadError {
    AccessDenied,
    NotFound { path: String },
    NotAFile { path: String },
    ReadFailed { path: String, reason: String },
}

/// The human-readable text of a `file_read` failure.
pub open spec fn error_text(e: FileReadError) -> Seq<char> {
    match e {
        FileReadError::AccessDenied => "Access denied: File path must be within /tmp/allowed_files/"@,
        FileReadError::NotFound { path } => "File not found: "@ + path@,
        FileReadError::NotAFile { path } => "Path is not a file: "@ + path@,
        FileReadError::ReadFailed { path, reason } => "Failed to read file '"@ + path@ + "': "@
            + reason@,
    }
}

impl FileReadError {
    /// The human-readable text of this failure.
    pub fn message(&self) -> (r: String)
        ensures
            r@ == error_text(*self),
    {
        match self {
            FileReadError::AccessDenied => String::from_str(
                "Access denied: File path must be within /tmp/allowed_files/",
            ),
            FileReadError::NotFound { path } => {
                let mut s = String::from_str("File not found: ");
                s.append(path.as_str());
                s
            },
            FileReadError::NotAFile { path } => {
                let mut s = String::from_str("Path is not a file: ");
                s.append(path.as_str());
                s
            },
            FileReadError::ReadFailed { path, reason } => {
                let mut s = concat3("Failed to read file '", path.as_str(), "': ");
                s.append(reason.as_str());
                s
            },
        }
    }
}

/// Whether `path` lies inside the sandbox: a plain text prefix test, with no
/// normalisation of `..` and no resolution of links.
pub fn is_within_sandbox(path: &str) -> (r: bool)
    ensures
        r == starts_with(path@, sandbox_root()),
{
    has_prefix(path, "/tmp/allowed_files/")
}

/// The extension of the last component of a path, as `std::path::Path` reads it.
pub uninterp spec fn extension_of(path: Seq<char>) -> Option<Seq<char>>;

/// Relies on `std::path::Path::extension`: the extension of the path's file name,
/// which depends on the path's text alone.
#[verifier::external_body]
fn path_extension(path: &str) -> (r: Option<String>)
    ensures
        opt_text(r) == extension_of(path@),
{
    match std::path::Path::new(path).extension() {
        Some(ext) => ext.to_str().map(str::to_string),
        None => None,
    }
}

/// The MIME type that a file extension stands for.
pub open spec fn mime_for_extension(ext: Seq<char>) -> Option<Seq<char>> {
    if ext == "txt"@ {
        Some("text/plain"@)
    } else if ext == "md"@ {
        Some("text/markdown"@)
    } else if ext == "rs"@ {
        Some("text/x-rust"@)
    } else if ext == "py"@ {
        Some("text/x-python"@)
    } else if ext == "js"@ {
        Some("text/javascript"@)
    } else if ext == "ts"@ {
        Some("text/typescript"@)
    } else if ext == "json"@ {
        Some("application/json"@)
    } else if ext == "xml"@ {
        Some("application/xml"@)
    } else if ext == "html"@ {
        Some("text/html"@)
    } else if ext == "css"@ {
        Some("text/css"@)
    } else if ext == "yaml"@ || ext == "yml"@ {
        Some("application/x-yaml"@)
    } else if ext == "toml"@ {
        Some("application/toml"@)
    } else {
        None
    }
}

/// The MIME type of a path, by its extension.
pub open spec fn mime_of_path(path: Seq<char>) -> Option<Seq<char>> {
    match extension_of(path) {
        Some(ext) => mime_for_extension(ext),
        None => None,
    }
}

/// The MIME type that the file extension `ext` stands for, if it is a known one.
pub fn mime_type_for_extension(ext: &str) -> (r: Option<String>)
    ensures
        opt_text(r) == mime_for_extension(ext@),
{
    if same_text(ext, "txt") {
        Some(String::from_str("text/plain"))
    } else if same_text(ext, "md") {
        Some(String::from_str("text/markdown"))
    } else if same_text(ext, "rs") {
        Some(String::from_str("text/x-rust"))
    } else if same_text(ext, "py") {
        Some(String::from_str("text/x-python"))
    } else if same_text(ext, "js") {
        Some(String::from_str("text/javascript"))
    } else if same_text(ext, "ts") {
        Some(String::from_str("text/typescript"))
    } else if same_text(ext, "json") {
        Some(String::from_str("application/json"))
    } else if same_text(ext, "xml") {
        Some(String::from_str("application/xml"))
    } else if same_text(ext, "html") {
        Some(String::from_str("text/html"))
    } else if same_text(ext, "css") {
        Some(String::from_str("text/css"))
    } else if same_text(ext, "yaml") || same_text(ext, "yml") {
        Some(String::from_str("application/x-yaml"))
    } else if same_text(ext, "toml") {
        Some(String::from_str("application/toml"))
    } else {
        None
    }
}

/// Guesses a file's MIME type from the extension of its path.
pub fn guess_mime_type(path: &str) -> (r: Option<String>)
    ensures
        opt_text(r) == mime_of_path(path@),
{
    match path_extension(path) {
        Some(ext) => mime_type_for_extension(ext.as_str()),
        None => None,
    }
}

/// What `file_read` gives for a path inside the sandbox, by what was found there.
pub open spec fn read_outcome(
    path: Seq<char>,
    probe: FileProbe,
    r: Result<FileReadResponse, FileReadError>,
) -> bool {
    match probe {
        FileProbe::Missing => match r {
            Err(FileReadError::NotFound { path: p }) => p@ == path,
            _ => false,
        },
        FileProbe::NotAFile => match r {
            Err(FileReadError::NotAFile { path: p }) => p@ == path,
            _ => false,
        },
        FileProbe::Unreadable(reason) => match r {
            Err(FileReadError::ReadFailed { path: p, reason: why }) => p@ == path && why@
                == reason@,
            _ => false,
        },
        FileProbe::Contents(content) => match r {
            Ok(resp) => resp.content@ == content@ && resp.path@ == path && resp.size
                == encode_utf8(content@).len() as usize && opt_text(resp.mime_type) == mime_of_path(path),
            _ => false,
        },
    }
}

/// Runs `file_read` on `request`, given what was found on disk at its path.
/// A path outside the sandbox is refused whatever the probe says.
pub fn execute_file_read(request: FileReadRequest, probe: FileProbe) -> (r: Result<
    FileReadResponse,
    FileReadError,
>)
    ensures
        !starts_with(request.path@, sandbox_root()) ==> r matches Err(FileReadError::AccessDenied),
        starts_with(request.path@, sandbox_root()) ==> read_outcome(request.path@, probe, r),
{
    if !is_within_sandbox(request.path.as_str()) {
        return Err(FileReadError::AccessDenied);
    }
    match probe {
        FileProbe::Missing => Err(FileReadError::NotFound { path: request.path }),
        FileProbe::NotAFile => Err(FileReadError::NotAFile { path: request.path }),
        FileProbe::Unreadable(reason) => Err(FileReadError::ReadFailed { path: request.path, reason }),
        FileProbe::Contents(content) => {
            let size = content.as_str().len();
            let mime_type = guess_mime_type(request.path.as_str());
            Ok(FileReadResponse { content, path: request.path, size, mime_type })
        },
    }
}

/// Relies on `serde_json::from_str`: reads JSON text into a value, `None` where the
/// text is not JSON.
#[verifier::external_body]
fn parse_json(text: &str) -> (r: Option<serde_json::Value>) {
    serde_json::from_str(text).ok()
}

/// The description under which `file_read` is registered.
pub open spec fn file_read_description() -> Seq<char> {
    "Read the contents of a file from the filesystem. The path must be within /tmp/allowed_files/"@
}

/// The definition under which `file_read` is registered.
pub fn get_tool_definition() -> (r: McpTool)
    ensures
        r.name@ == "file_read"@,
        opt_text(r.description) == Some(file_read_description()),
{
    McpTool {
        name: String::from_str("file_read"),
        description: Some(
            String::from_str(
                "Read the contents of a file from the filesystem. The path must be within /tmp/allowed_files/",
            ),
        ),
        inputSchema: parse_json(
            "{\"type\":\"object\",\"properties\":{\"path\":{\"type\":\"string\",\"description\":\"The file path to read\"}},\"required\":[\"path\"]}",
        ),
    }
}

} // verus!
