//! The command-line options, and the checks applied to their values.
use vstd::prelude::*;
use vstd::string::StringExecFns;
use crate::b64::Base64Format;
use crate::text::TextSignFormat;

verus! {

/// The file format a CSV file is converted to.
#[derive(Clone, Copy, Debug, PartialEq, Eq, Structural)]
pub enum OutputFormat {
    Json,
    Yaml,
}

/// The name of each output format, also the extension of its files.
pub open spec fn format_name(format: OutputFormat) -> Seq<char> {
    match format {
        OutputFormat::Json => "json"@,
        OutputFormat::Yaml => "yaml"@,
    }
}

impl OutputFormat {
    /// The format's name, in lower case.
    pub fn as_str(&self) -> (r: &'static str)
        ensures
            r@ == format_name(*self),
    {
        match self {
            OutputFormat::Json => "json",
            OutputFormat::Yaml => "yaml",
        }
    }
}

/// Options of the `csv` command.
#[derive(Debug)]
pub struct CsvOpts {
    pub input: String,
    pub output: Option<String>,
    pub delimiter: char,
    pub header: bool,
    pub format: OutputFormat,
}

impl CsvOpts {
    /// The file to write: the one given, else `output.<format>`.
    pub fn output_path(&self) -> (r: String)
        ensures
            match self.output {
                Some(path) => r@ == path@,
                None => r@ == "output."@ + format_name(self.format),
            },
    {
        match &self.output {
            Some(path) => path.clone(),
            None => String::from_str("output.").concat(self.format.as_str()),
        }
    }
}

/// The commands of the tool.
#[derive(Debug)]
pub enum Subcommand {
    Csv(CsvOpts),
}

/// The parsed command line.
#[derive(Debug)]
pub struct Opts {
    pub cmd: Subcommand,
}

/// `text` in lower case, as Unicode defines it.
pub uninterp spec fn lowercase_of(text: Seq<char>) -> Seq<char>;

/// Relies on str::to_lowercase: the result depends on the text alone.
#[verifier::external_body]
fn to_lowercase(text: &str) -> (r: String)
    ensures
        r@ == lowercase_of(text@),
{
    text.to_lowercase()
}

/// Relies on std::path::Path::exists, which asks the file system; nothing
/// is known of its answer.
#[verifier::external_body]
fn path_exists(path: &str) -> (r: bool) {
    std::path::Path::new(path).exists()
}

/// Relies on std::path::Path::is_dir, which asks the file system; nothing
/// is known of its answer.
#[verifier::external_body]
fn path_is_dir(path: &str) -> (r: bool) {
    std::path::Path::new(path).is_dir()
}

/// Whether two texts are the same.
fn same_text(a: &str, b: &str) -> (r: bool)
    ensures
        r == (a@ == b@),
{
    a.to_owned() == b.to_owned()
}

/// What `parse_format` gives for a name that is already in lower case.
pub open spec fn parse_format_spec(lower: Seq<char>) -> Result<OutputFormat, Seq<char>> {
    if lower == "json"@ {
        Ok(OutputFormat::Json)
    } else if lower == "yaml"@ {
        Ok(OutputFormat::Yaml)
    } else {
        Err(lower)
    }
}

/// Reads an output format by name, in any case; an unknown name comes back,
/// in lower case, as the error.
pub fn parse_format(format: &str) -> (r: Result<OutputFormat, String>)
    ensures
        match parse_format_spec(lowercase_of(format@)) {
            Ok(f) => r == Ok::<OutputFormat, String>(f),
            Err(name) => r is Err && r->Err_0@ == name,
        },
{
    let lower = to_lowercase(format);
    if same_text(lower.as_str(), "json") {
        Ok(OutputFormat::Json)
    } else if same_text(lower.as_str(), "yaml") {
        Ok(OutputFormat::Yaml)
    } else {
        Err(lower)
    }
}

/// Reads a signing algorithm by its name, `blake3` or `ed25519`; another
/// name comes back as the error.
pub fn parse_text_sign_format(name: &str) -> (r: Result<TextSignFormat, String>)
    ensures
        name@ == "blake3"@ ==> r == Ok::<TextSignFormat, String>(TextSignFormat::Blake3),
        name@ == "ed25519"@ ==> r == Ok::<TextSignFormat, String>(TextSignFormat::Ed25519),
        name@ != "blake3"@ && name@ != "ed25519"@ ==> r is Err && r->Err_0@ == name@,
{
    proof {
        reveal_strlit("blake3");
        reveal_strlit("ed25519");
        assert("blake3"@[0] != "ed25519"@[0]);
    }
    if same_text(name, "blake3") {
        Ok(TextSignFormat::Blake3)
    } else if same_text(name, "ed25519") {
        Ok(TextSignFormat::Ed25519)
    } else {
        Err(name.to_owned())
    }
}

/// Reads a base64 variant by its name, `standard` or `urlsafe`; another
/// name comes back as the error.
pub fn parse_base64_format(name: &str) -> (r: Result<Base64Format, String>)
    ensures
        name@ == "standard"@ ==> r == Ok::<Base64Format, String>(Base64Format::Standard),
        name@ == "urlsafe"@ ==> r == Ok::<Base64Format, String>(Base64Format::UrlSafe),
        name@ != "standard"@ && name@ != "urlsafe"@ ==> r is Err && r->Err_0@ == name@,
{
    proof {
        reveal_strlit("standard");
        reveal_strlit("urlsafe");
        assert("standard"@[0] != "urlsafe"@[0]);
    }
    if same_text(name, "standard") {
        Ok(Base64Format::Standard)
    } else if same_text(name, "urlsafe") {
        Ok(Base64Format::UrlSafe)
    } else {
        Err(name.to_owned())
    }
}

/// The message of a file argument that names no file.
pub open spec fn missing_file_message() -> Seq<char> {
    "File does not exists"@
}

/// Accepts `-` (standard input) or the name of something that exists, as
/// `exists` says.
pub fn check_file(filename: &str, exists: bool) -> (r: Result<String, &'static str>)
    ensures
        filename@ == "-"@ || exists ==> r is Ok && r->Ok_0@ == filename@,
        !(filename@ == "-"@ || exists) ==> r is Err && r->Err_0@ == missing_file_message(),
{
    if same_text(filename, "-") || exists {
        Ok(filename.to_owned())
    } else {
        Err("File does not exists")
    }
}

/// Accepts `-` (standard input) or the name of something that exists on disk.
pub fn verify_file(filename: &str) -> (r: Result<String, &'static str>)
    ensures
        filename@ == "-"@ ==> r is Ok && r->Ok_0@ == filename@,
        r is Ok ==> r->Ok_0@ == filename@,
        r is Err ==> r->Err_0@ == missing_file_message(),
{
    if same_text(filename, "-") {
        check_file(filename, false)
    } else {
        check_file(filename, path_exists(filename))
    }
}

/// Accepts the name of something that exists, as `exists` says.
pub fn check_input_file(filename: &str, exists: bool) -> (r: Result<String, String>)
    ensures
        exists ==> r is Ok && r->Ok_0@ == filename@,
        !exists ==> r is Err && r->Err_0@ == missing_file_message(),
{
    if exists {
        Ok(filename.to_owned())
    } else {
        Err("File does not exists".to_owned())
    }
}

/// Accepts the name of something that exists on disk.
pub fn verify_input_file(filename: &str) -> (r: Result<String, String>)
    ensures
        r is Ok ==> r->Ok_0@ == filename@,
        r is Err ==> r->Err_0@ == missing_file_message(),
{
    check_input_file(filename, path_exists(filename))
}

/// The message of a path argument that names no directory.
pub open spec fn missing_dir_message() -> Seq<char> {
    "Path is not exists or is not a directory"@
}

/// Accepts a path when `exists` and `is_dir` both hold of it.
pub fn check_dir(path: &str, exists: bool, is_dir: bool) -> (r: Result<String, &'static str>)
    ensures
        exists && is_dir ==> r is Ok && r->Ok_0@ == path@,
        !(exists && is_dir) ==> r is Err && r->Err_0@ == missing_dir_message(),
{
    if exists && is_dir {
        Ok(path.to_owned())
    } else {
        Err("Path is not exists or is not a directory")
    }
}

/// Accepts the name of a directory that exists on disk.
pub fn verify_path(path: &str) -> (r: Result<String, &'static str>)
    ensures
        r is Ok ==> r->Ok_0@ == path@,
        r is Err ==> r->Err_0@ == missing_dir_message(),
{
    let exists = path_exists(path);
    let is_dir = exists && path_is_dir(path);
    check_dir(path, exists, is_dir)
}

} // verus!
