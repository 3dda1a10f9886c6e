//! The command surface as plain data, and the checks and parsers that its
//! arguments go through.

use vstd::prelude::*;
use crate::text::TextSignFormat;

verus! {

/// What a CSV file is converted to.
#[derive(Clone, Copy, Debug, PartialEq, Eq, Structural)]
pub enum OutputFormat {
    Json,
    Yaml,
}

/// A format name that no format answers to.
#[derive(Debug, PartialEq, Eq)]
pub enum FormatError {
    /// The name given, which is not a supported format.
    Unsupported(String),
}

/// Options of the CSV conversion.
pub struct CsvOpts {
    pub input: String,
    pub output: Option<String>,
    pub format: OutputFormat,
    pub delimiter: char,
    pub header: bool,
}

/// Options of password generation.
pub struct GenPassOpts {
    pub length: u8,
    pub uppercase: bool,
    pub lowercase: bool,
    pub number: bool,
    pub symbol: bool,
}

/// Options of serving a directory over HTTP.
pub struct HettpServeOpts {
    pub dir: String,
    pub port: u16,
}

/// The HTTP subcommands.
pub enum HttpSubCommand {
    Serve(HettpServeOpts),
}

/// Options of signing a text source.
pub struct TextSignOpts {
    pub input: String,
    pub key: String,
    pub format: TextSignFormat,
}

/// Options of verifying a signature over a text source.
pub struct TextVerifyOpts {
    pub input: String,
    pub key: String,
    pub format: TextSignFormat,
    pub sig: String,
}

/// Options of key generation: the format and the directory the keys go to.
pub struct TextKeyGenerateOpts {
    pub format: TextSignFormat,
    pub output: String,
}

/// The text-signing subcommands.
pub enum TextSubCommand {
    Sign(TextSignOpts),
    Verify(TextVerifyOpts),
    Generate(TextKeyGenerateOpts),
}

/// The subcommands of the tool.
pub enum SubCommand {
    Csv(CsvOpts),
    GenPass(GenPassOpts),
    Text(TextSubCommand),
    Http(HttpSubCommand),
}

/// The parsed command line.
pub struct Opts {
    pub cmd: SubCommand,
}

/// The message given for an input file that does not exist.
pub open spec fn missing_file_message() -> Seq<char> {
    "文件不存在!"@
}

/// The message given for a path that is not an existing directory.
pub open spec fn not_a_directory_message() -> Seq<char> {
    "Path does not exist or is not a directory"@
}

/// Whether a name stands for standard input.
pub open spec fn is_stdin_name(name: Seq<char>) -> bool {
    name == seq!['-']
}

/// Relies on `std::path::Path::exists`: whatever the file system says now.
#[verifier::external_body]
fn path_exists(p: &str) -> (r: bool) {
    std::path::Path::new(p).exists()
}

/// Relies on `std::path::Path::is_dir`: whatever the file system says now.
#[verifier::external_body]
fn path_is_dir(p: &str) -> (r: bool) {
    std::path::Path::new(p).is_dir()
}

/// Character-wise equality of two strings.
pub fn str_equals(s: &str, t: &str) -> (r: bool)
    ensures
        r == (s@ == t@),
{
    let n = s.unicode_len();
    if n != t.unicode_len() {
        return false;
    }
    let mut i: usize = 0;
    while i < n
        invariant
            n == s@.len(),
            n == t@.len(),
            i <= n,
            forall|j: int| 0 <= j < i ==> s@[j] == t@[j],
        decreases n - i,
    {
        if s.get_char(i) != t.get_char(i) {
            return false;
        }
        i = i + 1;
    }
    assert(s@ =~= t@);
    true
}

/// Accepts an input name that is `-` (standard input) or that names an
/// existing file, given whether it exists.
pub fn check_input_name(file_name: &str, exists: bool) -> (r: Result<String, &'static str>)
    ensures
        r is Ok <==> (is_stdin_name(file_name@) || exists),
        r is Ok ==> r->Ok_0@ == file_name@,
        r is Err ==> r->Err_0@ == missing_file_message(),
{
    let stdin_name = file_name.unicode_len() == 1 && file_name.get_char(0) == '-';
    assert(stdin_name == is_stdin_name(file_name@)) by {
        if file_name@.len() == 1 && file_name@[0] == '-' {
            assert(file_name@ =~= seq!['-']);
        }
    }
    if stdin_name || exists {
        Ok(file_name.to_owned())
    } else {
        Err("文件不存在!")
    }
}

/// Accepts `-` or the name of an existing file.
pub fn verify_file(file_name: &str) -> (r: Result<String, &'static str>)
    ensures
        is_stdin_name(file_name@) ==> r is Ok,
        r is Ok ==> r->Ok_0@ == file_name@,
        r is Err ==> r->Err_0@ == missing_file_message(),
{
    let exists = path_exists(file_name);
    check_input_name(file_name, exists)
}

/// Accepts a file name, given whether it names an existing file; `-` is no
/// exception here.
pub fn check_existing_name(file_name: &str, exists: bool) -> (r: Result<String, &'static str>)
    ensures
        r is Ok <==> exists,
        r is Ok ==> r->Ok_0@ == file_name@,
        r is Err ==> r->Err_0@ == missing_file_message(),
{
    if exists {
        Ok(file_name.to_owned())
    } else {
        Err("文件不存在!")
    }
}

/// Accepts the name of an existing file.
pub fn verify_input_file(file_name: &str) -> (r: Result<String, &'static str>)
    ensures
        r is Ok ==> r->Ok_0@ == file_name@,
        r is Err ==> r->Err_0@ == missing_file_message(),
{
    let exists = path_exists(file_name);
    check_existing_name(file_name, exists)
}

/// Accepts a path, given whether it names an existing directory.
pub fn check_dir_path(path: &str, is_dir: bool) -> (r: Result<String, &'static str>)
    ensures
        r is Ok <==> is_dir,
        r is Ok ==> r->Ok_0@ == path@,
        r is Err ==> r->Err_0@ == not_a_directory_message(),
{
    if is_dir {
        Ok(path.to_owned())
    } else {
        Err("Path does not exist or is not a directory")
    }
}

/// Accepts the path of an existing directory.
pub fn verify_path(path: &str) -> (r: Result<String, &'static str>)
    ensures
        r is Ok ==> r->Ok_0@ == path@,
        r is Err ==> r->Err_0@ == not_a_directory_message(),
{
    let is_dir = path_exists(path) && path_is_dir(path);
    check_dir_path(path, is_dir)
}

/// The name of an output format.
pub open spec fn format_name(format: OutputFormat) -> Seq<char> {
    match format {
        OutputFormat::Json => "json"@,
        OutputFormat::Yaml => "yaml"@,
    }
}

/// Parses an output format name: `json` or `yaml`.
pub fn parse_format(format: &str) -> (r: Result<OutputFormat, FormatError>)
    ensures
        r is Ok <==> (format@ == "json"@ || format@ == "yaml"@),
        r is Ok ==> format_name(r->Ok_0) == format@,
        r is Err ==> (match r->Err_0 {
            FormatError::Unsupported(s) => s@ == format@,
        }),
{
    if str_equals(format, "json") {
        Ok(OutputFormat::Json)
    } else if str_equals(format, "yaml") {
        Ok(OutputFormat::Yaml)
    } else {
        Err(FormatError::Unsupported(format.to_owned()))
    }
}

impl OutputFormat {
    /// The name of the format, as `parse_format` reads it.
    pub fn as_str(&self) -> (r: &'static str)
        ensures
            r@ == format_name(*self),
    {
        match self {
            OutputFormat::Json => "json",
            OutputFormat::Yaml => "yaml",
        }
    }
}

impl From<OutputFormat> for &'static str {
    fn from(format: OutputFormat) -> (r: &'static str) {
        match format {
            OutputFormat::Json => "json",
            OutputFormat::Yaml => "yaml",
        }
    }
}

impl vstd::std_specs::convert::FromSpecImpl<OutputFormat> for &'static str {
    open spec fn obeys_from_spec() -> bool {
        true
    }

    open spec fn from_spec(v: OutputFormat) -> &'static str {
        match v {
            OutputFormat::Json => "json",
            OutputFormat::Yaml => "yaml",
        }
    }
}

impl std::str::FromStr for OutputFormat {
    type Err = FormatError;

    fn from_str(s: &str) -> Result<Self, Self::Err> {
        parse_format(s)
    }
}

/// Parses a signing format name: `blake3` or `ed25519`.
pub fn parse_text_sign_format(format: &str) -> (r: Result<TextSignFormat, FormatError>)
    ensures
        r is Ok <==> (format@ == "blake3"@ || format@ == "ed25519"@),
        r is Ok ==> (r->Ok_0 == TextSignFormat::Blake3 <==> format@ == "blake3"@),
        r is Err ==> (match r->Err_0 {
            FormatError::Unsupported(s) => s@ == format@,
        }),
{
    if str_equals(format, "blake3") {
        Ok(TextSignFormat::Blake3)
    } else if str_equals(format, "ed25519") {
        Ok(TextSignFormat::Ed25519)
    } else {
        Err(FormatError::Unsupported(format.to_owned()))
    }
}

} // verus!
