use crate::error::{outcome_view, AgentyError, ErrorView};
use crate::message::text_view;
use crate::text::{decimal, decimal_text, join_lines, joined, texts_view};
use crate::tools::path::{
    is_absolute, is_absolute_path, join, joined_path, parts, parts_of_path, quoted, quoted_path,
    PathPart,
};
use hxd::AsHexd;
use vstd::prelude::*;
use vstd::utf8::{decode_utf8, valid_utf8};

verus! {

/// The longest file content, in bytes, that the read tool hands to the model.
pub const READ_LIMIT: usize = 8192;

/// Whether a requested path is admitted, given what is known of it: an
/// absolute path and a path with a `..` component are turned down, in that
/// order, with `shown` naming the path; any other path is admitted as
/// `joined`.
pub open spec fn admitted(
    absolute: bool,
    parts: Seq<PathPart>,
    shown: Seq<char>,
    joined: Seq<char>,
) -> Result<Seq<char>, Seq<char>> {
    if absolute {
        Err(shown + " is an absolute path"@)
    } else if parts.contains(PathPart::ParentDir) {
        Err(shown + " contains '..'"@)
    } else {
        Ok(joined)
    }
}

/// What `sanitize_join_relative_path` answers for the path `rpath` below
/// `cwd`.
pub open spec fn sanitized(cwd: Seq<char>, rpath: Seq<char>) -> Result<Seq<char>, Seq<char>> {
    admitted(
        is_absolute_path(rpath),
        parts_of_path(rpath),
        quoted_path(rpath),
        joined_path(cwd, rpath),
    )
}

/// The value of a path or the reason it was turned down.
pub open spec fn path_view(r: Result<String, String>) -> Result<Seq<char>, Seq<char>> {
    match r {
        Ok(path) => Ok(path@),
        Err(reason) => Err(reason@),
    }
}

/// Tells whether a path steps up: whether one of its components is `..`.
pub fn steps_up(parts: &Vec<PathPart>) -> (r: bool)
    ensures
        r == parts@.contains(PathPart::ParentDir),
{
    let mut i: usize = 0;
    while i < parts.len()
        invariant
            i <= parts@.len(),
            forall|k: int| 0 <= k < i ==> parts@[k] != PathPart::ParentDir,
        decreases parts@.len() - i,
    {
        if parts[i] == PathPart::ParentDir {
            assert(parts@[i as int] == PathPart::ParentDir);
            return true;
        }
        i += 1;
    }
    false
}

/// Decides whether a requested path is admitted, from what is known of it.
pub fn admit_path(absolute: bool, parts: &Vec<PathPart>, shown: String, joined: String) -> (r:
    Result<String, String>)
    ensures
        path_view(r) == admitted(absolute, parts@, shown@, joined@),
{
    let mut reason = shown;
    if absolute {
        reason.append(" is an absolute path");
        Err(reason)
    } else if steps_up(parts) {
        reason.append(" contains '..'");
        Err(reason)
    } else {
        Ok(joined)
    }
}

/// Joins a relative path onto a root so that the result stays below the
/// root: an absolute path is turned down, and so is one that steps up with
/// `..`. The error is the text that tells the model why.
pub fn sanitize_join_relative_path(cwd: &str, rpath: &str) -> (r: Result<String, String>)
    ensures
        path_view(r) == sanitized(cwd@, rpath@),
{
    admit_path(is_absolute(rpath), &parts(rpath), quoted(rpath), join(cwd, rpath))
}

/// What the file system says a directory entry is.
#[derive(Debug, Clone, Copy, PartialEq, Eq, Structural)]
pub enum FileKind {
    Directory,
    File,
    Symlink,
    Other,
}

impl FileKind {
    /// The word a listing shows for the kind.
    pub open spec fn label(self) -> Seq<char> {
        match self {
            FileKind::Directory => "directory"@,
            FileKind::File => "file"@,
            FileKind::Symlink => "symlink"@,
            FileKind::Other => ""@,
        }
    }

    /// The kind of an entry that answers the three questions so: a
    /// directory before a file before a symlink.
    pub open spec fn classify(is_dir: bool, is_file: bool, is_symlink: bool) -> FileKind {
        if is_dir {
            FileKind::Directory
        } else if is_file {
            FileKind::File
        } else if is_symlink {
            FileKind::Symlink
        } else {
            FileKind::Other
        }
    }

    pub fn of(is_dir: bool, is_file: bool, is_symlink: bool) -> (r: FileKind)
        ensures
            r == FileKind::classify(is_dir, is_file, is_symlink),
    {
        if is_dir {
            FileKind::Directory
        } else if is_file {
            FileKind::File
        } else if is_symlink {
            FileKind::Symlink
        } else {
            FileKind::Other
        }
    }

    pub fn text(&self) -> (r: &'static str)
        ensures
            r@ == self.label(),
    {
        match self {
            FileKind::Directory => "directory",
            FileKind::File => "file",
            FileKind::Symlink => "symlink",
            FileKind::Other => "",
        }
    }
}

/// One entry of a listing: its path below the root, what it is, and its
/// size in bytes.
#[derive(Debug, PartialEq, Eq)]
pub struct FileEntry {
    pub path: String,
    pub kind: FileKind,
    pub size: u64,
}

pub struct FileEntryView {
    pub path: Seq<char>,
    pub kind: FileKind,
    pub size: nat,
}

impl View for FileEntry {
    type V = FileEntryView;

    open spec fn view(&self) -> FileEntryView {
        FileEntryView { path: self.path@, kind: self.kind, size: self.size as nat }
    }
}

/// A line of a listing: the path as it is shown, the kind and the size, with
/// tabs between them.
pub open spec fn line_of(shown: Seq<char>, kind: FileKind, size: nat) -> Seq<char> {
    shown + "\t"@ + kind.label() + "\t"@ + decimal(size)
}

impl FileEntryView {
    /// The line of a listing for the entry, with its path in quotes.
    pub open spec fn line(self) -> Seq<char> {
        line_of(quoted_path(self.path), self.kind, self.size)
    }
}

/// The lines of a listing, one for each entry, in order.
pub open spec fn listing(entries: Seq<FileEntry>) -> Seq<Seq<char>> {
    Seq::new(entries.len(), |i: int| entries[i]@.line())
}

/// Lays out one line of a listing.
pub fn entry_line(shown: &str, kind: FileKind, size: u64) -> (r: String)
    ensures
        r@ == line_of(shown@, kind, size as nat),
{
    let mut ln = String::from_str(shown);
    ln.append("\t");
    ln.append(kind.text());
    ln.append("\t");
    ln.append(decimal_text(size).as_str());
    ln
}

/// Lays out a listing: one line for each entry, in order.
pub fn list_files(entries: &Vec<FileEntry>) -> (r: Vec<String>)
    ensures
        texts_view(r@) == listing(entries@),
{
    let mut lns: Vec<String> = Vec::new();
    let mut i: usize = 0;
    while i < entries.len()
        invariant
            i <= entries@.len(),
            lns@.len() == i,
            forall|k: int| 0 <= k < i ==> lns@[k]@ == entries@[k]@.line(),
        decreases entries@.len() - i,
    {
        let entry = &entries[i];
        lns.push(entry_line(quoted(entry.path.as_str()).as_str(), entry.kind, entry.size));
        i += 1;
    }
    assert(texts_view(lns@) =~= listing(entries@));
    lns
}

/// Arguments of the tool that reads a file.
#[derive(Debug, Default)]
pub struct ReadFileToolArgs {
    pub file_path: String,
}

/// Reads files below a root directory.
#[derive(Debug, Clone)]
pub struct ReadFileTool {
    pub cwd: String,
}

/// What the file system reported for the file that is to be read.
#[derive(Debug, PartialEq, Eq)]
pub enum FileProbe {
    /// Its metadata cannot be had, for the reason given.
    NoMetadata(String),
    /// It is a directory.
    Directory,
    /// It cannot be opened, for the reason given.
    NotOpened(String),
    /// It cannot be read to its end, for the reason given.
    NotRead(String),
    /// Its content.
    Contents(Vec<u8>),
}

/// The bytes of a file that are shown: the first `READ_LIMIT` of them.
pub open spec fn shown_bytes(bytes: Seq<u8>) -> Seq<u8> {
    if bytes.len() >= READ_LIMIT {
        bytes.subrange(0, READ_LIMIT as int)
    } else {
        bytes
    }
}

/// How `hxd` dumps the bytes with its default options.
pub uninterp spec fn hexdump_text(bytes: Seq<u8>) -> Seq<char>;

/// The text that shows a file's content: the shown bytes as text where they
/// are UTF-8, and their hexdump where they are not.
pub open spec fn shown_text(bytes: Seq<u8>) -> Seq<char> {
    if valid_utf8(shown_bytes(bytes)) {
        decode_utf8(shown_bytes(bytes))
    } else {
        hexdump_text(shown_bytes(bytes))
    }
}

/// What the read tool answers for a file whose path is shown as `shown`,
/// given what the file system reported for it.
pub open spec fn read_answer(shown: Seq<char>, probe: FileProbe) -> Result<Seq<char>, ErrorView> {
    match probe {
        FileProbe::NoMetadata(reason) => Ok(
            "Fail to get metadata of "@ + shown + " due to "@ + reason@,
        ),
        FileProbe::Directory => Ok("Path "@ + shown + " is a directory"@),
        FileProbe::NotOpened(reason) => Ok("Fail to open "@ + shown + " due to "@ + reason@),
        FileProbe::NotRead(reason) => Err(ErrorView::IO(reason@)),
        FileProbe::Contents(bytes) => Ok(shown_text(bytes@)),
    }
}

/// What the read tool answers for a file at `target`.
pub open spec fn read_reply(target: Seq<char>, probe: FileProbe) -> Result<Seq<char>, ErrorView> {
    read_answer(quoted_path(target), probe)
}

/// Decodes bytes as UTF-8.
///
/// Calls `String::from_utf8`, and `FromUtf8Error::into_bytes` on its error.
/// Trusted: the bytes decode exactly when they are valid UTF-8, to the text
/// they encode; bytes that do not decode are handed back as they were.
#[verifier::external_body]
fn decode(bytes: Vec<u8>) -> (r: Result<String, Vec<u8>>)
    ensures
        r is Ok <==> valid_utf8(bytes@),
        r matches Ok(text) ==> text@ == decode_utf8(bytes@),
        r matches Err(rest) ==> rest@ == bytes@,
{
    match String::from_utf8(bytes) {
        Ok(text) => Ok(text),
        Err(e) => Err(e.into_bytes()),
    }
}

/// Dumps bytes as hexadecimal lines.
///
/// Calls `hxd::AsHexd::hexd` and `hxd::Hexd::dump_to::<String>`. Trusted: the
/// dump depends on the bytes alone.
#[verifier::external_body]
fn hexdump(bytes: &Vec<u8>) -> (r: String)
    requires
        bytes@.len() <= READ_LIMIT,
    ensures
        r@ == hexdump_text(bytes@),
{
    bytes.hexd().dump_to::<String>()
}

impl ReadFileTool {
    pub open spec fn spec_name() -> Seq<char> {
        "read_file"@
    }

    pub open spec fn spec_description() -> Seq<char> {
        "Read file contents of the path `file_path`. The result will be hexdump if the file is a binary file."@
    }

    pub fn new(cwd: String) -> (r: Self)
        ensures
            r.cwd == cwd,
    {
        ReadFileTool { cwd }
    }

    /// The name the tool is registered under.
    pub fn name() -> (r: String)
        ensures
            r@ == Self::spec_name(),
    {
        String::from_str("read_file")
    }

    /// What the tool tells the model about itself.
    pub fn description() -> (r: String)
        ensures
            r@ == Self::spec_description(),
    {
        String::from_str(
            "Read file contents of the path `file_path`. The result will be hexdump if the file is a binary file.",
        )
    }

    /// The file that a request names, or the answer that turns the request
    /// down.
    pub fn target(&self, file_path: &str) -> (r: Result<String, String>)
        ensures
            path_view(r) == sanitized(self.cwd@, file_path@),
    {
        sanitize_join_relative_path(self.cwd.as_str(), file_path)
    }

    /// Cuts a file's content to the bytes that are shown.
    pub fn cut(contents: Vec<u8>) -> (r: Vec<u8>)
        ensures
            r@ == shown_bytes(contents@),
    {
        let mut buf = contents;
        if buf.len() >= READ_LIMIT {
            buf.truncate(READ_LIMIT);
        }
        buf
    }

    /// Shows a file's content: at most `READ_LIMIT` bytes, as text where
    /// they are UTF-8 and as a hexdump where they are not.
    pub fn show(contents: Vec<u8>) -> (r: String)
        ensures
            r@ == shown_text(contents@),
    {
        match decode(Self::cut(contents)) {
            Ok(text) => text,
            Err(bytes) => hexdump(&bytes),
        }
    }

    /// Answers a request for a file whose path is shown as `shown`, from
    /// what the file system reported for it. Only a failed read is an
    /// error; everything else the model is told in the answer.
    pub fn answer(shown: &str, probe: FileProbe) -> (r: Result<String, AgentyError>)
        ensures
            outcome_view(r) == read_answer(shown@, probe),
    {
        match probe {
            FileProbe::NoMetadata(reason) => {
                let mut reply = String::from_str("Fail to get metadata of ");
                reply.append(shown);
                reply.append(" due to ");
                reply.append(reason.as_str());
                Ok(reply)
            },
            FileProbe::Directory => {
                let mut reply = String::from_str("Path ");
                reply.append(shown);
                reply.append(" is a directory");
                Ok(reply)
            },
            FileProbe::NotOpened(reason) => {
                let mut reply = String::from_str("Fail to open ");
                reply.append(shown);
                reply.append(" due to ");
                reply.append(reason.as_str());
                Ok(reply)
            },
            FileProbe::NotRead(reason) => Err(AgentyError::IO(reason)),
            FileProbe::Contents(bytes) => Ok(Self::show(bytes)),
        }
    }

    /// Answers a request for the file at `target` from what the file system
    /// reported for it.
    pub fn read_file(target: &str, probe: FileProbe) -> (r: Result<String, AgentyError>)
        ensures
            outcome_view(r) == read_reply(target@, probe),
    {
        Self::answer(quoted(target).as_str(), probe)
    }
}

/// The answer for a path, shown as `shown`, that is no directory.
pub open spec fn not_a_directory(shown: Seq<char>) -> Seq<char> {
    shown + " is not a directory"@
}

/// Tells the model that `path` is no directory.
pub fn not_a_directory_reply(path: &str) -> (r: String)
    ensures
        r@ == not_a_directory(quoted_path(path@)),
{
    let mut reply = quoted(path);
    reply.append(" is not a directory");
    reply
}

/// A listing under a heading: the heading, then the lines with line feeds
/// between them.
pub open spec fn under_heading(heading: Seq<char>, lines: Seq<Seq<char>>) -> Seq<char> {
    heading + joined(lines, "\n"@)
}

/// The heading of the listing of a directory whose path is shown as `shown`.
pub open spec fn directory_heading(shown: Seq<char>) -> Seq<char> {
    "The contents of folder "@ + shown + " is:\nname\ttype\tsize\n"@
}

/// Arguments of the tool that lists a directory.
#[derive(Debug)]
pub struct ListDirectoryToolArgs {
    pub relative_path: String,
}

/// Lists directories below a root directory.
#[derive(Debug, Clone)]
pub struct ListDirectoryTool {
    pub cwd: String,
}

/// What the file system reported for the directory that is to be listed.
#[derive(Debug, PartialEq, Eq)]
pub enum DirectoryProbe {
    /// It is no directory.
    NotADirectory,
    /// It cannot be read, for the reason given.
    Failed(String),
    /// Its entries.
    Entries(Vec<FileEntry>),
}

/// What the list tool answers for the directory `relative_path`, found at
/// `target`.
pub open spec fn directory_reply(
    relative_path: Seq<char>,
    target: Seq<char>,
    probe: DirectoryProbe,
) -> Result<Seq<char>, ErrorView> {
    match probe {
        DirectoryProbe::NotADirectory => Ok(not_a_directory(quoted_path(target))),
        DirectoryProbe::Failed(reason) => Err(ErrorView::IO(reason@)),
        DirectoryProbe::Entries(entries) => Ok(
            under_heading(directory_heading(quoted_path(relative_path)), listing(entries@)),
        ),
    }
}

impl ListDirectoryTool {
    pub open spec fn spec_name() -> Seq<char> {
        "list_dir"@
    }

    pub open spec fn spec_description() -> Seq<char> {
        "List a given directory entries. '.' is allowed to list entries of the root directory but '..' is not allowed to avoid path traversal. Absolute path is not allowed and you shall always use relative path to the root directory."@
    }

    pub fn new_root(path: String) -> (r: Self)
        ensures
            r.cwd == path,
    {
        ListDirectoryTool { cwd: path }
    }

    /// The name the tool is registered under.
    pub fn name() -> (r: String)
        ensures
            r@ == Self::spec_name(),
    {
        String::from_str("list_dir")
    }

    /// What the tool tells the model about itself.
    pub fn description() -> (r: String)
        ensures
            r@ == Self::spec_description(),
    {
        String::from_str(
            "List a given directory entries. '.' is allowed to list entries of the root directory but '..' is not allowed to avoid path traversal. Absolute path is not allowed and you shall always use relative path to the root directory.",
        )
    }

    /// The directory that a request names, or the answer that turns the
    /// request down.
    pub fn target(&self, relative_path: &str) -> (r: Result<String, String>)
        ensures
            path_view(r) == sanitized(self.cwd@, relative_path@),
    {
        sanitize_join_relative_path(self.cwd.as_str(), relative_path)
    }

    /// Lays out the listing of a directory whose path is shown as `shown`.
    pub fn lay_out(shown: &str, lines: &Vec<String>) -> (r: String)
        ensures
            r@ == under_heading(directory_heading(shown@), texts_view(lines@)),
    {
        let mut reply = String::from_str("The contents of folder ");
        reply.append(shown);
        reply.append(" is:\nname\ttype\tsize\n");
        reply.append(join_lines(lines).as_str());
        reply
    }

    /// Answers a request for the directory `relative_path`, found at
    /// `target`, from what the file system reported for it.
    pub fn list_directory(relative_path: &str, target: &str, probe: DirectoryProbe) -> (r: Result<
        String,
        AgentyError,
    >)
        ensures
            outcome_view(r) == directory_reply(relative_path@, target@, probe),
    {
        match probe {
            DirectoryProbe::NotADirectory => Ok(not_a_directory_reply(target)),
            DirectoryProbe::Failed(reason) => Err(AgentyError::IO(reason)),
            DirectoryProbe::Entries(entries) => Ok(
                Self::lay_out(quoted(relative_path).as_str(), &list_files(&entries)),
            ),
        }
    }
}

/// What `glob::Pattern::new` reports for a pattern: nothing where the
/// pattern compiles, and the error's text where it does not.
pub uninterp spec fn glob_error(pattern: Seq<char>) -> Option<Seq<char>>;

/// Whether the compiled pattern matches a name, as `glob::Pattern::matches`
/// tells.
pub uninterp spec fn glob_match(pattern: Seq<char>, name: Seq<char>) -> bool;

/// Checks a glob pattern.
///
/// Calls `glob::Pattern::new` and shows its error with `to_string`. Trusted:
/// whether the pattern compiles, and the error's text, depend on the pattern
/// alone.
#[verifier::external_body]
fn glob_check(pattern: &str) -> (r: Option<String>)
    ensures
        text_view(r) == glob_error(pattern@),
{
    match glob::Pattern::new(pattern) {
        Ok(_) => None,
        Err(e) => Some(e.to_string()),
    }
}

/// Matches a name against a glob pattern.
///
/// Calls `glob::Pattern::new` and `glob::Pattern::matches`. Trusted: for a
/// pattern that compiles, the answer depends on the pattern and the name
/// alone. A pattern that does not compile matches nothing.
#[verifier::external_body]
fn glob_matches(pattern: &str, name: &str) -> (r: bool)
    ensures
        glob_error(pattern@) is None ==> r == glob_match(pattern@, name@),
        glob_error(pattern@) is Some ==> !r,
{
    match glob::Pattern::new(pattern) {
        Ok(compiled) => compiled.matches(name),
        Err(_) => false,
    }
}

/// Arguments of the tool that finds files by a glob pattern.
#[derive(Debug)]
pub struct FindFileArgs {
    pub directory: String,
    pub file_name_pattern: String,
}

/// Finds files by name below a root directory.
#[derive(Debug, Clone)]
pub struct FindFileTool {
    pub cwd: String,
}

/// An entry met while walking a directory: its file name and its path.
#[derive(Debug, PartialEq, Eq)]
pub struct WalkEntry {
    pub file_name: String,
    pub path: String,
}

/// The answer for a pattern that does not compile.
pub open spec fn bad_pattern(reason: Seq<char>) -> Seq<char> {
    "Fail to compile the glob pattern due to "@ + reason
}

/// Where a search starts, given what is known of the request: a pattern
/// that does not compile is turned down first, and then the directory
/// decides.
pub open spec fn planned(
    pattern_error: Option<Seq<char>>,
    directory: Result<Seq<char>, Seq<char>>,
) -> Result<Seq<char>, Seq<char>> {
    match pattern_error {
        Some(reason) => Err(bad_pattern(reason)),
        None => directory,
    }
}

/// Where the search for `pattern` in `directory` below `cwd` starts.
pub open spec fn search_plan(cwd: Seq<char>, directory: Seq<char>, pattern: Seq<char>) -> Result<
    Seq<char>,
    Seq<char>,
> {
    planned(glob_error(pattern), sanitized(cwd, directory))
}

/// The paths that are flagged, in order.
pub open spec fn flagged(candidates: Seq<(Seq<char>, bool)>) -> Seq<Seq<char>>
    decreases candidates.len(),
{
    if candidates.len() == 0 {
        Seq::empty()
    } else if candidates.last().1 {
        flagged(candidates.drop_last()).push(candidates.last().0)
    } else {
        flagged(candidates.drop_last())
    }
}

/// The walked entries, each with the answer whether its file name matches
/// the pattern.
pub open spec fn matched(pattern: Seq<char>, walked: Seq<WalkEntry>) -> Seq<(Seq<char>, bool)> {
    Seq::new(
        walked.len(),
        |i: int| (walked[i].path@, glob_match(pattern, walked[i].file_name@)),
    )
}

/// The values of paths with their flags.
pub open spec fn candidates_view(candidates: Seq<(String, bool)>) -> Seq<(Seq<char>, bool)> {
    Seq::new(candidates.len(), |i: int| (candidates[i].0@, candidates[i].1))
}

/// What selecting from a walk gives: the answer that turns a bad pattern
/// down, or the paths of the entries whose file name matches, in the order
/// of the walk.
pub open spec fn selection(pattern: Seq<char>, walked: Seq<WalkEntry>) -> Result<
    Seq<Seq<char>>,
    Seq<char>,
> {
    match glob_error(pattern) {
        Some(reason) => Err(bad_pattern(reason)),
        None => Ok(flagged(matched(pattern, walked))),
    }
}

/// The value of selected paths or of the answer that turned the request
/// down.
pub open spec fn selection_view(r: Result<Vec<String>, String>) -> Result<
    Seq<Seq<char>>,
    Seq<char>,
> {
    match r {
        Ok(paths) => Ok(texts_view(paths@)),
        Err(reply) => Err(reply@),
    }
}

/// The heading of what a search for `pattern` found below a directory
/// whose path is shown as `shown`.
pub open spec fn search_heading(shown: Seq<char>, pattern: Seq<char>) -> Seq<char> {
    "The files found under directory "@ + shown + " with given pattern "@ + pattern + " are:\n"@
}

/// What a search answers: its heading, then a line for each entry found.
pub open spec fn search_reply(
    directory: Seq<char>,
    pattern: Seq<char>,
    found: Seq<FileEntry>,
) -> Seq<char> {
    under_heading(search_heading(quoted_path(directory), pattern), listing(found))
}

impl FindFileTool {
    pub open spec fn spec_name() -> Seq<char> {
        "find_file"@
    }

    pub open spec fn spec_description() -> Seq<char> {
        "Find files with names having the given glob pattern under the given directory. For example, use '*.c' to find all C source files. For directory, note '.' is allowed to list entries of the root directory but '..' is not allowed to avoid path traversal. Absolute path is not allowed and you shall always use relative path to the root directory."@
    }

    pub fn new(path: String) -> (r: Self)
        ensures
            r.cwd == path,
    {
        FindFileTool { cwd: path }
    }

    /// The name the tool is registered under.
    pub fn name() -> (r: String)
        ensures
            r@ == Self::spec_name(),
    {
        String::from_str("find_file")
    }

    /// What the tool tells the model about itself.
    pub fn description() -> (r: String)
        ensures
            r@ == Self::spec_description(),
    {
        String::from_str(
            "Find files with names having the given glob pattern under the given directory. For example, use '*.c' to find all C source files. For directory, note '.' is allowed to list entries of the root directory but '..' is not allowed to avoid path traversal. Absolute path is not allowed and you shall always use relative path to the root directory.",
        )
    }

    /// Decides where a search starts, from what is known of the request.
    pub fn decide(pattern_error: Option<String>, directory: Result<String, String>) -> (r: Result<
        String,
        String,
    >)
        ensures
            path_view(r) == planned(text_view(pattern_error), path_view(directory)),
    {
        match pattern_error {
            Some(reason) => {
                let mut reply = String::from_str("Fail to compile the glob pattern due to ");
                reply.append(reason.as_str());
                Err(reply)
            },
            None => directory,
        }
    }

    /// The directory at which a search starts, or the answer that turns the
    /// request down.
    pub fn plan(cwd: &str, directory: &str, pattern: &str) -> (r: Result<String, String>)
        ensures
            path_view(r) == search_plan(cwd@, directory@, pattern@),
    {
        Self::decide(glob_check(pattern), sanitize_join_relative_path(cwd, directory))
    }

    /// Keeps the paths that are flagged, in order.
    pub fn keep(candidates: &Vec<(String, bool)>) -> (r: Vec<String>)
        ensures
            texts_view(r@) == flagged(candidates_view(candidates@)),
    {
        let ghost all = candidates_view(candidates@);
        let mut items: Vec<String> = Vec::new();
        let mut i: usize = 0;
        while i < candidates.len()
            invariant
                i <= candidates@.len(),
                all == candidates_view(candidates@),
                texts_view(items@) == flagged(all.subrange(0, i as int)),
            decreases candidates@.len() - i,
        {
            let ghost before = all.subrange(0, i as int);
            let ghost after = all.subrange(0, i + 1);
            assert(after.drop_last() =~= before);
            assert(after.last() == all[i as int]);
            if candidates[i].1 {
                items.push(candidates[i].0.clone());
                assert(texts_view(items@) =~= flagged(before).push(all[i as int].0));
            }
            i += 1;
        }
        assert(all.subrange(0, all.len() as int) =~= all);
        items
    }

    /// Picks from a walk the paths of the entries whose file name matches
    /// the pattern, in the order of the walk.
    pub fn select(pattern: &str, walked: &Vec<WalkEntry>) -> (r: Result<Vec<String>, String>)
        ensures
            selection_view(r) == selection(pattern@, walked@),
    {
        match Self::decide(glob_check(pattern), Ok(String::new())) {
            Err(reply) => {
                return Err(reply);
            },
            Ok(_) => {},
        }
        let mut candidates: Vec<(String, bool)> = Vec::new();
        let mut i: usize = 0;
        while i < walked.len()
            invariant
                i <= walked@.len(),
                glob_error(pattern@) is None,
                candidates@.len() == i,
                forall|k: int|
                    0 <= k < i ==> (#[trigger] candidates@[k]).0@ == walked@[k].path@
                        && candidates@[k].1 == glob_match(pattern@, walked@[k].file_name@),
            decreases walked@.len() - i,
        {
            let entry = &walked[i];
            candidates.push((entry.path.clone(), glob_matches(pattern, entry.file_name.as_str())));
            i += 1;
        }
        assert(candidates_view(candidates@) =~= matched(pattern@, walked@));
        Ok(Self::keep(&candidates))
    }

    /// Lays out what a search for `pattern` found below a directory whose
    /// path is shown as `shown`.
    pub fn lay_out(shown: &str, pattern: &str, lines: &Vec<String>) -> (r: String)
        ensures
            r@ == under_heading(search_heading(shown@, pattern@), texts_view(lines@)),
    {
        let mut reply = String::from_str("The files found under directory ");
        reply.append(shown);
        reply.append(" with given pattern ");
        reply.append(pattern);
        reply.append(" are:\n");
        reply.append(join_lines(lines).as_str());
        reply
    }

    /// Answers a search with what it found below `directory`.
    pub fn find_file(directory: &str, pattern: &str, found: &Vec<FileEntry>) -> (r: String)
        ensures
            r@ == search_reply(directory@, pattern@, found@),
    {
        Self::lay_out(quoted(directory).as_str(), pattern, &list_files(found))
    }
}

} // verus!
