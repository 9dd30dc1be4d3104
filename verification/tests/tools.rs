use agenty::error::AgentyError;
use agenty::text::join_lines;
use agenty::tools::file::{
    list_files, not_a_directory_reply, sanitize_join_relative_path, DirectoryProbe, FileEntry,
    FileKind, FileProbe, FindFileTool, ListDirectoryTool, ReadFileTool, WalkEntry, READ_LIMIT,
};
use agenty::tools::grep::{GrepTool, OUTPUT_LIMIT};
use hxd::AsHexd;

fn entry(path: &str, kind: FileKind, size: u64) -> FileEntry {
    FileEntry { path: path.to_string(), kind, size }
}

fn walked(file_name: &str, path: &str) -> WalkEntry {
    WalkEntry { file_name: file_name.to_string(), path: path.to_string() }
}

#[test]
fn relative_path_is_joined_onto_the_root() {
    assert_eq!(sanitize_join_relative_path("/srv/root", "a/b.txt"), Ok("/srv/root/a/b.txt".to_string()));
    assert_eq!(sanitize_join_relative_path("/srv/root", "."), Ok("/srv/root/.".to_string()));
    assert_eq!(sanitize_join_relative_path("root/", "x"), Ok("root/x".to_string()));
}

#[test]
fn absolute_path_is_turned_down() {
    assert_eq!(
        sanitize_join_relative_path("/srv/root", "/etc/passwd"),
        Err("\"/etc/passwd\" is an absolute path".to_string())
    );
    assert_eq!(
        sanitize_join_relative_path("/srv/root", "/a/../b"),
        Err("\"/a/../b\" is an absolute path".to_string())
    );
}

#[test]
fn parent_component_is_turned_down() {
    assert_eq!(
        sanitize_join_relative_path("/srv/root", "a/../../etc"),
        Err("\"a/../../etc\" contains '..'".to_string())
    );
    assert_eq!(sanitize_join_relative_path("/srv/root", ".."), Err("\"..\" contains '..'".to_string()));
    assert_eq!(
        sanitize_join_relative_path("/srv/root", "a..b/..c"),
        Ok("/srv/root/a..b/..c".to_string())
    );
}

#[test]
fn quoted_path_escapes_what_needs_it() {
    assert_eq!(
        sanitize_join_relative_path("/srv", "/a \"b\"\n"),
        Err("\"/a \\\"b\\\"\\n\" is an absolute path".to_string())
    );
}

#[test]
fn file_kind_prefers_directory_then_file_then_symlink() {
    assert_eq!(FileKind::of(true, true, true), FileKind::Directory);
    assert_eq!(FileKind::of(false, true, true), FileKind::File);
    assert_eq!(FileKind::of(false, false, true), FileKind::Symlink);
    assert_eq!(FileKind::of(false, false, false), FileKind::Other);
    assert_eq!(FileKind::Directory.text(), "directory");
    assert_eq!(FileKind::File.text(), "file");
    assert_eq!(FileKind::Symlink.text(), "symlink");
    assert_eq!(FileKind::Other.text(), "");
}

#[test]
fn listing_has_a_line_for_each_entry() {
    let entries = vec![
        entry("src", FileKind::Directory, 4096),
        entry("src/main.rs", FileKind::File, 0),
        entry("link", FileKind::Symlink, 7),
        entry("dev/null", FileKind::Other, 10),
        entry("big", FileKind::File, u64::MAX),
    ];
    assert_eq!(
        list_files(&entries),
        vec![
            "\"src\"\tdirectory\t4096".to_string(),
            "\"src/main.rs\"\tfile\t0".to_string(),
            "\"link\"\tsymlink\t7".to_string(),
            "\"dev/null\"\t\t10".to_string(),
            "\"big\"\tfile\t18446744073709551615".to_string(),
        ]
    );
    assert_eq!(list_files(&vec![]), Vec::<String>::new());
}

#[test]
fn lines_are_joined_with_line_feeds() {
    assert_eq!(join_lines(&vec![]), "");
    assert_eq!(join_lines(&vec!["one".to_string()]), "one");
    assert_eq!(join_lines(&vec!["one".to_string(), "".to_string(), "three".to_string()]), "one\n\nthree");
}

#[test]
fn read_file_reports_what_the_file_system_said() {
    assert_eq!(
        ReadFileTool::read_file("/r/a", FileProbe::NoMetadata("No such file or directory".to_string())),
        Ok("Fail to get metadata of \"/r/a\" due to No such file or directory".to_string())
    );
    assert_eq!(
        ReadFileTool::read_file("/r/a", FileProbe::Directory),
        Ok("Path \"/r/a\" is a directory".to_string())
    );
    assert_eq!(
        ReadFileTool::read_file("/r/a", FileProbe::NotOpened("Permission denied".to_string())),
        Ok("Fail to open \"/r/a\" due to Permission denied".to_string())
    );
    assert_eq!(
        ReadFileTool::read_file("/r/a", FileProbe::NotRead("Input/output error".to_string())),
        Err(AgentyError::IO("Input/output error".to_string()))
    );
    assert_eq!(
        ReadFileTool::read_file("/r/a", FileProbe::Contents("héllo\n".as_bytes().to_vec())),
        Ok("héllo\n".to_string())
    );
}

#[test]
fn read_file_shows_at_most_the_limit() {
    assert_eq!(READ_LIMIT, 8192);
    let below = vec![b'a'; 8191];
    assert_eq!(ReadFileTool::show(below), "a".repeat(8191));
    let exact = vec![b'b'; 8192];
    assert_eq!(ReadFileTool::show(exact), "b".repeat(8192));
    let mut above = vec![b'c'; 8192];
    above.extend_from_slice(b"tail");
    assert_eq!(ReadFileTool::show(above), "c".repeat(8192));
    assert_eq!(ReadFileTool::show(vec![]), "");
}

#[test]
fn binary_content_is_shown_as_a_hexdump() {
    let bytes = vec![0x00u8, 0xff, 0xfe, 0x41, 0x42];
    let shown = ReadFileTool::show(bytes.clone());
    assert_eq!(shown, bytes.hexd().dump_to::<String>());
    assert!(shown.starts_with("00000000: 00FF FE41 42"));
    assert!(shown.contains("AB"));
}

#[test]
fn content_cut_inside_a_character_is_shown_as_a_hexdump() {
    let mut bytes = vec![b'a'; 8191];
    bytes.extend_from_slice("é".as_bytes());
    let shown = ReadFileTool::show(bytes.clone());
    let head = bytes[0..8192].to_vec();
    assert_eq!(shown, head.hexd().dump_to::<String>());
}

#[test]
fn not_a_directory_names_the_path() {
    assert_eq!(not_a_directory_reply("/r/file.txt"), "\"/r/file.txt\" is not a directory");
    assert_eq!(
        ListDirectoryTool::list_directory("file.txt", "/r/file.txt", DirectoryProbe::NotADirectory),
        Ok("\"/r/file.txt\" is not a directory".to_string())
    );
}

#[test]
fn directory_listing_has_heading_and_lines() {
    let entries = vec![entry("docs", FileKind::Directory, 4096), entry("a.txt", FileKind::File, 12)];
    assert_eq!(
        ListDirectoryTool::list_directory(".", "/r/.", DirectoryProbe::Entries(entries)),
        Ok("The contents of folder \".\" is:\nname\ttype\tsize\n\"docs\"\tdirectory\t4096\n\"a.txt\"\tfile\t12"
            .to_string())
    );
    assert_eq!(
        ListDirectoryTool::list_directory("empty", "/r/empty", DirectoryProbe::Entries(vec![])),
        Ok("The contents of folder \"empty\" is:\nname\ttype\tsize\n".to_string())
    );
    assert_eq!(
        ListDirectoryTool::list_directory("x", "/r/x", DirectoryProbe::Failed("gone".to_string())),
        Err(AgentyError::IO("gone".to_string()))
    );
}

#[test]
fn tools_resolve_requests_below_their_root() {
    assert_eq!(ReadFileTool::new("/r".to_string()).target("a"), Ok("/r/a".to_string()));
    assert_eq!(ListDirectoryTool::new_root("/r".to_string()).target("d"), Ok("/r/d".to_string()));
    assert_eq!(GrepTool::new("/r".to_string()).target("s"), Ok("/r/s".to_string()));
    assert_eq!(
        ReadFileTool::new("/r".to_string()).target("../x"),
        Err("\"../x\" contains '..'".to_string())
    );
    assert_eq!(FindFileTool::new("/r".to_string()).cwd, "/r");
}

#[test]
fn search_turns_a_bad_pattern_down_before_the_directory() {
    let reason = glob::Pattern::new("[").unwrap_err().to_string();
    let reply = format!("Fail to compile the glob pattern due to {}", reason);
    assert!(reply.starts_with("Fail to compile the glob pattern due to Pattern syntax error near position"));
    assert_eq!(FindFileTool::plan("/r", "/abs", "["), Err(reply.clone()));
    assert_eq!(FindFileTool::plan("/r", "/abs", "*.c"), Err("\"/abs\" is an absolute path".to_string()));
    assert_eq!(FindFileTool::plan("/r", "src", "*.c"), Ok("/r/src".to_string()));
    assert_eq!(FindFileTool::select("[", &vec![walked("a.c", "/r/a.c")]), Err(reply));
}

#[test]
fn search_keeps_matching_names_in_walk_order() {
    let walk = vec![
        walked("src", "/r/src"),
        walked("main.c", "/r/src/main.c"),
        walked("main.h", "/r/src/main.h"),
        walked("util.c", "/r/src/lib/util.c"),
        walked("c", "/r/c"),
    ];
    assert_eq!(
        FindFileTool::select("*.c", &walk),
        Ok(vec!["/r/src/main.c".to_string(), "/r/src/lib/util.c".to_string()])
    );
    assert_eq!(FindFileTool::select("main.?", &walk).map(|v| v.len()), Ok(2));
    assert_eq!(FindFileTool::select("nothing", &walk), Ok(vec![]));
    assert_eq!(FindFileTool::select("*", &vec![]), Ok(vec![]));
}

#[test]
fn search_result_has_heading_and_lines() {
    let found = vec![entry("src/main.c", FileKind::File, 300)];
    assert_eq!(
        FindFileTool::find_file("src", "*.c", &found),
        "The files found under directory \"src\" with given pattern *.c are:\n\"src/main.c\"\tfile\t300"
    );
    assert_eq!(
        FindFileTool::find_file(".", "*.zig", &vec![]),
        "The files found under directory \".\" with given pattern *.zig are:\n"
    );
}

#[test]
fn regular_expression_is_checked() {
    assert_eq!(GrepTool::check_pattern("fn\\s+main"), None);
    let reply = GrepTool::check_pattern("(").unwrap();
    assert!(reply.starts_with("regex ( error with "));
    assert!(reply.len() > "regex ( error with ".len());
    let newline = GrepTool::check_pattern("a\nb").unwrap();
    assert!(newline.starts_with("regex a\nb error with "));
}

#[test]
fn search_output_is_read_as_text_and_cut() {
    assert_eq!(OUTPUT_LIMIT, 16384);
    assert_eq!(GrepTool::grep(&b"a.rs:1:1:fn main\n".to_vec()), Some("a.rs:1:1:fn main\n".to_string()));
    assert_eq!(GrepTool::grep(&vec![]), Some(String::new()));
    assert_eq!(GrepTool::grep(&vec![b'x', 0xff, b'y']), Some("x\u{fffd}y".to_string()));
    assert_eq!(GrepTool::grep(&vec![b'z'; 16384]), Some("z".repeat(16384)));
    assert_eq!(GrepTool::grep(&vec![b'z'; 20000]), Some("z".repeat(16384)));
    assert_eq!(GrepTool::clip("short".to_string()), "short");
}

#[test]
fn search_output_cannot_be_cut_inside_a_character() {
    let mut bytes = vec![b'a'; 16383];
    bytes.extend_from_slice("é".as_bytes());
    bytes.extend_from_slice(b"rest");
    assert_eq!(GrepTool::grep(&bytes), None);
    let mut aligned = vec![b'a'; 16382];
    aligned.extend_from_slice("é".as_bytes());
    aligned.extend_from_slice(b"rest");
    let mut expected = "a".repeat(16382);
    expected.push('é');
    assert_eq!(GrepTool::grep(&aligned), Some(expected));
}

#[test]
fn tools_advertise_their_names() {
    assert_eq!(ReadFileTool::name(), "read_file");
    assert_eq!(ListDirectoryTool::name(), "list_dir");
    assert_eq!(FindFileTool::name(), "find_file");
    assert_eq!(GrepTool::name(), "grep_files");
    assert!(ReadFileTool::description().starts_with("Read file contents of the path `file_path`."));
    assert!(ListDirectoryTool::description().starts_with("List a given directory entries."));
    assert!(FindFileTool::description().starts_with("Find files with names having the given glob pattern"));
    assert!(GrepTool::description().ends_with("Note the pattern is in regex grammar not glob grammar."));
}
