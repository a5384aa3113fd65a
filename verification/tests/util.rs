use clareza::checks::{
    extract_version, fallback_plan, gemini_check_plan, interpret_command_output,
    interpret_shell_output, select_dependency_result, shell_spawn_failure, space_join,
    spawn_failure,
};
use clareza::errors::ClarezaError;
use clareza::linebuf::LineBuffer;
use clareza::models::{
    create_document, create_document_metadata, make_backup_info, sort_backups_desc,
    update_content_stats, word_count_of, BackupInfo,
};
use clareza::paths::{
    ensure_md_extension, extension_of, file_name_of, is_backup_name, join_path, parent_dir,
    stem_of, version_file_path, FileUtils,
};
use clareza::resolve::{
    candidate_names, is_batch_file, pick_first_found, search_candidates,
};
use clareza::text::{
    contains_str, find_sub, replace_all, split_char, trim_spaces, u64_to_string,
};

#[test]
fn version_extraction_handles_common_forms() {
    assert_eq!(extract_version("1.0.25"), "1.0.25");
    assert_eq!(extract_version("  v1.2.3  "), "1.2.3");
    assert_eq!(extract_version("Version 2.0 (build 7)"), "2.0");
    assert_eq!(extract_version("0.9.1\nextra line"), "0.9.1");
    assert_eq!(extract_version("3.1 linux x64"), "3.1");
    assert_eq!(extract_version("2.2\r\nwin"), "2.2");
    assert_eq!(extract_version(""), "");
    // The single-letter strip applies before the word-prefix strip.
    assert_eq!(extract_version("version 1.0"), "ersion");
}

#[test]
fn successful_probe_reads_version_from_stdout() {
    let r = interpret_command_output("Gemini CLI", true, "v9.9.9\n", "");
    assert!(r.installed);
    assert_eq!(r.name, "Gemini CLI");
    assert_eq!(r.version.as_deref(), Some("9.9.9"));
    assert!(r.error.is_none());
}

#[test]
fn successful_probe_falls_back_to_stderr_output() {
    let r = interpret_command_output("Bun", true, "", "1.0.25\n");
    assert!(r.installed);
    assert_eq!(r.version.as_deref(), Some("1.0.25"));
}

#[test]
fn failed_probe_prefers_stderr_text() {
    let r = interpret_command_output("Bun", false, "partial", "not found");
    assert!(!r.installed);
    assert!(r.version.is_none());
    assert_eq!(r.error.as_deref(), Some("not found"));
    let r2 = interpret_command_output("Bun", false, "only stdout", "");
    assert_eq!(r2.error.as_deref(), Some("only stdout"));
    let r3 = interpret_command_output("Bun", false, "", "");
    assert_eq!(r3.error.as_deref(), Some("No output received"));
}

#[test]
fn successful_probe_with_no_output_is_not_installed() {
    let r = interpret_command_output("Bun", true, "", "");
    assert!(!r.installed);
    assert_eq!(r.error.as_deref(), Some("No output received"));
}

#[test]
fn shell_probe_failure_quotes_both_outputs() {
    let r = interpret_shell_output("Gemini CLI", false, " out ", " err ");
    assert!(!r.installed);
    assert_eq!(
        r.error.as_deref(),
        Some("Command failed. stdout: 'out', stderr: 'err'")
    );
}

#[test]
fn spawn_failures_carry_the_rendered_error() {
    let r = spawn_failure("Bun", "No such file or directory");
    assert!(!r.installed);
    assert_eq!(r.error.as_deref(), Some("No such file or directory"));
    let r2 = shell_spawn_failure("Bun", "exec format error");
    assert_eq!(
        r2.error.as_deref(),
        Some("Shell execution failed: exec format error")
    );
}

#[test]
fn gemini_probe_plan_tries_six_commands_in_order() {
    let plan = gemini_check_plan();
    assert_eq!(plan.len(), 6);
    assert_eq!(plan[0].program, "gemini");
    assert_eq!(plan[0].args, vec!["--version"]);
    assert!(!plan[0].via_shell);
    assert_eq!(plan[1].program, "gemini.exe");
    assert_eq!(plan[2].args, vec!["-v"]);
    assert_eq!(plan[4].program, "gemini --version");
    assert!(plan[4].via_shell);
    assert_eq!(plan[5].program, "gemini -v");
}

#[test]
fn fallback_plan_adds_suffixed_forms_only_on_windows() {
    let args = vec!["--version".to_string()];
    let unix = fallback_plan("bun", &args, false);
    assert_eq!(unix.len(), 2);
    assert_eq!(unix[0].program, "bun");
    assert_eq!(unix[1].program, "bun --version");
    assert!(unix[1].via_shell);
    let win = fallback_plan("bun", &args, true);
    assert_eq!(win.len(), 4);
    assert_eq!(win[1].program, "bun.exe");
    assert_eq!(win[2].program, "bun.cmd");
    assert_eq!(win[3].program, "bun --version");
    assert_eq!(space_join(&vec!["a".to_string(), "b".to_string()]), "a b");
}

#[test]
fn first_installed_result_wins_else_the_last() {
    let a = spawn_failure("X", "e1");
    let b = interpret_command_output("X", true, "v1", "");
    let c = spawn_failure("X", "e3");
    let results = vec![a.clone(), b, c.clone()];
    assert!(select_dependency_result(&results).installed);
    assert_eq!(select_dependency_result(&results).version.as_deref(), Some("1"));
    let none = vec![a, c];
    let picked = select_dependency_result(&none);
    assert!(!picked.installed);
    assert_eq!(picked.error.as_deref(), Some("e3"));
}

#[test]
fn search_candidates_follow_path_and_name_order() {
    let unix = search_candidates("/usr/bin:/opt/tools", false);
    assert_eq!(unix, vec!["/usr/bin/gemini", "/opt/tools/gemini"]);
    let win = search_candidates("C:\\a;D:\\b", true);
    assert_eq!(win.len(), 8);
    assert_eq!(win[0], "C:\\a\\gemini.cmd");
    assert_eq!(win[3], "C:\\a\\gemini");
    assert_eq!(win[4], "D:\\b\\gemini.cmd");
    assert_eq!(candidate_names(false), vec!["gemini"]);
    // Empty search-path entries stay in order, resolving to bare names.
    let with_empty = search_candidates("", false);
    assert_eq!(with_empty, vec!["gemini"]);
}

#[test]
fn first_found_candidate_is_picked() {
    let cands = vec!["a".to_string(), "b".to_string(), "c".to_string()];
    assert_eq!(
        pick_first_found(&cands, &vec![false, true, true]).as_deref(),
        Some("b")
    );
    assert!(pick_first_found(&cands, &vec![false, false, false]).is_none());
}

#[test]
fn batch_files_are_recognized_case_insensitively() {
    assert!(is_batch_file("C:\\t\\gemini.cmd"));
    assert!(is_batch_file("C:\\t\\GEMINI.BAT"));
    assert!(is_batch_file("g.CmD"));
    assert!(!is_batch_file("/usr/bin/gemini"));
    assert!(!is_batch_file("gemini.exe"));
    assert!(!is_batch_file("cmd"));
}

#[test]
fn versions_dir_sits_beside_the_document() {
    assert_eq!(
        FileUtils::get_versions_dir("notes/plan.md", '/').unwrap(),
        "notes/.clareza_versions/plan.md"
    );
    assert_eq!(
        FileUtils::get_versions_dir("plan.md", '/').unwrap(),
        ".clareza_versions/plan.md"
    );
    assert!(matches!(
        FileUtils::get_versions_dir("", '/'),
        Err(ClarezaError::Path(_))
    ));
    assert!(matches!(
        FileUtils::get_versions_dir("notes/", '/'),
        Err(ClarezaError::Path(_))
    ));
    assert_eq!(
        version_file_path("notes/plan.md", "20240101", '/').unwrap(),
        "notes/.clareza_versions/plan.md/20240101"
    );
}

#[test]
fn backup_paths_carry_the_utc_stamp() {
    // 2024-01-02 03:04:05 UTC, in milliseconds.
    let ms: i64 = 1704164645000;
    assert_eq!(
        FileUtils::create_backup_path("a/b.md", ms, '/').unwrap(),
        "a/b.backup.20240102_030405.md"
    );
    assert_eq!(
        FileUtils::create_backup_path("plain", ms, '/').unwrap(),
        "plain.backup.20240102_030405"
    );
    assert_eq!(
        FileUtils::create_backup_path("a/b.md", 0, '/').unwrap(),
        "a/b.backup.19700101_000000.md"
    );
    assert!(FileUtils::create_backup_path("", ms, '/').is_err());
}

#[test]
fn path_pieces_come_apart_as_expected() {
    assert_eq!(parent_dir("a/b/c.md", '/').unwrap(), "a/b");
    assert_eq!(parent_dir("/c.md", '/').unwrap(), "/");
    assert_eq!(parent_dir("c.md", '/').unwrap(), "");
    assert!(parent_dir("", '/').is_err());
    assert_eq!(file_name_of("a/b/c.md", '/').unwrap(), "c.md");
    assert!(file_name_of("a/b/", '/').is_err());
    assert_eq!(stem_of("a/b/c.tar.gz", '/').unwrap(), "c.tar");
    assert_eq!(extension_of("a/b/c.tar.gz", '/'), "gz");
    assert_eq!(extension_of("a/b/.hidden", '/'), "");
    assert_eq!(stem_of("a/.hidden", '/').unwrap(), ".hidden");
    assert_eq!(join_path("a/b", "c", '/'), "a/b/c");
    assert_eq!(join_path("", "c", '/'), "c");
    assert_eq!(join_path("a/", "c", '/'), "a/c");
}

#[test]
fn md_extension_is_ensured() {
    assert_eq!(ensure_md_extension("a/doc.md", '/').unwrap(), "a/doc.md");
    assert_eq!(ensure_md_extension("a/doc.txt", '/').unwrap(), "a/doc.md");
    assert_eq!(ensure_md_extension("a/doc", '/').unwrap(), "a/doc.md");
}

#[test]
fn backup_entries_are_recognized_by_stem() {
    assert!(is_backup_name("plan.backup.20240101_000000.md", "plan"));
    assert!(!is_backup_name("plan2.backup.x", "plan"));
    assert!(!is_backup_name("plan.bak", "plan"));
}

#[test]
fn document_metadata_starts_fresh() {
    let md = create_document_metadata("My Title");
    assert_eq!(md.title, "My Title");
    assert_eq!(md.id.len(), 36);
    assert_eq!(md.word_count, 0);
    assert_eq!(md.character_count, 0);
    assert_eq!(md.language, "pt-BR");
    assert_eq!(md.version, 1);
    assert_eq!(md.created_at_ms, md.modified_at_ms);
    let op = create_document("Essay");
    assert!(op.success);
    assert_eq!(op.message, "Document created successfully");
    assert_eq!(op.content.as_deref(), Some(""));
    assert_eq!(op.metadata.unwrap().title, "Essay");
}

#[test]
fn content_stats_count_bytes_and_words() {
    let mut md = create_document_metadata("t");
    update_content_stats(&mut md, "two words");
    assert_eq!(md.character_count, 9);
    assert_eq!(md.word_count, 2);
    update_content_stats(&mut md, "  spaced   out   ");
    assert_eq!(md.word_count, 2);
    update_content_stats(&mut md, "");
    assert_eq!(md.word_count, 0);
    assert_eq!(md.character_count, 0);
    assert_eq!(word_count_of("a\nb\tc d"), 4);
}

#[test]
fn backups_sort_newest_first() {
    let mut a = make_backup_info("o", "b", 1);
    a.created_at_ms = 10;
    let mut b = make_backup_info("o", "b", 1);
    b.created_at_ms = 30;
    let mut c = make_backup_info("o", "b", 1);
    c.created_at_ms = 20;
    let sorted = sort_backups_desc(vec![a, b, c]);
    assert_eq!(sorted.len(), 3);
    assert_eq!(sorted[0].created_at_ms, 30);
    assert_eq!(sorted[1].created_at_ms, 20);
    assert_eq!(sorted[2].created_at_ms, 10);
    let info = make_backup_info("orig.md", "orig.backup.x.md", 42);
    assert_eq!(info.id.len(), 36);
    assert_eq!(info.original_path, "orig.md");
    assert_eq!(info.size_bytes, 42);
}

#[test]
fn error_messages_match_their_variants() {
    assert_eq!(
        ClarezaError::Path("bad".to_string()).message(),
        "Path error: bad"
    );
    assert_eq!(
        ClarezaError::FileNotFound("x.md".to_string()).message(),
        "File not found: x.md"
    );
    assert_eq!(
        ClarezaError::InvalidFormat("not UTF-8".to_string()).message(),
        "Invalid format: not UTF-8"
    );
    assert_eq!(ClarezaError::Io("broken pipe".to_string()).message(), "IO error: broken pipe");
    assert_eq!(
        ClarezaError::Json("eof".to_string()).message(),
        "JSON serialization error: eof"
    );
    assert_eq!(
        ClarezaError::Export("no template".to_string()).message(),
        "Export error: no template"
    );
}

#[test]
fn line_buffer_splits_chunks_into_lines() {
    let mut buf = LineBuffer::new();
    buf.feed("first li");
    assert!(buf.next_line().is_none());
    buf.feed("ne\nsecond\r\npart");
    assert_eq!(buf.next_line().as_deref(), Some("first line"));
    assert_eq!(buf.next_line().as_deref(), Some("second"));
    assert!(buf.next_line().is_none());
    buf.feed("ial");
    assert_eq!(buf.finish().as_deref(), Some("partial"));
    assert!(buf.finish().is_none());
}

#[test]
fn text_helpers_behave_like_their_std_counterparts() {
    assert_eq!(trim_spaces("  a b \r\n"), "a b");
    assert_eq!(trim_spaces(""), "");
    assert_eq!(replace_all("a--b--c", "--", "+"), "a+b+c");
    assert_eq!(replace_all("aaaa", "aa", "a"), "aa");
    assert_eq!(replace_all("none", "xx", "y"), "none");
    assert!(contains_str("hay needle stack", "needle"));
    assert!(!contains_str("hay", "needle"));
    assert_eq!(find_sub("abcabc", "bc"), Some(1));
    assert_eq!(find_sub("abc", "zz"), None);
    assert_eq!(
        split_char("a:b::c", ':'),
        vec!["a", "b", "", "c"]
    );
    assert_eq!(split_char("", ':'), vec![""]);
    assert_eq!(u64_to_string(0), "0");
    assert_eq!(u64_to_string(120), "120");
    assert_eq!(u64_to_string(98765), "98765");
}
