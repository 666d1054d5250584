//! The analysis settings that the host sends to the backend and reads back.
//!
//! Apart from the input paths, which are made absolute before they leave the
//! host, the fields are carried through unchanged: their meaning is the
//! analysis engine's.
use vstd::prelude::*;
use crate::paths::{is_absolute, resolve_path, resolved};

verus! {

/// The analysis settings.
#[derive(Clone, Debug)]
pub struct Settings {
    // Repository and Input Settings
    pub input_fstrs: Vec<String>,
    pub depth: i32,
    pub subfolder: String,

    // File Analysis Settings
    pub n_files: i32,
    pub include_files: Vec<String>,
    pub ex_files: Vec<String>,
    pub extensions: Vec<String>,

    // Author and Commit Filtering
    pub ex_authors: Vec<String>,
    pub ex_emails: Vec<String>,
    pub ex_revisions: Vec<String>,
    pub ex_messages: Vec<String>,
    pub since: String,
    pub until: String,

    // Output and Format Settings
    pub outfile_base: String,
    pub fix: String,
    pub file_formats: Vec<String>,
    pub view: String,

    // Analysis Options
    pub copy_move: i32,
    pub scaled_percentages: bool,
    pub blame_exclusions: String,
    pub blame_skip: bool,
    pub show_renames: bool,

    // Content Analysis
    pub deletions: bool,
    pub whitespace: bool,
    pub empty_lines: bool,
    pub comments: bool,

    // Performance Settings
    pub multithread: bool,
    pub multicore: bool,
    pub verbosity: i32,

    // Development/Testing
    pub dryrun: i32,

    // GUI-specific
    pub gui_settings_full_path: bool,
    pub col_percent: i32,

    // Further fields read by the analysis engine
    pub ex_author_patterns: Vec<String>,
    pub ex_email_patterns: Vec<String>,
    pub ex_message_patterns: Vec<String>,
    pub ex_file_patterns: Vec<String>,
    pub ignore_revs_file: String,
    pub enable_ignore_revs: bool,
    pub blame_follow_moves: bool,
    pub blame_ignore_whitespace: bool,
    pub blame_minimal_context: bool,
    pub blame_show_email: bool,
    pub output_encoding: String,
    pub date_format: String,
    pub author_display_format: String,
    pub line_number_format: String,
    pub excel_max_rows: i32,
    pub excel_abbreviate_names: bool,
    pub excel_freeze_panes: bool,
    pub html_theme: String,
    pub html_enable_search: bool,
    pub html_max_entries_per_page: i32,
    pub server_port: i32,
    pub server_host: String,
    pub max_browser_tabs: i32,
    pub auto_open_browser: bool,
    pub profile: i32,
    pub debug_show_main_event_loop: bool,
    pub debug_multiprocessing: bool,
    pub debug_git_commands: bool,
    pub log_git_output: bool,
    pub legacy_mode: bool,
    pub preserve_legacy_output_format: bool,
    pub max_thread_workers: i32,
    pub git_log_chunk_size: i32,
    pub blame_chunk_size: i32,
    pub max_core_workers: i32,
    pub memory_limit_mb: i32,
    pub enable_gc_optimization: bool,
    pub max_commit_count: i32,
    pub max_file_size_kb: i32,
    pub follow_renames: bool,
    pub ignore_merge_commits: bool,
}

/// The texts held by a vector of strings.
pub open spec fn strings(v: Vec<String>) -> Seq<Seq<char>> {
    v@.map_values(|x: String| x@)
}

/// The values that a fresh set of settings holds.
pub open spec fn is_default_settings(s: Settings) -> bool {
        &&& s.input_fstrs@.len() == 0
        &&& s.depth == 5
        &&& s.subfolder@.len() == 0
        &&& s.n_files == 5
        &&& s.include_files@.len() == 0
        &&& s.ex_files@.len() == 0
        &&& strings(s.extensions) == seq!["c"@, "cc"@, "cif"@, "cpp"@, "glsl"@, "h"@, "hh"@, "hpp"@, "java"@, "js"@, "py"@, "rb"@, "sql"@, "ts"@]
        &&& s.ex_authors@.len() == 0
        &&& s.ex_emails@.len() == 0
        &&& s.ex_revisions@.len() == 0
        &&& s.ex_messages@.len() == 0
        &&& s.since@.len() == 0
        &&& s.until@.len() == 0
        &&& s.outfile_base@ == "gitinspect"@
        &&& s.fix@ == "prefix"@
        &&& strings(s.file_formats) == seq!["html"@]
        &&& s.view@ == "auto"@
        &&& s.copy_move == 1
        &&& s.scaled_percentages == false
        &&& s.blame_exclusions@ == "hide"@
        &&& s.blame_skip == false
        &&& s.show_renames == false
        &&& s.deletions == false
        &&& s.whitespace == false
        &&& s.empty_lines == false
        &&& s.comments == false
        &&& s.multithread == true
        &&& s.multicore == false
        &&& s.verbosity == 0
        &&& s.dryrun == 0
        &&& s.gui_settings_full_path == false
        &&& s.col_percent == 75
        &&& s.ex_author_patterns@.len() == 0
        &&& s.ex_email_patterns@.len() == 0
        &&& s.ex_message_patterns@.len() == 0
        &&& s.ex_file_patterns@.len() == 0
        &&& s.ignore_revs_file@.len() == 0
        &&& s.enable_ignore_revs == false
        &&& s.blame_follow_moves == true
        &&& s.blame_ignore_whitespace == false
        &&& s.blame_minimal_context == false
        &&& s.blame_show_email == true
        &&& s.output_encoding@ == "utf-8"@
        &&& s.date_format@ == "iso"@
        &&& s.author_display_format@ == "name"@
        &&& s.line_number_format@ == "decimal"@
        &&& s.excel_max_rows == 1048576
        &&& s.excel_abbreviate_names == true
        &&& s.excel_freeze_panes == true
        &&& s.html_theme@ == "default"@
        &&& s.html_enable_search == true
        &&& s.html_max_entries_per_page == 100
        &&& s.server_port == 8000
        &&& s.server_host@ == "localhost"@
        &&& s.max_browser_tabs == 20
        &&& s.auto_open_browser == true
        &&& s.profile == 0
        &&& s.debug_show_main_event_loop == false
        &&& s.debug_multiprocessing == false
        &&& s.debug_git_commands == false
        &&& s.log_git_output == false
        &&& s.legacy_mode == false
        &&& s.preserve_legacy_output_format == false
        &&& s.max_thread_workers == 6
        &&& s.git_log_chunk_size == 100
        &&& s.blame_chunk_size == 20
        &&& s.max_core_workers == 16
        &&& s.memory_limit_mb == 1024
        &&& s.enable_gc_optimization == true
        &&& s.max_commit_count == 0
        &&& s.max_file_size_kb == 1024
        &&& s.follow_renames == true
        &&& s.ignore_merge_commits == false
}

impl Default for Settings {
    fn default() -> (r: Settings)
        ensures
            is_default_settings(r),
    {
        let mut extensions: Vec<String> = Vec::new();
        extensions.push(String::from_str("c"));
        extensions.push(String::from_str("cc"));
        extensions.push(String::from_str("cif"));
        extensions.push(String::from_str("cpp"));
        extensions.push(String::from_str("glsl"));
        extensions.push(String::from_str("h"));
        extensions.push(String::from_str("hh"));
        extensions.push(String::from_str("hpp"));
        extensions.push(String::from_str("java"));
        extensions.push(String::from_str("js"));
        extensions.push(String::from_str("py"));
        extensions.push(String::from_str("rb"));
        extensions.push(String::from_str("sql"));
        extensions.push(String::from_str("ts"));
        let mut file_formats: Vec<String> = Vec::new();
        file_formats.push(String::from_str("html"));
        assert(strings(extensions) =~= seq!["c"@, "cc"@, "cif"@, "cpp"@, "glsl"@, "h"@, "hh"@, "hpp"@, "java"@, "js"@, "py"@, "rb"@, "sql"@, "ts"@]);
        assert(strings(file_formats) =~= seq!["html"@]);
        Settings {
            input_fstrs: Vec::new(),
            depth: 5,
            subfolder: String::new(),
            n_files: 5,
            include_files: Vec::new(),
            ex_files: Vec::new(),
            extensions,
            ex_authors: Vec::new(),
            ex_emails: Vec::new(),
            ex_revisions: Vec::new(),
            ex_messages: Vec::new(),
            since: String::new(),
            until: String::new(),
            outfile_base: String::from_str("gitinspect"),
            fix: String::from_str("prefix"),
            file_formats,
            view: String::from_str("auto"),
            copy_move: 1,
            scaled_percentages: false,
            blame_exclusions: String::from_str("hide"),
            blame_skip: false,
            show_renames: false,
            deletions: false,
            whitespace: false,
            empty_lines: false,
            comments: false,
            multithread: true,
            multicore: false,
            verbosity: 0,
            dryrun: 0,
            gui_settings_full_path: false,
            col_percent: 75,
            ex_author_patterns: Vec::new(),
            ex_email_patterns: Vec::new(),
            ex_message_patterns: Vec::new(),
            ex_file_patterns: Vec::new(),
            ignore_revs_file: String::new(),
            enable_ignore_revs: false,
            blame_follow_moves: true,
            blame_ignore_whitespace: false,
            blame_minimal_context: false,
            blame_show_email: true,
            output_encoding: String::from_str("utf-8"),
            date_format: String::from_str("iso"),
            author_display_format: String::from_str("name"),
            line_number_format: String::from_str("decimal"),
            excel_max_rows: 1048576,
            excel_abbreviate_names: true,
            excel_freeze_panes: true,
            html_theme: String::from_str("default"),
            html_enable_search: true,
            html_max_entries_per_page: 100,
            server_port: 8000,
            server_host: String::from_str("localhost"),
            max_browser_tabs: 20,
            auto_open_browser: true,
            profile: 0,
            debug_show_main_event_loop: false,
            debug_multiprocessing: false,
            debug_git_commands: false,
            log_git_output: false,
            legacy_mode: false,
            preserve_legacy_output_format: false,
            max_thread_workers: 6,
            git_log_chunk_size: 100,
            blame_chunk_size: 20,
            max_core_workers: 16,
            memory_limit_mb: 1024,
            enable_gc_optimization: true,
            max_commit_count: 0,
            max_file_size_kb: 1024,
            follow_renames: true,
            ignore_merge_commits: false,
        }
    }
}

/// The input paths as sent to the backend: each resolved against `cwd`.
pub open spec fn resolved_inputs(s: Settings, cwd: Seq<char>) -> Seq<Seq<char>> {
    strings(s.input_fstrs).map_values(|p: Seq<char>| resolved(cwd, p))
}

/// The settings with every input path resolved against the working
/// directory `cwd`; all other fields are left as they are.
pub fn resolve_input_paths(s: Settings, cwd: &str) -> (r: Settings)
    ensures
        r == (Settings { input_fstrs: r.input_fstrs, ..s }),
        strings(r.input_fstrs) == resolved_inputs(s, cwd@),
{
    let mut resolved_paths: Vec<String> = Vec::new();
    let n = s.input_fstrs.len();
    let mut i: usize = 0;
    while i < n
        invariant
            n == s.input_fstrs@.len(),
            0 <= i <= n,
            resolved_paths@.len() == i,
            strings(resolved_paths) =~= resolved_inputs(s, cwd@).subrange(0, i as int),
        decreases n - i,
    {
        let p = resolve_path(cwd, s.input_fstrs[i].as_str());
        let ghost before = resolved_paths@;
        resolved_paths.push(p);
        assert(strings(resolved_paths) =~= before.map_values(|x: String| x@).push(p@));
        i = i + 1;
    }
    assert(strings(resolved_paths) =~= resolved_inputs(s, cwd@));
    Settings { input_fstrs: resolved_paths, ..s }
}

/// Settings whose input paths are all absolute are sent exactly as they
/// are: resolution leaves every field, and the order of the paths, intact.
pub proof fn lemma_absolute_inputs_unchanged(s: Settings, cwd: Seq<char>)
    requires
        forall|i: int| 0 <= i < s.input_fstrs@.len() ==> is_absolute(#[trigger] s.input_fstrs@[i]@),
    ensures
        resolved_inputs(s, cwd) == strings(s.input_fstrs),
{
    assert(resolved_inputs(s, cwd) =~= strings(s.input_fstrs));
}

} // verus!
