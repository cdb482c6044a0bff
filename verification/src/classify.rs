//! What kind of program a command runs, and whether its window waits for a key.

use vstd::prelude::*;
use crate::config::{Config, ConfigView, PauseBehavior};
use crate::text::{
    chars_of, string_of, contains, contains_chars, first_token, first_token_chars, lowercase,
    spells, string_views, lines, lines_of,
};

verus! {

/// What is known of the program that a command runs.
#[derive(Clone, Copy, Debug, PartialEq, Eq, Structural)]
pub struct Classification {
    /// It is an editor: it takes the window over until the user leaves it.
    pub is_editor: bool,
    /// It shows a file and ends.
    pub is_viewer: bool,
    /// Its output must stay on the screen.
    pub is_always_pause: bool,
    /// It is `type`, which does not page its output.
    pub is_paging_command: bool,
}

/// A file of fewer lines than this fits the window, so a viewer's window waits.
pub const SMALL_FILE_LINES: usize = 30;

/// Whether the application name `key` is one of `entries` or holds one of them.
pub open spec fn matches_any(key: Seq<char>, entries: Seq<Seq<char>>) -> bool {
    exists|i: int| 0 <= i < entries.len() && contains(key, #[trigger] entries[i])
}

/// Every entry of the list in lowercase.
pub open spec fn lowercase_all(entries: Seq<Seq<char>>) -> Seq<Seq<char>> {
    entries.map_values(|e: Seq<char>| lowercase(e))
}

/// The classification of the application name `key` against three lists, name and
/// lists in lowercase.
pub open spec fn classification_of_key(
    key: Seq<char>,
    editors: Seq<Seq<char>>,
    viewers: Seq<Seq<char>>,
    always_pause: Seq<Seq<char>>,
) -> Classification {
    Classification {
        is_editor: matches_any(key, editors),
        is_viewer: matches_any(key, viewers),
        is_always_pause: matches_any(key, always_pause),
        is_paging_command: key == "type"@,
    }
}

/// The application name of a command: its first word, in lowercase.
pub open spec fn app_key(command: Seq<char>) -> Seq<char> {
    first_token(lowercase(command))
}

/// The classification of `command` under the configuration `c`.
pub open spec fn classification(command: Seq<char>, c: ConfigView) -> Classification {
    classification_of_key(
        app_key(command),
        lowercase_all(c.editor_apps),
        lowercase_all(c.viewer_apps),
        lowercase_all(c.always_pause_apps),
    )
}

/// Whether the window must wait under the policy `Auto`. `file_lines` is the
/// number of lines of the file that the command works on, where there is one that
/// can be read as text.
pub open spec fn needs_pause(c: Classification, file_lines: Option<usize>) -> bool {
    if c.is_editor {
        false
    } else if c.is_always_pause {
        true
    } else if c.is_viewer {
        match file_lines {
            Some(n) => n < SMALL_FILE_LINES,
            None => false,
        }
    } else {
        true
    }
}

/// Whether the window must wait for a key before it closes.
pub open spec fn must_pause(
    c: Classification,
    file_lines: Option<usize>,
    policy: PauseBehavior,
) -> bool {
    match policy {
        PauseBehavior::Never => false,
        PauseBehavior::Always => true,
        PauseBehavior::Auto => needs_pause(c, file_lines),
    }
}

/// Whether `key` is one of `entries` or holds one of them.
pub fn key_matches(key: &Vec<char>, entries: &Vec<String>) -> (r: bool)
    ensures
        r == matches_any(key@, string_views(entries@)),
{
    let mut i: usize = 0;
    while i < entries.len()
        invariant
            i <= entries.len(),
            forall|k: int| 0 <= k < i ==> !contains(key@, #[trigger] string_views(entries@)[k]),
        decreases entries.len() - i,
    {
        let entry = chars_of(entries[i].as_str());
        if contains_chars(key, &entry) {
            proof {
                assert(string_views(entries@)[i as int] == entry@);
            }
            return true;
        }
        i += 1;
    }
    false
}

/// Classifies the application name `key` against three lists, name and lists in
/// lowercase.
pub fn classify_key(
    key: &str,
    editors: &Vec<String>,
    viewers: &Vec<String>,
    always_pause: &Vec<String>,
) -> (r: Classification)
    ensures
        r == classification_of_key(
            key@,
            string_views(editors@),
            string_views(viewers@),
            string_views(always_pause@),
        ),
{
    let name = chars_of(key);
    Classification {
        is_editor: key_matches(&name, editors),
        is_viewer: key_matches(&name, viewers),
        is_always_pause: key_matches(&name, always_pause),
        is_paging_command: spells(&name, "type"),
    }
}

/// Every entry of the list in lowercase.
pub fn lowercase_list(entries: &Vec<String>) -> (r: Vec<String>)
    ensures
        string_views(r@) == lowercase_all(string_views(entries@)),
{
    let mut out: Vec<String> = Vec::new();
    let mut i: usize = 0;
    while i < entries.len()
        invariant
            i <= entries.len(),
            out@.len() == i,
            forall|k: int| 0 <= k < i ==> (#[trigger] out@[k])@ == lowercase(entries@[k]@),
        decreases entries.len() - i,
    {
        out.push(entries[i].as_str().to_lowercase());
        i += 1;
    }
    proof {
        assert(string_views(out@) =~= lowercase_all(string_views(entries@)));
    }
    out
}

/// The first word of a command.
pub fn first_word(command: &str) -> (r: String)
    ensures
        r@ == first_token(command@),
{
    let text = chars_of(command);
    string_of(&first_token_chars(&text))
}

/// Classifies `command` under `config`: its first word, in lowercase, is held
/// against the lists of editors, viewers and programs whose window always waits.
pub fn classify(command: &str, config: &Config) -> (r: Classification)
    ensures
        r == classification(command@, config@),
{
    let low = command.to_lowercase();
    let key = first_word(low.as_str());
    let editors = lowercase_list(&config.editor_apps);
    let viewers = lowercase_list(&config.viewer_apps);
    let always_pause = lowercase_list(&config.always_pause_apps);
    classify_key(key.as_str(), &editors, &viewers, &always_pause)
}

/// The number of lines of a text.
pub fn count_lines(content: &str) -> (r: usize)
    ensures
        r == lines_of(content@).len(),
{
    let text = chars_of(content);
    let all = lines(&text);
    proof {
        assert(crate::text::views(all@).len() == all@.len());
    }
    all.len()
}

/// Whether the window must wait under the policy `Auto`: never for an editor;
/// else always for a program on the always-pause list; else, for a viewer, where
/// its file has fewer lines than `SMALL_FILE_LINES`; and always for an unknown
/// program.
pub fn auto_pause(c: Classification, file_lines: Option<usize>) -> (r: bool)
    ensures
        r == needs_pause(c, file_lines),
{
    if c.is_editor {
        false
    } else if c.is_always_pause {
        true
    } else if c.is_viewer {
        match file_lines {
            Some(n) => n < SMALL_FILE_LINES,
            None => false,
        }
    } else {
        true
    }
}

/// Whether the window must wait for a key before it closes.
pub fn decide_pause(c: Classification, file_lines: Option<usize>, policy: PauseBehavior) -> (r:
    bool)
    ensures
        r == must_pause(c, file_lines, policy),
{
    match policy {
        PauseBehavior::Never => false,
        PauseBehavior::Always => true,
        PauseBehavior::Auto => auto_pause(c, file_lines),
    }
}

/// An editor's window never waits under `Auto`, whatever the file and the other
/// lists say.
pub proof fn law_editor_never_pauses(
    command: Seq<char>,
    config: ConfigView,
    file_lines: Option<usize>,
)
    ensures
        matches_any(app_key(command), lowercase_all(config.editor_apps)) ==> !needs_pause(
            classification(command, config),
            file_lines,
        ) && !must_pause(classification(command, config), file_lines, PauseBehavior::Auto),
{
}

/// The window of a program on the always-pause list waits under `Auto`, viewer or
/// not, unless the program is an editor too: the editor list is asked first.
pub proof fn law_always_pause_list(
    command: Seq<char>,
    config: ConfigView,
    file_lines: Option<usize>,
)
    ensures
        matches_any(app_key(command), lowercase_all(config.always_pause_apps)) ==> {
            &&& needs_pause(classification(command, config), file_lines) == !matches_any(
                app_key(command),
                lowercase_all(config.editor_apps),
            )
            &&& must_pause(classification(command, config), file_lines, PauseBehavior::Auto)
                == !classification(command, config).is_editor
        },
{
}

/// The window of a viewer that is neither an editor nor on the always-pause list
/// waits under `Auto` exactly where its file has fewer than thirty lines.
pub proof fn law_viewer_pauses_on_small_files(
    command: Seq<char>,
    config: ConfigView,
    lines: usize,
)
    ensures
        matches_any(app_key(command), lowercase_all(config.viewer_apps)) && !matches_any(
            app_key(command),
            lowercase_all(config.editor_apps),
        ) && !matches_any(app_key(command), lowercase_all(config.always_pause_apps)) ==> {
            &&& needs_pause(classification(command, config), Some(lines)) == (lines < 30)
            &&& must_pause(classification(command, config), Some(lines), PauseBehavior::Auto) == (
            lines < 30)
        },
{
}

/// The policies `Never` and `Always` decide alone, whatever the program is.
pub proof fn law_explicit_policy_wins(c: Classification, file_lines: Option<usize>)
    ensures
        !must_pause(c, file_lines, PauseBehavior::Never),
        must_pause(c, file_lines, PauseBehavior::Always),
{
}

} // verus!
