//! The configuration: what it holds, what it is before a file is read, and how the
//! lines of a configuration file change it.

use vstd::prelude::*;
use crate::geometry::{AppGeometry, GeometryTable};
use crate::text::{
    chars_of, string_of, spells, lowered, lowercase, trim, trim_class, trim_chars, CharClass,
    split_once, split_once_chars, split_on, split_chars, lines_of, lines, views, string_views,
    optional_view, parse_u32, parse_i32, parse_u32_chars, parse_i32_chars, slice_chars,
    first_token, first_token_chars,
};

verus! {

/// When the terminal waits for a key before it closes.
#[derive(Clone, Copy, Debug, PartialEq, Eq, Structural)]
pub enum PauseBehavior {
    /// It never waits.
    Never,
    /// It always waits.
    Always,
    /// It waits where the command's output would otherwise be lost.
    Auto,
}

/// Which Windows terminal opens the window.
#[derive(Clone, Copy, Debug, PartialEq, Eq, Structural)]
pub enum TerminalType {
    /// The console host, running `cmd.exe`.
    Cmd,
    /// Windows Terminal, `wt.exe`.
    WindowsTerminal,
}

impl Default for TerminalType {
    fn default() -> (r: TerminalType)
        ensures
            r == TerminalType::Cmd,
    {
        TerminalType::Cmd
    }
}

/// What the user chose on the command line.
#[derive(Debug)]
pub struct RunOptions {
    pub always_on_top: bool,
    pub use_clipboard: bool,
    pub output_file: Option<String>,
    pub backup_dir: Option<String>,
}

impl Default for RunOptions {
    fn default() -> (r: RunOptions)
        ensures
            !r.always_on_top,
            !r.use_clipboard,
            r.output_file is None,
            r.backup_dir is None,
    {
        RunOptions { always_on_top: false, use_clipboard: false, output_file: None, backup_dir: None }
    }
}

/// The user's preferences.
#[derive(Debug)]
pub struct Config {
    pub width: u32,
    pub height: u32,
    pub x: i32,
    pub y: i32,
    pub auto_position: bool,
    pub default_app: Option<String>,
    pub backup_dir: String,
    pub pause_behavior: PauseBehavior,
    pub editor_apps: Vec<String>,
    pub viewer_apps: Vec<String>,
    pub always_pause_apps: Vec<String>,
    pub app_geometries: GeometryTable,
    pub terminal: TerminalType,
}

/// A configuration as a mathematical value.
pub struct ConfigView {
    pub width: u32,
    pub height: u32,
    pub x: i32,
    pub y: i32,
    pub auto_position: bool,
    pub default_app: Option<Seq<char>>,
    pub backup_dir: Seq<char>,
    pub pause_behavior: PauseBehavior,
    pub editor_apps: Seq<Seq<char>>,
    pub viewer_apps: Seq<Seq<char>>,
    pub always_pause_apps: Seq<Seq<char>>,
    pub app_geometries: Map<Seq<char>, AppGeometry>,
    pub terminal: TerminalType,
}

impl View for Config {
    type V = ConfigView;

    open spec fn view(&self) -> ConfigView {
        ConfigView {
            width: self.width,
            height: self.height,
            x: self.x,
            y: self.y,
            auto_position: self.auto_position,
            default_app: optional_view(self.default_app),
            backup_dir: self.backup_dir@,
            pause_behavior: self.pause_behavior,
            editor_apps: string_views(self.editor_apps@),
            viewer_apps: string_views(self.viewer_apps@),
            always_pause_apps: string_views(self.always_pause_apps@),
            app_geometries: self.app_geometries@,
            terminal: self.terminal,
        }
    }
}

impl ConfigView {
    /// The geometry of a window for which no application has set one.
    pub open spec fn global_geometry(self) -> AppGeometry {
        AppGeometry {
            width: self.width,
            height: self.height,
            x: self.x,
            y: self.y,
            auto_position: self.auto_position,
        }
    }

    /// The geometry set for the application `key`, or else the global one.
    pub open spec fn geometry_for(self, key: Seq<char>) -> AppGeometry {
        if self.app_geometries.contains_key(key) {
            self.app_geometries[key]
        } else {
            self.global_geometry()
        }
    }
}

/// The geometry of the window in which `command` runs.
pub open spec fn resolve_geometry(c: ConfigView, command: Seq<char>) -> AppGeometry {
    c.geometry_for(first_token(lowercase(command)))
}

/// Whether a lowercase value switches an option on.
pub open spec fn is_truthy(value: Seq<char>) -> bool {
    value == "true"@ || value == "1"@ || value == "yes"@
}

/// The pause behaviour that a lowercase value names; an unknown one names `Never`.
pub open spec fn pause_behavior_named(value: Seq<char>) -> PauseBehavior {
    if value == "always"@ {
        PauseBehavior::Always
    } else if value == "auto"@ {
        PauseBehavior::Auto
    } else {
        PauseBehavior::Never
    }
}

/// The terminal that a lowercase value names; an unknown one names `Cmd`.
pub open spec fn terminal_named(value: Seq<char>) -> TerminalType {
    if value == "wt"@ || value == "wt.exe"@ || value == "windows_terminal"@ || value
        == "windowsterminal"@ {
        TerminalType::WindowsTerminal
    } else {
        TerminalType::Cmd
    }
}

/// A raw value without the white space around it, then without the double quotes
/// around that, then without the single quotes around that.
pub open spec fn unquote(raw: Seq<char>) -> Seq<char> {
    trim_class(trim_class(trim(raw), CharClass::Only('"')), CharClass::Only('\''))
}

/// The pieces of a list, each without the white space around it, the empty ones
/// left out.
pub open spec fn list_items(pieces: Seq<Seq<char>>) -> Seq<Seq<char>>
    decreases pieces.len(),
{
    if pieces.len() == 0 {
        Seq::empty()
    } else {
        let front = list_items(pieces.drop_last());
        let item = trim(pieces.last());
        if item.len() > 0 {
            front.push(item)
        } else {
            front
        }
    }
}

/// The applications that a comma-separated value lists.
pub open spec fn app_list(value: Seq<char>) -> Seq<Seq<char>> {
    list_items(split_on(value, ','))
}

/// Whether `key` names one of the five parts of a geometry.
pub open spec fn is_geometry_key(key: Seq<char>) -> bool {
    key == "width"@ || key == "height"@ || key == "x"@ || key == "y"@ || key == "auto_position"@
}

/// The geometry `g` after the setting `key = value`, where `low` is the lowercase
/// form of the value. A number that cannot be read changes nothing, nor does a key
/// that names no part of a geometry.
pub open spec fn geometry_given(
    g: AppGeometry,
    key: Seq<char>,
    value: Seq<char>,
    low: Seq<char>,
) -> AppGeometry {
    if key == "width"@ {
        match parse_u32(value) {
            Some(n) => AppGeometry { width: n, ..g },
            None => g,
        }
    } else if key == "height"@ {
        match parse_u32(value) {
            Some(n) => AppGeometry { height: n, ..g },
            None => g,
        }
    } else if key == "x"@ {
        match parse_i32(value) {
            Some(n) => AppGeometry { x: n, ..g },
            None => g,
        }
    } else if key == "y"@ {
        match parse_i32(value) {
            Some(n) => AppGeometry { y: n, ..g },
            None => g,
        }
    } else if key == "auto_position"@ {
        AppGeometry { auto_position: is_truthy(low), ..g }
    } else {
        g
    }
}

/// The geometry `g` after the setting `key = value`.
pub open spec fn geometry_after(g: AppGeometry, key: Seq<char>, value: Seq<char>) -> AppGeometry {
    geometry_given(g, key, value, lowercase(value))
}

/// The configuration `c` after the global setting `key = value`, where `low` is the
/// lowercase form of the value. An empty application or directory changes nothing,
/// nor does an unknown key.
pub open spec fn config_given(
    c: ConfigView,
    key: Seq<char>,
    value: Seq<char>,
    low: Seq<char>,
) -> ConfigView {
    if is_geometry_key(key) {
        let g = geometry_given(c.global_geometry(), key, value, low);
        ConfigView {
            width: g.width,
            height: g.height,
            x: g.x,
            y: g.y,
            auto_position: g.auto_position,
            ..c
        }
    } else if key == "pause_behavior"@ {
        ConfigView { pause_behavior: pause_behavior_named(low), ..c }
    } else if key == "default_app"@ {
        if value.len() > 0 {
            ConfigView { default_app: Some(value), ..c }
        } else {
            c
        }
    } else if key == "backup_dir"@ {
        if value.len() > 0 {
            ConfigView { backup_dir: value, ..c }
        } else {
            c
        }
    } else if key == "editor_apps"@ {
        ConfigView { editor_apps: app_list(value), ..c }
    } else if key == "viewer_apps"@ {
        ConfigView { viewer_apps: app_list(value), ..c }
    } else if key == "always_pause_apps"@ {
        ConfigView { always_pause_apps: app_list(value), ..c }
    } else if key == "terminal"@ {
        ConfigView { terminal: terminal_named(low), ..c }
    } else {
        c
    }
}

/// The configuration `c` after the global setting `key = value`.
pub open spec fn config_after(c: ConfigView, key: Seq<char>, value: Seq<char>) -> ConfigView {
    config_given(c, key, value, lowercase(value))
}

/// Where the reading of a configuration file stands: the configuration so far, and
/// the application whose section the next setting belongs to, if any.
pub struct ParseState {
    pub config: ConfigView,
    pub section: Option<Seq<char>>,
}

/// Whether a trimmed line is a section header: `[`, a name, `]`.
pub open spec fn is_header(line: Seq<char>) -> bool {
    line.len() >= 2 && line[0] == '[' && line.last() == ']'
}

/// The state after one line of the file.
///
/// An empty line and a line that starts with `#` change nothing. A header opens the
/// section of the application it names; `[terminal]` returns to the global
/// settings. A setting within a section changes that application's geometry, which
/// starts from the global geometry of that moment; a setting outside one changes
/// the configuration itself. Any other line changes nothing.
pub open spec fn state_after_line(st: ParseState, raw: Seq<char>) -> ParseState {
    let line = trim(raw);
    if line.len() == 0 || line[0] == '#' {
        st
    } else if is_header(line) {
        let name = line.subrange(1, line.len() - 1);
        ParseState {
            config: st.config,
            section: if name == "terminal"@ {
                None
            } else {
                Some(name)
            },
        }
    } else {
        match split_once(line, '=') {
            None => st,
            Some((k, v)) => {
                let key = trim(k);
                let value = unquote(v);
                match st.section {
                    Some(app) => ParseState {
                        config: ConfigView {
                            app_geometries: st.config.app_geometries.insert(
                                app,
                                geometry_after(st.config.geometry_for(app), key, value),
                            ),
                            ..st.config
                        },
                        section: st.section,
                    },
                    None => ParseState {
                        config: config_after(st.config, key, value),
                        section: st.section,
                    },
                }
            },
        }
    }
}

/// The state after the lines `lines`, read in order.
pub open spec fn state_after_lines(st: ParseState, lines: Seq<Seq<char>>) -> ParseState
    decreases lines.len(),
{
    if lines.len() == 0 {
        st
    } else {
        state_after_line(state_after_lines(st, lines.drop_last()), lines.last())
    }
}

/// The configuration that the file `content` makes of `base`.
pub open spec fn parsed(base: ConfigView, content: Seq<char>) -> ConfigView {
    state_after_lines(ParseState { config: base, section: None }, lines_of(content)).config
}

/// Whether a lowercase value switches an option on.
pub fn truthy(value: &Vec<char>) -> (r: bool)
    ensures
        r == is_truthy(value@),
{
    spells(value, "true") || spells(value, "1") || spells(value, "yes")
}

/// The pause behaviour that a lowercase value names.
pub fn pause_behavior_from(value: &Vec<char>) -> (r: PauseBehavior)
    ensures
        r == pause_behavior_named(value@),
{
    if spells(value, "always") {
        PauseBehavior::Always
    } else if spells(value, "auto") {
        PauseBehavior::Auto
    } else {
        PauseBehavior::Never
    }
}

/// The terminal that a lowercase value names.
pub fn terminal_from(value: &Vec<char>) -> (r: TerminalType)
    ensures
        r == terminal_named(value@),
{
    if spells(value, "wt") || spells(value, "wt.exe") || spells(value, "windows_terminal")
        || spells(value, "windowsterminal") {
        TerminalType::WindowsTerminal
    } else {
        TerminalType::Cmd
    }
}

/// Reads a comma-separated list of applications.
pub fn read_app_list(value: &Vec<char>) -> (r: Vec<String>)
    ensures
        string_views(r@) == app_list(value@),
{
    let pieces = split_chars(value, ',');
    let mut out: Vec<String> = Vec::new();
    let mut i: usize = 0;
    proof {
        assert(views(pieces@).take(0) =~= Seq::<Seq<char>>::empty());
        assert(string_views(out@) =~= Seq::<Seq<char>>::empty());
    }
    while i < pieces.len()
        invariant
            i <= pieces.len(),
            string_views(out@) == list_items(views(pieces@).take(i as int)),
        decreases pieces.len() - i,
    {
        let item = trim_chars(&pieces[i], CharClass::Space);
        let ghost before = string_views(out@);
        let ghost longer = views(pieces@).take(i + 1);
        proof {
            assert(longer.drop_last() == views(pieces@).take(i as int));
            assert(longer.last() == pieces@[i as int]@);
        }
        if item.len() > 0 {
            let text = string_of(&item);
            out.push(text);
            proof {
                assert(string_views(out@) =~= before.push(item@));
            }
        }
        i += 1;
    }
    proof {
        assert(views(pieces@).take(i as int) == views(pieces@));
    }
    out
}

/// The geometry `g` after the setting `key = value`, where `low` is the lowercase
/// form of the value.
pub fn geometry_with_setting(
    g: AppGeometry,
    key: &Vec<char>,
    value: &Vec<char>,
    low: &Vec<char>,
) -> (r: AppGeometry)
    ensures
        r == geometry_given(g, key@, value@, low@),
{
    if spells(key, "width") {
        match parse_u32_chars(value) {
            Some(n) => AppGeometry { width: n, ..g },
            None => g,
        }
    } else if spells(key, "height") {
        match parse_u32_chars(value) {
            Some(n) => AppGeometry { height: n, ..g },
            None => g,
        }
    } else if spells(key, "x") {
        match parse_i32_chars(value) {
            Some(n) => AppGeometry { x: n, ..g },
            None => g,
        }
    } else if spells(key, "y") {
        match parse_i32_chars(value) {
            Some(n) => AppGeometry { y: n, ..g },
            None => g,
        }
    } else if spells(key, "auto_position") {
        AppGeometry { auto_position: truthy(low), ..g }
    } else {
        g
    }
}

/// Whether `key` names one of the five parts of a geometry.
pub fn names_geometry(key: &Vec<char>) -> (r: bool)
    ensures
        r == is_geometry_key(key@),
{
    spells(key, "width") || spells(key, "height") || spells(key, "x") || spells(key, "y")
        || spells(key, "auto_position")
}

/// The configuration after the global setting `key = value`, where `low` is the
/// lowercase form of the value.
pub fn config_with_setting(
    config: Config,
    key: &Vec<char>,
    value: &Vec<char>,
    low: &Vec<char>,
) -> (r: Config)
    ensures
        r@ == config_given(config@, key@, value@, low@),
{
    if names_geometry(key) {
        let g = geometry_with_setting(config.geometry(), key, value, low);
        Config {
            width: g.width,
            height: g.height,
            x: g.x,
            y: g.y,
            auto_position: g.auto_position,
            ..config
        }
    } else if spells(key, "pause_behavior") {
        Config { pause_behavior: pause_behavior_from(low), ..config }
    } else if spells(key, "default_app") {
        if value.len() > 0 {
            Config { default_app: Some(string_of(value)), ..config }
        } else {
            config
        }
    } else if spells(key, "backup_dir") {
        if value.len() > 0 {
            Config { backup_dir: string_of(value), ..config }
        } else {
            config
        }
    } else if spells(key, "editor_apps") {
        Config { editor_apps: read_app_list(value), ..config }
    } else if spells(key, "viewer_apps") {
        Config { viewer_apps: read_app_list(value), ..config }
    } else if spells(key, "always_pause_apps") {
        Config { always_pause_apps: read_app_list(value), ..config }
    } else if spells(key, "terminal") {
        Config { terminal: terminal_from(low), ..config }
    } else {
        config
    }
}

/// A raw value without white space and quotes around it.
pub fn unquoted(raw: &Vec<char>) -> (r: Vec<char>)
    ensures
        r@ == unquote(raw@),
{
    let bare = trim_chars(raw, CharClass::Space);
    let inner = trim_chars(&bare, CharClass::Only('"'));
    trim_chars(&inner, CharClass::Only('\''))
}

/// The configuration and the open section after one line of the file.
pub fn read_line(config: Config, section: Option<String>, raw: &Vec<char>) -> (r: (
    Config,
    Option<String>,
))
    ensures
        (ParseState { config: r.0@, section: optional_view(r.1) }) == state_after_line(
            ParseState { config: config@, section: optional_view(section) },
            raw@,
        ),
{
    let line = trim_chars(raw, CharClass::Space);
    if line.len() == 0 || line[0] == '#' {
        return (config, section);
    }
    if line.len() >= 2 && line[0] == '[' && line[line.len() - 1] == ']' {
        let name = slice_chars(&line, 1, line.len() - 1);
        if spells(&name, "terminal") {
            return (config, None);
        } else {
            return (config, Some(string_of(&name)));
        }
    }
    match split_once_chars(&line, '=') {
        None => (config, section),
        Some((k, v)) => {
            let key = trim_chars(&k, CharClass::Space);
            let value = unquoted(&v);
            let low = lowered(&value);
            match section {
                Some(app) => {
                    let current = config.geometry_of_app(app.as_str());
                    let g = geometry_with_setting(current, &key, &value, &low);
                    let Config {
                        width,
                        height,
                        x,
                        y,
                        auto_position,
                        default_app,
                        backup_dir,
                        pause_behavior,
                        editor_apps,
                        viewer_apps,
                        always_pause_apps,
                        app_geometries,
                        terminal,
                    } = config;
                    let table = app_geometries.with(app.as_str(), g);
                    (
                        Config {
                            width,
                            height,
                            x,
                            y,
                            auto_position,
                            default_app,
                            backup_dir,
                            pause_behavior,
                            editor_apps,
                            viewer_apps,
                            always_pause_apps,
                            app_geometries: table,
                            terminal,
                        },
                        Some(app),
                    )
                },
                None => (config_with_setting(config, &key, &value, &low), None),
            }
        },
    }
}

impl Config {
    /// The configuration before any file is read.
    pub open spec fn default_view() -> ConfigView {
        ConfigView {
            width: 800,
            height: 600,
            x: 100,
            y: 100,
            auto_position: false,
            default_app: None,
            backup_dir: "backups"@,
            pause_behavior: PauseBehavior::Auto,
            editor_apps: seq![
                "vim"@,
                "nvim"@,
                "nano"@,
                "emacs"@,
                "micro"@,
                "helix"@,
                "hx"@,
                "code"@,
                "subl"@,
            ],
            viewer_apps: seq!["bat"@, "less"@, "more"@, "cat"@, "type"@],
            always_pause_apps: seq!["python"@, "python3"@, "node"@, "ruby"@, "perl"@],
            app_geometries: Map::empty(),
            terminal: TerminalType::Cmd,
        }
    }

    /// The geometry of a window for which no application has set one.
    pub fn geometry(&self) -> (r: AppGeometry)
        ensures
            r == self@.global_geometry(),
    {
        AppGeometry {
            width: self.width,
            height: self.height,
            x: self.x,
            y: self.y,
            auto_position: self.auto_position,
        }
    }

    /// The geometry set for the application `key`, or else the global one.
    pub fn geometry_of_app(&self, key: &str) -> (r: AppGeometry)
        ensures
            r == self@.geometry_for(key@),
    {
        match self.app_geometries.get(key) {
            Some(g) => g,
            None => self.geometry(),
        }
    }

    /// The geometry for a command that is already in lowercase: that of the
    /// application its first word names.
    pub fn geometry_of_lowered(&self, command: &str) -> (r: AppGeometry)
        ensures
            r == self@.geometry_for(first_token(command@)),
    {
        let text = chars_of(command);
        let key = string_of(&first_token_chars(&text));
        self.geometry_of_app(key.as_str())
    }

    /// The geometry of the window in which `app` runs: the one set for the
    /// application that the first word of `app` names, in lowercase, or else the
    /// global one.
    pub fn get_geometry(&self, app: &str) -> (r: AppGeometry)
        ensures
            r == resolve_geometry(self@, app@),
    {
        let low = app.to_lowercase();
        self.geometry_of_lowered(low.as_str())
    }

    /// The configuration that the file `content` makes of `base`.
    pub fn parse_from(base: Config, content: &str) -> (r: Config)
        ensures
            r@ == parsed(base@, content@),
    {
        let text = chars_of(content);
        let all = lines(&text);
        let mut config = base;
        let mut section: Option<String> = None;
        let mut i: usize = 0;
        let ghost start = ParseState { config: base@, section: None };
        proof {
            assert(views(all@).take(0) =~= Seq::<Seq<char>>::empty());
        }
        while i < all.len()
            invariant
                i <= all.len(),
                (ParseState { config: config@, section: optional_view(section) })
                    == state_after_lines(start, views(all@).take(i as int)),
            decreases all.len() - i,
        {
            proof {
                let longer = views(all@).take(i + 1);
                assert(longer.drop_last() == views(all@).take(i as int));
                assert(longer.last() == all@[i as int]@);
            }
            let (next_config, next_section) = read_line(config, section, &all[i]);
            config = next_config;
            section = next_section;
            i += 1;
        }
        proof {
            assert(views(all@).take(i as int) == views(all@));
        }
        config
    }

    /// The configuration that the file `content` makes of the default one.
    pub fn parse(content: &str) -> (r: Config)
        ensures
            r@ == parsed(Config::default_view(), content@),
    {
        Config::parse_from(Config::default(), content)
    }
}

impl Default for Config {
    fn default() -> (r: Config)
        ensures
            r@ == Config::default_view(),
    {
        let editor_apps: Vec<String> = vec![
            "vim".to_owned(),
            "nvim".to_owned(),
            "nano".to_owned(),
            "emacs".to_owned(),
            "micro".to_owned(),
            "helix".to_owned(),
            "hx".to_owned(),
            "code".to_owned(),
            "subl".to_owned(),
        ];
        let viewer_apps: Vec<String> = vec![
            "bat".to_owned(),
            "less".to_owned(),
            "more".to_owned(),
            "cat".to_owned(),
            "type".to_owned(),
        ];
        let always_pause_apps: Vec<String> = vec![
            "python".to_owned(),
            "python3".to_owned(),
            "node".to_owned(),
            "ruby".to_owned(),
            "perl".to_owned(),
        ];
        proof {
            assert(string_views(editor_apps@) =~= Config::default_view().editor_apps);
            assert(string_views(viewer_apps@) =~= Config::default_view().viewer_apps);
            assert(string_views(always_pause_apps@) =~= Config::default_view().always_pause_apps);
        }
        Config {
            width: 800,
            height: 600,
            x: 100,
            y: 100,
            auto_position: false,
            default_app: None,
            backup_dir: "backups".to_owned(),
            pause_behavior: PauseBehavior::Auto,
            editor_apps,
            viewer_apps,
            always_pause_apps,
            app_geometries: GeometryTable::new(),
            terminal: TerminalType::Cmd,
        }
    }
}


/// Resolving the geometry of a command twice under one configuration gives the
/// same geometry, and an application with a geometry of its own gets that one,
/// never the global one in its place.
pub proof fn law_geometry_resolution(
    config: ConfigView,
    command: Seq<char>,
    first: AppGeometry,
    second: AppGeometry,
)
    ensures
        first == resolve_geometry(config, command) && second == resolve_geometry(config, command)
            ==> first == second,
        config.app_geometries.contains_key(first_token(lowercase(command))) ==> resolve_geometry(
            config,
            command,
        ) == config.app_geometries[first_token(lowercase(command))],
        !config.app_geometries.contains_key(first_token(lowercase(command))) ==> resolve_geometry(
            config,
            command,
        ) == config.global_geometry(),
{
}

} // verus!
