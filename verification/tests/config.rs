use rund::config::{
    config_with_setting, geometry_with_setting, names_geometry, pause_behavior_from,
    read_app_list, read_line, terminal_from, truthy, unquoted, Config, PauseBehavior, RunOptions,
    TerminalType,
};
use rund::geometry::{AppGeometry, GeometryTable};
use rund::launch::Platform;
use rund::paths::default_config_text;
use rund::text::{chars_of, string_of};

fn words(list: &[&str]) -> Vec<String> {
    list.iter().map(|s| s.to_string()).collect()
}

fn geometry(width: u32, height: u32, x: i32, y: i32, auto_position: bool) -> AppGeometry {
    AppGeometry { width, height, x, y, auto_position }
}

#[test]
fn the_default_configuration() {
    let c = Config::default();
    assert_eq!(c.width, 800);
    assert_eq!(c.height, 600);
    assert_eq!(c.x, 100);
    assert_eq!(c.y, 100);
    assert!(!c.auto_position);
    assert_eq!(c.default_app, None);
    assert_eq!(c.backup_dir, "backups");
    assert_eq!(c.pause_behavior, PauseBehavior::Auto);
    assert_eq!(
        c.editor_apps,
        words(&["vim", "nvim", "nano", "emacs", "micro", "helix", "hx", "code", "subl"])
    );
    assert_eq!(c.viewer_apps, words(&["bat", "less", "more", "cat", "type"]));
    assert_eq!(c.always_pause_apps, words(&["python", "python3", "node", "ruby", "perl"]));
    assert_eq!(c.app_geometries.len(), 0);
    assert_eq!(c.terminal, TerminalType::Cmd);
    assert_eq!(TerminalType::default(), TerminalType::Cmd);
    assert_eq!(c.geometry(), geometry(800, 600, 100, 100, false));
}

#[test]
fn the_default_run_options() {
    let o = RunOptions::default();
    assert!(!o.always_on_top);
    assert!(!o.use_clipboard);
    assert_eq!(o.output_file, None);
    assert_eq!(o.backup_dir, None);
}

#[test]
fn an_empty_file_leaves_the_defaults() {
    let c = Config::parse("");
    assert_eq!(c.width, 800);
    assert_eq!(c.backup_dir, "backups");
    assert_eq!(c.viewer_apps, words(&["bat", "less", "more", "cat", "type"]));
    let c = Config::parse("\n\n# only a comment\n   \n");
    assert_eq!(c.height, 600);
    assert_eq!(c.pause_behavior, PauseBehavior::Auto);
}

#[test]
fn global_settings_are_read() {
    let c = Config::parse(
        "[terminal]\nwidth = 1024\nheight=768\n x = -20 \ny = +30\nauto_position = Yes\n\
         pause_behavior = \"Always\"\ndefault_app = 'nvim'\nbackup_dir = \"/tmp/b k\"\n\
         editor_apps = \"vi, ed , ,kak,\"\nviewer_apps = most\nalways_pause_apps = \"\"\n\
         terminal = \"WT\"\n",
    );
    assert_eq!(c.width, 1024);
    assert_eq!(c.height, 768);
    assert_eq!(c.x, -20);
    assert_eq!(c.y, 30);
    assert!(c.auto_position);
    assert_eq!(c.pause_behavior, PauseBehavior::Always);
    assert_eq!(c.default_app, Some("nvim".to_string()));
    assert_eq!(c.backup_dir, "/tmp/b k");
    assert_eq!(c.editor_apps, words(&["vi", "ed", "kak"]));
    assert_eq!(c.viewer_apps, words(&["most"]));
    assert_eq!(c.always_pause_apps, words(&[]));
    assert_eq!(c.terminal, TerminalType::WindowsTerminal);
    assert_eq!(c.app_geometries.len(), 0);
}

#[test]
fn numbers_that_cannot_be_read_change_nothing() {
    let c = Config::parse("width = wide\nheight = -1\nx = 1.5\ny = \nwidth = 4294967296\n");
    assert_eq!(c.geometry(), geometry(800, 600, 100, 100, false));
    let c = Config::parse("width = 4294967295\nx = -2147483648\ny = 2147483647\n");
    assert_eq!(c.geometry(), geometry(4294967295, 600, -2147483648, 2147483647, false));
}

#[test]
fn empty_values_keep_the_application_and_the_directory() {
    let c = Config::parse("default_app = vim\ndefault_app = \"\"\nbackup_dir = ''\nbackup_dir =\n");
    assert_eq!(c.default_app, Some("vim".to_string()));
    assert_eq!(c.backup_dir, "backups");
}

#[test]
fn pause_behaviour_names() {
    assert_eq!(Config::parse("pause_behavior = never").pause_behavior, PauseBehavior::Never);
    assert_eq!(Config::parse("pause_behavior = ALWAYS").pause_behavior, PauseBehavior::Always);
    assert_eq!(Config::parse("pause_behavior = Auto").pause_behavior, PauseBehavior::Auto);
    assert_eq!(Config::parse("pause_behavior = sometimes").pause_behavior, PauseBehavior::Never);
    assert_eq!(Config::parse("pause_behavior =").pause_behavior, PauseBehavior::Never);
    assert_eq!(pause_behavior_from(&chars_of("never")), PauseBehavior::Never);
    assert_eq!(pause_behavior_from(&chars_of("always")), PauseBehavior::Always);
    assert_eq!(pause_behavior_from(&chars_of("auto")), PauseBehavior::Auto);
    assert_eq!(pause_behavior_from(&chars_of("Auto")), PauseBehavior::Never);
}

#[test]
fn terminal_names() {
    for name in ["wt", "wt.exe", "windows_terminal", "windowsterminal"] {
        assert_eq!(terminal_from(&chars_of(name)), TerminalType::WindowsTerminal);
    }
    for name in ["cmd", "", "wt2", "powershell", "WT"] {
        assert_eq!(terminal_from(&chars_of(name)), TerminalType::Cmd);
    }
    assert_eq!(Config::parse("terminal = Windows_Terminal").terminal, TerminalType::WindowsTerminal);
    assert_eq!(Config::parse("terminal = wt\nterminal = cmd").terminal, TerminalType::Cmd);
}

#[test]
fn truthy_values() {
    for v in ["true", "1", "yes"] {
        assert!(truthy(&chars_of(v)));
    }
    for v in ["false", "0", "no", "", "on", "True", "y"] {
        assert!(!truthy(&chars_of(v)));
    }
    assert!(Config::parse("auto_position = TRUE").auto_position);
    assert!(Config::parse("auto_position = 1").auto_position);
    assert!(!Config::parse("auto_position = true\nauto_position = off").auto_position);
}

#[test]
fn values_lose_space_and_quotes() {
    assert_eq!(string_of(&unquoted(&chars_of("  \"a b\"  "))), "a b");
    assert_eq!(string_of(&unquoted(&chars_of("'x'"))), "x");
    assert_eq!(string_of(&unquoted(&chars_of("\"'x'\""))), "x");
    assert_eq!(string_of(&unquoted(&chars_of("'\"x\"'"))), "\"x\"");
    assert_eq!(string_of(&unquoted(&chars_of("\" x \""))), " x ");
    assert_eq!(string_of(&unquoted(&chars_of(""))), "");
}

#[test]
fn application_lists() {
    assert_eq!(read_app_list(&chars_of("a, b ,c")), words(&["a", "b", "c"]));
    assert_eq!(read_app_list(&chars_of(" , ,, ")), words(&[]));
    assert_eq!(read_app_list(&chars_of("")), words(&[]));
    assert_eq!(read_app_list(&chars_of("one")), words(&["one"]));
    assert_eq!(read_app_list(&chars_of("Vim, two words ,")), words(&["Vim", "two words"]));
}

#[test]
fn sections_set_the_geometry_of_one_application() {
    let c = Config::parse(
        "width = 900\n[bat]\nwidth = 1200\nheight = 800\nx = 200\ny = 150\n\
         [nvim]\nauto_position = true\n[terminal]\nheight = 500\n",
    );
    assert_eq!(c.width, 900);
    assert_eq!(c.height, 500);
    assert_eq!(c.app_geometries.len(), 2);
    assert_eq!(c.app_geometries.get("bat"), Some(geometry(1200, 800, 200, 150, false)));
    assert_eq!(c.app_geometries.get("nvim"), Some(geometry(900, 600, 100, 100, true)));
    assert_eq!(c.app_geometries.get("vim"), None);
    assert_eq!(c.get_geometry("bat README.md"), geometry(1200, 800, 200, 150, false));
    assert_eq!(c.get_geometry("  NVIM"), geometry(900, 600, 100, 100, true));
    assert_eq!(c.get_geometry("less x"), geometry(900, 500, 100, 100, false));
    assert_eq!(c.get_geometry(""), geometry(900, 500, 100, 100, false));
}

#[test]
fn a_section_starts_from_the_global_geometry_of_that_moment() {
    let c = Config::parse("[a]\nx = 1\n[terminal]\nwidth = 1000\n[b]\nx = 2\n[a]\ny = 3\n");
    assert_eq!(c.app_geometries.get("a"), Some(geometry(800, 600, 1, 3, false)));
    assert_eq!(c.app_geometries.get("b"), Some(geometry(1000, 600, 2, 100, false)));
}

#[test]
fn any_setting_in_a_section_makes_its_entry() {
    let c = Config::parse("[python]\ncolour = blue\nwidth = many\npause_behavior = never\n");
    assert_eq!(c.app_geometries.get("python"), Some(geometry(800, 600, 100, 100, false)));
    assert_eq!(c.pause_behavior, PauseBehavior::Auto);
    let c = Config::parse("[python]\n# width = 5\nno setting here\n");
    assert_eq!(c.app_geometries.get("python"), None);
    assert_eq!(c.app_geometries.len(), 0);
}

#[test]
fn section_names_are_taken_as_written() {
    let c = Config::parse("[Bat]\nwidth = 1\n[ cat ]\nwidth = 2\n[]\nwidth = 3\n");
    assert_eq!(c.app_geometries.get("Bat").map(|g| g.width), Some(1));
    assert_eq!(c.app_geometries.get(" cat ").map(|g| g.width), Some(2));
    assert_eq!(c.app_geometries.get("").map(|g| g.width), Some(3));
    assert_eq!(c.app_geometries.get("bat"), None);
    assert_eq!(c.get_geometry("bat").width, 800);
    assert_eq!(c.get_geometry("Bat").width, 800);
    assert_eq!(c.get_geometry("   ").width, 3);
}

#[test]
fn lines_that_are_no_settings_change_nothing() {
    let c = Config::parse("[half\nwidth = 5\nhalf]\n]x[\n= 7\njust words\n#width = 9\n");
    assert_eq!(c.width, 5);
    assert_eq!(c.app_geometries.len(), 0);
    let c = Config::parse("  [ok]  \r\n  width = 7  \r\n");
    assert_eq!(c.width, 800);
    assert_eq!(c.app_geometries.get("ok").map(|g| g.width), Some(7));
}

#[test]
fn the_value_may_hold_the_separator() {
    let c = Config::parse("default_app = env A=B vim\n");
    assert_eq!(c.default_app, Some("env A=B vim".to_string()));
}

#[test]
fn parse_from_starts_from_the_base() {
    let mut base = Config::default();
    base.backup_dir = "/opt/rund/backups".to_string();
    base.width = 1;
    let c = Config::parse_from(base, "height = 2\n");
    assert_eq!(c.backup_dir, "/opt/rund/backups");
    assert_eq!(c.width, 1);
    assert_eq!(c.height, 2);
}

#[test]
fn the_new_configuration_file_reads_as_the_defaults() {
    let d = Config::default();
    for platform in [Platform::Posix, Platform::MacOs, Platform::Windows] {
        let c = Config::parse(default_config_text(platform));
        assert_eq!(c.geometry(), d.geometry());
        assert_eq!(c.pause_behavior, PauseBehavior::Auto);
        assert_eq!(c.editor_apps, d.editor_apps);
        assert_eq!(
            c.always_pause_apps,
            words(&["python", "python3", "node", "ruby", "perl", "php"])
        );
        assert_eq!(c.backup_dir, "backups");
        assert_eq!(c.default_app, None);
        assert_eq!(c.terminal, TerminalType::Cmd);
        assert_eq!(c.app_geometries.len(), 0);
    }
    assert_eq!(
        Config::parse(default_config_text(Platform::Windows)).viewer_apps,
        words(&["bat", "less", "more", "cat", "type"])
    );
    assert_eq!(
        Config::parse(default_config_text(Platform::Posix)).viewer_apps,
        words(&["bat", "less", "more", "cat"])
    );
}

#[test]
fn geometry_resolution_is_idempotent() {
    let c = Config::parse("[bat]\nwidth = 1200\n");
    let first = c.get_geometry("bat a.txt");
    let second = c.get_geometry("bat a.txt");
    assert_eq!(first, second);
    assert_eq!(first, geometry(1200, 600, 100, 100, false));
    assert_ne!(first, c.geometry());
    assert_eq!(c.get_geometry("cat a.txt"), c.get_geometry("cat a.txt"));
    assert_eq!(c.get_geometry("cat a.txt"), c.geometry());
}

#[test]
fn geometry_lookups_by_key() {
    let c = Config::parse("[bat]\nwidth = 1200\n");
    assert_eq!(c.geometry_of_app("bat").width, 1200);
    assert_eq!(c.geometry_of_app("BAT").width, 800);
    assert_eq!(c.geometry_of_lowered("bat x").width, 1200);
    assert_eq!(c.geometry_of_lowered("x bat").width, 800);
}

#[test]
fn one_geometry_setting() {
    let g = geometry(1, 2, 3, 4, false);
    let set = |key: &str, value: &str| {
        let v = chars_of(value);
        geometry_with_setting(g, &chars_of(key), &v, &chars_of(&value.to_lowercase()))
    };
    assert_eq!(set("width", "10"), geometry(10, 2, 3, 4, false));
    assert_eq!(set("height", "10"), geometry(1, 10, 3, 4, false));
    assert_eq!(set("x", "-10"), geometry(1, 2, -10, 4, false));
    assert_eq!(set("y", "10"), geometry(1, 2, 3, 10, false));
    assert_eq!(set("auto_position", "YES"), geometry(1, 2, 3, 4, true));
    assert_eq!(set("width", "-10"), g);
    assert_eq!(set("depth", "10"), g);
    assert!(names_geometry(&chars_of("auto_position")));
    assert!(!names_geometry(&chars_of("terminal")));
}

#[test]
fn one_global_setting() {
    let c = config_with_setting(
        Config::default(),
        &chars_of("pause_behavior"),
        &chars_of("Never"),
        &chars_of("never"),
    );
    assert_eq!(c.pause_behavior, PauseBehavior::Never);
    let c = config_with_setting(c, &chars_of("y"), &chars_of("7"), &chars_of("7"));
    assert_eq!(c.y, 7);
    assert_eq!(c.pause_behavior, PauseBehavior::Never);
    let c = config_with_setting(c, &chars_of("unknown"), &chars_of("7"), &chars_of("7"));
    assert_eq!(c.y, 7);
    assert_eq!(c.width, 800);
}

#[test]
fn one_line_at_a_time() {
    let (c, section) = read_line(Config::default(), None, &chars_of(" [bat] "));
    assert_eq!(section, Some("bat".to_string()));
    let (c, section) = read_line(c, section, &chars_of("width = 5"));
    assert_eq!(section, Some("bat".to_string()));
    assert_eq!(c.width, 800);
    assert_eq!(c.app_geometries.get("bat").map(|g| g.width), Some(5));
    let (c, section) = read_line(c, section, &chars_of("[terminal]"));
    assert_eq!(section, None);
    let (c, section) = read_line(c, section, &chars_of("width = 6"));
    assert_eq!(section, None);
    assert_eq!(c.width, 6);
}

#[test]
fn the_geometry_table_keeps_one_entry_for_each_application() {
    let t = GeometryTable::new();
    assert_eq!(t.len(), 0);
    assert_eq!(t.get("a"), None);
    let t = t.with("a", geometry(1, 1, 1, 1, false));
    let t = t.with("b", geometry(2, 2, 2, 2, false));
    let t = t.with("a", geometry(3, 3, 3, 3, true));
    assert_eq!(t.len(), 2);
    assert_eq!(t.get("a"), Some(geometry(3, 3, 3, 3, true)));
    assert_eq!(t.get("b"), Some(geometry(2, 2, 2, 2, false)));
    assert_eq!(t.get("c"), None);
}
