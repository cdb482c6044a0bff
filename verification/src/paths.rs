//! Where the configuration file lives, and what a new one holds.

use vstd::prelude::*;
use crate::launch::Platform;
use crate::text::{optional_view, string_views};

verus! {

/// The name of the configuration file.
pub const CONFIG_FILE_NAME: &'static str = "config.toml";

/// The name of the file that is made, and removed again, beside the executable to
/// see whether the configuration file can be made there.
pub const WRITE_PROBE_NAME: &'static str = ".rund_write_test";

/// The directory of the configuration, as the parts of its path, by what the
/// environment holds: under `%APPDATA%` on Windows; under the home directory's
/// `Library/Application Support` on macOS; elsewhere under `$XDG_CONFIG_HOME`, or
/// else under the home directory's `.config`. Where the environment names none of
/// these it is the working directory.
pub open spec fn config_dir_of(
    platform: Platform,
    appdata: Option<Seq<char>>,
    xdg_config_home: Option<Seq<char>>,
    home: Option<Seq<char>>,
) -> Seq<Seq<char>> {
    match platform {
        Platform::Windows => match appdata {
            Some(dir) => seq![dir, "rund"@],
            None => seq!["."@],
        },
        Platform::MacOs => match home {
            Some(dir) => seq![dir, "Library"@, "Application Support"@, "rund"@],
            None => seq!["."@],
        },
        Platform::Posix => match xdg_config_home {
            Some(dir) => seq![dir, "rund"@],
            None => match home {
                Some(dir) => seq![dir, ".config"@, "rund"@],
                None => seq!["."@],
            },
        },
    }
}

/// The directory of the configuration, as the parts of its path.
pub fn config_dir_parts(
    platform: Platform,
    appdata: Option<String>,
    xdg_config_home: Option<String>,
    home: Option<String>,
) -> (r: Vec<String>)
    ensures
        string_views(r@) == config_dir_of(
            platform,
            optional_view(appdata),
            optional_view(xdg_config_home),
            optional_view(home),
        ),
{
    let mut out: Vec<String> = Vec::new();
    match platform {
        Platform::Windows => match appdata {
            Some(dir) => {
                out.push(dir);
                out.push("rund".to_owned());
            },
            None => {
                out.push(".".to_owned());
            },
        },
        Platform::MacOs => match home {
            Some(dir) => {
                out.push(dir);
                out.push("Library".to_owned());
                out.push("Application Support".to_owned());
                out.push("rund".to_owned());
            },
            None => {
                out.push(".".to_owned());
            },
        },
        Platform::Posix => match xdg_config_home {
            Some(dir) => {
                out.push(dir);
                out.push("rund".to_owned());
            },
            None => match home {
                Some(dir) => {
                    out.push(dir);
                    out.push(".config".to_owned());
                    out.push("rund".to_owned());
                },
                None => {
                    out.push(".".to_owned());
                },
            },
        },
    }
    proof {
        assert(string_views(out@) =~= config_dir_of(
            platform,
            optional_view(appdata),
            optional_view(xdg_config_home),
            optional_view(home),
        ));
    }
    out
}

/// Where the configuration file is looked for, in order.
#[derive(Clone, Copy, Debug, PartialEq, Eq, Structural)]
pub enum ConfigPlace {
    /// Beside the executable.
    BesideExecutable,
    /// In the configuration directory, which is made first.
    ConfigDir,
}

/// Where the configuration file is: beside the executable, where that is known and
/// the file exists there or can be made there; else in the configuration
/// directory.
pub open spec fn config_place_of(
    executable_dir_known: bool,
    exists_beside: bool,
    writable_beside: bool,
) -> ConfigPlace {
    if executable_dir_known && (exists_beside || writable_beside) {
        ConfigPlace::BesideExecutable
    } else {
        ConfigPlace::ConfigDir
    }
}

/// Where the configuration file is.
pub fn config_place(executable_dir_known: bool, exists_beside: bool, writable_beside: bool) -> (r:
    ConfigPlace)
    ensures
        r == config_place_of(executable_dir_known, exists_beside, writable_beside),
{
    if executable_dir_known && (exists_beside || writable_beside) {
        ConfigPlace::BesideExecutable
    } else {
        ConfigPlace::ConfigDir
    }
}


/// What a new configuration file holds on Windows.
pub const WINDOWS_CONFIG_TEXT: &'static str = r#"# rund configuration file

[terminal]
width = 800
height = 600

# Position settings
# If auto_position = true, let Windows decide position
# If auto_position = false, use x and y below
auto_position = false
x = 100
y = 100

# Terminal to use: "cmd" or "wt" (Windows Terminal)
terminal = "cmd"

# Pause behavior after command execution:
# "never"  - No pause, window closes immediately
# "always" - Always pause with "Press any key..."
# "auto"   - Smart detection based on app lists below
pause_behavior = "auto"

# App classifications for smart pause behavior
# Editors: NEVER pause (they're interactive)
editor_apps = "vim, nvim, nano, emacs, micro, helix, hx, code, subl"

# Viewers: Pause ONLY for small files (<30 lines)
viewer_apps = "bat, less, more, cat, type"

# Always pause: For scripts/interpreters that produce output
always_pause_apps = "python, python3, node, ruby, perl, php"

# Directory for backup files (default: ./backups)
backup_dir = "backups"

# Uncomment to set default app
# default_app = "nvim"

# Per-app geometry configuration (optional)
# Uncomment and customize for specific apps
# These settings override the default [terminal] geometry

#[bat]
#width = 1200
#height = 800
#x = 200
#y = 150
#auto_position = false

#[nvim]
#width = 1000
#height = 700
#x = 100
#y = 100
#auto_position = true

#[python]
#width = 900
#height = 600
"#;

/// What a new configuration file holds on other systems.
pub const POSIX_CONFIG_TEXT: &'static str = r#"# rund configuration file

[terminal]
width = 800
height = 600

# Position settings
auto_position = false
x = 100
y = 100

# Pause behavior: "never", "always", "auto"
pause_behavior = "auto"

# App classifications for smart pause behavior
# Editors: NEVER pause (they're interactive)
editor_apps = "vim, nvim, nano, emacs, micro, helix, hx, code, subl"

# Viewers: Pause ONLY for small files (<30 lines)
viewer_apps = "bat, less, more, cat"

# Always pause: For scripts/interpreters that produce output
always_pause_apps = "python, python3, node, ruby, perl, php"

# Directory for backup files (default: ./backups)
backup_dir = "backups"

# Uncomment to set default app
# default_app = "nvim"
"#;

/// What a new configuration file holds on `platform`.
pub fn default_config_text(platform: Platform) -> (r: &'static str)
    ensures
        r@ == match platform {
            Platform::Windows => WINDOWS_CONFIG_TEXT@,
            _ => POSIX_CONFIG_TEXT@,
        },
{
    match platform {
        Platform::Windows => WINDOWS_CONFIG_TEXT,
        _ => POSIX_CONFIG_TEXT,
    }
}

} // verus!
