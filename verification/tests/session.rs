use rund::config::{Config, RunOptions};
use rund::launch::Platform;
use rund::notify::{error_dialog_invocations, stderr_line};
use rund::paths::{config_dir_parts, config_place, default_config_text, ConfigPlace};
use rund::process::LaunchError;
use rund::session::{
    assemble_command, backup_directory, exit_code, staging_action, temp_file_name, RunError,
    StagingAction,
};

fn words(list: &[&str]) -> Vec<String> {
    list.iter().map(|s| s.to_string()).collect()
}

fn options(use_clipboard: bool, output_file: Option<&str>) -> RunOptions {
    RunOptions {
        always_on_top: false,
        use_clipboard,
        output_file: output_file.map(|s| s.to_string()),
        backup_dir: None,
    }
}

#[test]
fn staging_follows_the_options() {
    assert!(matches!(staging_action(&options(false, None)), StagingAction::NoFile));
    assert!(matches!(staging_action(&options(true, None)), StagingAction::ClipboardToTemp));
    match staging_action(&options(false, Some("/tmp/a.py"))) {
        StagingAction::UseFile(path) => assert_eq!(path, "/tmp/a.py"),
        other => panic!("unexpected action {:?}", other),
    }
    match staging_action(&options(true, Some("/tmp/a.py"))) {
        StagingAction::ClipboardToFile(path) => assert_eq!(path, "/tmp/a.py"),
        other => panic!("unexpected action {:?}", other),
    }
}

#[test]
fn temporary_file_names() {
    assert_eq!(temp_file_name(1700000000), "rund_clipboard_1700000000.txt");
    assert_eq!(temp_file_name(0), "rund_clipboard_0.txt");
}

#[test]
fn the_backup_directory_of_the_command_line_wins() {
    let c = Config::default();
    let mut o = RunOptions::default();
    assert_eq!(backup_directory(&o, &c), "backups");
    o.backup_dir = Some("/var/b".to_string());
    assert_eq!(backup_directory(&o, &c), "/var/b");
}

#[test]
fn the_command_is_the_application_and_its_arguments() {
    let mut c = Config::default();
    assert_eq!(assemble_command(Some("vim"), &words(&[]), &c).unwrap(), "vim");
    assert_eq!(assemble_command(Some("vim"), &words(&["a.txt"]), &c).unwrap(), "vim a.txt");
    assert_eq!(
        assemble_command(Some("python"), &words(&["-m", "rich.emoji", ""]), &c).unwrap(),
        "python -m rich.emoji "
    );
    assert!(matches!(assemble_command(None, &words(&[]), &c), Err(RunError::MissingCommand)));
    assert!(matches!(assemble_command(None, &words(&["x"]), &c), Err(RunError::MissingCommand)));
    c.default_app = Some("nvim".to_string());
    assert_eq!(assemble_command(None, &words(&["ignored"]), &c).unwrap(), "nvim");
    assert_eq!(assemble_command(Some("vim"), &words(&[]), &c).unwrap(), "vim");
}

#[test]
fn error_messages() {
    assert_eq!(
        RunError::ConfigLoad("permission denied".to_string()).message(),
        "Failed to load config: permission denied"
    );
    assert_eq!(
        RunError::Clipboard("empty".to_string()).message(),
        "Failed to run terminal: Clipboard error: empty"
    );
    assert_eq!(
        RunError::Staging("disk full".to_string()).message(),
        "Failed to run terminal: disk full"
    );
    assert_eq!(
        RunError::Launch(LaunchError::NoTerminalFound).message(),
        "Failed to run terminal: No supported terminal found. Please install: alacritty, kitty, gnome-terminal, konsole, or xterm"
    );
    assert_eq!(
        RunError::Launch(LaunchError::Os(5)).message(),
        "Failed to run terminal: os error 5"
    );
    assert_eq!(
        RunError::Launch(LaunchError::Os(-3)).message(),
        "Failed to run terminal: os error -3"
    );
    assert_eq!(
        RunError::MissingCommand.message(),
        "No app specified and no default_app in config"
    );
    assert_eq!(RunError::MissingOutputPath.message(), "-o/--output requires a file path");
    assert_eq!(RunError::MissingBackupDir.message(), "-b/--backup requires a directory path");
    assert_eq!(RunError::Backup("gone".to_string()).message(), "Backup failed: gone");
}

#[test]
fn exit_codes() {
    assert_eq!(exit_code(&Ok(())), 0);
    assert_eq!(exit_code(&Err(RunError::MissingCommand)), 1);
    assert_eq!(exit_code(&Err(RunError::MissingOutputPath)), 1);
    assert_eq!(exit_code(&Err(RunError::MissingBackupDir)), 1);
    assert_eq!(exit_code(&Err(RunError::ConfigLoad(String::new()))), 1);
    assert_eq!(exit_code(&Err(RunError::Clipboard(String::new()))), 1);
    assert_eq!(exit_code(&Err(RunError::Staging(String::new()))), 1);
    assert_eq!(exit_code(&Err(RunError::Launch(LaunchError::Os(2)))), 1);
    assert_eq!(exit_code(&Err(RunError::Launch(LaunchError::NoTerminalFound))), 1);
    assert_eq!(exit_code(&Err(RunError::Backup(String::new()))), 0);
    assert!(RunError::MissingCommand.fatal());
    assert!(!RunError::Backup(String::new()).fatal());
}

#[test]
fn the_error_line() {
    assert_eq!(stderr_line("it broke"), "Error: it broke");
    assert_eq!(stderr_line(""), "Error: ");
}

#[test]
fn error_dialogs() {
    assert_eq!(error_dialog_invocations(Platform::Windows, "x").len(), 0);
    let mac = error_dialog_invocations(Platform::MacOs, "no \"app\"");
    assert_eq!(mac.len(), 1);
    assert_eq!(mac[0].program, "osascript");
    assert_eq!(
        mac[0].args,
        words(&[
            "-e",
            "display dialog \"no \\\"app\\\"\" with title \"rund - Error\" buttons {\"OK\"} default button \"OK\" with icon stop"
        ])
    );
    let posix = error_dialog_invocations(Platform::Posix, "it broke");
    let programs: Vec<&str> = posix.iter().map(|i| i.program.as_str()).collect();
    assert_eq!(programs, vec!["zenity", "kdialog", "notify-send"]);
    assert_eq!(
        posix[0].args,
        words(&["--error", "--title=rund - Error", "--text=it broke", "--width=400"])
    );
    assert_eq!(posix[1].args, words(&["--error", "it broke", "--title", "rund - Error"]));
    assert_eq!(posix[2].args, words(&["-u", "critical", "rund - Error", "it broke"]));
}

#[test]
fn the_configuration_directory() {
    let s = |x: &str| Some(x.to_string());
    assert_eq!(
        config_dir_parts(Platform::Windows, s("C:\\Users\\u\\AppData"), s("/x"), s("/h")),
        words(&["C:\\Users\\u\\AppData", "rund"])
    );
    assert_eq!(config_dir_parts(Platform::Windows, None, s("/x"), s("/h")), words(&["."]));
    assert_eq!(
        config_dir_parts(Platform::MacOs, s("a"), s("/x"), s("/Users/u")),
        words(&["/Users/u", "Library", "Application Support", "rund"])
    );
    assert_eq!(config_dir_parts(Platform::MacOs, s("a"), s("/x"), None), words(&["."]));
    assert_eq!(
        config_dir_parts(Platform::Posix, s("a"), s("/x"), s("/home/u")),
        words(&["/x", "rund"])
    );
    assert_eq!(
        config_dir_parts(Platform::Posix, s("a"), None, s("/home/u")),
        words(&["/home/u", ".config", "rund"])
    );
    assert_eq!(config_dir_parts(Platform::Posix, s("a"), None, None), words(&["."]));
}

#[test]
fn the_place_of_the_configuration_file() {
    assert_eq!(config_place(true, true, false), ConfigPlace::BesideExecutable);
    assert_eq!(config_place(true, false, true), ConfigPlace::BesideExecutable);
    assert_eq!(config_place(true, true, true), ConfigPlace::BesideExecutable);
    assert_eq!(config_place(true, false, false), ConfigPlace::ConfigDir);
    assert_eq!(config_place(false, true, true), ConfigPlace::ConfigDir);
}

#[test]
fn the_text_of_a_new_configuration_file() {
    let w = default_config_text(Platform::Windows);
    let p = default_config_text(Platform::Posix);
    assert_eq!(default_config_text(Platform::MacOs), p);
    assert!(w.starts_with("# rund configuration file\n\n[terminal]\nwidth = 800\n"));
    assert!(p.starts_with("# rund configuration file\n\n[terminal]\nwidth = 800\n"));
    assert!(w.contains("terminal = \"cmd\"\n"));
    assert!(!p.contains("terminal = \"cmd\"\n"));
    assert!(w.contains("viewer_apps = \"bat, less, more, cat, type\"\n"));
    assert!(p.contains("viewer_apps = \"bat, less, more, cat\"\n"));
    assert!(p.ends_with("# default_app = \"nvim\"\n"));
    assert!(w.ends_with("#[python]\n#width = 900\n#height = 600\n"));
}
