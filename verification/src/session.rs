//! One run from the command line to the exit code: the command to run, the file
//! to stage, and the errors that end a run.

use vstd::prelude::*;
use crate::config::{Config, RunOptions};
use crate::process::LaunchError;
use crate::text::{
    decimal, lemma_decimal_injective, optional_view, push_decimal, push_signed_decimal,
    signed_decimal, string_views,
};

verus! {

/// How the file of a run comes to be.
#[derive(Debug)]
pub enum StagingAction {
    /// The run has no file.
    NoFile,
    /// The command works on the file at this path as it is.
    UseFile(String),
    /// The text of the clipboard is written to this path, its directories made
    /// first.
    ClipboardToFile(String),
    /// The text of the clipboard is written to a new temporary file.
    ClipboardToTemp,
}

/// A staging action as a mathematical value.
pub enum StagingActionView {
    NoFile,
    UseFile(Seq<char>),
    ClipboardToFile(Seq<char>),
    ClipboardToTemp,
}

impl View for StagingAction {
    type V = StagingActionView;

    open spec fn view(&self) -> StagingActionView {
        match self {
            StagingAction::NoFile => StagingActionView::NoFile,
            StagingAction::UseFile(path) => StagingActionView::UseFile(path@),
            StagingAction::ClipboardToFile(path) => StagingActionView::ClipboardToFile(path@),
            StagingAction::ClipboardToTemp => StagingActionView::ClipboardToTemp,
        }
    }
}

/// How the file of a run comes to be, by the clipboard flag and the output path.
pub open spec fn staging_of(use_clipboard: bool, output_file: Option<Seq<char>>) -> StagingActionView {
    match output_file {
        Some(path) => if use_clipboard {
            StagingActionView::ClipboardToFile(path)
        } else {
            StagingActionView::UseFile(path)
        },
        None => if use_clipboard {
            StagingActionView::ClipboardToTemp
        } else {
            StagingActionView::NoFile
        },
    }
}

/// How the file of a run comes to be.
pub fn staging_action(options: &RunOptions) -> (r: StagingAction)
    ensures
        r@ == staging_of(options.use_clipboard, optional_view(options.output_file)),
{
    match &options.output_file {
        Some(path) => if options.use_clipboard {
            StagingAction::ClipboardToFile(path.clone())
        } else {
            StagingAction::UseFile(path.clone())
        },
        None => if options.use_clipboard {
            StagingAction::ClipboardToTemp
        } else {
            StagingAction::NoFile
        },
    }
}

/// The name of the temporary file that takes the clipboard at `timestamp`, in
/// seconds since the epoch.
pub open spec fn temp_name(timestamp: u64) -> Seq<char> {
    "rund_clipboard_"@ + decimal(timestamp as nat) + ".txt"@
}

/// The name of the temporary file that takes the clipboard at `timestamp`.
pub fn temp_file_name(timestamp: u64) -> (r: String)
    ensures
        r@ == temp_name(timestamp),
{
    let mut out = "rund_clipboard_".to_owned();
    push_decimal(&mut out, timestamp);
    out.append(".txt");
    out
}

/// Clipboards staged at different seconds go to different temporary files.
pub proof fn law_temp_names_differ(first: u64, second: u64)
    ensures
        first != second ==> temp_name(first) != temp_name(second),
{
    if first != second && temp_name(first) == temp_name(second) {
        lemma_decimal_injective(first as nat, second as nat);
        let lead = "rund_clipboard_"@;
        let a = decimal(first as nat);
        let b = decimal(second as nat);
        let x = temp_name(first);
        let y = temp_name(second);
        assert(x.len() == lead.len() + a.len() + ".txt"@.len());
        assert(y.len() == lead.len() + b.len() + ".txt"@.len());
        assert(x.subrange(lead.len() as int, (lead.len() + a.len()) as int) =~= a);
        assert(y.subrange(lead.len() as int, (lead.len() + b.len()) as int) =~= b);
    }
}

/// The directory that takes the backups: the one given on the command line, or
/// else the configured one.
pub fn backup_directory(options: &RunOptions, config: &Config) -> (r: String)
    ensures
        r@ == match options.backup_dir {
            Some(dir) => dir@,
            None => config.backup_dir@,
        },
{
    match &options.backup_dir {
        Some(dir) => dir.clone(),
        None => config.backup_dir.clone(),
    }
}

/// The words in a row, each with a space before it.
pub open spec fn spaced(words: Seq<Seq<char>>) -> Seq<char>
    decreases words.len(),
{
    if words.len() == 0 {
        Seq::empty()
    } else {
        spaced(words.drop_last()) + " "@ + words.last()
    }
}

/// Why a run ended before or without its window.
#[derive(Debug)]
pub enum RunError {
    /// The configuration could not be read or created; the system's words.
    ConfigLoad(String),
    /// The clipboard is empty, unavailable or holds no text; the clipboard's words.
    Clipboard(String),
    /// The staged file could not be written; the system's words.
    Staging(String),
    /// No terminal window could be opened.
    Launch(LaunchError),
    /// No command was given and the configuration has no default.
    MissingCommand,
    /// `-o` stands last on the command line.
    MissingOutputPath,
    /// `-b` stands last on the command line.
    MissingBackupDir,
    /// The backup could not be made; the system's words. The run itself went well.
    Backup(String),
}

/// The command to run: the application and its arguments, or else the configured
/// default.
pub open spec fn command_of(
    app: Option<Seq<char>>,
    args: Seq<Seq<char>>,
    default_app: Option<Seq<char>>,
) -> Option<Seq<char>> {
    match app {
        Some(name) => Some(name + spaced(args)),
        None => default_app,
    }
}

/// The command to run, or `MissingCommand` where none was given and none is
/// configured.
pub fn assemble_command(app: Option<&str>, args: &Vec<String>, config: &Config) -> (r: Result<
    String,
    RunError,
>)
    ensures
        match command_of(
            match app {
                Some(name) => Some(name@),
                None => None,
            },
            string_views(args@),
            optional_view(config.default_app),
        ) {
            Some(command) => r matches Ok(text) && text@ == command,
            None => r matches Err(RunError::MissingCommand),
        },
{
    match app {
        Some(name) => {
            let mut out = name.to_owned();
            let mut i: usize = 0;
            proof {
                assert(string_views(args@).take(0) =~= Seq::<Seq<char>>::empty());
                assert(out@ =~= name@ + spaced(string_views(args@).take(0)));
            }
            while i < args.len()
                invariant
                    i <= args.len(),
                    out@ == name@ + spaced(string_views(args@).take(i as int)),
                decreases args.len() - i,
            {
                proof {
                    let longer = string_views(args@).take(i + 1);
                    assert(longer.drop_last() == string_views(args@).take(i as int));
                    assert(longer.last() == args@[i as int]@);
                }
                out.append(" ");
                out.append(args[i].as_str());
                i += 1;
                proof {
                    assert(out@ =~= name@ + spaced(string_views(args@).take(i as int)));
                }
            }
            proof {
                assert(string_views(args@).take(i as int) == string_views(args@));
            }
            Ok(out)
        },
        None => match &config.default_app {
            Some(default) => Ok(default.clone()),
            None => Err(RunError::MissingCommand),
        },
    }
}

impl RunError {
    /// Whether the error ends the run with a failure. Only a failed backup does
    /// not: by then the run has gone well.
    pub open spec fn is_fatal(self) -> bool {
        !(self is Backup)
    }

    /// What the user is told.
    pub open spec fn message_of(self) -> Seq<char> {
        match self {
            RunError::ConfigLoad(detail) => "Failed to load config: "@ + detail@,
            RunError::Clipboard(detail) => "Failed to run terminal: Clipboard error: "@ + detail@,
            RunError::Staging(detail) => "Failed to run terminal: "@ + detail@,
            RunError::Launch(LaunchError::NoTerminalFound) =>
                "Failed to run terminal: No supported terminal found. Please install: alacritty, kitty, gnome-terminal, konsole, or xterm"@,
            RunError::Launch(LaunchError::Os(code)) => "Failed to run terminal: os error "@
                + signed_decimal(code as int),
            RunError::MissingCommand => "No app specified and no default_app in config"@,
            RunError::MissingOutputPath => "-o/--output requires a file path"@,
            RunError::MissingBackupDir => "-b/--backup requires a directory path"@,
            RunError::Backup(detail) => "Backup failed: "@ + detail@,
        }
    }

    /// Whether the error ends the run with a failure.
    pub fn fatal(&self) -> (r: bool)
        ensures
            r == self.is_fatal(),
    {
        match self {
            RunError::Backup(_) => false,
            _ => true,
        }
    }

    /// What the user is told.
    pub fn message(&self) -> (r: String)
        ensures
            r@ == self.message_of(),
    {
        match self {
            RunError::ConfigLoad(detail) => {
                let mut out = "Failed to load config: ".to_owned();
                out.append(detail.as_str());
                out
            },
            RunError::Clipboard(detail) => {
                let mut out = "Failed to run terminal: Clipboard error: ".to_owned();
                out.append(detail.as_str());
                out
            },
            RunError::Staging(detail) => {
                let mut out = "Failed to run terminal: ".to_owned();
                out.append(detail.as_str());
                out
            },
            RunError::Launch(LaunchError::NoTerminalFound) =>
                "Failed to run terminal: No supported terminal found. Please install: alacritty, kitty, gnome-terminal, konsole, or xterm".to_owned(),
            RunError::Launch(LaunchError::Os(code)) => {
                let mut out = "Failed to run terminal: os error ".to_owned();
                push_signed_decimal(&mut out, *code as i64);
                out
            },
            RunError::MissingCommand => "No app specified and no default_app in config".to_owned(),
            RunError::MissingOutputPath => "-o/--output requires a file path".to_owned(),
            RunError::MissingBackupDir => "-b/--backup requires a directory path".to_owned(),
            RunError::Backup(detail) => {
                let mut out = "Backup failed: ".to_owned();
                out.append(detail.as_str());
                out
            },
        }
    }
}

/// The exit code of a run: 0 where it went well, 1 after a fatal error.
pub fn exit_code(outcome: &Result<(), RunError>) -> (r: i32)
    ensures
        r == match outcome {
            Ok(_) => 0i32,
            Err(e) => if e.is_fatal() {
                1i32
            } else {
                0i32
            },
        },
{
    match outcome {
        Ok(_) => 0,
        Err(e) => if e.fatal() {
            1
        } else {
            0
        },
    }
}

} // verus!
