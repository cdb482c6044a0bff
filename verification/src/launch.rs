//! The launch plan of a run, and what each kind of terminal is handed to carry it out.

use vstd::prelude::*;
use crate::classify::{classification, classify, decide_pause, must_pause, Classification};
use crate::config::{resolve_geometry, Config, ConfigView, PauseBehavior, TerminalType};
use crate::geometry::AppGeometry;
use crate::text::{
    chars_of, decimal, lemma_decimal_injective, optional_view, push_decimal, push_signed_decimal,
    signed_decimal, string_views,
};

verus! {

/// The kind of system the program runs on.
#[derive(Clone, Copy, Debug, PartialEq, Eq, Structural)]
pub enum Platform {
    Windows,
    MacOs,
    Posix,
}

/// The way in which the terminal window is opened.
#[derive(Clone, Copy, Debug, PartialEq, Eq, Structural)]
pub enum TerminalKind {
    /// A new console of `cmd.exe`, placed through the registry.
    Console,
    /// Windows Terminal, placed through its arguments.
    WindowsTerminal,
    /// The macOS Terminal, driven by a script.
    MacTerminal,
    /// The first terminal emulator of a fixed list that starts.
    PosixEmulators,
}

/// The terminal kind for a platform; on Windows the configuration chooses.
pub open spec fn terminal_for(platform: Platform, terminal: TerminalType) -> TerminalKind {
    match platform {
        Platform::Windows => match terminal {
            TerminalType::Cmd => TerminalKind::Console,
            TerminalType::WindowsTerminal => TerminalKind::WindowsTerminal,
        },
        Platform::MacOs => TerminalKind::MacTerminal,
        Platform::Posix => TerminalKind::PosixEmulators,
    }
}

/// The terminal kind for a platform; on Windows the configuration chooses.
pub fn select_terminal(platform: Platform, terminal: TerminalType) -> (r: TerminalKind)
    ensures
        r == terminal_for(platform, terminal),
{
    match platform {
        Platform::Windows => match terminal {
            TerminalType::Cmd => TerminalKind::Console,
            TerminalType::WindowsTerminal => TerminalKind::WindowsTerminal,
        },
        Platform::MacOs => TerminalKind::MacTerminal,
        Platform::Posix => TerminalKind::PosixEmulators,
    }
}

/// All that a launch needs to know.
#[derive(Debug)]
pub struct LaunchPlan {
    /// The command to run, after any rewriting.
    pub command: String,
    /// The file that the command works on, if any.
    pub file_path: Option<String>,
    /// Size and place of the window.
    pub geometry: AppGeometry,
    /// Whether the window closes without waiting for a key.
    pub no_pause: bool,
    /// The way in which the window is opened.
    pub terminal: TerminalKind,
}

/// A launch plan as a mathematical value.
pub struct LaunchPlanView {
    pub command: Seq<char>,
    pub file_path: Option<Seq<char>>,
    pub geometry: AppGeometry,
    pub no_pause: bool,
    pub terminal: TerminalKind,
}

impl View for LaunchPlan {
    type V = LaunchPlanView;

    open spec fn view(&self) -> LaunchPlanView {
        LaunchPlanView {
            command: self.command@,
            file_path: optional_view(self.file_path),
            geometry: self.geometry,
            no_pause: self.no_pause,
            terminal: self.terminal,
        }
    }
}

/// The command that runs: `type` is piped through `more` where the window will not
/// wait, so that long output stays readable.
pub open spec fn paged_command(command: Seq<char>, is_paging_command: bool, no_pause: bool) -> Seq<
    char,
> {
    if is_paging_command && no_pause {
        command + " | more"@
    } else {
        command
    }
}

/// The plan for a command whose classification and geometry are known.
pub open spec fn plan_of(
    command: Seq<char>,
    c: Classification,
    geometry: AppGeometry,
    file_path: Option<Seq<char>>,
    file_lines: Option<usize>,
    policy: PauseBehavior,
    terminal: TerminalKind,
) -> LaunchPlanView {
    let no_pause = !must_pause(c, file_lines, policy);
    LaunchPlanView {
        command: paged_command(command, c.is_paging_command, no_pause),
        file_path,
        geometry,
        no_pause,
        terminal,
    }
}

/// The plan for `command` under `config`. `file_lines` is the number of lines of
/// the file at `file_path`, where there is one that can be read as text.
pub open spec fn launch_plan(
    command: Seq<char>,
    config: ConfigView,
    file_path: Option<Seq<char>>,
    file_lines: Option<usize>,
    platform: Platform,
) -> LaunchPlanView {
    plan_of(
        command,
        classification(command, config),
        resolve_geometry(config, command),
        file_path,
        file_lines,
        config.pause_behavior,
        terminal_for(platform, config.terminal),
    )
}

/// Makes the plan for a command whose classification and geometry are known.
pub fn assemble_plan(
    command: &str,
    c: Classification,
    geometry: AppGeometry,
    file_path: Option<String>,
    file_lines: Option<usize>,
    policy: PauseBehavior,
    terminal: TerminalKind,
) -> (plan: LaunchPlan)
    ensures
        plan@ == plan_of(
            command@,
            c,
            geometry,
            optional_view(file_path),
            file_lines,
            policy,
            terminal,
        ),
{
    let no_pause = !decide_pause(c, file_lines, policy);
    let mut text = command.to_owned();
    if c.is_paging_command && no_pause {
        text.append(" | more");
    }
    LaunchPlan { command: text, file_path, geometry, no_pause, terminal }
}

/// Makes the plan for `command` under `config`. `file_lines` is the number of
/// lines of the file at `file_path`, where there is one that can be read as text.
pub fn plan_launch(
    command: &str,
    config: &Config,
    file_path: Option<String>,
    file_lines: Option<usize>,
    platform: Platform,
) -> (plan: LaunchPlan)
    ensures
        plan@ == launch_plan(command@, config@, optional_view(file_path), file_lines, platform),
{
    let c = classify(command, config);
    let geometry = config.get_geometry(command);
    let terminal = select_terminal(platform, config.terminal);
    assemble_plan(command, c, geometry, file_path, file_lines, config.pause_behavior, terminal)
}

/// The command followed by the file it works on, in double quotes.
pub open spec fn with_file(command: Seq<char>, file_path: Option<Seq<char>>) -> Seq<char> {
    match file_path {
        Some(path) => command + " \""@ + path + "\""@,
        None => command,
    }
}

/// The line followed by `step`, unless the window does not wait.
pub open spec fn with_pause(line: Seq<char>, no_pause: bool, step: Seq<char>) -> Seq<char> {
    if no_pause {
        line
    } else {
        line + step
    }
}

/// Appends to `out` the file that the command works on, in double quotes.
pub fn push_file(out: &mut String, file_path: &Option<String>)
    ensures
        final(out)@ == with_file(old(out)@, optional_view(*file_path)),
{
    match file_path {
        Some(path) => {
            out.append(" \"");
            out.append(path.as_str());
            out.append("\"");
        },
        None => {},
    }
}

/// Appends to `out` the step that waits for a key, unless the window does not wait.
pub fn push_pause(out: &mut String, no_pause: bool, step: &str)
    ensures
        final(out)@ == with_pause(old(out)@, no_pause, step@),
{
    if !no_pause {
        out.append(step);
    }
}


/// The command line that a shell runs for the plan: the command, the file it works
/// on, and `step`, which waits for a key, where the window waits.
pub open spec fn shell_line(plan: LaunchPlanView, step: Seq<char>) -> Seq<char> {
    with_pause(with_file(plan.command, plan.file_path), plan.no_pause, step)
}

/// The command line that a shell runs for the plan.
pub fn make_shell_line(plan: &LaunchPlan, step: &str) -> (r: String)
    ensures
        r@ == shell_line(plan@, step@),
{
    let mut out = plan.command.clone();
    push_file(&mut out, &plan.file_path);
    push_pause(&mut out, plan.no_pause, step);
    out
}

/// A program to start, with its arguments.
#[derive(Debug)]
pub struct Invocation {
    pub program: String,
    pub args: Vec<String>,
}

/// An invocation as a mathematical value.
pub struct InvocationView {
    pub program: Seq<char>,
    pub args: Seq<Seq<char>>,
}

impl View for Invocation {
    type V = InvocationView;

    open spec fn view(&self) -> InvocationView {
        InvocationView { program: self.program@, args: string_views(self.args@) }
    }
}

/// The title of the console window of a run that starts at `timestamp`, in seconds
/// since the epoch: it tells the windows of runs at different seconds apart.
pub open spec fn window_title(timestamp: u64) -> Seq<char> {
    "rund_"@ + decimal(timestamp as nat)
}

/// The title of the console window of a run that starts at `timestamp`.
pub fn make_window_title(timestamp: u64) -> (r: String)
    ensures
        r@ == window_title(timestamp),
{
    let mut out = "rund_".to_owned();
    push_decimal(&mut out, timestamp);
    out
}

/// Runs that start at different seconds have different window titles, so the
/// placement that the registry holds for one is never read for the other.
pub proof fn law_titles_tell_runs_apart(first: u64, second: u64)
    ensures
        first != second ==> window_title(first) != window_title(second),
        first != second ==> console_key(window_title(first)) != console_key(window_title(second)),
{
    lemma_decimal_injective(first as nat, second as nat);
    let lead = "rund_"@;
    assert((lead + decimal(first as nat)).skip(lead.len() as int) =~= decimal(first as nat));
    assert((lead + decimal(second as nat)).skip(lead.len() as int) =~= decimal(second as nat));
    let key = "Console\\"@;
    assert((key + window_title(first)).skip(key.len() as int) =~= window_title(first));
    assert((key + window_title(second)).skip(key.len() as int) =~= window_title(second));
}

/// The registry key, under the current user, that holds the placement of the
/// console windows titled `title`.
pub open spec fn console_key(title: Seq<char>) -> Seq<char> {
    "Console\\"@ + title
}

/// The place of a console window as the registry holds it: `y` in the upper
/// sixteen bits, `x` in the lower.
pub open spec fn packed_position(x: i32, y: i32) -> u32 {
    ((y as u32) << 16) | ((x as u32) & 0xffff)
}

/// The size of a console window as the registry holds it: rows of sixteen pixels
/// in the upper sixteen bits, columns of eight pixels below.
pub open spec fn packed_size(width: u32, height: u32) -> u32 {
    ((height / 16) << 16) | (width / 8)
}

/// The place of a console window as the registry holds it.
pub fn pack_position(x: i32, y: i32) -> (r: u32)
    ensures
        r == packed_position(x, y),
{
    let ux: u32 = #[verifier::truncate]
    (x as u32);
    let uy: u32 = #[verifier::truncate]
    (y as u32);
    (uy << 16) | (ux & 0xffff)
}

/// The size of a console window as the registry holds it.
pub fn pack_size(width: u32, height: u32) -> (r: u32)
    ensures
        r == packed_size(width, height),
{
    let columns: u32 = width / 8;
    let rows: u32 = height / 16;
    (rows << 16) | columns
}

/// On a screen of fewer than 65536 units each way the packed place is
/// `y * 65536 + x`, and for a window of fewer than 65536 columns and rows the
/// packed size is `rows * 65536 + columns`.
pub proof fn law_packed_words(x: i32, y: i32, width: u32, height: u32)
    ensures
        0 <= x < 0x10000 && 0 <= y < 0x10000 ==> packed_position(x, y) == y * 0x10000 + x,
        width / 8 < 0x10000 && height / 16 < 0x10000 ==> packed_size(width, height) == (height
            / 16) * 0x10000 + width / 8,
{
    if 0 <= x < 0x10000 && 0 <= y < 0x10000 {
        let ux = x as u32;
        let uy = y as u32;
        assert(ux == x && uy == y);
        assert(ux < 0x10000 && uy < 0x10000 ==> ((uy << 16) | (ux & 0xffff)) == uy * 0x10000
            + ux) by (bit_vector);
    }
    let columns: u32 = width / 8;
    let rows: u32 = height / 16;
    if columns < 0x10000 && rows < 0x10000 {
        assert(columns < 0x10000 && rows < 0x10000 ==> ((rows << 16) | columns) == rows * 0x10000
            + columns) by (bit_vector);
    }
}

/// Where the registry places a console window.
#[derive(Clone, Copy, Debug, PartialEq, Eq, Structural)]
pub struct ConsolePlacement {
    /// The value `WindowPosition`.
    pub position: u32,
    /// The value `WindowSize`.
    pub size: u32,
}

/// What starts a console window: the program, its command line, the window's
/// title, and what the registry key of that title must hold.
#[derive(Debug)]
pub struct ConsoleLaunch {
    pub program: String,
    pub command_line: String,
    pub title: String,
    pub registry_key: String,
    /// The values to set under the key; where `None`, both are deleted and the
    /// system places the window.
    pub placement: Option<ConsolePlacement>,
}

/// A console launch as a mathematical value.
pub struct ConsoleLaunchView {
    pub program: Seq<char>,
    pub command_line: Seq<char>,
    pub title: Seq<char>,
    pub registry_key: Seq<char>,
    pub placement: Option<ConsolePlacement>,
}

impl View for ConsoleLaunch {
    type V = ConsoleLaunchView;

    open spec fn view(&self) -> ConsoleLaunchView {
        ConsoleLaunchView {
            program: self.program@,
            command_line: self.command_line@,
            title: self.title@,
            registry_key: self.registry_key@,
            placement: self.placement,
        }
    }
}

/// The values that the registry holds for a window of geometry `g`.
pub open spec fn placement_of(g: AppGeometry) -> Option<ConsolePlacement> {
    if g.auto_position {
        None
    } else {
        Some(
            ConsolePlacement {
                position: packed_position(g.x, g.y),
                size: packed_size(g.width, g.height),
            },
        )
    }
}

/// The command line of `cmd.exe`: `/C`, so that the window closes when all is
/// done; the title; the command with its file; and `pause` where the window waits.
pub open spec fn console_command_line(title: Seq<char>, plan: LaunchPlanView) -> Seq<char> {
    with_pause(
        with_file("/C title "@ + title + " & "@ + plan.command, plan.file_path),
        plan.no_pause,
        " & pause"@,
    )
}

/// The console launch of the plan for a run that starts at `timestamp`.
pub open spec fn console_launch_of(plan: LaunchPlanView, timestamp: u64) -> ConsoleLaunchView {
    ConsoleLaunchView {
        program: "C:\\Windows\\System32\\cmd.exe"@,
        command_line: console_command_line(window_title(timestamp), plan),
        title: window_title(timestamp),
        registry_key: console_key(window_title(timestamp)),
        placement: placement_of(plan.geometry),
    }
}

/// The console launch of the plan for a run that starts at `timestamp`, in seconds
/// since the epoch.
pub fn console_launch(plan: &LaunchPlan, timestamp: u64) -> (r: ConsoleLaunch)
    ensures
        r@ == console_launch_of(plan@, timestamp),
{
    let title = make_window_title(timestamp);
    let mut registry_key = "Console\\".to_owned();
    registry_key.append(title.as_str());
    let mut command_line = "/C title ".to_owned();
    command_line.append(title.as_str());
    command_line.append(" & ");
    command_line.append(plan.command.as_str());
    push_file(&mut command_line, &plan.file_path);
    push_pause(&mut command_line, plan.no_pause, " & pause");
    let placement = if plan.geometry.auto_position {
        None
    } else {
        Some(
            ConsolePlacement {
                position: pack_position(plan.geometry.x, plan.geometry.y),
                size: pack_size(plan.geometry.width, plan.geometry.height),
            },
        )
    };
    ConsoleLaunch {
        program: "C:\\Windows\\System32\\cmd.exe".to_owned(),
        command_line,
        title,
        registry_key,
        placement,
    }
}

/// The arguments of Windows Terminal: place and size, in cells of nine by nineteen
/// pixels, unless the system places the window; the title; and `cmd.exe /C` with
/// the command line.
pub open spec fn windows_terminal_args(plan: LaunchPlanView) -> Seq<Seq<char>> {
    let g = plan.geometry;
    let tail = seq!["--title"@, "rund"@, "cmd.exe"@, "/C"@, shell_line(plan, " & pause"@)];
    if g.auto_position {
        tail
    } else {
        seq![
            "--pos"@,
            signed_decimal(g.x as int) + ","@ + signed_decimal(g.y as int),
            "--size"@,
            decimal((g.width / 9) as nat) + ","@ + decimal((g.height / 19) as nat),
        ] + tail
    }
}

/// The invocation of Windows Terminal for the plan.
pub fn windows_terminal_invocation(plan: &LaunchPlan) -> (r: Invocation)
    ensures
        r@ == (InvocationView { program: "wt.exe"@, args: windows_terminal_args(plan@) }),
{
    let g = plan.geometry;
    let mut args: Vec<String> = Vec::new();
    if !g.auto_position {
        let mut place = String::new();
        push_signed_decimal(&mut place, g.x as i64);
        place.append(",");
        push_signed_decimal(&mut place, g.y as i64);
        let mut size = String::new();
        push_decimal(&mut size, (g.width / 9) as u64);
        size.append(",");
        push_decimal(&mut size, (g.height / 19) as u64);
        proof {
            assert(place@ =~= signed_decimal(g.x as int) + ","@ + signed_decimal(g.y as int));
            assert(size@ =~= decimal((g.width / 9) as nat) + ","@ + decimal(
                (g.height / 19) as nat,
            ));
        }
        args.push("--pos".to_owned());
        args.push(place);
        args.push("--size".to_owned());
        args.push(size);
    }
    args.push("--title".to_owned());
    args.push("rund".to_owned());
    args.push("cmd.exe".to_owned());
    args.push("/C".to_owned());
    args.push(make_shell_line(plan, " & pause"));
    proof {
        assert(string_views(args@) =~= windows_terminal_args(plan@));
    }
    Invocation { program: "wt.exe".to_owned(), args }
}


/// `s` with a backslash before each of its double quotes.
pub open spec fn escape_quotes(s: Seq<char>) -> Seq<char>
    decreases s.len(),
{
    if s.len() == 0 {
        Seq::empty()
    } else if s.last() == '"' {
        escape_quotes(s.drop_last()) + seq!['\\', '"']
    } else {
        escape_quotes(s.drop_last()).push(s.last())
    }
}

/// Appends `s` to `out`, with a backslash before each of its double quotes.
pub fn push_escaped(out: &mut String, s: &str)
    ensures
        final(out)@ == old(out)@ + escape_quotes(s@),
{
    let text = chars_of(s);
    let mut i: usize = 0;
    proof {
        assert(text@.take(0) =~= Seq::<char>::empty());
        assert(out@ =~= old(out)@ + escape_quotes(text@.take(0)));
    }
    while i < text.len()
        invariant
            i <= text.len(),
            out@ == old(out)@ + escape_quotes(text@.take(i as int)),
        decreases text.len() - i,
    {
        let ghost before = out@;
        proof {
            let longer = text@.take(i + 1);
            assert(longer.drop_last() == text@.take(i as int));
            assert(longer.last() == text@[i as int]);
        }
        if text[i] == '"' {
            out.push('\\');
            out.push('"');
            proof {
                assert(out@ =~= before + seq!['\\', '"']);
                assert(out@ =~= old(out)@ + escape_quotes(text@.take(i + 1)));
            }
        } else {
            out.push(text[i]);
            proof {
                assert(out@ =~= old(out)@ + escape_quotes(text@.take(i + 1)));
            }
        }
        i += 1;
    }
    proof {
        assert(text@.take(i as int) == text@);
    }
}

/// The line followed by the file it works on, in double quotes that are escaped
/// for a script.
pub open spec fn with_escaped_file(line: Seq<char>, file_path: Option<Seq<char>>) -> Seq<char> {
    match file_path {
        Some(path) => line + " \\\""@ + path + "\\\""@,
        None => line,
    }
}

/// The line that sets the bounds of the front window: left, top, right, bottom.
pub open spec fn mac_bounds_line(g: AppGeometry) -> Seq<char> {
    "    set bounds of front window to {"@ + signed_decimal(g.x as int) + ", "@ + signed_decimal(
        g.y as int,
    ) + ", "@ + signed_decimal(g.x + g.width) + ", "@ + signed_decimal(g.y + g.height) + "}\n"@
}

/// The script that has the macOS Terminal run the plan: the command, its quotes
/// escaped, with its file and, where the window waits, a `read`; then `exit`, so
/// that the window closes; and the bounds of the window, unless the system places
/// it.
pub open spec fn mac_script(plan: LaunchPlanView) -> Seq<char> {
    let run = with_pause(
        with_escaped_file(
            "tell application \"Terminal\"\n    activate\n    do script \""@ + escape_quotes(
                plan.command,
            ),
            plan.file_path,
        ),
        plan.no_pause,
        "; read -p 'Press Enter to exit...'"@,
    ) + "; exit\"\n"@;
    if plan.geometry.auto_position {
        run + "end tell"@
    } else {
        run + mac_bounds_line(plan.geometry) + "end tell"@
    }
}

/// The invocation of `osascript` for the plan.
pub fn mac_invocation(plan: &LaunchPlan) -> (r: Invocation)
    ensures
        r@ == (InvocationView { program: "osascript"@, args: seq!["-e"@, mac_script(plan@)] }),
{
    let g = plan.geometry;
    let mut script = "tell application \"Terminal\"\n    activate\n    do script \"".to_owned();
    push_escaped(&mut script, plan.command.as_str());
    match &plan.file_path {
        Some(path) => {
            script.append(" \\\"");
            script.append(path.as_str());
            script.append("\\\"");
        },
        None => {},
    }
    push_pause(&mut script, plan.no_pause, "; read -p 'Press Enter to exit...'");
    script.append("; exit\"\n");
    if !g.auto_position {
        let ghost run = script@;
        script.append("    set bounds of front window to {");
        push_signed_decimal(&mut script, g.x as i64);
        script.append(", ");
        push_signed_decimal(&mut script, g.y as i64);
        script.append(", ");
        push_signed_decimal(&mut script, g.x as i64 + g.width as i64);
        script.append(", ");
        push_signed_decimal(&mut script, g.y as i64 + g.height as i64);
        script.append("}\n");
        proof {
            assert(script@ =~= run + mac_bounds_line(g));
        }
    }
    script.append("end tell");
    let mut args: Vec<String> = Vec::new();
    args.push("-e".to_owned());
    args.push(script);
    proof {
        assert(string_views(args@) =~= seq!["-e"@, mac_script(plan@)]);
    }
    Invocation { program: "osascript".to_owned(), args }
}

/// The step that waits for a key in a POSIX shell.
pub open spec fn posix_pause_step() -> Seq<char> {
    "; read -p 'Press Enter to exit...'"@
}

/// The arguments that have a terminal emulator run a shell on `line`, after the
/// emulator's own `lead`.
pub open spec fn bash_args(lead: Seq<Seq<char>>, line: Seq<char>) -> Seq<Seq<char>> {
    lead + seq!["bash"@, "-c"@, line]
}

/// The arguments of `alacritty`: columns of eight and lines of sixteen pixels and
/// the place of the window, unless the system places it.
pub open spec fn alacritty_args(plan: LaunchPlanView) -> Seq<Seq<char>> {
    let g = plan.geometry;
    let line = shell_line(plan, posix_pause_step());
    if g.auto_position {
        bash_args(seq!["-e"@], line)
    } else {
        bash_args(
            seq![
                "--option"@,
                "window.dimensions.columns="@ + decimal((g.width / 8) as nat),
                "--option"@,
                "window.dimensions.lines="@ + decimal((g.height / 16) as nat),
                "--option"@,
                "window.position.x="@ + signed_decimal(g.x as int),
                "--option"@,
                "window.position.y="@ + signed_decimal(g.y as int),
                "-e"@,
            ],
            line,
        )
    }
}

/// The arguments of `kitty`: width and height in cells, unless the system places
/// the window.
pub open spec fn kitty_args(plan: LaunchPlanView) -> Seq<Seq<char>> {
    let g = plan.geometry;
    let line = shell_line(plan, posix_pause_step());
    if g.auto_position {
        bash_args(Seq::empty(), line)
    } else {
        bash_args(
            seq![
                "-o"@,
                "initial_window_width="@ + decimal((g.width / 8) as nat) + "c"@,
                "-o"@,
                "initial_window_height="@ + decimal((g.height / 16) as nat) + "c"@,
            ],
            line,
        )
    }
}

/// The terminal emulators of a POSIX system, in the order in which they are tried.
pub open spec fn posix_candidates(plan: LaunchPlanView) -> Seq<InvocationView> {
    let line = shell_line(plan, posix_pause_step());
    seq![
        InvocationView { program: "alacritty"@, args: alacritty_args(plan) },
        InvocationView { program: "kitty"@, args: kitty_args(plan) },
        InvocationView { program: "gnome-terminal"@, args: bash_args(seq!["--"@], line) },
        InvocationView { program: "konsole"@, args: bash_args(seq!["-e"@], line) },
        InvocationView { program: "xterm"@, args: bash_args(seq!["-e"@], line) },
    ]
}

/// The views of a list of invocations.
pub open spec fn invocation_views(list: Seq<Invocation>) -> Seq<InvocationView> {
    list.map_values(|i: Invocation| i@)
}

/// An invocation of `program` that runs a shell on `line`, after the emulator's
/// own arguments `lead`.
pub fn bash_invocation(program: &str, lead: Vec<String>, line: &str) -> (r: Invocation)
    ensures
        r@ == (InvocationView { program: program@, args: bash_args(string_views(lead@), line@) }),
{
    let mut args = lead;
    args.push("bash".to_owned());
    args.push("-c".to_owned());
    args.push(line.to_owned());
    proof {
        assert(string_views(args@) =~= bash_args(string_views(lead@), line@));
    }
    Invocation { program: program.to_owned(), args }
}

/// `label` followed by `n` in base ten and by `unit`.
pub fn labelled(label: &str, n: u64, unit: &str) -> (r: String)
    ensures
        r@ == label@ + decimal(n as nat) + unit@,
{
    let mut out = label.to_owned();
    push_decimal(&mut out, n);
    out.append(unit);
    out
}

/// `label` followed by `n` in base ten, with its sign where negative.
pub fn labelled_signed(label: &str, n: i64) -> (r: String)
    ensures
        r@ == label@ + signed_decimal(n as int),
{
    let mut out = label.to_owned();
    push_signed_decimal(&mut out, n);
    out
}

/// The terminal emulators of a POSIX system for the plan, in the order in which
/// they are tried.
pub fn posix_invocations(plan: &LaunchPlan) -> (r: Vec<Invocation>)
    ensures
        invocation_views(r@) == posix_candidates(plan@),
{
    let g = plan.geometry;
    let line = make_shell_line(plan, "; read -p 'Press Enter to exit...'");
    let mut alacritty: Vec<String> = Vec::new();
    let mut kitty: Vec<String> = Vec::new();
    if !g.auto_position {
        alacritty.push("--option".to_owned());
        alacritty.push(labelled("window.dimensions.columns=", (g.width / 8) as u64, ""));
        alacritty.push("--option".to_owned());
        alacritty.push(labelled("window.dimensions.lines=", (g.height / 16) as u64, ""));
        alacritty.push("--option".to_owned());
        alacritty.push(labelled_signed("window.position.x=", g.x as i64));
        alacritty.push("--option".to_owned());
        alacritty.push(labelled_signed("window.position.y=", g.y as i64));
        kitty.push("-o".to_owned());
        kitty.push(labelled("initial_window_width=", (g.width / 8) as u64, "c"));
        kitty.push("-o".to_owned());
        kitty.push(labelled("initial_window_height=", (g.height / 16) as u64, "c"));
    }
    alacritty.push("-e".to_owned());
    let mut gnome: Vec<String> = Vec::new();
    gnome.push("--".to_owned());
    let mut konsole: Vec<String> = Vec::new();
    konsole.push("-e".to_owned());
    let mut xterm: Vec<String> = Vec::new();
    xterm.push("-e".to_owned());
    proof {
        reveal_strlit("");
        assert(""@ =~= Seq::<char>::empty());
        assert(bash_args(string_views(alacritty@), line@) =~= alacritty_args(plan@)) by {
            if !g.auto_position {
                assert(alacritty@[1]@ =~= "window.dimensions.columns="@ + decimal(
                    (g.width / 8) as nat,
                ));
                assert(alacritty@[3]@ =~= "window.dimensions.lines="@ + decimal(
                    (g.height / 16) as nat,
                ));
            }
        }
        assert(bash_args(string_views(kitty@), line@) =~= kitty_args(plan@));
        assert(string_views(gnome@) =~= seq!["--"@]);
        assert(string_views(konsole@) =~= seq!["-e"@]);
        assert(string_views(xterm@) =~= seq!["-e"@]);
    }
    let mut out: Vec<Invocation> = Vec::new();
    out.push(bash_invocation("alacritty", alacritty, line.as_str()));
    out.push(bash_invocation("kitty", kitty, line.as_str()));
    out.push(bash_invocation("gnome-terminal", gnome, line.as_str()));
    out.push(bash_invocation("konsole", konsole, line.as_str()));
    out.push(bash_invocation("xterm", xterm, line.as_str()));
    proof {
        assert(invocation_views(out@) =~= posix_candidates(plan@));
    }
    out
}


/// What the launcher is asked to do.
#[derive(Debug)]
pub enum LaunchRequest {
    /// To create a console process, after writing its placement to the registry.
    Console(ConsoleLaunch),
    /// To start the first of these programs that starts.
    Programs(Vec<Invocation>),
}

/// A launch request as a mathematical value.
pub enum LaunchRequestView {
    Console(ConsoleLaunchView),
    Programs(Seq<InvocationView>),
}

impl View for LaunchRequest {
    type V = LaunchRequestView;

    open spec fn view(&self) -> LaunchRequestView {
        match self {
            LaunchRequest::Console(c) => LaunchRequestView::Console(c@),
            LaunchRequest::Programs(list) => LaunchRequestView::Programs(invocation_views(list@)),
        }
    }
}

/// The request that carries out the plan, for a run that starts at `timestamp`:
/// one console process; or Windows Terminal; or the macOS Terminal through
/// `osascript`; or the list of POSIX emulators.
pub open spec fn request_of(plan: LaunchPlanView, timestamp: u64) -> LaunchRequestView {
    match plan.terminal {
        TerminalKind::Console => LaunchRequestView::Console(console_launch_of(plan, timestamp)),
        TerminalKind::WindowsTerminal => LaunchRequestView::Programs(
            seq![InvocationView { program: "wt.exe"@, args: windows_terminal_args(plan) }],
        ),
        TerminalKind::MacTerminal => LaunchRequestView::Programs(
            seq![InvocationView { program: "osascript"@, args: seq!["-e"@, mac_script(plan)] }],
        ),
        TerminalKind::PosixEmulators => LaunchRequestView::Programs(posix_candidates(plan)),
    }
}

/// The request that carries out the plan, for a run that starts at `timestamp`, in
/// seconds since the epoch.
pub fn launch_request(plan: &LaunchPlan, timestamp: u64) -> (r: LaunchRequest)
    ensures
        r@ == request_of(plan@, timestamp),
{
    match plan.terminal {
        TerminalKind::Console => LaunchRequest::Console(console_launch(plan, timestamp)),
        TerminalKind::WindowsTerminal => {
            let mut list: Vec<Invocation> = Vec::new();
            list.push(windows_terminal_invocation(plan));
            proof {
                assert(invocation_views(list@) =~= seq![
                    InvocationView { program: "wt.exe"@, args: windows_terminal_args(plan@) },
                ]);
            }
            LaunchRequest::Programs(list)
        },
        TerminalKind::MacTerminal => {
            let mut list: Vec<Invocation> = Vec::new();
            list.push(mac_invocation(plan));
            proof {
                assert(invocation_views(list@) =~= seq![
                    InvocationView { program: "osascript"@, args: seq!["-e"@, mac_script(plan@)] },
                ]);
            }
            LaunchRequest::Programs(list)
        },
        TerminalKind::PosixEmulators => LaunchRequest::Programs(posix_invocations(plan)),
    }
}

/// Whatever the terminal, the command that it runs is followed by the file, in
/// double quotes, where the run has one, and by a step that waits exactly where
/// the window waits.
pub proof fn law_command_line_shape(plan: LaunchPlanView, step: Seq<char>)
    ensures
        plan.file_path is None && plan.no_pause ==> shell_line(plan, step) == plan.command,
        plan.file_path matches Some(path) ==> shell_line(plan, step) == plan.command + " \""@ + path
            + "\""@ + (if plan.no_pause {
            Seq::empty()
        } else {
            step
        }),
        plan.file_path is None ==> shell_line(plan, step) == plan.command + (if plan.no_pause {
            Seq::empty()
        } else {
            step
        }),
{
}

} // verus!
