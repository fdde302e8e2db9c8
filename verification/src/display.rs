//! Display formatting: table rows, status and framework texts, watch
//! events, uptimes, command summaries and width-aware truncation.
use vstd::prelude::*;

use unicode_width::UnicodeWidthChar;
use unicode_width::UnicodeWidthStr;

use crate::colors::{
    FrameworkColor, apply_framework_color, colorize_if, render_status, shown,
    spec_framework_color, status_shown,
};
use crate::config::{Config, TableStyle, spec_table_style, string_views, table_style_kind};
use crate::details::{format_memory, spec_format_memory};
use crate::process::{PortInfo, PortInfoView, ProcessStatus, opt_view};
use crate::ps::PsProcess;
use crate::scanner::first_non_flag;
use crate::text::{
    chars_of, decimal_chars, decimal_string, extend_chars, extend_str, file_name, has_substring,
    join_space, owned, spec_decimal, spec_file_name, spec_join_space, spec_lowercase, spec_words,
    split_whitespace, string_of, to_lowercase, views, contains_str,
};

verus! {

// ---------------------------------------------------------------------------
// Terminal width
// ---------------------------------------------------------------------------

/// `terminal_size::terminal_size`: the width in columns of the terminal
/// that standard output is attached to, or `None` when there is none (for
/// example when output is piped). It depends on the machine, so nothing is
/// stated of it.
#[verifier::external_body]
fn terminal_columns() -> (r: Option<u16>) {
    terminal_size::terminal_size().map(|(w, _)| w.0)
}

/// The width to format for, given the terminal's columns: 80 when no
/// terminal size is known.
pub fn width_from_columns(columns: Option<u16>) -> (r: usize)
    ensures
        r == match columns {
            Some(w) => w as usize,
            None => 80usize,
        },
{
    match columns {
        Some(w) => w as usize,
        None => 80,
    }
}

/// Detect terminal width, defaulting to 80 columns if unavailable.
pub fn detect_terminal_width() -> (r: usize)
    ensures
        r <= u16::MAX,
{
    width_from_columns(terminal_columns())
}

// ---------------------------------------------------------------------------
// The formatter
// ---------------------------------------------------------------------------

/// Display formatter for port information.
pub struct Display {
    pub use_colors: bool,
    pub json_mode: bool,
    pub terminal_width: usize,
    pub table_style: String,
    pub ascii_mode: bool,
}

/// A table row for one port, as text.
#[derive(Debug, Clone)]
pub struct PortRow {
    pub port: String,
    pub process: String,
    pub pid: String,
    pub framework: String,
    pub status: String,
    pub project: String,
}

/// A table row for one process of the `ps` listing, as text.
#[derive(Debug, Clone)]
pub struct PsRow {
    pub pid: String,
    pub process: String,
    pub cpu: String,
    pub mem: String,
    pub project: String,
    pub framework: String,
    pub uptime: String,
    pub what: String,
}

/// The dash shown for a missing value.
pub open spec fn dash() -> Seq<char> {
    "—"@
}

/// An optional text, or the dash.
pub open spec fn or_dash(s: Option<Seq<char>>) -> Seq<char> {
    match s {
        Some(v) => v,
        None => dash(),
    }
}

fn or_dash_exec(s: &Option<String>) -> (r: String)
    ensures
        r@ == or_dash(opt_view(*s)),
{
    match s {
        Some(v) => v.clone(),
        None => owned("—"),
    }
}

/// The status symbol: a bullet, or an asterisk in ASCII mode.
pub open spec fn status_symbol(ascii: bool) -> Seq<char> {
    if ascii {
        "*"@
    } else {
        "●"@
    }
}

/// The marker of a new port in watch mode.
pub open spec fn new_symbol(ascii: bool) -> Seq<char> {
    if ascii {
        "^ NEW   "@
    } else {
        "▲ NEW   "@
    }
}

/// The marker of a closed port in watch mode.
pub open spec fn closed_symbol(ascii: bool) -> Seq<char> {
    if ascii {
        "v CLOSED"@
    } else {
        "▼ CLOSED"@
    }
}

/// The success marker.
pub open spec fn success_symbol(ascii: bool) -> Seq<char> {
    if ascii {
        "+"@
    } else {
        "✓"@
    }
}

/// The error marker.
pub open spec fn error_symbol(ascii: bool) -> Seq<char> {
    if ascii {
        "x"@
    } else {
        "✗"@
    }
}

/// The number of columns that command descriptions may take in a
/// terminal `width` columns wide: what is left after 80 reserved columns,
/// kept between 15 and 60.
pub open spec fn spec_truncation_length(width: int) -> int {
    let available = if width > 80 {
        width - 80
    } else {
        0
    };
    if available < 15 {
        15
    } else if available > 60 {
        60
    } else {
        available
    }
}

/// The uptime of a process that has run `t` seconds: days and hours, hours
/// and minutes, or minutes.
pub open spec fn spec_short_uptime(t: nat) -> Seq<char> {
    let d = t / 86400;
    let h = (t % 86400) / 3600;
    let m = (t % 3600) / 60;
    if d > 0 {
        spec_decimal(d) + "d "@ + spec_decimal(h) + "h"@
    } else if h > 0 {
        spec_decimal(h) + "h "@ + spec_decimal(m) + "m"@
    } else {
        spec_decimal(m) + "m"@
    }
}

/// The line that announces a new port in watch mode, given the time and
/// the rendered marker.
pub open spec fn watch_new_text(timestamp: Seq<char>, marker: Seq<char>, p: PortInfoView) -> Seq<
    char,
> {
    timestamp + " "@ + marker + " :"@ + spec_decimal(p.port as nat) + " ← "@ + p.process_name
        + match p.project_name {
        Some(n) => " ["@ + n + "]"@,
        None => seq![],
    } + match p.framework {
        Some(f) => " "@ + f,
        None => seq![],
    }
}

/// The line that announces a closed port in watch mode.
pub open spec fn watch_closed_text(timestamp: Seq<char>, marker: Seq<char>, port: u16) -> Seq<char> {
    timestamp + " "@ + marker + " :"@ + spec_decimal(port as nat)
}

// ---------------------------------------------------------------------------
// Display width
// ---------------------------------------------------------------------------

/// The displayed width of a text in columns, as `unicode-width` computes
/// it (its rules for emoji sequences and ligatures make it differ from the
/// sum of the character widths).
pub uninterp spec fn spec_str_width(s: Seq<char>) -> nat;

/// The displayed width of a character, or `None` for a control character,
/// as `unicode-width` computes it.
pub uninterp spec fn spec_char_width(c: char) -> Option<usize>;

/// `s` is printable ASCII: every character from space to `~`.
pub open spec fn is_printable_ascii(s: Seq<char>) -> bool {
    forall|i: int| 0 <= i < s.len() ==> ' ' <= #[trigger] s[i] && s[i] < '\x7f'
}

/// `UnicodeWidthStr::width`. The contract names the result, a function of
/// the text alone, and states from the crate's tables that printable ASCII
/// takes one column per character.
#[verifier::external_body]
fn display_width(text: &str) -> (r: usize)
    ensures
        r == spec_str_width(text@),
        is_printable_ascii(text@) ==> r == text@.len(),
{
    text.width()
}

/// `UnicodeWidthChar::width`. The contract names the result; from the
/// crate's tables it also states that printable ASCII is one column wide,
/// that the other ASCII and C1 control codes have no width, and that no
/// character is wider than three columns.
#[verifier::external_body]
fn char_width(c: char) -> (r: Option<usize>)
    ensures
        r == spec_char_width(c),
        r matches Some(w) ==> w <= 3,
        (' ' <= c && c < '\x7f') ==> r == Some(1usize),
        (c < ' ' || ('\x7f' <= c && c < '\u{a0}')) ==> r is None,
{
    UnicodeWidthChar::width(c)
}

/// The columns a character takes when truncating (control characters take
/// none).
pub open spec fn char_cols(c: char) -> nat {
    match spec_char_width(c) {
        Some(w) => w as nat,
        None => 0,
    }
}

/// The columns taken by the first `k` characters of `s`.
pub open spec fn prefix_cols(s: Seq<char>, k: int) -> nat
    decreases k,
{
    if k <= 0 {
        0
    } else {
        prefix_cols(s, k - 1) + char_cols(s[k - 1])
    }
}

/// How many characters, counted from `k`, fit before an ellipsis within
/// `max` columns: characters are kept while they and the three dots fit.
pub open spec fn kept_chars(s: Seq<char>, max: int, k: int) -> int
    decreases s.len() - k,
{
    if 0 <= k < s.len() && prefix_cols(s, k + 1) + 3 <= max {
        kept_chars(s, max, k + 1)
    } else {
        k
    }
}

/// A text cut to `max` columns: unchanged when it fits, and otherwise its
/// longest prefix that fits together with "...", followed by "...".
pub open spec fn spec_truncate(s: Seq<char>, max: int) -> Seq<char> {
    if spec_str_width(s) <= max {
        s
    } else {
        s.take(kept_chars(s, max, 0)) + "..."@
    }
}

// ---------------------------------------------------------------------------
// Command summaries
// ---------------------------------------------------------------------------

/// The part of a command line that describes it: the script and arguments
/// of a Node.js command, the arguments of a Python script, the Cargo
/// subcommand, the whole line for Docker, and the process name otherwise.
pub open spec fn command_summary(cmd: Seq<char>, process_name: Seq<char>) -> Seq<char> {
    let parts = spec_words(cmd);
    let n = parts.len() as int;
    let first = spec_lowercase(parts[0]);
    let s = first_non_flag(parts, 1);
    if has_substring(first, "node"@) && n > 1 && s < n {
        let arg = parts[s];
        let name = match spec_file_name(arg) {
            Some(f) => f,
            None => arg,
        };
        if n - s > 1 {
            name + seq![' '] + spec_join_space(parts.subrange(s + 1, n))
        } else {
            name
        }
    } else if has_substring(first, "python"@) && n > 2 {
        spec_join_space(parts.subrange(2, n))
    } else if has_substring(first, "cargo"@) && n > 1 {
        spec_join_space(parts.subrange(1, n))
    } else if has_substring(first, "docker"@) {
        cmd
    } else {
        process_name
    }
}

/// A concise command description, cut to `max` columns; an empty command
/// line gives the process name as it is.
pub open spec fn spec_format_command(cmd: Seq<char>, process_name: Seq<char>, max: int) -> Seq<
    char,
> {
    if cmd.len() == 0 || spec_words(cmd).len() == 0 {
        process_name
    } else {
        spec_truncate(command_summary(cmd, process_name), max)
    }
}

/// `row` shows port entry `p`: decimal port and PID, the process name, the
/// colored framework (or a dash), the status and the project (or a dash).
pub open spec fn port_row_shows(use_colors: bool, ascii: bool, row: PortRow, p: PortInfoView) -> bool {
    &&& row.port@ == spec_decimal(p.port as nat)
    &&& row.process@ == p.process_name
    &&& row.pid@ == spec_decimal(p.pid as nat)
    &&& shown(
        use_colors,
        row.framework@,
        or_dash(p.framework),
        spec_framework_color(or_dash(p.framework)),
    )
    &&& status_shown(row.status@, status_symbol(ascii), p.status, use_colors)
    &&& row.project@ == or_dash(p.project_name)
}

/// The index of the first word after the command that is not a flag.
fn first_argument(parts: &Vec<Vec<char>>, ps: Ghost<Seq<Seq<char>>>) -> (s: usize)
    requires
        ps@ == views(parts@),
        parts@.len() > 0,
    ensures
        s == first_non_flag(ps@, 1),
        1 <= s <= parts@.len(),
{
    let n = parts.len();
    let mut s: usize = 1;
    while s < n && parts[s].len() > 0 && parts[s][0] == '-'
        invariant
            1 <= s <= n,
            n == parts@.len(),
            ps@ == views(parts@),
            first_non_flag(ps@, 1) == first_non_flag(ps@, s as int),
        decreases n - s,
    {
        assert(ps@[s as int] == parts@[s as int]@);
        s = s + 1;
    }
    proof {
        if s < n {
            assert(ps@[s as int] == parts@[s as int]@);
        }
    }
    s
}


impl Display {
    /// A formatter for the current terminal. ASCII mode selects the ASCII
    /// table style whatever the configuration says.
    pub fn new(use_colors: bool, json_mode: bool, config: &Config, ascii_mode: bool) -> (d: Self)
        ensures
            d.use_colors == use_colors,
            d.json_mode == json_mode,
            d.ascii_mode == ascii_mode,
            d.table_style@ == if ascii_mode {
                "ascii"@
            } else {
                config.display.table_style@
            },
            d.terminal_width <= u16::MAX,
    {
        let table_style = if ascii_mode {
            owned("ascii")
        } else {
            config.display.table_style.clone()
        };
        Display {
            use_colors,
            json_mode,
            terminal_width: detect_terminal_width(),
            table_style,
            ascii_mode,
        }
    }

    /// A formatter for a terminal of a given width, with rounded tables.
    pub fn with_width(terminal_width: usize, use_colors: bool, json_mode: bool) -> (d: Self)
        ensures
            d.terminal_width == terminal_width,
            d.use_colors == use_colors,
            d.json_mode == json_mode,
            d.table_style@ == "rounded"@,
            !d.ascii_mode,
    {
        Display {
            use_colors,
            json_mode,
            terminal_width,
            table_style: owned("rounded"),
            ascii_mode: false,
        }
    }

    /// The number of columns command descriptions may take.
    pub fn calculate_truncation_length(&self) -> (r: usize)
        ensures
            r == spec_truncation_length(self.terminal_width as int),
    {
        let available = self.terminal_width.saturating_sub(80);
        if available < 15 {
            15
        } else if available > 60 {
            60
        } else {
            available
        }
    }

    /// A process status as a symbol and a word.
    pub fn format_status(&self, status: ProcessStatus) -> (r: String)
        ensures
            status_shown(r@, status_symbol(self.ascii_mode), status, self.use_colors),
    {
        let symbol = if self.ascii_mode {
            "*"
        } else {
            "●"
        };
        render_status(symbol, status, self.use_colors)
    }

    /// A framework name in its color, or a dash.
    pub fn format_framework(&self, framework: Option<&str>) -> (r: String)
        ensures
            ({
                let f = match framework {
                    Some(s) => s@,
                    None => dash(),
                };
                shown(self.use_colors, r@, f, spec_framework_color(f))
            }),
    {
        let framework_str = match framework {
            Some(f) => f,
            None => "—",
        };
        apply_framework_color(framework_str, self.use_colors)
    }

    /// Apply a color to text if colors are enabled.
    pub fn colorize(&self, text: &str, color: FrameworkColor) -> (r: String)
        ensures
            shown(self.use_colors, r@, text@, color),
    {
        colorize_if(text, color, self.use_colors)
    }

    /// Green "▲ NEW   " marker for watch events (or "^ NEW   " in ASCII mode).
    pub fn new_marker(&self) -> (r: String)
        ensures
            shown(self.use_colors, r@, new_symbol(self.ascii_mode), FrameworkColor::Green),
    {
        let symbol = if self.ascii_mode {
            "^ NEW   "
        } else {
            "▲ NEW   "
        };
        self.colorize(symbol, FrameworkColor::Green)
    }

    /// Red "▼ CLOSED" marker for watch events (or "v CLOSED" in ASCII mode).
    pub fn closed_marker(&self) -> (r: String)
        ensures
            shown(self.use_colors, r@, closed_symbol(self.ascii_mode), FrameworkColor::Red),
    {
        let symbol = if self.ascii_mode {
            "v CLOSED"
        } else {
            "▼ CLOSED"
        };
        self.colorize(symbol, FrameworkColor::Red)
    }

    /// Green "✓" marker for success (or "+" in ASCII mode).
    pub fn success_marker(&self) -> (r: String)
        ensures
            shown(self.use_colors, r@, success_symbol(self.ascii_mode), FrameworkColor::Green),
    {
        let symbol = if self.ascii_mode {
            "+"
        } else {
            "✓"
        };
        self.colorize(symbol, FrameworkColor::Green)
    }

    /// Red "✗" marker for errors (or "x" in ASCII mode).
    pub fn error_marker(&self) -> (r: String)
        ensures
            shown(self.use_colors, r@, error_symbol(self.ascii_mode), FrameworkColor::Red),
    {
        let symbol = if self.ascii_mode {
            "x"
        } else {
            "✗"
        };
        self.colorize(symbol, FrameworkColor::Red)
    }

    /// The line announcing a new port in watch mode, at the given time.
    pub fn watch_event_new_line(&self, timestamp: &str, port_info: &PortInfo) -> (r: String)
        ensures
            exists|m: Seq<char>|
                shown(self.use_colors, m, new_symbol(self.ascii_mode), FrameworkColor::Green) && r@
                    == watch_new_text(timestamp@, m, port_info@),
    {
        let marker = self.new_marker();
        let mut v = chars_of(timestamp);
        extend_str(&mut v, " ");
        extend_str(&mut v, marker.as_str());
        extend_str(&mut v, " :");
        let port = decimal_chars(port_info.port as u64);
        extend_chars(&mut v, &port);
        extend_str(&mut v, " ← ");
        extend_str(&mut v, port_info.process_name.as_str());
        match &port_info.project_name {
            Some(n) => {
                extend_str(&mut v, " [");
                extend_str(&mut v, n.as_str());
                extend_str(&mut v, "]");
            },
            None => {},
        }
        match &port_info.framework {
            Some(f) => {
                extend_str(&mut v, " ");
                extend_str(&mut v, f.as_str());
            },
            None => {},
        }
        assert(v@ =~= watch_new_text(timestamp@, marker@, port_info@));
        string_of(&v)
    }

    /// The line announcing a closed port in watch mode, at the given time.
    pub fn watch_event_closed_line(&self, timestamp: &str, port: u16) -> (r: String)
        ensures
            exists|m: Seq<char>|
                shown(self.use_colors, m, closed_symbol(self.ascii_mode), FrameworkColor::Red) && r@
                    == watch_closed_text(timestamp@, m, port),
    {
        let marker = self.closed_marker();
        let mut v = chars_of(timestamp);
        extend_str(&mut v, " ");
        extend_str(&mut v, marker.as_str());
        extend_str(&mut v, " :");
        let digits = decimal_chars(port as u64);
        extend_chars(&mut v, &digits);
        assert(v@ =~= watch_closed_text(timestamp@, marker@, port));
        string_of(&v)
    }

    /// The table row of one port.
    pub fn port_row(&self, p: &PortInfo) -> (row: PortRow)
        ensures
            port_row_shows(self.use_colors, self.ascii_mode, row, p@),
    {
        let framework = match &p.framework {
            Some(f) => self.format_framework(Some(f.as_str())),
            None => self.format_framework(None),
        };
        PortRow {
            port: decimal_string(p.port as u64),
            process: p.process_name.clone(),
            pid: decimal_string(p.pid as u64),
            framework,
            status: self.format_status(p.status),
            project: or_dash_exec(&p.project_name),
        }
    }

    /// The table rows of a list of ports, in order.
    pub fn port_rows(&self, ports: &Vec<PortInfo>) -> (rows: Vec<PortRow>)
        ensures
            rows@.len() == ports@.len(),
            forall|i: int|
                0 <= i < ports@.len() ==> port_row_shows(
                    self.use_colors,
                    self.ascii_mode,
                    #[trigger] rows@[i],
                    ports@[i]@,
                ),
    {
        let mut rows: Vec<PortRow> = Vec::new();
        for i in 0..ports.len()
            invariant
                rows@.len() == i,
                forall|k: int|
                    0 <= k < i ==> port_row_shows(
                        self.use_colors,
                        self.ascii_mode,
                        #[trigger] rows@[k],
                        ports@[k]@,
                    ),
        {
            rows.push(self.port_row(&ports[i]));
        }
        rows
    }

    /// The table row of one process of the `ps` listing, with its CPU share
    /// already written as `cpu`.
    pub fn ps_row(&self, p: &PsProcess, cpu: String) -> (row: PsRow)
        ensures
            row.pid@ == spec_decimal(p.pid as nat),
            row.process@ == p.name@,
            row.cpu@ == cpu@,
            row.mem@ == spec_format_memory(p.memory_kb as nat),
            row.project@ == or_dash(opt_view(p.project_name)),
            row.framework@ == or_dash(opt_view(p.framework)),
            row.uptime@ == p.uptime@,
            row.what@ == p.what@,
    {
        PsRow {
            pid: decimal_string(p.pid as u64),
            process: p.name.clone(),
            cpu,
            mem: format_memory(p.memory_kb),
            project: or_dash_exec(&p.project_name),
            framework: or_dash_exec(&p.framework),
            uptime: p.uptime.clone(),
            what: p.what.clone(),
        }
    }

    /// Format uptime as a short human-readable duration, given the clock
    /// (`now`, seconds since the epoch): a dash when the start is unknown
    /// or in the future.
    pub fn format_uptime(&self, start_time: Option<u64>, now: u64) -> (r: String)
        ensures
            r@ == match start_time {
                None => dash(),
                Some(s) => if now < s {
                    dash()
                } else {
                    spec_short_uptime((now - s) as nat)
                },
            },
    {
        let start = match start_time {
            Some(s) => s,
            None => {
                return owned("—");
            },
        };
        if now < start {
            return owned("—");
        }
        let total = now - start;
        let days = total / 86400;
        let hours = (total % 86400) / 3600;
        let minutes = (total % 3600) / 60;
        let mut v: Vec<char>;
        if days > 0 {
            v = decimal_chars(days);
            extend_str(&mut v, "d ");
            let h = decimal_chars(hours);
            extend_chars(&mut v, &h);
            extend_str(&mut v, "h");
        } else if hours > 0 {
            v = decimal_chars(hours);
            extend_str(&mut v, "h ");
            let m = decimal_chars(minutes);
            extend_chars(&mut v, &m);
            extend_str(&mut v, "m");
        } else {
            v = decimal_chars(minutes);
            extend_str(&mut v, "m");
        }
        assert(v@ =~= spec_short_uptime(total as nat));
        string_of(&v)
    }

    /// Extract a concise command description from a full command line.
    pub fn format_command(&self, cmd_line: &str, process_name: &str) -> (r: String)
        ensures
            r@ == spec_format_command(
                cmd_line@,
                process_name@,
                spec_truncation_length(self.terminal_width as int),
            ),
            spec_words(cmd_line@).len() > 0 && is_printable_ascii(
                command_summary(cmd_line@, process_name@),
            ) ==> is_printable_ascii(r@) && r@.len() <= spec_truncation_length(
                self.terminal_width as int,
            ),
    {
        let cmd = chars_of(cmd_line);
        if cmd.len() == 0 {
            return owned(process_name);
        }
        let parts = split_whitespace(&cmd);
        let n = parts.len();
        if n == 0 {
            return owned(process_name);
        }
        let ghost ps = spec_words(cmd_line@);
        assert(ps[0] == parts@[0]@);
        assert(views(parts@).subrange(0, n as int) =~= ps);
        let first_text = string_of(&parts[0]);
        let lower = to_lowercase(first_text.as_str());
        let first = chars_of(lower.as_str());
        let mut node_summary: Option<String> = None;
        if contains_str(&first, "node") && n > 1 {
            let s = first_argument(&parts, Ghost(ps));
            if s < n {
                proof {
                    assert(ps[s as int] == parts@[s as int]@);
                }
                let arg = &parts[s];
                let mut name = match file_name(arg) {
                    Some(f) => f,
                    None => arg.clone(),
                };
                if n - s > 1 {
                    name.push(' ');
                    let rest = join_space(&parts, s + 1, n);
                    extend_chars(&mut name, &rest);
                }
                node_summary = Some(string_of(&name));
            }
        }
        let summary: String;
        if node_summary.is_some() {
            summary = node_summary.unwrap();
        } else if contains_str(&first, "python") && n > 2 {
            summary = string_of(&join_space(&parts, 2, n));
        } else if contains_str(&first, "cargo") && n > 1 {
            summary = string_of(&join_space(&parts, 1, n));
        } else if contains_str(&first, "docker") {
            summary = owned(cmd_line);
        } else {
            summary = owned(process_name);
        }
        assert(summary@ == command_summary(cmd_line@, process_name@));
        self.truncate(summary.as_str())
    }

    /// Truncate text to the calculated length with an ellipsis.
    pub fn truncate(&self, text: &str) -> (r: String)
        ensures
            r@ == spec_truncate(text@, spec_truncation_length(self.terminal_width as int)),
            is_printable_ascii(text@) ==> is_printable_ascii(r@) && r@.len()
                <= spec_truncation_length(self.terminal_width as int),
    {
        let max_len = self.calculate_truncation_length();
        self.truncate_to(text, max_len)
    }

    /// Truncate text to `max_len` columns with an ellipsis.
    pub fn truncate_to(&self, text: &str, max_len: usize) -> (r: String)
        ensures
            r@ == spec_truncate(text@, max_len as int),
            is_printable_ascii(text@) && 3 <= max_len ==> is_printable_ascii(r@) && r@.len()
                <= max_len,
    {
        if display_width(text) <= max_len {
            return owned(text);
        }
        let chars = chars_of(text);
        let ghost s = text@;
        let mut current_width: usize = 0;
        let mut k: usize = 0;
        while k < chars.len()
            invariant
                chars@ == s,
                k <= s.len(),
                current_width == prefix_cols(s, k as int),
                current_width <= max_len,
                k > 0 ==> current_width + 3 <= max_len,
                is_printable_ascii(s) ==> current_width == k,
                kept_chars(s, max_len as int, 0) == kept_chars(s, max_len as int, k as int),
            ensures
                kept_chars(s, max_len as int, 0) == k as int,
                k <= s.len(),
                current_width == prefix_cols(s, k as int),
                k > 0 ==> current_width + 3 <= max_len,
                is_printable_ascii(s) ==> current_width == k,
            decreases s.len() - k,
        {
            let w = match char_width(chars[k]) {
                Some(w) => w,
                None => 0,
            };
            assert(prefix_cols(s, k + 1) == current_width + w);
            if w + 3 > max_len - current_width {
                break;
            }
            current_width = current_width + w;
            k = k + 1;
        }
        let mut out: Vec<char> = Vec::new();
        let mut j: usize = 0;
        while j < k
            invariant
                j <= k <= chars@.len(),
                out@ == chars@.take(j as int),
            decreases k - j,
        {
            out.push(chars[j]);
            assert(chars@.take(j + 1) =~= chars@.take(j as int).push(chars@[j as int]));
            j = j + 1;
        }
        let ghost kept = out@;
        extend_str(&mut out, "...");
        assert(out@ =~= spec_truncate(s, max_len as int));
        proof {
            reveal_strlit("...");
            if is_printable_ascii(s) {
                assert(out@ =~= kept + "..."@);
                assert(forall|i: int| 0 <= i < kept.len() ==> kept[i] == s[i]);
            }
        }
        string_of(&out)
    }
}

/// The text that tabled renders for a table of `records` (the header
/// record first, then one record per row) in `style`.
pub uninterp spec fn spec_table(records: Seq<Seq<Seq<char>>>, style: TableStyle) -> Seq<char>;

/// The views of table records.
pub open spec fn records_view(records: Seq<Vec<String>>) -> Seq<Seq<Seq<char>>> {
    records.map_values(|r: Vec<String>| string_views(r@))
}

/// Renders records with tabled: `Builder::from` the records, `build`, the
/// `Style` that `style` names (`rounded`, `ascii`, `modern`, `blank` or
/// `empty`), then `to_string`. The contract names the rendered text and
/// says nothing more of it.
#[verifier::external_body]
fn render_table(records: Vec<Vec<String>>, style: TableStyle) -> (r: String)
    ensures
        r@ == spec_table(records_view(records@), style),
{
    let mut table = tabled::builder::Builder::from(records).build();
    match style {
        TableStyle::Rounded => table.with(tabled::settings::Style::rounded()),
        TableStyle::Ascii => table.with(tabled::settings::Style::ascii()),
        TableStyle::Modern => table.with(tabled::settings::Style::modern()),
        TableStyle::Blank => table.with(tabled::settings::Style::blank()),
        TableStyle::Empty => table.with(tabled::settings::Style::empty()),
    };
    table.to_string()
}

/// The header of the port table.
pub open spec fn port_header() -> Seq<Seq<char>> {
    seq!["PORT"@, "PROCESS"@, "PID"@, "FRAMEWORK"@, "STATUS"@, "PROJECT"@]
}

/// The cells of a port row, in column order.
pub open spec fn port_record(row: PortRow) -> Seq<Seq<char>> {
    seq![row.port@, row.process@, row.pid@, row.framework@, row.status@, row.project@]
}

/// The header of the process table.
pub open spec fn ps_header() -> Seq<Seq<char>> {
    seq!["PID"@, "PROCESS"@, "CPU%"@, "MEM"@, "PROJECT"@, "FRAMEWORK"@, "UPTIME"@, "WHAT"@]
}

/// The cells of a process row, in column order.
pub open spec fn ps_record(row: PsRow) -> Seq<Seq<char>> {
    seq![row.pid@, row.process@, row.cpu@, row.mem@, row.project@, row.framework@, row.uptime@, row.what@]
}

/// `text` is the port table of `ports` with the rows `rows`: one row
/// showing each port, in order, under the header, rendered in `style`.
pub open spec fn port_table_of(
    use_colors: bool,
    ascii: bool,
    style: TableStyle,
    ports: Seq<PortInfo>,
    rows: Seq<PortRow>,
    text: Seq<char>,
) -> bool {
    &&& rows.len() == ports.len()
    &&& forall|i: int|
        0 <= i < rows.len() ==> port_row_shows(use_colors, ascii, #[trigger] rows[i], ports[i]@)
    &&& text == spec_table(
        seq![port_header()] + rows.map_values(|row: PortRow| port_record(row)),
        style,
    )
}

/// The text shown when a scan finds no listening port.
pub open spec fn no_ports_text() -> Seq<char> {
    "No listening ports found."@
}

/// The text shown when the process listing is empty.
pub open spec fn no_processes_text() -> Seq<char> {
    "No processes found."@
}

impl Display {
    /// The port table: one row per port, in order, under the header, in the
    /// configured table style; a short notice when there is no port.
    pub fn ports_table(&self, ports: &Vec<PortInfo>) -> (r: String)
        ensures
            ports@.len() == 0 ==> r@ == no_ports_text(),
            ports@.len() > 0 ==> exists|rows: Seq<PortRow>|
                #[trigger] port_table_of(
                    self.use_colors,
                    self.ascii_mode,
                    spec_table_style(self.table_style@),
                    ports@,
                    rows,
                    r@,
                ),
    {
        if ports.len() == 0 {
            return owned("No listening ports found.");
        }
        let rows = self.port_rows(ports);
        let mut records: Vec<Vec<String>> = Vec::new();
        records.push(
            vec![
                owned("PORT"),
                owned("PROCESS"),
                owned("PID"),
                owned("FRAMEWORK"),
                owned("STATUS"),
                owned("PROJECT"),
            ],
        );
        for i in 0..rows.len()
            invariant
                records@.len() == i + 1,
                string_views(records@[0]@) == port_header(),
                forall|k: int|
                    0 <= k < i ==> string_views(#[trigger] records@[k + 1]@) == port_record(
                        rows@[k],
                    ),
        {
            let row = &rows[i];
            records.push(
                vec![
                    row.port.clone(),
                    row.process.clone(),
                    row.pid.clone(),
                    row.framework.clone(),
                    row.status.clone(),
                    row.project.clone(),
                ],
            );
            assert(string_views(records@[i + 1]@) =~= port_record(rows@[i as int]));
        }
        let style = table_style_kind(self.table_style.as_str());
        let r = render_table(records, style);
        assert(port_table_of(
            self.use_colors,
            self.ascii_mode,
            spec_table_style(self.table_style@),
            ports@,
            rows@,
            r@,
        )) by {
            assert(records_view(records@) =~= seq![port_header()] + rows@.map_values(
                |row: PortRow| port_record(row),
            )) by {
                assert forall|k: int| 1 <= k < records@.len() implies records_view(records@)[k]
                    == port_record(rows@[k - 1]) by {
                    assert(string_views(records@[(k - 1) + 1]@) == port_record(rows@[k - 1]));
                }
            }
        }
        r
    }

    /// The process table of the `ps` command: the given rows, in order,
    /// under the header, in the configured table style; a short notice when
    /// there is no row.
    pub fn ps_table(&self, rows: &Vec<PsRow>) -> (r: String)
        ensures
            rows@.len() == 0 ==> r@ == no_processes_text(),
            rows@.len() > 0 ==> r@ == spec_table(
                seq![ps_header()] + rows@.map_values(|row: PsRow| ps_record(row)),
                spec_table_style(self.table_style@),
            ),
    {
        if rows.len() == 0 {
            return owned("No processes found.");
        }
        let mut records: Vec<Vec<String>> = Vec::new();
        records.push(
            vec![
                owned("PID"),
                owned("PROCESS"),
                owned("CPU%"),
                owned("MEM"),
                owned("PROJECT"),
                owned("FRAMEWORK"),
                owned("UPTIME"),
                owned("WHAT"),
            ],
        );
        for i in 0..rows.len()
            invariant
                records@.len() == i + 1,
                string_views(records@[0]@) == ps_header(),
                forall|k: int|
                    0 <= k < i ==> string_views(#[trigger] records@[k + 1]@) == ps_record(
                        rows@[k],
                    ),
        {
            let row = &rows[i];
            records.push(
                vec![
                    row.pid.clone(),
                    row.process.clone(),
                    row.cpu.clone(),
                    row.mem.clone(),
                    row.project.clone(),
                    row.framework.clone(),
                    row.uptime.clone(),
                    row.what.clone(),
                ],
            );
            assert(string_views(records@[i + 1]@) =~= ps_record(rows@[i as int]));
        }
        let style = table_style_kind(self.table_style.as_str());
        let r = render_table(records, style);
        assert(records_view(records@) =~= seq![ps_header()] + rows@.map_values(
            |row: PsRow| ps_record(row),
        )) by {
            assert forall|k: int| 1 <= k < records@.len() implies records_view(records@)[k]
                == ps_record(rows@[k - 1]) by {
                assert(string_views(records@[(k - 1) + 1]@) == ps_record(rows@[k - 1]));
            }
        }
        r
    }
}

} // verus!
