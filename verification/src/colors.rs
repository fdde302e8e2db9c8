//! Framework color mapping, shared by the table, the details view and the
//! other displays so that a framework always gets the same color.
use vstd::prelude::*;

use colored::Colorize;

use crate::process::ProcessStatus;
use crate::text::{concat2, has_prefix, has_substring, owned, str_eq};

verus! {

/// Terminal colors, one per framework category.
#[derive(Debug, Clone, Copy, PartialEq, Eq, Structural)]
pub enum FrameworkColor {
    Cyan,
    BrightMagenta,
    Blue,
    Green,
    Yellow,
    Red,
    BrightRed,
    BrightBlue,
    BrightCyan,
    BrightGreen,
    Normal,
}

/// The SGR foreground code that `colored` writes for a color.
pub open spec fn fg_code(c: FrameworkColor) -> Seq<char> {
    match c {
        FrameworkColor::Cyan => seq!['3', '6'],
        FrameworkColor::BrightMagenta => seq!['9', '5'],
        FrameworkColor::Blue => seq!['3', '4'],
        FrameworkColor::Green => seq!['3', '2'],
        FrameworkColor::Yellow => seq!['3', '3'],
        FrameworkColor::Red => seq!['3', '1'],
        FrameworkColor::BrightRed => seq!['9', '1'],
        FrameworkColor::BrightBlue => seq!['9', '4'],
        FrameworkColor::BrightCyan => seq!['9', '6'],
        FrameworkColor::BrightGreen => seq!['9', '2'],
        FrameworkColor::Normal => seq![],
    }
}

/// The escape sequence that switches a color on.
pub open spec fn ansi_start(c: FrameworkColor) -> Seq<char> {
    seq!['\x1b', '['] + fg_code(c) + seq!['m']
}

/// The escape sequence that resets all attributes.
pub open spec fn ansi_reset() -> Seq<char> {
    seq!['\x1b', '[', '0', 'm']
}

/// `text` wrapped in the escape sequences of color `c`.
pub open spec fn painted(text: Seq<char>, c: FrameworkColor) -> Seq<char> {
    ansi_start(c) + text + ansi_reset()
}

/// `r` is what `colored` may write for `text` in color `c`: the text itself
/// when coloring is off (or the color is `Normal`), and otherwise the text
/// between the color's start sequence and the reset sequence (a text that
/// holds reset sequences itself gets the start sequence repeated after
/// each of them).
pub open spec fn is_rendering(r: Seq<char>, text: Seq<char>, c: FrameworkColor) -> bool {
    ||| r == text
    ||| c != FrameworkColor::Normal && if has_substring(text, ansi_reset()) {
        has_prefix(r, ansi_start(c)) && r.len() >= ansi_start(c).len() + ansi_reset().len()
            && r.subrange(r.len() - ansi_reset().len(), r.len() as int) == ansi_reset()
    } else {
        r == painted(text, c)
    }
}

/// `colored`: the text in the given foreground color, rendered with
/// `to_string`. Whether escape sequences are written depends on the
/// environment (`NO_COLOR`, `CLICOLOR`, `CLICOLOR_FORCE`, a manual
/// override); the contract states what holds either way.
#[verifier::external_body]
pub(crate) fn paint(text: &str, color: FrameworkColor) -> (r: String)
    ensures
        is_rendering(r@, text@, color),
        color == FrameworkColor::Normal ==> r@ == text@,
{
    let s = match color {
        FrameworkColor::Cyan => text.cyan(),
        FrameworkColor::BrightMagenta => text.bright_magenta(),
        FrameworkColor::Blue => text.blue(),
        FrameworkColor::Green => text.green(),
        FrameworkColor::Yellow => text.yellow(),
        FrameworkColor::Red => text.red(),
        FrameworkColor::BrightRed => text.bright_red(),
        FrameworkColor::BrightBlue => text.bright_blue(),
        FrameworkColor::BrightCyan => text.bright_cyan(),
        FrameworkColor::BrightGreen => text.bright_green(),
        FrameworkColor::Normal => text.normal(),
    };
    s.to_string()
}

/// The color of a framework, by exact (case-sensitive) name; unknown
/// frameworks are `Normal`.
pub open spec fn spec_framework_color(name: Seq<char>) -> FrameworkColor {
    if name == "Next.js"@ || name == "Nuxt"@ || name == "Gatsby"@ {
        FrameworkColor::Cyan
    } else if name == "Vite"@ || name == "Webpack"@ || name == "Parcel"@ {
        FrameworkColor::BrightMagenta
    } else if name == "React"@ || name == "Vue"@ || name == "Angular"@ {
        FrameworkColor::Blue
    } else if name == "Node.js"@ || name == "Express"@ {
        FrameworkColor::Green
    } else if name == "Django"@ || name == "Flask"@ || name == "FastAPI"@ {
        FrameworkColor::Yellow
    } else if name == "Rails"@ || name == "Ruby"@ {
        FrameworkColor::Red
    } else if name == "Laravel"@ || name == "Symfony"@ || name == "PHP"@ {
        FrameworkColor::BrightBlue
    } else if name == "Spring"@ {
        FrameworkColor::Green
    } else if name == ".NET"@ {
        FrameworkColor::BrightCyan
    } else if name == "Rust"@ || name == "Trunk"@ {
        FrameworkColor::BrightRed
    } else if name == "Go"@ {
        FrameworkColor::Cyan
    } else if name == "PostgreSQL"@ || name == "MySQL"@ {
        FrameworkColor::Blue
    } else if name == "Redis"@ || name == "MongoDB"@ {
        FrameworkColor::Green
    } else if name == "nginx"@ || name == "RabbitMQ"@ {
        FrameworkColor::BrightGreen
    } else if name == "Docker"@ {
        FrameworkColor::BrightBlue
    } else {
        FrameworkColor::Normal
    }
}

/// Get the color for a framework name.
pub fn get_framework_color(framework: &str) -> (c: FrameworkColor)
    ensures
        c == spec_framework_color(framework@),
{
    let f = framework;
    if str_eq(f, "Next.js") || str_eq(f, "Nuxt") || str_eq(f, "Gatsby") {
        FrameworkColor::Cyan
    } else if str_eq(f, "Vite") || str_eq(f, "Webpack") || str_eq(f, "Parcel") {
        FrameworkColor::BrightMagenta
    } else if str_eq(f, "React") || str_eq(f, "Vue") || str_eq(f, "Angular") {
        FrameworkColor::Blue
    } else if str_eq(f, "Node.js") || str_eq(f, "Express") {
        FrameworkColor::Green
    } else if str_eq(f, "Django") || str_eq(f, "Flask") || str_eq(f, "FastAPI") {
        FrameworkColor::Yellow
    } else if str_eq(f, "Rails") || str_eq(f, "Ruby") {
        FrameworkColor::Red
    } else if str_eq(f, "Laravel") || str_eq(f, "Symfony") || str_eq(f, "PHP") {
        FrameworkColor::BrightBlue
    } else if str_eq(f, "Spring") {
        FrameworkColor::Green
    } else if str_eq(f, ".NET") {
        FrameworkColor::BrightCyan
    } else if str_eq(f, "Rust") || str_eq(f, "Trunk") {
        FrameworkColor::BrightRed
    } else if str_eq(f, "Go") {
        FrameworkColor::Cyan
    } else if str_eq(f, "PostgreSQL") || str_eq(f, "MySQL") {
        FrameworkColor::Blue
    } else if str_eq(f, "Redis") || str_eq(f, "MongoDB") {
        FrameworkColor::Green
    } else if str_eq(f, "nginx") || str_eq(f, "RabbitMQ") {
        FrameworkColor::BrightGreen
    } else if str_eq(f, "Docker") {
        FrameworkColor::BrightBlue
    } else {
        FrameworkColor::Normal
    }
}

/// The framework name in its color when `use_colors`, and plain otherwise.
pub fn apply_framework_color(framework: &str, use_colors: bool) -> (r: String)
    ensures
        shown(use_colors, r@, framework@, spec_framework_color(framework@)),
        spec_framework_color(framework@) == FrameworkColor::Normal ==> r@ == framework@,
{
    if !use_colors {
        return owned(framework);
    }
    let color = get_framework_color(framework);
    paint(framework, color)
}

/// `r` shows `text` in color `c` when `use_colors`, and is the plain text
/// otherwise.
pub open spec fn shown(use_colors: bool, r: Seq<char>, text: Seq<char>, c: FrameworkColor) -> bool {
    if use_colors {
        is_rendering(r, text, c)
    } else {
        r == text
    }
}

/// Text in a color when `use_colors`, and plain otherwise.
pub fn colorize_if(text: &str, color: FrameworkColor, use_colors: bool) -> (r: String)
    ensures
        shown(use_colors, r@, text@, color),
{
    if use_colors {
        paint(text, color)
    } else {
        owned(text)
    }
}

/// The color that marks a process status: green when healthy, yellow when
/// orphaned, red for a zombie.
pub open spec fn status_color(s: ProcessStatus) -> FrameworkColor {
    match s {
        ProcessStatus::Healthy => FrameworkColor::Green,
        ProcessStatus::Orphaned => FrameworkColor::Yellow,
        ProcessStatus::Zombie => FrameworkColor::Red,
    }
}

/// The word that follows the status symbol, with its leading space.
pub open spec fn status_label(s: ProcessStatus) -> Seq<char> {
    match s {
        ProcessStatus::Healthy => " healthy"@,
        ProcessStatus::Orphaned => " orphaned"@,
        ProcessStatus::Zombie => " zombie"@,
    }
}

/// `r` is a status rendered as `symbol` (in the status color when
/// `use_colors`) followed by the status word.
pub open spec fn status_shown(r: Seq<char>, symbol: Seq<char>, s: ProcessStatus, use_colors: bool) -> bool {
    exists|m: Seq<char>| shown(use_colors, m, symbol, status_color(s)) && r == m + status_label(s)
}

/// A process status as a colored symbol and a word.
pub fn render_status(symbol: &str, status: ProcessStatus, use_colors: bool) -> (r: String)
    ensures
        status_shown(r@, symbol@, status, use_colors),
{
    let color = match status {
        ProcessStatus::Healthy => FrameworkColor::Green,
        ProcessStatus::Orphaned => FrameworkColor::Yellow,
        ProcessStatus::Zombie => FrameworkColor::Red,
    };
    let m = colorize_if(symbol, color, use_colors);
    let word = match status {
        ProcessStatus::Healthy => " healthy",
        ProcessStatus::Orphaned => " orphaned",
        ProcessStatus::Zombie => " zombie",
    };
    let r = concat2(m.as_str(), word);
    assert(shown(use_colors, m@, symbol@, status_color(status)) && r@ == m@ + status_label(status));
    r
}

} // verus!
