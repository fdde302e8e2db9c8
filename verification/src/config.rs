//! Configuration: display settings, process filters and default flags,
//! with the defaults used when no configuration file exists.
use vstd::prelude::*;

use crate::text::{owned, replace_all, spec_lowercase, spec_replace, str_eq, to_lowercase};

verus! {

/// Configuration structure for Portly.
#[derive(Debug, Clone, PartialEq)]
pub struct Config {
    pub display: DisplayConfig,
    pub filters: FilterConfig,
    pub defaults: DefaultsConfig,
}

/// How tables and colors are shown.
#[derive(Debug, Clone, PartialEq)]
pub struct DisplayConfig {
    pub colors: bool,
    pub compact: bool,
    pub table_style: String,
}

/// Which processes are left out of listings.
#[derive(Debug, Clone, PartialEq)]
pub struct FilterConfig {
    pub exclude_system: bool,
    pub exclude_processes: Vec<String>,
}

/// Flags that apply when the command line does not give them.
#[derive(Debug, Clone, PartialEq)]
pub struct DefaultsConfig {
    pub show_all: bool,
    pub json_output: bool,
}

/// The views of a sequence of strings.
pub open spec fn string_views(v: Seq<String>) -> Seq<Seq<char>> {
    v.map_values(|s: String| s@)
}

/// The applications that the default configuration excludes.
pub open spec fn default_excluded() -> Seq<Seq<char>> {
    seq!["Spotify"@, "Chrome"@, "Firefox"@, "Slack"@, "Discord"@, "Code"@, "Teams"@]
}

/// The default configuration: colors on, not compact, rounded tables,
/// system processes and the common desktop applications excluded, and
/// neither `--all` nor `--json` by default.
pub open spec fn is_default_config(c: Config) -> bool {
    &&& c.display.colors
    &&& !c.display.compact
    &&& c.display.table_style@ == "rounded"@
    &&& c.filters.exclude_system
    &&& string_views(c.filters.exclude_processes@) == default_excluded()
    &&& !c.defaults.show_all
    &&& !c.defaults.json_output
}

/// The table style used when the configuration names none.
pub fn default_table_style() -> (r: String)
    ensures
        r@ == "rounded"@,
{
    owned("rounded")
}

impl Default for Config {
    fn default() -> (r: Self)
        ensures
            is_default_config(r),
    {
        let mut excluded: Vec<String> = Vec::new();
        excluded.push(owned("Spotify"));
        excluded.push(owned("Chrome"));
        excluded.push(owned("Firefox"));
        excluded.push(owned("Slack"));
        excluded.push(owned("Discord"));
        excluded.push(owned("Code"));
        excluded.push(owned("Teams"));
        assert(string_views(excluded@) =~= default_excluded());
        Config {
            display: DisplayConfig { colors: true, compact: false, table_style: default_table_style() },
            filters: FilterConfig { exclude_system: true, exclude_processes: excluded },
            defaults: DefaultsConfig { show_all: false, json_output: false },
        }
    }
}

impl Config {
    /// The configuration in effect: the one read from the configuration
    /// file when there is one, and the defaults when the file is missing.
    pub fn load(stored: Option<Config>) -> (r: Config)
        ensures
            match stored {
                Some(c) => r == c,
                None => is_default_config(r),
            },
    {
        match stored {
            Some(c) => c,
            None => Config::default(),
        }
    }
}

/// The table styles that can be configured.
#[derive(Debug, Clone, Copy, PartialEq, Eq, Structural)]
pub enum TableStyle {
    Rounded,
    Ascii,
    Modern,
    Blank,
    Empty,
}

/// The table style a configured name selects, ignoring case; an unknown
/// name selects the rounded style.
pub open spec fn spec_table_style(name: Seq<char>) -> TableStyle {
    let n = spec_lowercase(name);
    if n == "ascii"@ {
        TableStyle::Ascii
    } else if n == "modern"@ {
        TableStyle::Modern
    } else if n == "blank"@ {
        TableStyle::Blank
    } else if n == "empty"@ {
        TableStyle::Empty
    } else {
        TableStyle::Rounded
    }
}

/// The table style named by `style_name` (case-insensitive: rounded,
/// ascii, modern, blank, empty; anything else is rounded).
pub fn table_style_kind(style_name: &str) -> (r: TableStyle)
    ensures
        r == spec_table_style(style_name@),
{
    let lower = to_lowercase(style_name);
    let n = lower.as_str();
    if str_eq(n, "ascii") {
        TableStyle::Ascii
    } else if str_eq(n, "modern") {
        TableStyle::Modern
    } else if str_eq(n, "blank") {
        TableStyle::Blank
    } else if str_eq(n, "empty") {
        TableStyle::Empty
    } else {
        TableStyle::Rounded
    }
}

/// The header line of the display section in a configuration file.
pub open spec fn display_header() -> Seq<char> {
    "[display]"@
}

/// The display header followed by the comment on the table styles.
pub open spec fn annotated_display_header() -> Seq<char> {
    "[display]\n# Table style options: rounded (default), ascii, modern, blank, empty\n# Use 'ascii' for terminals without Unicode support"@
}

/// The text of a default configuration file: the serialized defaults with
/// a comment on the table styles under each display header.
pub fn annotate_config_text(serialized: &str) -> (r: String)
    ensures
        r@ == spec_replace(serialized@, display_header(), annotated_display_header()),
{
    let header = "[display]";
    proof {
        reveal_strlit("[display]");
    }
    replace_all(
        serialized,
        header,
        "[display]\n# Table style options: rounded (default), ascii, modern, blank, empty\n# Use 'ascii' for terminals without Unicode support",
    )
}

} // verus!
