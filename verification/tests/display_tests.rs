use portly::colors::{FrameworkColor, apply_framework_color};
use portly::config::Config;
use portly::display::{Display, detect_terminal_width, width_from_columns};
use portly::process::{PortInfo, ProcessStatus};
use portly::ps::PsProcess;

fn test_config() -> Config {
    Config::default()
}

fn now_secs() -> u64 {
    std::time::SystemTime::now().duration_since(std::time::UNIX_EPOCH).unwrap().as_secs()
}

#[test]
fn test_display_new_accepts_config() {
    let config = test_config();
    let display = Display::new(true, false, &config, false);
    assert!(display.use_colors);
    assert!(!display.json_mode);
}

#[test]
fn test_display_uses_configured_table_style() {
    let mut config = test_config();
    config.display.table_style = "ascii".to_string();
    let display = Display::new(false, false, &config, false);
    assert_eq!(display.table_style, "ascii");
}

#[test]
fn test_display_respects_different_table_styles() {
    let styles = vec!["rounded", "ascii", "modern", "blank", "empty"];
    for style in styles {
        let mut config = test_config();
        config.display.table_style = style.to_string();
        let display = Display::new(false, false, &config, false);
        assert_eq!(display.table_style, style);
    }
}

#[test]
fn test_ascii_flag_overrides_table_style() {
    let mut config = test_config();
    config.display.table_style = "rounded".to_string();
    let display = Display::new(false, false, &config, true);
    assert_eq!(display.table_style, "ascii");
}

#[test]
fn test_format_status_ascii_mode() {
    let display = Display::new(false, false, &test_config(), true);
    let healthy = display.format_status(ProcessStatus::Healthy);
    let orphaned = display.format_status(ProcessStatus::Orphaned);
    let zombie = display.format_status(ProcessStatus::Zombie);
    assert!(healthy.contains("*"));
    assert!(orphaned.contains("*"));
    assert!(zombie.contains("*"));
    assert!(!healthy.contains("●"));
    assert!(!orphaned.contains("●"));
    assert!(!zombie.contains("●"));
}

#[test]
fn test_watch_markers_ascii_mode() {
    let display = Display::new(false, false, &test_config(), true);
    let new_marker = display.new_marker();
    let closed_marker = display.closed_marker();
    assert!(new_marker.contains("^ NEW"));
    assert!(closed_marker.contains("v CLOSED"));
    assert!(!new_marker.contains("▲"));
    assert!(!closed_marker.contains("▼"));
}

#[test]
fn test_success_error_markers_ascii_mode() {
    let display = Display::new(false, false, &test_config(), true);
    assert_eq!(display.success_marker(), "+");
    assert_eq!(display.error_marker(), "x");
}

#[test]
fn test_colorize_with_colors() {
    colored::control::set_override(true);
    let display = Display::new(true, false, &test_config(), false);
    let result = display.colorize("test", FrameworkColor::Green);
    assert!(result.contains("\x1b["));
    colored::control::unset_override();
}

#[test]
fn test_colorize_without_colors() {
    let display = Display::new(false, false, &test_config(), false);
    let result = display.colorize("test", FrameworkColor::Green);
    assert_eq!(result, "test");
}

#[test]
fn test_new_marker_with_colors() {
    colored::control::set_override(true);
    let display = Display::new(true, false, &test_config(), false);
    let marker = display.new_marker();
    assert!(marker.contains("▲ NEW"));
    assert!(marker.contains("\x1b["));
    colored::control::unset_override();
}

#[test]
fn test_new_marker_without_colors() {
    let display = Display::new(false, false, &test_config(), false);
    assert_eq!(display.new_marker(), "▲ NEW   ");
}

#[test]
fn test_closed_marker_with_colors() {
    colored::control::set_override(true);
    let display = Display::new(true, false, &test_config(), false);
    let marker = display.closed_marker();
    assert!(marker.contains("▼ CLOSED"));
    assert!(marker.contains("\x1b["));
    colored::control::unset_override();
}

#[test]
fn test_closed_marker_without_colors() {
    let display = Display::new(false, false, &test_config(), false);
    assert_eq!(display.closed_marker(), "▼ CLOSED");
}

#[test]
fn test_success_marker_with_colors() {
    colored::control::set_override(true);
    let display = Display::new(true, false, &test_config(), false);
    let marker = display.success_marker();
    assert!(marker.contains("✓"));
    assert!(marker.contains("\x1b["));
    colored::control::unset_override();
}

#[test]
fn test_success_marker_without_colors() {
    let display = Display::new(false, false, &test_config(), false);
    assert_eq!(display.success_marker(), "✓");
}

#[test]
fn test_error_marker_with_colors() {
    colored::control::set_override(true);
    let display = Display::new(true, false, &test_config(), false);
    let marker = display.error_marker();
    assert!(marker.contains("✗"));
    assert!(marker.contains("\x1b["));
    colored::control::unset_override();
}

#[test]
fn test_error_marker_without_colors() {
    let display = Display::new(false, false, &test_config(), false);
    assert_eq!(display.error_marker(), "✗");
}

#[test]
fn test_show_watch_event_new_basic() {
    let display = Display::new(false, false, &test_config(), false);
    let port_info = PortInfo {
        port: 3000,
        pid: 1234,
        process_name: "node".to_string(),
        framework: None,
        project_name: None,
        status: ProcessStatus::Healthy,
    };
    assert_eq!(display.watch_event_new_line("12:00:00", &port_info), "12:00:00 ▲ NEW    :3000 ← node");
}

#[test]
fn test_show_watch_event_new_with_framework() {
    let display = Display::new(false, false, &test_config(), false);
    let port_info = PortInfo {
        port: 3000,
        pid: 1234,
        process_name: "node".to_string(),
        framework: Some("Next.js".to_string()),
        project_name: Some("my-app".to_string()),
        status: ProcessStatus::Healthy,
    };
    assert_eq!(
        display.watch_event_new_line("12:00:00", &port_info),
        "12:00:00 ▲ NEW    :3000 ← node [my-app] Next.js"
    );
}

#[test]
fn test_show_watch_event_closed() {
    let display = Display::new(false, false, &test_config(), false);
    assert_eq!(display.watch_event_closed_line("12:00:00", 3000), "12:00:00 ▼ CLOSED :3000");
}

#[test]
fn test_format_uptime_none() {
    let display = Display::new(false, false, &test_config(), false);
    assert_eq!(display.format_uptime(None, now_secs()), "—");
}

#[test]
fn test_format_uptime_minutes() {
    let display = Display::new(false, false, &test_config(), false);
    let now = now_secs();
    assert_eq!(display.format_uptime(Some(now - 300), now), "5m");
}

#[test]
fn test_format_uptime_hours() {
    let display = Display::new(false, false, &test_config(), false);
    let now = now_secs();
    assert_eq!(display.format_uptime(Some(now - 7200), now), "2h 0m");
}

#[test]
fn test_format_uptime_days() {
    let display = Display::new(false, false, &test_config(), false);
    let now = now_secs();
    assert_eq!(display.format_uptime(Some(now - 90000), now), "1d 1h");
}

#[test]
fn test_format_command_node() {
    let display = Display::with_width(150, false, false);
    assert_eq!(display.format_command("node /path/to/next dev", "node"), "next dev");
}

#[test]
fn test_format_command_python() {
    let display = Display::with_width(150, false, false);
    assert_eq!(display.format_command("python manage.py runserver", "python"), "runserver");
}

#[test]
fn test_format_command_cargo() {
    let display = Display::with_width(150, false, false);
    assert_eq!(display.format_command("cargo run --bin server", "cargo"), "run --bin server");
}

#[test]
fn test_format_command_empty() {
    let display = Display::new(false, false, &test_config(), false);
    assert_eq!(display.format_command("", "myprocess"), "myprocess");
}

#[test]
fn test_truncate_short() {
    let display = Display::new(false, false, &test_config(), false);
    assert_eq!(display.truncate_to("short", 10), "short");
}

#[test]
fn test_truncate_long() {
    let display = Display::new(false, false, &test_config(), false);
    assert_eq!(display.truncate_to("this is a very long string", 10), "this is...");
}

#[test]
fn test_truncate_exact() {
    let display = Display::new(false, false, &test_config(), false);
    assert_eq!(display.truncate_to("exactly10c", 10), "exactly10c");
}

#[test]
fn test_display_uses_shared_colors() {
    colored::control::set_override(true);
    let display = Display::new(true, false, &test_config(), false);
    for framework in vec!["Next.js", "Django", "Rust", "PostgreSQL", "Docker"] {
        let display_result = display.format_framework(Some(framework));
        let shared_result = apply_framework_color(framework, true);
        assert_eq!(display_result, shared_result, "Display formatting for {} should match shared colors module", framework);
    }
    colored::control::unset_override();
}

#[test]
fn test_detect_terminal_width_returns_default() {
    let width = detect_terminal_width();
    assert!(width >= 80, "Terminal width should default to at least 80 columns");
}

#[test]
fn test_display_stores_terminal_width() {
    let display = Display::new(false, false, &test_config(), false);
    assert!(display.terminal_width >= 80, "Display should store terminal width of at least 80");
}

#[test]
fn test_calculate_truncation_length_scales_with_width() {
    let len_80 = Display::with_width(80, false, false).calculate_truncation_length();
    let len_120 = Display::with_width(120, false, false).calculate_truncation_length();
    let len_200 = Display::with_width(200, false, false).calculate_truncation_length();
    assert!(len_120 > len_80, "120 cols should allow more chars than 80 cols");
    assert!(len_200 > len_120, "200 cols should allow more chars than 120 cols");
    assert!(len_80 >= 15, "Minimum truncation should be at least 15 chars");
    assert!(len_200 <= 60, "Maximum truncation should be at most 60 chars");
}

#[test]
fn test_truncate_uses_dynamic_length() {
    let display_narrow = Display::with_width(80, false, false);
    let display_wide = Display::with_width(200, false, false);
    let long_text = "this is a very long string that should be truncated differently based on terminal width";
    let truncated_narrow = display_narrow.truncate(long_text);
    let truncated_wide = display_wide.truncate(long_text);
    assert!(truncated_wide.len() > truncated_narrow.len(), "Wide terminal should truncate at longer length");
}

#[test]
fn test_format_command_scales_with_terminal_width() {
    let display_narrow = Display::with_width(80, false, false);
    let display_wide = Display::with_width(200, false, false);
    let long_cmd = "node /path/to/very/long/application/name/that/should/be/truncated/differently.js serve --port 3000 --verbose";
    let formatted_narrow = display_narrow.format_command(long_cmd, "node");
    let formatted_wide = display_wide.format_command(long_cmd, "node");
    assert!(formatted_wide.len() > formatted_narrow.len(), "Wide terminal should show more command text");
}

#[test]
fn test_very_narrow_terminal_minimum_truncation() {
    let display_very_narrow = Display::with_width(40, false, false);
    assert!(display_very_narrow.calculate_truncation_length() >= 15, "Very narrow terminal should still allow at least 15 chars");
}

#[test]
fn test_unicode_truncation() {
    let display = Display::with_width(80, false, false);
    let truncated = display.truncate_to("Hello 你好世界 World", 10);
    assert!(!truncated.is_empty(), "Unicode truncation should produce output");
}

#[test]
fn test_piped_output_uses_default_width() {
    let width = detect_terminal_width();
    assert!(width >= 80, "Piped output should default to 80 columns");
}

#[test]
fn truncation_lengths_are_exact() {
    assert_eq!(Display::with_width(80, false, false).calculate_truncation_length(), 15);
    assert_eq!(Display::with_width(120, false, false).calculate_truncation_length(), 40);
    assert_eq!(Display::with_width(200, false, false).calculate_truncation_length(), 60);
    assert_eq!(Display::with_width(96, false, false).calculate_truncation_length(), 16);
}

#[test]
fn wide_characters_take_two_columns_when_truncating() {
    let display = Display::with_width(80, false, false);
    assert_eq!(display.truncate_to("unicode: 你好世界", 15), "unicode: 你...");
    assert_eq!(display.truncate_to("你好", 4), "你好");
    assert_eq!(display.truncate_to("", 10), "");
}

#[test]
fn format_command_other_patterns() {
    let display = Display::with_width(150, false, false);
    assert_eq!(display.format_command("node server.js --port 3000", "node"), "server.js --port 3000");
    assert_eq!(display.format_command("python -m flask run", "python"), "flask run");
    assert_eq!(display.format_command("docker-compose up", "docker-compose"), "docker-compose up");
    assert_eq!(display.format_command("npm run dev -- --port=3000", "npm"), "npm");
    assert_eq!(display.format_command("node --inspect", "node"), "node");
    assert_eq!(display.format_command("   ", "idle"), "idle");
    let long = display.format_command("very-long-command-that-should-be-truncated-because-it-exceeds-limit", "proc");
    assert_eq!(long, "proc");
}

#[test]
fn width_defaults_to_eighty_columns() {
    assert_eq!(width_from_columns(None), 80);
    assert_eq!(width_from_columns(Some(132)), 132);
}

#[test]
fn status_and_framework_without_colors() {
    let display = Display::new(false, false, &test_config(), false);
    assert_eq!(display.format_status(ProcessStatus::Healthy), "● healthy");
    assert_eq!(display.format_status(ProcessStatus::Orphaned), "● orphaned");
    assert_eq!(display.format_status(ProcessStatus::Zombie), "● zombie");
    assert_eq!(display.format_framework(Some("Rails")), "Rails");
    assert_eq!(display.format_framework(None), "—");
}

#[test]
fn port_rows_show_each_field() {
    let display = Display::new(false, false, &test_config(), false);
    let ports = vec![PortInfo {
        port: 5000,
        pid: 5678,
        process_name: "python".to_string(),
        framework: None,
        project_name: Some("api-server".to_string()),
        status: ProcessStatus::Orphaned,
    }];
    let rows = display.port_rows(&ports);
    assert_eq!(rows.len(), 1);
    assert_eq!(rows[0].port, "5000");
    assert_eq!(rows[0].pid, "5678");
    assert_eq!(rows[0].process, "python");
    assert_eq!(rows[0].framework, "—");
    assert_eq!(rows[0].status, "● orphaned");
    assert_eq!(rows[0].project, "api-server");
}

#[test]
fn ps_rows_format_memory_and_dashes() {
    let display = Display::new(false, false, &test_config(), false);
    let p = PsProcess {
        pid: 42,
        name: "node.exe".to_string(),
        cpu_percent_bits: 2.5f32.to_bits(),
        memory_kb: 46234,
        project_name: None,
        framework: Some("Next.js".to_string()),
        uptime: "5m".to_string(),
        what: "next dev".to_string(),
    };
    let row = display.ps_row(&p, "2.5".to_string());
    assert_eq!(row.pid, "42");
    assert_eq!(row.cpu, "2.5");
    assert_eq!(row.mem, "45.2 MB");
    assert_eq!(row.project, "—");
    assert_eq!(row.framework, "Next.js");
    assert_eq!(row.uptime, "5m");
    assert_eq!(row.what, "next dev");
}

#[test]
fn uptime_in_the_future_is_a_dash() {
    let display = Display::with_width(80, false, false);
    assert_eq!(display.format_uptime(Some(200), 100), "—");
    assert_eq!(display.format_uptime(Some(100), 100), "0m");
}

#[test]
fn snapshot_format_uptime_variations() {
    let display = Display::new(false, false, &test_config(), false);
    let now = now_secs();
    let results = format!(
        "5 minutes: {}\n30 minutes: {}\n2 hours: {}\n1 day: {}\n5 days: {}\nNone: {}",
        display.format_uptime(Some(now - 300), now),
        display.format_uptime(Some(now - 1800), now),
        display.format_uptime(Some(now - 7200), now),
        display.format_uptime(Some(now - 90000), now),
        display.format_uptime(Some(now - 432000), now),
        display.format_uptime(None, now)
    );
    assert_eq!(results, "5 minutes: 5m\n30 minutes: 30m\n2 hours: 2h 0m\n1 day: 1d 1h\n5 days: 5d 0h\nNone: —");
}

#[test]
fn snapshot_format_command_patterns() {
    let display = Display::with_width(150, false, false);
    let test_cases = vec![
        ("node /path/to/next dev", "node", "Node.js with next dev"),
        ("node server.js --port 3000", "node", "Node.js with server.js"),
        ("python manage.py runserver", "python", "Python Django"),
        ("python -m flask run", "python", "Python Flask"),
        ("cargo run --bin server", "cargo", "Cargo run"),
        ("cargo watch -x run", "cargo", "Cargo watch"),
        ("docker-compose up", "docker-compose", "Docker compose"),
        ("", "myprocess", "Empty command"),
        ("very-long-command-that-should-be-truncated-because-it-exceeds-limit", "proc", "Long command"),
    ];
    let mut results = String::new();
    for (cmd, proc, desc) in test_cases {
        let formatted = display.format_command(cmd, proc);
        results.push_str(&format!("{}: {}\n", desc, formatted));
    }
    assert_eq!(results, "Node.js with next dev: next dev\nNode.js with server.js: server.js --port 3000\nPython Django: runserver\nPython Flask: flask run\nCargo run: run --bin server\nCargo watch: watch -x run\nDocker compose: docker-compose up\nEmpty command: myprocess\nLong command: proc\n");
}

#[test]
fn snapshot_color_markers_no_color() {
    let display = Display::new(false, false, &test_config(), false);
    let markers = format!(
        "New: {}\nClosed: {}\nSuccess: {}\nError: {}",
        display.new_marker(),
        display.closed_marker(),
        display.success_marker(),
        display.error_marker()
    );
    assert_eq!(markers, "New: ▲ NEW   \nClosed: ▼ CLOSED\nSuccess: ✓\nError: ✗");
}

#[test]
fn snapshot_truncate_edge_cases() {
    let display = Display::new(false, false, &test_config(), false);
    let test_cases = vec![
        ("short", 10, "Short string"),
        ("exactly10c", 10, "Exact length"),
        ("this is a very long string that needs truncation", 10, "Long string"),
        ("", 10, "Empty string"),
        ("a", 10, "Single char"),
        ("unicode: 你好世界", 15, "Unicode chars"),
    ];
    let mut results = String::new();
    for (text, max_len, desc) in test_cases {
        let truncated = display.truncate_to(text, max_len);
        results.push_str(&format!("{}: '{}'\n", desc, truncated));
    }
    assert_eq!(results, "Short string: 'short'\nExact length: 'exactly10c'\nLong string: 'this is...'\nEmpty string: ''\nSingle char: 'a'\nUnicode chars: 'unicode: 你...'\n");
}

#[test]
fn snapshot_format_status_no_color() {
    let display = Display::new(false, false, &test_config(), false);
    let statuses = format!(
        "Healthy: {}\nOrphaned: {}\nZombie: {}",
        display.format_status(ProcessStatus::Healthy),
        display.format_status(ProcessStatus::Orphaned),
        display.format_status(ProcessStatus::Zombie)
    );
    assert_eq!(statuses, "Healthy: ● healthy\nOrphaned: ● orphaned\nZombie: ● zombie");
}

#[test]
fn snapshot_format_framework_no_color() {
    let display = Display::new(false, false, &test_config(), false);
    let frameworks = vec![
        Some("Next.js"),
        Some("Django"),
        Some("Rails"),
        Some("Rust"),
        Some("PostgreSQL"),
        Some("Docker"),
        Some("Unknown Framework"),
        None,
    ];
    let mut results = String::new();
    for fw in frameworks {
        let formatted = display.format_framework(fw);
        results.push_str(&format!("{:?}: {}\n", fw, formatted));
    }
    assert_eq!(results, "Some(\"Next.js\"): Next.js\nSome(\"Django\"): Django\nSome(\"Rails\"): Rails\nSome(\"Rust\"): Rust\nSome(\"PostgreSQL\"): PostgreSQL\nSome(\"Docker\"): Docker\nSome(\"Unknown Framework\"): Unknown Framework\nNone: —\n");
}

#[test]
fn snapshot_format_command_special_characters() {
    let display = Display::with_width(150, false, false);
    let test_cases = vec![
        ("node app.js --env=\"production\"", "node", "Quotes in command"),
        ("python script.py --path=/home/user/my project", "python", "Spaces in path"),
        ("cargo run -- --arg1 --arg2", "cargo", "Double dash separator"),
        ("npm run dev -- --port=3000", "npm", "NPM with args"),
    ];
    let mut results = String::new();
    for (cmd, proc, desc) in test_cases {
        let formatted = display.format_command(cmd, proc);
        results.push_str(&format!("{}: {}\n", desc, formatted));
    }
    assert_eq!(results, "Quotes in command: app.js --env=\"production\"\nSpaces in path: --path=/home/user/my project\nDouble dash separator: run -- --arg1 --arg2\nNPM with args: npm\n");
}

#[test]
fn snapshot_format_uptime_edge_cases() {
    let display = Display::new(false, false, &test_config(), false);
    let now = now_secs();
    let results = format!(
        "0 seconds: {}\n1 second: {}\n59 seconds: {}\n1 hour: {}\n23 hours: {}",
        display.format_uptime(Some(now), now),
        display.format_uptime(Some(now - 1), now),
        display.format_uptime(Some(now - 59), now),
        display.format_uptime(Some(now - 3600), now),
        display.format_uptime(Some(now - 82800), now)
    );
    assert_eq!(results, "0 seconds: 0m\n1 second: 0m\n59 seconds: 0m\n1 hour: 1h 0m\n23 hours: 23h 0m");
}

#[test]
fn port_table_lists_each_port_under_the_header() {
    let display = Display::new(false, false, &test_config(), false);
    assert_eq!(display.ports_table(&vec![]), "No listening ports found.");
    let ports = vec![PortInfo {
        port: 3000,
        pid: 1234,
        process_name: "node".to_string(),
        status: ProcessStatus::Healthy,
        framework: Some("Next.js".to_string()),
        project_name: Some("my-app".to_string()),
    }];
    let table = display.ports_table(&ports);
    let lines: Vec<&str> = table.lines().collect();
    assert!(lines.len() >= 3);
    assert!(table.contains("PORT") && table.contains("PROJECT"));
    assert!(table.contains("3000") && table.contains("1234") && table.contains("my-app"));
    assert!(table.find("PORT").unwrap() < table.find("3000").unwrap());
    let mut ascii_config = test_config();
    ascii_config.display.table_style = "ascii".to_string();
    let ascii = Display::new(false, false, &ascii_config, false).ports_table(&ports);
    assert!(ascii.starts_with('+'));
    assert_ne!(ascii, table);
}

#[test]
fn ps_table_lists_each_row() {
    let display = Display::new(false, false, &test_config(), false);
    assert_eq!(display.ps_table(&vec![]), "No processes found.");
    let p = PsProcess {
        pid: 42,
        name: "node.exe".to_string(),
        cpu_percent_bits: 1.5f32.to_bits(),
        memory_kb: 2048,
        uptime: "5m".to_string(),
        what: "server.js".to_string(),
        project_name: None,
        framework: Some("Express".to_string()),
    };
    let row = display.ps_row(&p, "1.5".to_string());
    let table = display.ps_table(&vec![row]);
    assert!(table.contains("CPU%") && table.contains("WHAT"));
    assert!(table.contains("node.exe") && table.contains("server.js") && table.contains("Express"));
}

#[test]
fn ascii_commands_are_cut_within_the_width() {
    let display = Display::with_width(100, false, false);
    let cut = display.format_command("node app.js one two three four five six seven eight nine", "node");
    assert!(cut.ends_with("..."));
    assert!(cut.chars().count() <= 20);
}
