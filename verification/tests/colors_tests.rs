use portly::colors::{FrameworkColor, apply_framework_color, get_framework_color};

#[test]
fn test_framework_colors_javascript() {
    assert_eq!(get_framework_color("Next.js"), FrameworkColor::Cyan);
    assert_eq!(get_framework_color("Nuxt"), FrameworkColor::Cyan);
    assert_eq!(get_framework_color("Gatsby"), FrameworkColor::Cyan);
    assert_eq!(get_framework_color("Vite"), FrameworkColor::BrightMagenta);
    assert_eq!(get_framework_color("Webpack"), FrameworkColor::BrightMagenta);
    assert_eq!(get_framework_color("Parcel"), FrameworkColor::BrightMagenta);
    assert_eq!(get_framework_color("React"), FrameworkColor::Blue);
    assert_eq!(get_framework_color("Vue"), FrameworkColor::Blue);
    assert_eq!(get_framework_color("Angular"), FrameworkColor::Blue);
    assert_eq!(get_framework_color("Node.js"), FrameworkColor::Green);
    assert_eq!(get_framework_color("Express"), FrameworkColor::Green);
}

#[test]
fn test_framework_colors_backend() {
    assert_eq!(get_framework_color("Django"), FrameworkColor::Yellow);
    assert_eq!(get_framework_color("Flask"), FrameworkColor::Yellow);
    assert_eq!(get_framework_color("FastAPI"), FrameworkColor::Yellow);
    assert_eq!(get_framework_color("Rails"), FrameworkColor::Red);
    assert_eq!(get_framework_color("Ruby"), FrameworkColor::Red);
    assert_eq!(get_framework_color("Laravel"), FrameworkColor::BrightBlue);
    assert_eq!(get_framework_color("Symfony"), FrameworkColor::BrightBlue);
    assert_eq!(get_framework_color("PHP"), FrameworkColor::BrightBlue);
    assert_eq!(get_framework_color("Spring"), FrameworkColor::Green);
    assert_eq!(get_framework_color(".NET"), FrameworkColor::BrightCyan);
}

#[test]
fn test_framework_colors_systems() {
    assert_eq!(get_framework_color("Rust"), FrameworkColor::BrightRed);
    assert_eq!(get_framework_color("Trunk"), FrameworkColor::BrightRed);
    assert_eq!(get_framework_color("Go"), FrameworkColor::Cyan);
}

#[test]
fn test_framework_colors_databases() {
    assert_eq!(get_framework_color("PostgreSQL"), FrameworkColor::Blue);
    assert_eq!(get_framework_color("MySQL"), FrameworkColor::Blue);
    assert_eq!(get_framework_color("Redis"), FrameworkColor::Green);
    assert_eq!(get_framework_color("MongoDB"), FrameworkColor::Green);
    assert_eq!(get_framework_color("nginx"), FrameworkColor::BrightGreen);
    assert_eq!(get_framework_color("RabbitMQ"), FrameworkColor::BrightGreen);
    assert_eq!(get_framework_color("Docker"), FrameworkColor::BrightBlue);
}

#[test]
fn test_framework_colors_unknown() {
    assert_eq!(get_framework_color("Unknown"), FrameworkColor::Normal);
    assert_eq!(get_framework_color("CustomFramework"), FrameworkColor::Normal);
    assert_eq!(get_framework_color(""), FrameworkColor::Normal);
}

#[test]
fn test_apply_framework_color_with_colors() {
    colored::control::set_override(true);
    let result = apply_framework_color("Next.js", true);
    assert!(result.contains("\x1b["));
    assert!(result.contains("Next.js"));
    colored::control::unset_override();
}

#[test]
fn test_apply_framework_color_without_colors() {
    let result = apply_framework_color("Next.js", false);
    assert_eq!(result, "Next.js");
    assert!(!result.contains("\x1b["));
}

#[test]
fn test_apply_framework_color_all_categories() {
    colored::control::set_override(true);
    let frameworks = vec![
        "Next.js", "Vite", "React", "Node.js", "Django", "Rails", "Laravel", "Spring", ".NET",
        "Rust", "Go", "PostgreSQL", "Redis", "nginx", "Docker", "Unknown",
    ];
    for framework in frameworks {
        let colored_result = apply_framework_color(framework, true);
        let plain_result = apply_framework_color(framework, false);
        if framework != "Unknown" {
            assert!(colored_result.contains("\x1b["), "Framework {} should have color codes", framework);
        }
        assert_eq!(plain_result, framework);
    }
    colored::control::unset_override();
}

#[test]
fn test_apply_framework_color_empty_string() {
    let result = apply_framework_color("", false);
    assert_eq!(result, "");
    let result_colored = apply_framework_color("", true);
    assert_eq!(result_colored, "");
}

#[test]
fn test_framework_color_case_sensitivity() {
    assert_eq!(get_framework_color("next.js"), FrameworkColor::Normal);
    assert_eq!(get_framework_color("NEXT.JS"), FrameworkColor::Normal);
    assert_eq!(get_framework_color("Next.js"), FrameworkColor::Cyan);
}

#[test]
fn test_framework_color_whitespace() {
    assert_eq!(get_framework_color(" Next.js"), FrameworkColor::Normal);
    assert_eq!(get_framework_color("Next.js "), FrameworkColor::Normal);
    assert_eq!(get_framework_color(" Next.js "), FrameworkColor::Normal);
}

#[test]
fn test_apply_framework_color_special_characters() {
    let frameworks = vec![".NET", "Node.js"];
    for framework in frameworks {
        let plain = apply_framework_color(framework, false);
        assert_eq!(plain, framework);
        colored::control::set_override(true);
        let colored_result = apply_framework_color(framework, true);
        assert!(colored_result.contains(framework));
        colored::control::unset_override();
    }
}

#[test]
fn test_all_framework_colors_are_valid() {
    let all_frameworks = vec![
        "Next.js", "Nuxt", "Gatsby", "Vite", "Webpack", "Parcel", "React", "Vue", "Angular",
        "Node.js", "Express", "Django", "Flask", "FastAPI", "Rails", "Ruby", "Laravel", "Symfony",
        "PHP", "Spring", ".NET", "Rust", "Trunk", "Go", "PostgreSQL", "MySQL", "Redis", "MongoDB",
        "nginx", "RabbitMQ", "Docker",
    ];
    for framework in all_frameworks {
        let color = get_framework_color(framework);
        assert!(matches!(
            color,
            FrameworkColor::Cyan
                | FrameworkColor::BrightMagenta
                | FrameworkColor::Blue
                | FrameworkColor::Green
                | FrameworkColor::Yellow
                | FrameworkColor::Red
                | FrameworkColor::BrightRed
                | FrameworkColor::BrightBlue
                | FrameworkColor::BrightCyan
                | FrameworkColor::BrightGreen
                | FrameworkColor::Normal
        ));
    }
}

#[test]
fn test_color_consistency_across_modules() {
    let frameworks = vec!["Next.js", "Django", "Rust", "PostgreSQL"];
    for framework in frameworks {
        let color1 = get_framework_color(framework);
        let color2 = get_framework_color(framework);
        assert_eq!(color1, color2, "Color should be consistent for {}", framework);
    }
}

#[test]
fn test_apply_framework_color_no_ansi_when_disabled() {
    let frameworks = vec!["Next.js", "Django", "Rust", "PostgreSQL", "Unknown"];
    for framework in frameworks {
        let result = apply_framework_color(framework, false);
        assert!(!result.contains("\x1b["), "Framework {} should not have ANSI codes when colors disabled", framework);
        assert_eq!(result, framework);
    }
}

#[test]
fn test_framework_color_enum_equality() {
    assert_eq!(FrameworkColor::Cyan, FrameworkColor::Cyan);
    assert_ne!(FrameworkColor::Cyan, FrameworkColor::Blue);
    let color1 = get_framework_color("Next.js");
    let color2 = get_framework_color("Next.js");
    assert_eq!(color1, color2);
}

#[test]
fn test_unicode_framework_names() {
    let unicode_framework = "框架";
    let result = apply_framework_color(unicode_framework, false);
    assert_eq!(result, unicode_framework);
    let result_colored = apply_framework_color(unicode_framework, true);
    assert!(result_colored.contains(unicode_framework));
}

#[test]
fn colored_framework_is_wrapped_in_its_escape_codes() {
    colored::control::set_override(true);
    assert_eq!(apply_framework_color("Next.js", true), "\x1b[36mNext.js\x1b[0m");
    assert_eq!(apply_framework_color("Vite", true), "\x1b[95mVite\x1b[0m");
    assert_eq!(apply_framework_color("Docker", true), "\x1b[94mDocker\x1b[0m");
    assert_eq!(apply_framework_color("nginx", true), "\x1b[92mnginx\x1b[0m");
    assert_eq!(apply_framework_color(".NET", true), "\x1b[96m.NET\x1b[0m");
    assert_eq!(apply_framework_color("Unknown", true), "Unknown");
    colored::control::unset_override();
}

