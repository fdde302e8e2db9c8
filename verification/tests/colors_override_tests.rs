use portly::colors::apply_framework_color;

#[test]
fn colors_off_by_override_give_plain_text() {
    colored::control::set_override(false);
    assert_eq!(apply_framework_color("Next.js", true), "Next.js");
    colored::control::unset_override();
}
