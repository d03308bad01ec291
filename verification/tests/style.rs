use labtool::output::Line;
use labtool::records::{Job, Variable};
use labtool::style::{classify_line, colorize_status, Severity, Tint};

#[test]
fn success_is_shown_green_with_its_mark() {
    let shown = colorize_status("success");
    assert_eq!(shown, "\x1b[32m✅ success\x1b[0m");
    assert!(shown.contains("✅"));
}

#[test]
fn failed_is_shown_red_with_its_mark() {
    let shown = colorize_status("failed");
    assert_eq!(shown, "\x1b[31m❌ failed\x1b[0m");
    assert!(shown.contains("❌"));
}

#[test]
fn any_other_status_is_shown_as_it_is() {
    for status in ["running", "pending", "canceled", "skipped", "manual", "", "Success", "FAILED", "success "] {
        let shown = colorize_status(status);
        assert_eq!(shown, status);
        assert!(!shown.contains("✅"));
        assert!(!shown.contains("❌"));
    }
}

#[test]
fn error_comes_before_warning() {
    assert_eq!(classify_line("ERROR: disk full"), Severity::Error);
    assert_eq!(classify_line("WARNING then ERROR"), Severity::Error);
    assert_eq!(classify_line("ERROR then WARNING"), Severity::Error);
    assert_eq!(classify_line("a WARNING"), Severity::Warning);
    assert_eq!(classify_line("all is well"), Severity::Info);
    assert_eq!(classify_line(""), Severity::Info);
    assert_eq!(classify_line("error warning"), Severity::Info);
    assert_eq!(classify_line("ERR OR WARN ING"), Severity::Info);
}

#[test]
fn each_severity_has_its_colour() {
    assert_eq!(Severity::Error.color(), Tint::Red);
    assert_eq!(Severity::Warning.color(), Tint::Yellow);
    assert_eq!(Severity::Info.color(), Tint::Green);
    assert_eq!(classify_line("ERROR WARNING").color(), Tint::Red);
    assert_eq!(classify_line("nothing").color(), Tint::Green);
}

#[test]
fn plain_lines_are_written_as_they_are() {
    assert_eq!(Line::Text("\nPipeline ID 1: running".to_string()).render(), "\nPipeline ID 1: running");
    assert_eq!(Line::Warning("Failed".to_string()).render(), "Failed");
    assert_eq!(Line::Text(String::new()).render(), "");
    assert!(Line::Warning(String::new()).is_warning());
    assert!(!Line::Text(String::new()).is_warning());
    assert!(!Line::Tinted(String::new(), Tint::Red).is_warning());
    assert!(!Line::Jobs(Vec::new()).is_warning());
}

#[test]
fn tinted_lines_are_written_in_colour_or_as_they_are() {
    colored::control::set_override(true);
    assert_eq!(Line::Tinted("an ERROR".to_string(), Tint::Red).render(), "\x1b[31man ERROR\x1b[0m");
    assert_eq!(Line::Tinted("a WARNING".to_string(), Tint::Yellow).render(), "\x1b[33ma WARNING\x1b[0m");
    assert_eq!(Line::Tinted("fine".to_string(), Tint::Green).render(), "\x1b[32mfine\x1b[0m");
    assert_eq!(Line::Tinted(String::new(), Tint::Green).render(), "\x1b[32m\x1b[0m");
    assert_eq!(
        Line::Tinted("a\x1b[0mb\x1b[0m".to_string(), Tint::Red).render(),
        "\x1b[31ma\x1b[0m\x1b[31mb\x1b[0m\x1b[31m\x1b[0m"
    );
    assert_eq!(
        Line::Tinted("\x1b[0m\x1b[0mé\x1b[0".to_string(), Tint::Yellow).render(),
        "\x1b[33m\x1b[0m\x1b[33m\x1b[0m\x1b[33mé\x1b[0\x1b[0m"
    );
    assert_eq!(
        Line::Tinted("\x1b[32mok\x1b[0m done".to_string(), Tint::Green).render(),
        "\x1b[32m\x1b[32mok\x1b[0m\x1b[32m done\x1b[0m"
    );
    colored::control::set_override(false);
    assert_eq!(Line::Tinted("a\x1b[0mb".to_string(), Tint::Red).render(), "a\x1b[0mb");
    assert_eq!(Line::Tinted("an ERROR".to_string(), Tint::Red).render(), "an ERROR");
    assert_eq!(Line::Tinted("fine".to_string(), Tint::Green).render(), "fine");
    colored::control::unset_override();
}

#[test]
fn tables_are_written_with_every_cell() {
    let jobs = vec![Job {
        id: Some(5),
        name: Some("build".to_string()),
        stage: Some("compile".to_string()),
        status: None,
        reference: None,
        duration: None,
        created_at: None,
        finished_at: None,
        web_url: None,
    }];
    let written = Line::Jobs(jobs).render();
    for part in ["Job ID", "Name", "Stage", "Status", "Ref", "Duration", "Created At", "Finished At", "Web URL", "5", "build", "compile", "┌", "╞", "┘"] {
        assert!(written.contains(part));
    }
    let variables = vec![Variable { key: Some("TOKEN".to_string()), value: Some("abc".to_string()) }];
    let written = Line::Variables(variables).render();
    for part in ["Key", "Value", "TOKEN", "abc", "┌", "╞", "┘"] {
        assert!(written.contains(part));
    }
}
