use tmuxify::ops::doctor::{hook_state, report, run};
use tmuxify::ops::validate::{
    check_direnv_hook, dependencies, Dependency, Finding, PackageManagers,
};
use tmuxify::ui::{Line, Span, Tone};

fn found_all() -> Vec<Finding> {
    dependencies().iter().map(|d| Finding { dependency: *d, installed: true }).collect()
}

fn texts(lines: &[Line]) -> Vec<String> {
    lines.iter().map(|l| l.text()).collect()
}

#[test]
fn doctor_passes_when_all_is_in_place() {
    let rc = "eval \"$(direnv hook zsh)\"\n";
    let hook = Ok(check_direnv_hook(Some("/bin/zsh"), Some(rc)));
    let r = report(&found_all(), &PackageManagers::none(), Some("/bin/zsh"), &hook, Some("/h/.zshrc"));
    assert!(r.all_ok);
    assert_eq!(r.exit_code(), 0);
    assert_eq!(
        texts(&r.lines),
        vec![
            "Running tmuxify doctor...",
            "",
            "Checking dependencies:",
            "  \u{2713} tmux",
            "  \u{2713} tmuxp",
            "  \u{2713} direnv",
            "",
            "Shell configuration:",
            "  \u{2713} Detected shell: zsh",
            "  \u{2713} direnv hook configured",
            "",
            "\u{2713} All checks passed! You're ready to use tmuxify.",
        ]
    );
    assert!(r.lines.iter().all(|l| !l.to_stderr));
}

#[test]
fn doctor_fails_on_a_missing_program() {
    let mut findings = found_all();
    findings[1].installed = false;
    let mut found = PackageManagers::none();
    found.apt = true;
    let r = report(&findings, &found, Some("/bin/zsh"), &Ok(true), None);
    assert!(!r.all_ok);
    assert_eq!(r.exit_code(), 1);
    assert_eq!(
        r.lines[4],
        Line {
            to_stderr: false,
            spans: vec![
                Span { tone: Tone::Plain, text: "  ".to_string() },
                Span { tone: Tone::Failure, text: "\u{2717}".to_string() },
                Span { tone: Tone::Plain, text: " tmuxp - ".to_string() },
                Span {
                    tone: Tone::Faint,
                    text: "install with: sudo apt update && sudo apt install -y tmuxp".to_string(),
                },
            ],
        }
    );
    assert_eq!(
        r.lines.last().unwrap().text(),
        "\u{2717} Some issues found. Please address them before using tmuxify."
    );
}

#[test]
fn doctor_tells_how_to_add_the_hook() {
    let r = report(
        &found_all(),
        &PackageManagers::none(),
        Some("/bin/bash"),
        &Ok(false),
        Some("/home/a/.bashrc"),
    );
    assert!(!r.all_ok);
    assert_eq!(r.exit_code(), 1);
    let t = texts(&r.lines);
    assert_eq!(
        &t[8..12],
        &[
            "  \u{2713} Detected shell: bash".to_string(),
            "  \u{2717} direnv hook not found".to_string(),
            "    Add this line to /home/a/.bashrc:".to_string(),
            "    eval \"$(direnv hook bash)\"".to_string(),
        ]
    );
    assert_eq!(r.lines[10].spans[1].tone, Tone::Accent);
    assert_eq!(r.lines[11].spans[1].tone, Tone::Notice);
}

#[test]
fn doctor_without_startup_file_gives_no_advice() {
    let r = report(&found_all(), &PackageManagers::none(), Some("/bin/zsh"), &Ok(false), None);
    assert!(!r.all_ok);
    let t = texts(&r.lines);
    assert_eq!(t.len(), 12);
    assert_eq!(t[9], "  \u{2717} direnv hook not found");
    assert_eq!(t[10], "");
}

#[test]
fn doctor_does_not_fail_on_what_it_cannot_know() {
    let unreadable = Err("permission denied".to_string());
    let r = report(&found_all(), &PackageManagers::none(), Some("/bin/zsh"), &unreadable, None);
    assert!(r.all_ok);
    assert_eq!(r.exit_code(), 0);
    assert_eq!(
        texts(&r.lines)[9],
        "  \u{26a0} Could not check direnv hook: permission denied"
    );
    let shell_less = report(&found_all(), &PackageManagers::none(), None, &Ok(false), None);
    assert!(shell_less.all_ok);
    assert_eq!(texts(&shell_less.lines)[8], "  \u{26a0} Could not detect shell");
    assert_eq!(shell_less.lines.len(), 11);
}

#[test]
fn doctor_reports_on_any_list_of_programs() {
    let none: Vec<Finding> = vec![];
    let r = report(&none, &PackageManagers::none(), None, &Ok(true), None);
    assert!(r.all_ok);
    assert_eq!(r.lines.len(), 8);
    let odd = vec![Finding {
        dependency: Dependency { name: "Git", binary: "git", package_name: "git-core" },
        installed: false,
    }];
    let r = report(&odd, &PackageManagers::none(), None, &Ok(true), None);
    assert_eq!(
        texts(&r.lines)[3],
        "  \u{2717} Git - install with: Install 'git-core' using your system's package manager"
    );
}

#[test]
fn hook_state_reads_the_startup_file() {
    let rc = Ok(Some("eval \"$(direnv hook zsh)\"".to_string()));
    assert_eq!(hook_state(Some("/bin/zsh"), &rc), Ok(true));
    assert_eq!(hook_state(Some("/bin/bash"), &rc), Ok(false));
    assert_eq!(hook_state(Some("/bin/zsh"), &Ok(None)), Ok(false));
    assert_eq!(hook_state(Some("/bin/zsh"), &Err("gone".to_string())), Err("gone".to_string()));
}

#[test]
fn doctor_runs_on_this_machine() {
    let rc = Ok(Some("eval \"$(direnv hook zsh)\"".to_string()));
    let r = run(Some("/bin/zsh"), &rc);
    let all_found = dependencies().iter().all(|d| d.is_installed());
    assert_eq!(r.all_ok, all_found);
    assert_eq!(r.exit_code() == 0, all_found);
    let t = texts(&r.lines);
    assert_eq!(t.len(), 12);
    assert_eq!(t[0], "Running tmuxify doctor...");
    assert_eq!(t[8], "  \u{2713} Detected shell: zsh");
    assert_eq!(t[9], "  \u{2713} direnv hook configured");
    for (i, d) in dependencies().iter().enumerate() {
        if d.is_installed() {
            assert_eq!(t[3 + i], format!("  \u{2713} {}", d.name));
        } else {
            assert!(t[3 + i].starts_with(&format!("  \u{2717} {} - install with: ", d.name)));
        }
    }
}
