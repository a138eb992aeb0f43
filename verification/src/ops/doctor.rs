use vstd::prelude::*;
use vstd::string::*;
use crate::ops::validate::{
    all_installed, check_direnv_hook, dependencies, detect_shell, finding_dependencies,
    get_direnv_hook_line, get_shell_rc_path, hint_text, hook_configured, hook_line, look_for,
    registry, shell_name, Finding, PackageManagers,
};
use crate::text::text_view;
use crate::ui::{
    blank_line, line_views, out_line, span, span_views, toned_line, Line, LineView, Span, Tone,
};

verus! {

/// What is known of the direnv hook: whether it is configured, or why that
/// could not be found out.
pub open spec fn hook_view(hook: Result<bool, String>) -> Result<bool, Seq<char>> {
    match hook {
        Ok(b) => Ok(b),
        Err(reason) => Err(reason@),
    }
}

/// The line for one required program: a tick and its name, or a cross, its
/// name and the advice for its package.
pub open spec fn dependency_line(f: Finding, found: PackageManagers) -> LineView {
    if f.installed {
        out_line(
            seq![
                span(Tone::Plain, "  "@),
                span(Tone::Success, "\u{2713}"@),
                span(Tone::Plain, " "@ + f.dependency.name@),
            ],
        )
    } else {
        out_line(
            seq![
                span(Tone::Plain, "  "@),
                span(Tone::Failure, "\u{2717}"@),
                span(Tone::Plain, " "@ + f.dependency.name@ + " - "@),
                span(
                    Tone::Faint,
                    "install with: "@ + hint_text(f.dependency.package_name@, found),
                ),
            ],
        )
    }
}

/// The lines for the first `n` required programs.
pub open spec fn dependency_lines(findings: Seq<Finding>, found: PackageManagers, n: int) -> Seq<
    LineView,
>
    decreases n,
{
    if n <= 0 {
        Seq::empty()
    } else {
        dependency_lines(findings, found, n - 1).push(dependency_line(findings[n - 1], found))
    }
}

/// The lines on the direnv hook, for a shell that was detected.
pub open spec fn hook_lines(
    shell: Seq<char>,
    hook: Result<bool, Seq<char>>,
    rc: Option<Seq<char>>,
) -> Seq<LineView> {
    match hook {
        Ok(true) => seq![
            out_line(
                seq![
                    span(Tone::Plain, "  "@),
                    span(Tone::Success, "\u{2713}"@),
                    span(Tone::Plain, " direnv hook configured"@),
                ],
            ),
        ],
        Ok(false) => seq![
            out_line(
                seq![
                    span(Tone::Plain, "  "@),
                    span(Tone::Failure, "\u{2717}"@),
                    span(Tone::Plain, " direnv hook not found"@),
                ],
            ),
        ] + match rc {
            Some(path) => seq![
                out_line(
                    seq![
                        span(Tone::Plain, "    Add this line to "@),
                        span(Tone::Accent, path),
                        span(Tone::Plain, ":"@),
                    ],
                ),
                out_line(seq![span(Tone::Plain, "    "@), span(Tone::Notice, hook_line(shell))]),
            ],
            None => Seq::empty(),
        },
        Err(reason) => seq![
            out_line(
                seq![
                    span(Tone::Plain, "  "@),
                    span(Tone::Warning, "\u{26a0}"@),
                    span(Tone::Plain, " Could not check direnv hook: "@),
                    span(Tone::Faint, reason),
                ],
            ),
        ],
    }
}

/// The lines on the shell: its name and the state of the hook, or that it
/// is unknown.
pub open spec fn shell_lines(
    shell_var: Option<Seq<char>>,
    hook: Result<bool, Seq<char>>,
    rc: Option<Seq<char>>,
) -> Seq<LineView> {
    match shell_name(shell_var) {
        Some(shell) => seq![
            out_line(
                seq![
                    span(Tone::Plain, "  "@),
                    span(Tone::Success, "\u{2713}"@),
                    span(Tone::Plain, " Detected shell: "@ + shell),
                ],
            ),
        ] + hook_lines(shell, hook, rc),
        None => seq![
            out_line(
                seq![
                    span(Tone::Plain, "  "@),
                    span(Tone::Warning, "\u{26a0}"@),
                    span(Tone::Plain, " Could not detect shell"@),
                ],
            ),
        ],
    }
}

/// Whether the shell is in order: it is unless the shell is known and its
/// hook is known to be missing.
pub open spec fn shell_ok(shell_var: Option<Seq<char>>, hook: Result<bool, Seq<char>>) -> bool {
    !(shell_var is Some && hook == Ok::<bool, Seq<char>>(false))
}

/// Whether every check passed.
pub open spec fn report_ok(
    findings: Seq<Finding>,
    shell_var: Option<Seq<char>>,
    hook: Result<bool, Seq<char>>,
) -> bool {
    all_installed(findings) && shell_ok(shell_var, hook)
}

/// The last line of the report.
pub open spec fn verdict_line(ok: bool) -> LineView {
    if ok {
        toned_line(Tone::Success, "\u{2713} All checks passed! You're ready to use tmuxify."@)
    } else {
        toned_line(
            Tone::Failure,
            "\u{2717} Some issues found. Please address them before using tmuxify."@,
        )
    }
}

/// The whole report: the required programs, the shell, and the verdict.
pub open spec fn report_lines(
    findings: Seq<Finding>,
    found: PackageManagers,
    shell_var: Option<Seq<char>>,
    hook: Result<bool, Seq<char>>,
    rc: Option<Seq<char>>,
) -> Seq<LineView> {
    seq![
        toned_line(Tone::Title, "Running tmuxify doctor..."@),
        blank_line(),
        toned_line(Tone::Strong, "Checking dependencies:"@),
    ] + dependency_lines(findings, found, findings.len() as int) + seq![
        blank_line(),
        toned_line(Tone::Strong, "Shell configuration:"@),
    ] + shell_lines(shell_var, hook, rc) + seq![
        blank_line(),
        verdict_line(report_ok(findings, shell_var, hook)),
    ]
}

/// What the diagnosis found.
#[derive(Debug, Clone, PartialEq, Eq)]
pub struct DoctorReport {
    pub lines: Vec<Line>,
    pub all_ok: bool,
}

impl DoctorReport {
    /// The status with which the diagnosis ends: zero exactly when every
    /// check passed.
    pub fn exit_code(&self) -> (r: i32)
        ensures
            r == 0 <==> self.all_ok,
            r == 0 || r == 1,
    {
        if self.all_ok {
            0
        } else {
            1
        }
    }
}

/// A line of three pieces, the first of which is plain.
fn marked_line(lead: &str, tone: Tone, mark: &str, rest: &str) -> (r: Line)
    ensures
        r@ == out_line(seq![span(Tone::Plain, lead@), span(tone, mark@), span(Tone::Plain, rest@)]),
{
    let mut spans: Vec<Span> = Vec::new();
    spans.push(Span::new(Tone::Plain, lead));
    spans.push(Span::new(tone, mark));
    spans.push(Span::new(Tone::Plain, rest));
    proof {
        assert(span_views(spans@) =~= seq![
            span(Tone::Plain, lead@),
            span(tone, mark@),
            span(Tone::Plain, rest@),
        ]);
    }
    Line::out(spans)
}

/// A line of four pieces, the first and third of which are plain.
fn detailed_line(
    lead: &str,
    tone: Tone,
    mark: &str,
    rest: &str,
    detail_tone: Tone,
    detail: &str,
) -> (r: Line)
    ensures
        r@ == out_line(
            seq![
                span(Tone::Plain, lead@),
                span(tone, mark@),
                span(Tone::Plain, rest@),
                span(detail_tone, detail@),
            ],
        ),
{
    let mut spans: Vec<Span> = Vec::new();
    spans.push(Span::new(Tone::Plain, lead));
    spans.push(Span::new(tone, mark));
    spans.push(Span::new(Tone::Plain, rest));
    spans.push(Span::new(detail_tone, detail));
    proof {
        assert(span_views(spans@) =~= seq![
            span(Tone::Plain, lead@),
            span(tone, mark@),
            span(Tone::Plain, rest@),
            span(detail_tone, detail@),
        ]);
    }
    Line::out(spans)
}

/// The line for one required program.
fn line_for(finding: &Finding, found: &PackageManagers) -> (r: Line)
    ensures
        r@ == dependency_line(*finding, *found),
{
    if finding.installed {
        let rest = String::from_str(" ").concat(finding.dependency.name);
        marked_line("  ", Tone::Success, "\u{2713}", rest.as_str())
    } else {
        let rest = String::from_str(" ").concat(finding.dependency.name).concat(" - ");
        let advice = String::from_str("install with: ").concat(
            finding.dependency.hint_given(found).as_str(),
        );
        detailed_line("  ", Tone::Failure, "\u{2717}", rest.as_str(), Tone::Faint, advice.as_str())
    }
}

/// Appends the lines on the shell.
fn push_shell_lines(
    lines: &mut Vec<Line>,
    shell_var: Option<&str>,
    hook: &Result<bool, String>,
    rc: Option<&str>,
)
    ensures
        line_views(final(lines)@) == line_views(old(lines)@) + shell_lines(
            text_view(shell_var),
            hook_view(*hook),
            text_view(rc),
        ),
{
    let ghost before = line_views(lines@);
    match detect_shell(shell_var) {
        Some(shell) => {
            let rest = String::from_str(" Detected shell: ").concat(shell.as_str());
            lines.push(marked_line("  ", Tone::Success, "\u{2713}", rest.as_str()));
            match hook {
                Ok(true) => {
                    lines.push(
                        marked_line("  ", Tone::Success, "\u{2713}", " direnv hook configured"),
                    );
                },
                Ok(false) => {
                    lines.push(
                        marked_line("  ", Tone::Failure, "\u{2717}", " direnv hook not found"),
                    );
                    match rc {
                        Some(path) => {
                            lines.push(
                                marked_line("    Add this line to ", Tone::Accent, path, ":"),
                            );
                            let mut spans: Vec<Span> = Vec::new();
                            spans.push(Span::new(Tone::Plain, "    "));
                            spans.push(
                                Span::new(Tone::Notice, get_direnv_hook_line(shell_var).as_str()),
                            );
                            proof {
                                assert(span_views(spans@) =~= seq![
                                    span(Tone::Plain, "    "@),
                                    span(Tone::Notice, hook_line(shell@)),
                                ]);
                            }
                            lines.push(Line::out(spans));
                        },
                        None => {},
                    }
                },
                Err(reason) => {
                    lines.push(
                        detailed_line(
                            "  ",
                            Tone::Warning,
                            "\u{26a0}",
                            " Could not check direnv hook: ",
                            Tone::Faint,
                            reason.as_str(),
                        ),
                    );
                },
            }
        },
        None => {
            lines.push(marked_line("  ", Tone::Warning, "\u{26a0}", " Could not detect shell"));
        },
    }
    proof {
        assert(line_views(lines@) =~= before + shell_lines(
            text_view(shell_var),
            hook_view(*hook),
            text_view(rc),
        ));
    }
}

/// Writes the report on what was found: the required programs, each with
/// whether it is installed; the package managers, for the advice; the value
/// of the `SHELL` variable; the state of the direnv hook, or why it is
/// unknown; and the shell's startup file, if known.
pub fn report(
    findings: &Vec<Finding>,
    found: &PackageManagers,
    shell_var: Option<&str>,
    hook: &Result<bool, String>,
    rc: Option<&str>,
) -> (r: DoctorReport)
    ensures
        line_views(r.lines@) == report_lines(
            findings@,
            *found,
            text_view(shell_var),
            hook_view(*hook),
            text_view(rc),
        ),
        r.all_ok == report_ok(findings@, text_view(shell_var), hook_view(*hook)),
{
    let mut lines: Vec<Line> = Vec::new();
    lines.push(Line::toned(Tone::Title, "Running tmuxify doctor..."));
    lines.push(Line::blank());
    lines.push(Line::toned(Tone::Strong, "Checking dependencies:"));
    let ghost head = line_views(lines@);
    proof {
        assert(head =~= seq![
            toned_line(Tone::Title, "Running tmuxify doctor..."@),
            blank_line(),
            toned_line(Tone::Strong, "Checking dependencies:"@),
        ]);
    }
    let mut all_ok = true;
    let mut i: usize = 0;
    while i < findings.len()
        invariant
            i <= findings.len(),
            line_views(lines@) == head + dependency_lines(findings@, *found, i as int),
            all_ok <==> forall|k: int| 0 <= k < i ==> (#[trigger] findings@[k]).installed,
        decreases findings.len() - i,
    {
        let ghost before = line_views(lines@);
        lines.push(line_for(&findings[i], found));
        proof {
            assert(line_views(lines@) =~= before.push(
                dependency_line(findings@[i as int], *found),
            ));
            assert(line_views(lines@) =~= head + dependency_lines(findings@, *found, i + 1));
        }
        if !findings[i].installed {
            all_ok = false;
        }
        i = i + 1;
    }
    lines.push(Line::blank());
    lines.push(Line::toned(Tone::Strong, "Shell configuration:"));
    let ghost middle = line_views(lines@);
    proof {
        assert(middle =~= head + dependency_lines(findings@, *found, findings@.len() as int) + seq![
            blank_line(),
            toned_line(Tone::Strong, "Shell configuration:"@),
        ]);
    }
    push_shell_lines(&mut lines, shell_var, hook, rc);
    match (shell_var, hook) {
        (Some(_), Ok(false)) => {
            all_ok = false;
        },
        _ => {},
    }
    lines.push(Line::blank());
    if all_ok {
        lines.push(
            Line::toned(Tone::Success, "\u{2713} All checks passed! You're ready to use tmuxify."),
        );
    } else {
        lines.push(
            Line::toned(
                Tone::Failure,
                "\u{2717} Some issues found. Please address them before using tmuxify.",
            ),
        );
    }
    proof {
        assert(all_ok == report_ok(findings@, text_view(shell_var), hook_view(*hook)));
        assert(line_views(lines@) =~= report_lines(
            findings@,
            *found,
            text_view(shell_var),
            hook_view(*hook),
            text_view(rc),
        ));
    }
    DoctorReport { lines, all_ok }
}

/// Whether the hook is configured, from what reading the shell's startup
/// file gave: its content, nothing where there is no such file, or the
/// reason why it could not be read.
pub fn hook_state(shell_var: Option<&str>, rc_content: &Result<Option<String>, String>) -> (r:
    Result<bool, String>)
    ensures
        match *rc_content {
            Ok(Some(content)) => r == Ok::<bool, String>(
                hook_configured(text_view(shell_var), Some(content@)),
            ),
            Ok(None) => r == Ok::<bool, String>(false),
            Err(reason) => r == Err::<bool, String>(reason),
        },
{
    match rc_content {
        Ok(Some(content)) => Ok(check_direnv_hook(shell_var, Some(content.as_str()))),
        Ok(None) => Ok(check_direnv_hook(shell_var, None)),
        Err(reason) => Err(reason.clone()),
    }
}

/// Runs the diagnosis: looks for each required program and for the package
/// managers, and reports on them, on the shell named by the `SHELL`
/// variable and on the direnv hook, given what reading the shell's startup
/// file gave.
pub fn run(shell_var: Option<&str>, rc_content: &Result<Option<String>, String>) -> (r:
    DoctorReport)
    ensures
        exists|findings: Seq<Finding>, found: PackageManagers, rc: Option<Seq<char>>|
            finding_dependencies(findings) == registry() && #[trigger] diagnosed(
                findings,
                found,
                text_view(shell_var),
                *rc_content,
                rc,
                r,
            ),
{
    let deps = dependencies();
    let findings = look_for(&deps);
    let found = PackageManagers::detect();
    let hook = hook_state(shell_var, rc_content);
    let rc = get_shell_rc_path(shell_var);
    let rc_text = match &rc {
        Some(path) => Some(path.as_str()),
        None => None,
    };
    let r = report(&findings, &found, shell_var, &hook, rc_text);
    proof {
        let shell = text_view(shell_var);
        assert(diagnosed(findings@, found, shell, *rc_content, text_view(rc_text), r));
    }
    r
}

/// The state of the hook that follows from what reading the startup file
/// gave.
pub open spec fn hook_found(
    shell_var: Option<Seq<char>>,
    rc_content: Result<Option<String>, String>,
) -> Result<bool, Seq<char>> {
    match rc_content {
        Ok(Some(content)) => Ok(hook_configured(shell_var, Some(content@))),
        Ok(None) => Ok(false),
        Err(reason) => Err(reason@),
    }
}

/// The report is the one for these findings.
pub open spec fn diagnosed(
    findings: Seq<Finding>,
    found: PackageManagers,
    shell_var: Option<Seq<char>>,
    rc_content: Result<Option<String>, String>,
    rc: Option<Seq<char>>,
    r: DoctorReport,
) -> bool {
    &&& line_views(r.lines@) == report_lines(
        findings,
        found,
        shell_var,
        hook_found(shell_var, rc_content),
        rc,
    )
    &&& r.all_ok == report_ok(findings, shell_var, hook_found(shell_var, rc_content))
}

} // verus!
