use vstd::prelude::*;
use vstd::string::*;
use crate::error::{missing_views, MissingDependency, TmuxifyError};
use crate::model::config::home_dir;
use crate::paths::{join, joined};
use crate::text::{
    contains, contains_text, last_segment, last_segment_of, same_text, text_view, trim, trimmed,
};

verus! {

/// A program that must be installed.
#[derive(Debug, Clone, Copy)]
pub struct Dependency {
    /// The name shown to the user.
    pub name: &'static str,
    /// The name of the executable.
    pub binary: &'static str,
    /// The name of the package that provides it.
    pub package_name: &'static str,
}

/// A required program as a value.
pub struct DependencyView {
    pub name: Seq<char>,
    pub binary: Seq<char>,
    pub package_name: Seq<char>,
}

impl View for Dependency {
    type V = DependencyView;

    open spec fn view(&self) -> DependencyView {
        DependencyView {
            name: self.name@,
            binary: self.binary@,
            package_name: self.package_name@,
        }
    }
}

/// A program that is shown, looked up and installed under one name.
pub open spec fn plain_dependency(name: Seq<char>) -> DependencyView {
    DependencyView { name, binary: name, package_name: name }
}

/// The required programs, in the order in which they are checked.
pub open spec fn registry() -> Seq<DependencyView> {
    seq![plain_dependency("tmux"@), plain_dependency("tmuxp"@), plain_dependency("direnv"@)]
}

/// The dependencies of a list, each as a value.
pub open spec fn dependency_views(deps: Seq<Dependency>) -> Seq<DependencyView> {
    deps.map_values(|d: Dependency| d@)
}

/// Which package managers are installed.
#[derive(Debug, Clone, Copy, PartialEq, Eq, Structural)]
pub struct PackageManagers {
    pub brew: bool,
    pub apt_get: bool,
    pub apt: bool,
    pub dnf: bool,
    pub pacman: bool,
    pub zypper: bool,
}

/// A package manager that the advice knows.
#[derive(Debug, Clone, Copy, PartialEq, Eq, Structural)]
pub enum PackageManager {
    Brew,
    AptGet,
    Apt,
    Dnf,
    Pacman,
    Zypper,
}

/// The package managers in the order in which they are looked for.
pub open spec fn manager_order() -> Seq<PackageManager> {
    seq![
        PackageManager::Brew,
        PackageManager::AptGet,
        PackageManager::Apt,
        PackageManager::Dnf,
        PackageManager::Pacman,
        PackageManager::Zypper,
    ]
}

/// The name of a package manager's executable.
pub open spec fn manager_binary(manager: PackageManager) -> Seq<char> {
    match manager {
        PackageManager::Brew => "brew"@,
        PackageManager::AptGet => "apt-get"@,
        PackageManager::Apt => "apt"@,
        PackageManager::Dnf => "dnf"@,
        PackageManager::Pacman => "pacman"@,
        PackageManager::Zypper => "zypper"@,
    }
}

/// No package manager at all.
pub open spec fn no_managers() -> PackageManagers {
    PackageManagers {
        brew: false,
        apt_get: false,
        apt: false,
        dnf: false,
        pacman: false,
        zypper: false,
    }
}

/// The one package manager, and no other.
pub open spec fn only(manager: PackageManager) -> PackageManagers {
    match manager {
        PackageManager::Brew => PackageManagers { brew: true, ..no_managers() },
        PackageManager::AptGet => PackageManagers { apt_get: true, ..no_managers() },
        PackageManager::Apt => PackageManagers { apt: true, ..no_managers() },
        PackageManager::Dnf => PackageManagers { dnf: true, ..no_managers() },
        PackageManager::Pacman => PackageManagers { pacman: true, ..no_managers() },
        PackageManager::Zypper => PackageManagers { zypper: true, ..no_managers() },
    }
}

/// The first of the package managers that are reported, in their order.
pub open spec fn first_reported(found: PackageManagers) -> Option<PackageManager> {
    if found.brew {
        Some(PackageManager::Brew)
    } else if found.apt_get {
        Some(PackageManager::AptGet)
    } else if found.apt {
        Some(PackageManager::Apt)
    } else if found.dnf {
        Some(PackageManager::Dnf)
    } else if found.pacman {
        Some(PackageManager::Pacman)
    } else if found.zypper {
        Some(PackageManager::Zypper)
    } else {
        None
    }
}

/// How to install a package: the command of the first package manager that
/// is installed, in the order brew, apt-get, apt, dnf, pacman, zypper, and
/// a general advice where none is.
pub open spec fn hint_text(package: Seq<char>, found: PackageManagers) -> Seq<char> {
    if found.brew {
        "brew install "@ + package
    } else if found.apt_get {
        "sudo apt-get update && sudo apt-get install -y "@ + package
    } else if found.apt {
        "sudo apt update && sudo apt install -y "@ + package
    } else if found.dnf {
        "sudo dnf install -y "@ + package
    } else if found.pacman {
        "sudo pacman -S --noconfirm "@ + package
    } else if found.zypper {
        "sudo zypper install -y "@ + package
    } else {
        "Install '"@ + package + "' using your system's package manager"@
    }
}

/// What is reported once only the first package manager counts: the first
/// that was reported, in the order in which they are looked for, and no
/// other.
pub open spec fn first_of(found: PackageManagers) -> PackageManagers {
    match first_reported(found) {
        Some(manager) => only(manager),
        None => no_managers(),
    }
}

/// What is reported once it is known whether the one package manager is
/// installed.
pub open spec fn with_report(
    found: PackageManagers,
    manager: PackageManager,
    present: bool,
) -> PackageManagers {
    match manager {
        PackageManager::Brew => PackageManagers { brew: present, ..found },
        PackageManager::AptGet => PackageManagers { apt_get: present, ..found },
        PackageManager::Apt => PackageManagers { apt: present, ..found },
        PackageManager::Dnf => PackageManagers { dnf: present, ..found },
        PackageManager::Pacman => PackageManagers { pacman: present, ..found },
        PackageManager::Zypper => PackageManagers { zypper: present, ..found },
    }
}

/// A required program together with whether it was found.
#[derive(Debug, Clone, Copy)]
pub struct Finding {
    pub dependency: Dependency,
    pub installed: bool,
}

/// Whether every program of the list was found.
pub open spec fn all_installed(findings: Seq<Finding>) -> bool {
    forall|i: int| 0 <= i < findings.len() ==> (#[trigger] findings[i]).installed
}

/// The programs among the first `n` that were not found, in order, each
/// with its name and the advice for its package.
pub open spec fn missing_among(findings: Seq<Finding>, found: PackageManagers, n: int) -> Seq<
    (Seq<char>, Seq<char>),
>
    decreases n,
{
    if n <= 0 {
        Seq::empty()
    } else if findings[n - 1].installed {
        missing_among(findings, found, n - 1)
    } else {
        missing_among(findings, found, n - 1).push(
            (
                findings[n - 1].dependency.name@,
                hint_text(findings[n - 1].dependency.package_name@, found),
            ),
        )
    }
}

/// What is owed for a list of findings: success exactly when every program
/// was found, and otherwise an error that lists the missing ones in order,
/// each with the advice for its package.
pub open spec fn judged(
    findings: Seq<Finding>,
    found: PackageManagers,
    r: Result<(), TmuxifyError>,
) -> bool {
    &&& r is Ok <==> all_installed(findings)
    &&& r is Err ==> {
        &&& r->Err_0 is MissingDependencies
        &&& r->Err_0->MissingDependencies_0@.len() > 0
        &&& missing_views(r->Err_0->MissingDependencies_0@) == missing_among(
            findings,
            found,
            findings.len() as int,
        )
    }
}

/// The programs of a list of findings, each as a value.
pub open spec fn finding_dependencies(findings: Seq<Finding>) -> Seq<DependencyView> {
    findings.map_values(|f: Finding| f.dependency@)
}

/// The shell that is assumed where none is known.
pub open spec fn default_shell() -> Seq<char> {
    "zsh"@
}

/// The name of the shell: what follows the last `/` of the `SHELL`
/// variable, if that is set.
pub open spec fn shell_name(shell_var: Option<Seq<char>>) -> Option<Seq<char>> {
    match shell_var {
        Some(path) => Some(last_segment(path)),
        None => None,
    }
}

/// The shell that the hook is written for.
pub open spec fn effective_shell(shell_var: Option<Seq<char>>) -> Seq<char> {
    match shell_name(shell_var) {
        Some(name) => name,
        None => default_shell(),
    }
}

/// The text that shows the direnv hook in a shell's startup file.
pub open spec fn hook_pattern(shell: Seq<char>) -> Seq<char> {
    "direnv hook "@ + shell
}

/// The line that installs the direnv hook of a shell.
pub open spec fn hook_line(shell: Seq<char>) -> Seq<char> {
    "eval \"$(direnv hook "@ + shell + ")\""@
}

/// The shell's startup file, in which the hook is looked for and to which
/// it is added: that of zsh for every shell but bash.
pub open spec fn rc_file(shell: Seq<char>) -> Seq<char> {
    if shell == "bash"@ {
        ".bashrc"@
    } else {
        ".zshrc"@
    }
}

/// Whether the hook is configured: the shell's startup file exists and
/// holds the hook's text for that shell.
pub open spec fn hook_configured(
    shell_var: Option<Seq<char>>,
    rc_content: Option<Seq<char>>,
) -> bool {
    rc_content is Some && contains_text(rc_content->0, hook_pattern(effective_shell(shell_var)))
}

/// The path of the shell's startup file.
pub open spec fn rc_path(shell_var: Option<Seq<char>>, home: Option<Seq<char>>) -> Option<
    Seq<char>,
> {
    match home {
        Some(h) => Some(joined(h, rc_file(effective_shell(shell_var)))),
        None => None,
    }
}

/// What a program that was run left behind.
#[derive(Debug, Clone, PartialEq, Eq)]
pub struct ProcessOutput {
    /// Whether it ended with status zero.
    pub success: bool,
    pub stdout: String,
    pub stderr: String,
}

/// The name of the running tmux session: what tmux printed, trimmed, if
/// this process is inside tmux and tmux ran and ended well.
pub open spec fn session_shown(inside: bool, output: Option<&ProcessOutput>) -> Option<
    Seq<char>,
> {
    match output {
        Some(o) => if inside && o.success {
            Some(trimmed(o.stdout@))
        } else {
            None
        },
        None => None,
    }
}

/// `which::which`: whether an executable of that name is found. Nothing
/// is claimed of the answer: it depends on the search path and on the disk.
#[verifier::external_body]
pub(crate) fn on_path(binary: &str) -> (r: bool)
{
    which::which(binary).is_ok()
}

impl PackageManager {
    /// The package managers in the order in which they are looked for.
    pub fn all() -> (r: Vec<PackageManager>)
        ensures
            r@ == manager_order(),
    {
        let mut r: Vec<PackageManager> = Vec::new();
        r.push(PackageManager::Brew);
        r.push(PackageManager::AptGet);
        r.push(PackageManager::Apt);
        r.push(PackageManager::Dnf);
        r.push(PackageManager::Pacman);
        r.push(PackageManager::Zypper);
        proof {
            assert(r@ =~= manager_order());
        }
        r
    }

    /// The name of this package manager's executable.
    pub fn binary(&self) -> (r: &'static str)
        ensures
            r@ == manager_binary(*self),
    {
        match self {
            PackageManager::Brew => "brew",
            PackageManager::AptGet => "apt-get",
            PackageManager::Apt => "apt",
            PackageManager::Dnf => "dnf",
            PackageManager::Pacman => "pacman",
            PackageManager::Zypper => "zypper",
        }
    }
}

impl PackageManagers {
    /// No package manager at all.
    pub fn none() -> (r: PackageManagers)
        ensures
            r == no_managers(),
    {
        PackageManagers {
            brew: false,
            apt_get: false,
            apt: false,
            dnf: false,
            pacman: false,
            zypper: false,
        }
    }

    /// The one package manager, and no other.
    pub fn only(manager: PackageManager) -> (r: PackageManagers)
        ensures
            r == only(manager),
            first_reported(r) == Some(manager),
    {
        let mut found = PackageManagers::none();
        match manager {
            PackageManager::Brew => {
                found.brew = true;
            },
            PackageManager::AptGet => {
                found.apt_get = true;
            },
            PackageManager::Apt => {
                found.apt = true;
            },
            PackageManager::Dnf => {
                found.dnf = true;
            },
            PackageManager::Pacman => {
                found.pacman = true;
            },
            PackageManager::Zypper => {
                found.zypper = true;
            },
        }
        found
    }

    /// This report, with the one package manager installed or not.
    pub fn reporting(self, manager: PackageManager, present: bool) -> (r: PackageManagers)
        ensures
            r == with_report(self, manager, present),
    {
        let mut found = self;
        match manager {
            PackageManager::Brew => {
                found.brew = present;
            },
            PackageManager::AptGet => {
                found.apt_get = present;
            },
            PackageManager::Apt => {
                found.apt = present;
            },
            PackageManager::Dnf => {
                found.dnf = present;
            },
            PackageManager::Pacman => {
                found.pacman = present;
            },
            PackageManager::Zypper => {
                found.zypper = present;
            },
        }
        found
    }

    /// Of the package managers that were found, the first in the order in
    /// which they are looked for, and no other; none where none was found.
    pub fn first_found(found: &PackageManagers) -> (r: PackageManagers)
        ensures
            r == (match first_reported(*found) {
                Some(manager) => only(manager),
                None => no_managers(),
            }),
    {
        if found.brew {
            PackageManagers::only(PackageManager::Brew)
        } else if found.apt_get {
            PackageManagers::only(PackageManager::AptGet)
        } else if found.apt {
            PackageManagers::only(PackageManager::Apt)
        } else if found.dnf {
            PackageManagers::only(PackageManager::Dnf)
        } else if found.pacman {
            PackageManagers::only(PackageManager::Pacman)
        } else if found.zypper {
            PackageManagers::only(PackageManager::Zypper)
        } else {
            PackageManagers::none()
        }
    }

    /// Looks on the search path for the executable of each package manager
    /// of `PackageManager::all`, and reports the first of those that were
    /// found, as `first_found` says.
    pub fn detect() -> (r: PackageManagers)
        ensures
            exists|probe: PackageManagers| r == #[trigger] first_of(probe),
    {
        let order = PackageManager::all();
        let mut found = PackageManagers::none();
        let mut i: usize = 0;
        while i < order.len()
            invariant
                i <= order.len(),
            decreases order.len() - i,
        {
            let present = on_path(order[i].binary());
            found = found.reporting(order[i], present);
            i = i + 1;
        }
        let r = PackageManagers::first_found(&found);
        proof {
            assert(r == first_of(found));
        }
        r
    }
}

/// The advice goes by the first package manager that is reported: what is
/// reported besides it changes nothing.
pub proof fn lemma_first_suffices(package: Seq<char>, found: PackageManagers)
    ensures
        hint_text(package, found) == (match first_reported(found) {
            Some(manager) => hint_text(package, only(manager)),
            None => hint_text(package, no_managers()),
        }),
{
}

/// With brew installed the advice is brew's, whatever else is installed;
/// with dnf alone it is dnf's; with no package manager it is the general
/// advice.
pub proof fn lemma_hint_precedence(package: Seq<char>, found: PackageManagers)
    ensures
        found.brew ==> hint_text(package, found) == "brew install "@ + package,
        !found.brew && !found.apt_get && !found.apt && found.dnf ==> hint_text(package, found)
            == "sudo dnf install -y "@ + package,
        found == no_managers() ==> hint_text(package, found) == "Install '"@ + package
            + "' using your system's package manager"@,
{
}

impl Dependency {
    /// Whether the program is installed, as far as the search path shows.
    pub fn is_installed(&self) -> (r: bool)
    {
        on_path(self.binary)
    }

    /// How to install this program, given the package managers that are
    /// installed.
    pub fn hint_given(&self, found: &PackageManagers) -> (r: String)
        ensures
            r@ == hint_text(self@.package_name, *found),
    {
        if found.brew {
            String::from_str("brew install ").concat(self.package_name)
        } else if found.apt_get {
            String::from_str("sudo apt-get update && sudo apt-get install -y ").concat(
                self.package_name,
            )
        } else if found.apt {
            String::from_str("sudo apt update && sudo apt install -y ").concat(self.package_name)
        } else if found.dnf {
            String::from_str("sudo dnf install -y ").concat(self.package_name)
        } else if found.pacman {
            String::from_str("sudo pacman -S --noconfirm ").concat(self.package_name)
        } else if found.zypper {
            String::from_str("sudo zypper install -y ").concat(self.package_name)
        } else {
            String::from_str("Install '").concat(self.package_name).concat(
                "' using your system's package manager",
            )
        }
    }

    /// How to install this program with the first package manager that is
    /// found on this machine.
    pub fn install_hint(&self) -> (r: String)
        ensures
            exists|found: PackageManagers| r@ == #[trigger] hint_text(self@.package_name, found),
    {
        let found = PackageManagers::detect();
        self.hint_given(&found)
    }
}

/// The required programs.
pub fn dependencies() -> (r: Vec<Dependency>)
    ensures
        dependency_views(r@) == registry(),
{
    let mut r: Vec<Dependency> = Vec::new();
    r.push(Dependency { name: "tmux", binary: "tmux", package_name: "tmux" });
    r.push(Dependency { name: "tmuxp", binary: "tmuxp", package_name: "tmuxp" });
    r.push(Dependency { name: "direnv", binary: "direnv", package_name: "direnv" });
    proof {
        assert(dependency_views(r@) =~= registry());
    }
    r
}

/// Judges what was found: all is well exactly when every program is
/// installed; otherwise the error lists the missing ones in order, each
/// with the advice for its package.
pub fn check_findings(findings: &Vec<Finding>, found: &PackageManagers) -> (r: Result<
    (),
    TmuxifyError,
>)
    ensures
        judged(findings@, *found, r),
{
    let mut missing: Vec<MissingDependency> = Vec::new();
    let mut i: usize = 0;
    while i < findings.len()
        invariant
            i <= findings.len(),
            missing_views(missing@) == missing_among(findings@, *found, i as int),
            missing@.len() == 0 <==> forall|k: int|
                0 <= k < i ==> (#[trigger] findings@[k]).installed,
        decreases findings.len() - i,
    {
        let finding = &findings[i];
        if !finding.installed {
            let ghost before = missing@;
            let item = MissingDependency {
                name: String::from_str(finding.dependency.name),
                hint: finding.dependency.hint_given(found),
            };
            missing.push(item);
            proof {
                assert(missing_views(missing@) =~= missing_views(before).push(
                    (item.name@, item.hint@),
                ));
            }
        }
        i = i + 1;
    }
    if missing.len() == 0 {
        Ok(())
    } else {
        Err(TmuxifyError::MissingDependencies(missing))
    }
}

/// Looks for each program of the list on the search path: one finding for
/// each, in the order of the list.
pub fn look_for(deps: &Vec<Dependency>) -> (r: Vec<Finding>)
    ensures
        r@.len() == deps@.len(),
        forall|k: int| 0 <= k < r@.len() ==> (#[trigger] r@[k]).dependency == deps@[k],
        finding_dependencies(r@) == dependency_views(deps@),
{
    let mut findings: Vec<Finding> = Vec::new();
    let mut i: usize = 0;
    while i < deps.len()
        invariant
            i <= deps.len(),
            findings@.len() == i,
            forall|k: int| 0 <= k < i ==> (#[trigger] findings@[k]).dependency == deps@[k],
        decreases deps.len() - i,
    {
        let installed = deps[i].is_installed();
        findings.push(Finding { dependency: deps[i], installed });
        i = i + 1;
    }
    proof {
        assert(finding_dependencies(findings@) =~= dependency_views(deps@));
    }
    findings
}

/// Whether every program of the list was found.
pub fn all_found(findings: &Vec<Finding>) -> (r: bool)
    ensures
        r == all_installed(findings@),
{
    let mut i: usize = 0;
    while i < findings.len()
        invariant
            i <= findings.len(),
            forall|k: int| 0 <= k < i ==> (#[trigger] findings@[k]).installed,
        decreases findings.len() - i,
    {
        if !findings[i].installed {
            return false;
        }
        i = i + 1;
    }
    true
}

/// Looks for every required program on the search path. Succeeds exactly
/// when each of them was found there; otherwise the error lists the missing
/// ones with the advice for this machine.
pub fn check_dependencies() -> (r: Result<(), TmuxifyError>)
    ensures
        exists|findings: Seq<Finding>, found: PackageManagers|
            finding_dependencies(findings) == registry() && #[trigger] judged(findings, found, r),
{
    let deps = dependencies();
    let findings = look_for(&deps);
    let complete = all_found(&findings);
    let found = if complete {
        PackageManagers::none()
    } else {
        PackageManagers::detect()
    };
    let r = check_findings(&findings, &found);
    proof {
        assert(judged(findings@, found, r));
    }
    r
}

/// The name of the shell in use, from the value of the `SHELL` variable.
pub fn detect_shell(shell_var: Option<&str>) -> (r: Option<String>)
    ensures
        r is Some <==> shell_var is Some,
        r is Some ==> Some(r->0@) == shell_name(text_view(shell_var)),
{
    match shell_var {
        Some(path) => Some(last_segment_of(path)),
        None => None,
    }
}

/// The shell that the hook is written for: the one in use, or zsh.
pub fn shell_in_use(shell_var: Option<&str>) -> (r: String)
    ensures
        r@ == effective_shell(text_view(shell_var)),
{
    match detect_shell(shell_var) {
        Some(name) => name,
        None => String::from_str("zsh"),
    }
}

/// Whether the direnv hook is configured, given what the shell's startup
/// file holds, if it exists.
pub fn check_direnv_hook(shell_var: Option<&str>, rc_content: Option<&str>) -> (r: bool)
    ensures
        r == hook_configured(text_view(shell_var), text_view(rc_content)),
{
    let shell = shell_in_use(shell_var);
    match rc_content {
        Some(content) => {
            let pattern = String::from_str("direnv hook ").concat(shell.as_str());
            contains(content, pattern.as_str())
        },
        None => false,
    }
}

/// The line that installs the direnv hook of the shell in use.
pub fn get_direnv_hook_line(shell_var: Option<&str>) -> (r: String)
    ensures
        r@ == hook_line(effective_shell(text_view(shell_var))),
{
    let shell = shell_in_use(shell_var);
    String::from_str("eval \"$(direnv hook ").concat(shell.as_str()).concat(")\"")
}

/// The shell's startup file under the given home directory.
pub fn shell_rc_path_under(shell_var: Option<&str>, home: Option<&str>) -> (r: Option<String>)
    ensures
        r is Some <==> home is Some,
        r is Some ==> Some(r->0@) == rc_path(text_view(shell_var), text_view(home)),
{
    match home {
        Some(h) => {
            let shell = shell_in_use(shell_var);
            if same_text(shell.as_str(), "bash") {
                Some(join(h, ".bashrc"))
            } else {
                Some(join(h, ".zshrc"))
            }
        },
        None => None,
    }
}

/// The shell's startup file under the home directory that the system
/// reports; none where it reports none.
pub fn get_shell_rc_path(shell_var: Option<&str>) -> (r: Option<String>)
    ensures
        r is Some ==> exists|home: Seq<char>|
            Some(r->0@) == #[trigger] rc_path(text_view(shell_var), Some(home)),
{
    let home = home_dir();
    match &home {
        Some(h) => {
            let r = shell_rc_path_under(shell_var, Some(h.as_str()));
            proof {
                assert(Some(r->0@) == rc_path(text_view(shell_var), Some(h@)));
            }
            r
        },
        None => None,
    }
}

/// Whether this process runs inside tmux: the `TMUX` variable is set.
pub fn is_inside_tmux(tmux_var: Option<&str>) -> (r: bool)
    ensures
        r == (tmux_var is Some),
{
    tmux_var.is_some()
}

/// The command that asks tmux for the name of the running session: the
/// program, then its arguments.
pub fn tmux_session_command() -> (r: Vec<String>)
    ensures
        r.deep_view() == seq!["tmux"@, "display-message"@, "-p"@, "#S"@],
{
    let mut r: Vec<String> = Vec::new();
    r.push(String::from_str("tmux"));
    r.push(String::from_str("display-message"));
    r.push(String::from_str("-p"));
    r.push(String::from_str("#S"));
    proof {
        assert(r.deep_view() =~= seq!["tmux"@, "display-message"@, "-p"@, "#S"@]);
    }
    r
}

/// The name of the running tmux session, given what the command of
/// `tmux_session_command` left behind, if it could be run.
pub fn get_current_tmux_session(tmux_var: Option<&str>, output: Option<&ProcessOutput>) -> (r:
    Option<String>)
    ensures
        match session_shown(tmux_var is Some, output) {
            Some(name) => r is Some && r->0@ == name,
            None => r is None,
        },
{
    if !is_inside_tmux(tmux_var) {
        return None;
    }
    match output {
        Some(o) => {
            if o.success {
                Some(trim(o.stdout.as_str()))
            } else {
                None
            }
        },
        None => None,
    }
}

} // verus!
