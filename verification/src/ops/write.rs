use vstd::prelude::*;
use vstd::string::*;
use crate::error::TmuxifyError;
use crate::model::config::{config_node, envrc_text, file_path, Config, ConfigView, TmuxpLocation};
use crate::ops::validate::ProcessOutput;
use crate::paths::{
    backup_of, backup_path, bare, base_name, has_file_name, join, joined,
    lemma_backup_is_sibling, lemma_tail_kept, names_file, parent, parent_of,
};
use crate::text::last_segment;
use crate::yaml::yaml_written;

verus! {

/// How the files are written.
#[derive(Debug, Clone, Copy, PartialEq, Eq, Structural)]
pub struct WriteOptions {
    /// Show what would be written, and touch nothing.
    pub dry_run: bool,
    /// Overwrite existing files without keeping a copy.
    pub force: bool,
}

/// What was written, and whether copies of earlier files were kept.
#[derive(Debug, Clone, PartialEq, Eq)]
pub struct WriteResult {
    pub tmuxp_path: String,
    pub envrc_path: String,
    pub tmuxp_backed_up: bool,
    pub envrc_backed_up: bool,
}

/// The result of a write as a value.
pub struct WriteResultView {
    pub tmuxp_path: Seq<char>,
    pub envrc_path: Seq<char>,
    pub tmuxp_backed_up: bool,
    pub envrc_backed_up: bool,
}

impl View for WriteResult {
    type V = WriteResultView;

    open spec fn view(&self) -> WriteResultView {
        WriteResultView {
            tmuxp_path: self.tmuxp_path@,
            envrc_path: self.envrc_path@,
            tmuxp_backed_up: self.tmuxp_backed_up,
            envrc_backed_up: self.envrc_backed_up,
        }
    }
}

/// The two files of a session: where they go and what they hold.
#[derive(Debug, Clone, PartialEq, Eq)]
pub struct Rendered {
    pub tmuxp_path: String,
    pub envrc_path: String,
    pub tmuxp_content: String,
    pub envrc_content: String,
}

/// The two files of a session as a value.
pub struct RenderedView {
    pub tmuxp_path: Seq<char>,
    pub envrc_path: Seq<char>,
    pub tmuxp_content: Seq<char>,
    pub envrc_content: Seq<char>,
}

impl View for Rendered {
    type V = RenderedView;

    open spec fn view(&self) -> RenderedView {
        RenderedView {
            tmuxp_path: self.tmuxp_path@,
            envrc_path: self.envrc_path@,
            tmuxp_content: self.tmuxp_content@,
            envrc_content: self.envrc_content@,
        }
    }
}

/// One step of a write, to be carried out in the order given.
#[derive(Debug, Clone, PartialEq, Eq)]
pub enum WriteAction {
    /// Show the text to the user.
    Print(String),
    /// Create the directory and the directories above it, as far as they
    /// are missing.
    CreateDir(String),
    /// Copy a file; a failure ends the write.
    Copy { from: String, to: String },
    /// Write the content to the file, replacing what it held.
    Write { path: String, content: String },
}

/// A step of a write as a value.
pub enum WriteActionView {
    Print(Seq<char>),
    CreateDir(Seq<char>),
    Copy { from: Seq<char>, to: Seq<char> },
    Write { path: Seq<char>, content: Seq<char> },
}

impl View for WriteAction {
    type V = WriteActionView;

    open spec fn view(&self) -> WriteActionView {
        match self {
            WriteAction::Print(text) => WriteActionView::Print(text@),
            WriteAction::CreateDir(dir) => WriteActionView::CreateDir(dir@),
            WriteAction::Copy { from, to } => WriteActionView::Copy { from: from@, to: to@ },
            WriteAction::Write { path, content } => WriteActionView::Write {
                path: path@,
                content: content@,
            },
        }
    }
}

/// The steps of a list, each as a value.
pub open spec fn action_views(actions: Seq<WriteAction>) -> Seq<WriteActionView> {
    actions.map_values(|a: WriteAction| a@)
}

/// A write that has been decided and not yet carried out.
#[derive(Debug, Clone, PartialEq, Eq)]
pub struct WritePlan {
    pub result: WriteResult,
    pub actions: Vec<WriteAction>,
}

/// Whether a copy of the target is kept: it exists and may not simply be
/// overwritten.
pub open spec fn keeps_backup(present: bool, force: bool) -> bool {
    present && !force
}

/// The steps that keep a copy of a target: one copy to its sibling, or
/// nothing.
pub open spec fn backup_actions(
    path: Seq<char>,
    present: bool,
    force: bool,
    stamp: Seq<char>,
) -> Seq<WriteActionView> {
    if keeps_backup(present, force) {
        seq![WriteActionView::Copy { from: path, to: backup_of(path, stamp) }]
    } else {
        Seq::empty()
    }
}

/// What a dry run shows for one file.
pub open spec fn preview_text(path: Seq<char>, content: Seq<char>) -> Seq<char> {
    "\n[DRY RUN] Would write to: "@ + path + "\n---\n"@ + content + "\n---\n"@
}

/// The steps of a write. A dry run only shows the two files. Otherwise the
/// directory of the session description is created, copies of existing
/// targets are kept, and the two files are written.
pub open spec fn planned_actions(
    files: RenderedView,
    options: WriteOptions,
    tmuxp_exists: bool,
    envrc_exists: bool,
    tmuxp_stamp: Seq<char>,
    envrc_stamp: Seq<char>,
) -> Seq<WriteActionView> {
    if options.dry_run {
        seq![
            WriteActionView::Print(preview_text(files.tmuxp_path, files.tmuxp_content)),
            WriteActionView::Print(preview_text(files.envrc_path, files.envrc_content)),
        ]
    } else {
        seq![WriteActionView::CreateDir(parent_of(files.tmuxp_path))] + backup_actions(
            files.tmuxp_path,
            tmuxp_exists,
            options.force,
            tmuxp_stamp,
        ) + backup_actions(files.envrc_path, envrc_exists, options.force, envrc_stamp) + seq![
            WriteActionView::Write { path: files.tmuxp_path, content: files.tmuxp_content },
            WriteActionView::Write { path: files.envrc_path, content: files.envrc_content },
        ]
    }
}

/// The result of a write: the two paths, and for each whether a copy is
/// kept, which a dry run never does.
pub open spec fn planned_result(
    files: RenderedView,
    options: WriteOptions,
    tmuxp_exists: bool,
    envrc_exists: bool,
) -> WriteResultView {
    WriteResultView {
        tmuxp_path: files.tmuxp_path,
        envrc_path: files.envrc_path,
        tmuxp_backed_up: !options.dry_run && keeps_backup(tmuxp_exists, options.force),
        envrc_backed_up: !options.dry_run && keeps_backup(envrc_exists, options.force),
    }
}

/// Whether a write cannot be planned: a copy is to be kept of a target
/// that has no file name.
pub open spec fn unnamed_backup(
    files: RenderedView,
    options: WriteOptions,
    tmuxp_exists: bool,
    envrc_exists: bool,
) -> bool {
    !options.dry_run && ((keeps_backup(tmuxp_exists, options.force) && !has_file_name(
        files.tmuxp_path,
    )) || (keeps_backup(envrc_exists, options.force) && !has_file_name(files.envrc_path)))
}

/// What the summary says of one file: its path, and that a copy was kept
/// where one was.
pub open spec fn summary_entry(path: Seq<char>, backed_up: bool) -> Seq<char> {
    if backed_up {
        "  "@ + path + " (backed up existing file)"@
    } else {
        "  "@ + path
    }
}

/// The line of the summary for one file.
pub open spec fn summary_line(path: Seq<char>, backed_up: bool) -> Seq<char> {
    summary_entry(path, backed_up) + "\n"@
}

/// The summary of a write.
pub open spec fn summary_text(r: WriteResultView) -> Seq<char> {
    "\nFiles generated:\n"@ + summary_line(r.tmuxp_path, r.tmuxp_backed_up) + summary_line(
        r.envrc_path,
        r.envrc_backed_up,
    )
}

/// The two files of a session, given the home directory as far as it is
/// known: none where the session description would lie in an unknown home
/// directory, and none where the YAML writer fails on the session.
pub open spec fn rendered_files(
    c: ConfigView,
    location: TmuxpLocation,
    project_dir: Seq<char>,
    home: Option<Seq<char>>,
) -> Option<RenderedView> {
    match (
        file_path(c.session_name, location, Some(project_dir), home),
        yaml_written(config_node(c)),
    ) {
        (Some(path), Some(text)) => Some(
            RenderedView {
                tmuxp_path: path,
                envrc_path: joined(project_dir, ".envrc"@),
                tmuxp_content: text,
                envrc_content: envrc_text(c.session_name, location),
            },
        ),
        _ => None,
    }
}

/// What a time stamp is made of: digits, `_`, and the sign of a year
/// outside the usual range.
pub open spec fn is_stamp_char(c: char) -> bool {
    ('0' <= c && c <= '9') || c == '_' || c == '+' || c == '-'
}

/// Every character is one that a time stamp is made of.
pub open spec fn stamp_like(s: Seq<char>) -> bool {
    forall|i: int| 0 <= i < s.len() ==> is_stamp_char(#[trigger] s[i])
}

/// Whether a character is a digit.
pub open spec fn is_digit(c: char) -> bool {
    '0' <= c && c <= '9'
}

/// The shape of every time stamp: the year, then month and day in two
/// digits each, `_`, and hour, minute and second in two digits each. The
/// year stands in four digits, or with a sign before four digits or more.
pub open spec fn stamp_shape(s: Seq<char>) -> bool {
    &&& s.len() >= 15
    &&& s[s.len() - 7] == '_'
    &&& forall|i: int| 1 <= i < s.len() && i != s.len() - 7 ==> is_digit(#[trigger] s[i])
    &&& (is_digit(s[0]) && s.len() == 15) || ((s[0] == '+' || s[0] == '-') && s.len() >= 16)
}

/// A time stamp of the usual shape: eight digits, `_`, six digits.
/// This is the shape for the years 0 to 9999.
pub open spec fn is_stamp(s: Seq<char>) -> bool {
    s.len() == 15 && forall|i: int|
        0 <= i < 15 ==> if i == 8 {
            s[i] == '_'
        } else {
            '0' <= #[trigger] s[i] <= '9'
        }
}

/// `chrono::Local::now`, written by `format` with `%Y%m%d_%H%M%S`: the
/// local time of the call as text. Which time that is depends on the
/// clock. Whatever it is, month, day, hour, minute and second are written
/// in two digits each, with `_` between date and time, and the year in
/// four digits, or for a year outside 0 to 9999 with its sign before four
/// digits or more.
#[verifier::external_body]
pub(crate) fn local_stamp() -> (r: String)
    ensures
        stamp_shape(r@),
{
    chrono::Local::now().format("%Y%m%d_%H%M%S").to_string()
}

/// Every time stamp is made of what time stamps are made of, and a time
/// stamp has the usual shape exactly when it begins with a digit, that is,
/// when its year needs no sign.
pub proof fn lemma_stamp_shape(stamp: Seq<char>)
    ensures
        stamp_shape(stamp) ==> stamp_like(stamp),
        is_stamp(stamp) <==> stamp_shape(stamp) && is_digit(stamp[0]),
{
    if stamp_shape(stamp) {
        assert forall|i: int| 0 <= i < stamp.len() implies is_stamp_char(#[trigger] stamp[i]) by {
            if i != 0 && i != stamp.len() - 7 {
                assert(is_digit(stamp[i]));
            }
        }
        if is_digit(stamp[0]) {
            assert forall|i: int| 0 <= i < 15 implies if i == 8 {
                stamp[i] == '_'
            } else {
                '0' <= #[trigger] stamp[i] <= '9'
            } by {
                if i != 0 && i != 8 {
                    assert(is_digit(stamp[i]));
                }
            }
        }
    }
    if is_stamp(stamp) {
        assert forall|i: int| 1 <= i < stamp.len() && i != stamp.len() - 7 implies is_digit(
            #[trigger] stamp[i],
        ) by {
            assert('0' <= stamp[i] <= '9');
        }
        assert('0' <= stamp[0] <= '9');
    }
}

/// The name of a backup that was made in a year from 0 to 9999: the
/// target's name, `.backup.`, eight digits, `_`, six digits.
pub proof fn lemma_backup_name(path: Seq<char>, stamp: Seq<char>)
    requires
        stamp_shape(stamp),
        is_digit(stamp[0]),
    ensures
        is_stamp(stamp),
        base_name(backup_of(path, stamp)) == Some(last_segment(bare(path)) + ".backup."@ + stamp),
        parent_of(backup_of(path, stamp)) == parent_of(path),
{
    lemma_stamp_shape(stamp);
    lemma_backup_policy(path, true, false, stamp);
}

/// The backup policy. A target that does not exist, or that may be
/// overwritten, gets no copy. Any other gets exactly one: a sibling in its
/// own directory whose name is the target's name, `.backup.` and the time
/// stamp.
pub proof fn lemma_backup_policy(path: Seq<char>, present: bool, force: bool, stamp: Seq<char>)
    requires
        stamp_like(stamp),
    ensures
        !present ==> backup_actions(path, present, force, stamp).len() == 0,
        force ==> backup_actions(path, present, force, stamp).len() == 0,
        present && !force ==> {
            &&& backup_actions(path, present, force, stamp).len() == 1
            &&& backup_actions(path, present, force, stamp)[0] == (WriteActionView::Copy {
                from: path,
                to: backup_of(path, stamp),
            })
            &&& parent_of(backup_of(path, stamp)) == parent_of(path)
            &&& base_name(backup_of(path, stamp)) == Some(
                last_segment(bare(path)) + ".backup."@ + stamp,
            )
        },
{
    assert forall|i: int| 0 <= i < stamp.len() implies stamp[i] != '/' by {
        assert(is_stamp_char(stamp[i]));
    }
    lemma_backup_is_sibling(path, stamp);
}

/// How many of the steps copy the given file.
pub open spec fn copies_of(actions: Seq<WriteActionView>, path: Seq<char>) -> nat
    decreases actions.len(),
{
    if actions.len() == 0 {
        0
    } else {
        copies_of(actions.drop_last(), path) + if actions.last() is Copy
            && actions.last()->from == path {
            1nat
        } else {
            0nat
        }
    }
}

/// Splitting a list of steps splits the count of the copies of a file.
pub proof fn lemma_copies_of_parts(
    front: Seq<WriteActionView>,
    back: Seq<WriteActionView>,
    path: Seq<char>,
)
    ensures
        copies_of(front + back, path) == copies_of(front, path) + copies_of(back, path),
    decreases back.len(),
{
    if back.len() == 0 {
        assert(front + back =~= front);
    } else {
        assert((front + back).drop_last() =~= front + back.drop_last());
        assert((front + back).last() == back.last());
        lemma_copies_of_parts(front, back.drop_last(), path);
    }
}

/// A write that is carried out copies each of its two targets exactly once
/// where the target exists and may not simply be overwritten, and never
/// otherwise; the copy goes to the target's backup. A dry run copies
/// nothing.
pub proof fn lemma_plan_copies(
    files: RenderedView,
    options: WriteOptions,
    tmuxp_exists: bool,
    envrc_exists: bool,
    tmuxp_stamp: Seq<char>,
    envrc_stamp: Seq<char>,
)
    requires
        files.tmuxp_path != files.envrc_path,
    ensures
        copies_of(
            planned_actions(files, options, tmuxp_exists, envrc_exists, tmuxp_stamp, envrc_stamp),
            files.tmuxp_path,
        ) == (if !options.dry_run && tmuxp_exists && !options.force {
            1nat
        } else {
            0nat
        }),
        copies_of(
            planned_actions(files, options, tmuxp_exists, envrc_exists, tmuxp_stamp, envrc_stamp),
            files.envrc_path,
        ) == (if !options.dry_run && envrc_exists && !options.force {
            1nat
        } else {
            0nat
        }),
        forall|i: int|
            0 <= i < planned_actions(
                files,
                options,
                tmuxp_exists,
                envrc_exists,
                tmuxp_stamp,
                envrc_stamp,
            ).len() && (#[trigger] planned_actions(
                files,
                options,
                tmuxp_exists,
                envrc_exists,
                tmuxp_stamp,
                envrc_stamp,
            )[i]) is Copy ==> {
                let step = planned_actions(
                    files,
                    options,
                    tmuxp_exists,
                    envrc_exists,
                    tmuxp_stamp,
                    envrc_stamp,
                )[i];
                ||| step->from == files.tmuxp_path && step->to == backup_of(
                    files.tmuxp_path,
                    tmuxp_stamp,
                )
                ||| step->from == files.envrc_path && step->to == backup_of(
                    files.envrc_path,
                    envrc_stamp,
                )
            },
{
    let actions = planned_actions(
        files,
        options,
        tmuxp_exists,
        envrc_exists,
        tmuxp_stamp,
        envrc_stamp,
    );
    if options.dry_run {
        lemma_no_copies(actions, files.tmuxp_path);
        lemma_no_copies(actions, files.envrc_path);
    } else {
        let head = seq![WriteActionView::CreateDir(parent_of(files.tmuxp_path))];
        let first = backup_actions(files.tmuxp_path, tmuxp_exists, options.force, tmuxp_stamp);
        let second = backup_actions(files.envrc_path, envrc_exists, options.force, envrc_stamp);
        let tail = seq![
            WriteActionView::Write { path: files.tmuxp_path, content: files.tmuxp_content },
            WriteActionView::Write { path: files.envrc_path, content: files.envrc_content },
        ];
        assert(actions == head + first + second + tail);
        let force = options.force;
        lemma_single_copy(files.tmuxp_path, tmuxp_exists, force, tmuxp_stamp, files.tmuxp_path);
        lemma_single_copy(files.tmuxp_path, tmuxp_exists, force, tmuxp_stamp, files.envrc_path);
        lemma_single_copy(files.envrc_path, envrc_exists, force, envrc_stamp, files.tmuxp_path);
        lemma_single_copy(files.envrc_path, envrc_exists, force, envrc_stamp, files.envrc_path);
        lemma_no_copies(head, files.tmuxp_path);
        lemma_no_copies(head, files.envrc_path);
        lemma_no_copies(tail, files.tmuxp_path);
        lemma_no_copies(tail, files.envrc_path);
        lemma_copies_of_parts(head, first, files.tmuxp_path);
        lemma_copies_of_parts(head + first, second, files.tmuxp_path);
        lemma_copies_of_parts(head + first + second, tail, files.tmuxp_path);
        lemma_copies_of_parts(head, first, files.envrc_path);
        lemma_copies_of_parts(head + first, second, files.envrc_path);
        lemma_copies_of_parts(head + first + second, tail, files.envrc_path);
    }
}

/// Steps of which none is a copy hold no copy of any file.
pub proof fn lemma_no_copies(actions: Seq<WriteActionView>, path: Seq<char>)
    requires
        forall|i: int| 0 <= i < actions.len() ==> !((#[trigger] actions[i]) is Copy),
    ensures
        copies_of(actions, path) == 0,
    decreases actions.len(),
{
    if actions.len() > 0 {
        assert(!(actions[actions.len() - 1] is Copy));
        assert forall|i: int| 0 <= i < actions.drop_last().len() implies !((
        #[trigger] actions.drop_last()[i]) is Copy) by {
            assert(actions.drop_last()[i] == actions[i]);
        }
        lemma_no_copies(actions.drop_last(), path);
    }
}

/// The steps that keep a copy of a target copy that target once where a
/// copy is kept, and nothing else.
pub proof fn lemma_single_copy(
    path: Seq<char>,
    present: bool,
    force: bool,
    stamp: Seq<char>,
    other: Seq<char>,
)
    ensures
        copies_of(backup_actions(path, present, force, stamp), other) == (if keeps_backup(
            present,
            force,
        ) && other == path {
            1nat
        } else {
            0nat
        }),
{
    let actions = backup_actions(path, present, force, stamp);
    if keeps_backup(present, force) {
        assert(actions.drop_last() =~= Seq::<WriteActionView>::empty());
        assert(copies_of(actions.drop_last(), other) == 0);
    }
}

/// A dry run changes nothing: each of its steps only shows text, and no
/// copy is reported.
pub proof fn lemma_dry_run(
    files: RenderedView,
    options: WriteOptions,
    tmuxp_exists: bool,
    envrc_exists: bool,
    tmuxp_stamp: Seq<char>,
    envrc_stamp: Seq<char>,
)
    requires
        options.dry_run,
    ensures
        forall|i: int|
            0 <= i < planned_actions(
                files,
                options,
                tmuxp_exists,
                envrc_exists,
                tmuxp_stamp,
                envrc_stamp,
            ).len() ==> #[trigger] planned_actions(
                files,
                options,
                tmuxp_exists,
                envrc_exists,
                tmuxp_stamp,
                envrc_stamp,
            )[i] is Print,
        !planned_result(files, options, tmuxp_exists, envrc_exists).tmuxp_backed_up,
        !planned_result(files, options, tmuxp_exists, envrc_exists).envrc_backed_up,
        !unnamed_backup(files, options, tmuxp_exists, envrc_exists),
{
}

/// A path that ends in a name of several characters without a `/` names a
/// file.
pub proof fn lemma_named(front: Seq<char>, name: Seq<char>)
    requires
        name.len() > 2,
        forall|i: int| 0 <= i < name.len() ==> name[i] != '/',
    ensures
        has_file_name(front + name),
{
    lemma_tail_kept(front, name);
    assert(last_segment(front + name).len() >= name.len());
}

/// Both files of a session have a file name, wherever they are placed.
pub proof fn lemma_targets_named(
    c: ConfigView,
    location: TmuxpLocation,
    project_dir: Seq<char>,
    home: Option<Seq<char>>,
)
    requires
        rendered_files(c, location, project_dir, home) is Some,
    ensures
        has_file_name(rendered_files(c, location, project_dir, home)->0.tmuxp_path),
        has_file_name(rendered_files(c, location, project_dir, home)->0.envrc_path),
{
    reveal_strlit(".envrc");
    reveal_strlit(".tmuxp.yaml");
    reveal_strlit(".tmuxp");
    reveal_strlit(".yaml");
    let files = rendered_files(c, location, project_dir, home)->0;
    let slash = seq!['/'];
    let envrc_front = if project_dir.len() == 0 || project_dir.last() == '/' {
        project_dir
    } else {
        project_dir + slash
    };
    assert(files.envrc_path =~= envrc_front + ".envrc"@);
    lemma_named(envrc_front, ".envrc"@);
    match location {
        TmuxpLocation::Home => {
            let front = joined(home->0, ".tmuxp"@) + slash + c.session_name;
            assert(files.tmuxp_path =~= front + ".yaml"@);
            lemma_named(front, ".yaml"@);
        },
        TmuxpLocation::Project => {
            assert(files.tmuxp_path =~= envrc_front + ".tmuxp.yaml"@);
            lemma_named(envrc_front, ".tmuxp.yaml"@);
        },
    }
}

/// The two files of a session lie at different paths, wherever they are
/// placed.
pub proof fn lemma_targets_differ(
    c: ConfigView,
    location: TmuxpLocation,
    project_dir: Seq<char>,
    home: Option<Seq<char>>,
)
    requires
        rendered_files(c, location, project_dir, home) is Some,
    ensures
        rendered_files(c, location, project_dir, home)->0.tmuxp_path != rendered_files(
            c,
            location,
            project_dir,
            home,
        )->0.envrc_path,
{
    reveal_strlit(".envrc");
    reveal_strlit(".tmuxp.yaml");
    reveal_strlit(".yaml");
    let files = rendered_files(c, location, project_dir, home)->0;
    let slash = seq!['/'];
    let envrc_front = if project_dir.len() == 0 || project_dir.last() == '/' {
        project_dir
    } else {
        project_dir + slash
    };
    assert(files.envrc_path =~= envrc_front + ".envrc"@);
    assert(files.envrc_path.last() == 'c');
    match location {
        TmuxpLocation::Home => {
            let front = joined(home->0, ".tmuxp"@) + slash + c.session_name;
            assert(files.tmuxp_path =~= front + ".yaml"@);
        },
        TmuxpLocation::Project => {
            assert(files.tmuxp_path =~= envrc_front + ".tmuxp.yaml"@);
        },
    }
    assert(files.tmuxp_path.last() == 'l');
}

/// The write of a session's files copies each of the two targets exactly
/// once where it exists and may not simply be overwritten, and never
/// otherwise; a dry run copies nothing.
pub proof fn lemma_session_copies(
    c: ConfigView,
    location: TmuxpLocation,
    project_dir: Seq<char>,
    home: Option<Seq<char>>,
    options: WriteOptions,
    tmuxp_exists: bool,
    envrc_exists: bool,
    tmuxp_stamp: Seq<char>,
    envrc_stamp: Seq<char>,
)
    requires
        rendered_files(c, location, project_dir, home) is Some,
    ensures
        ({
            let files = rendered_files(c, location, project_dir, home)->0;
            let actions = planned_actions(
                files,
                options,
                tmuxp_exists,
                envrc_exists,
                tmuxp_stamp,
                envrc_stamp,
            );
            &&& copies_of(actions, files.tmuxp_path) == (if !options.dry_run && tmuxp_exists
                && !options.force {
                1nat
            } else {
                0nat
            })
            &&& copies_of(actions, files.envrc_path) == (if !options.dry_run && envrc_exists
                && !options.force {
                1nat
            } else {
                0nat
            })
        }),
{
    lemma_targets_differ(c, location, project_dir, home);
    lemma_plan_copies(
        rendered_files(c, location, project_dir, home)->0,
        options,
        tmuxp_exists,
        envrc_exists,
        tmuxp_stamp,
        envrc_stamp,
    );
}

/// What the summary says of one file.
pub fn entry(path: &str, backed_up: bool) -> (r: String)
    ensures
        r@ == summary_entry(path@, backed_up),
{
    let mut out = String::from_str("  ");
    out.append(path);
    if backed_up {
        out.append(" (backed up existing file)");
    }
    out
}

impl WriteResult {
    /// The summary that is shown after a write.
    pub fn summary(&self) -> (r: String)
        ensures
            r@ == summary_text(self@),
    {
        let mut out = String::from_str("\nFiles generated:\n");
        out.append(entry(self.tmuxp_path.as_str(), self.tmuxp_backed_up).as_str());
        out.append("\n");
        out.append(entry(self.envrc_path.as_str(), self.envrc_backed_up).as_str());
        out.append("\n");
        proof {
            assert(out@ =~= summary_text(self@));
        }
        out
    }
}

/// What a dry run shows for one file.
pub fn preview(path: &str, content: &str) -> (r: String)
    ensures
        r@ == preview_text(path@, content@),
{
    let mut out = String::from_str("\n[DRY RUN] Would write to: ");
    out.append(path);
    out.append("\n---\n");
    out.append(content);
    out.append("\n---\n");
    out
}

/// Decides on the copy of one target, given whether it exists and the time
/// stamp to use: no copy where the target is missing or may be overwritten,
/// an error where it has no file name, and else the path of its sibling.
pub fn plan_backup(path: &str, present: bool, force: bool, stamp: &str) -> (r: Result<
    Option<String>,
    TmuxifyError,
>)
    ensures
        r is Err <==> keeps_backup(present, force) && !has_file_name(path@),
        r is Err ==> r->Err_0 is InvalidBackupPath,
        r is Ok ==> (r->Ok_0 is Some <==> keeps_backup(present, force)),
        r is Ok && r->Ok_0 is Some ==> r->Ok_0->0@ == backup_of(path@, stamp@),
{
    if !present || force {
        return Ok(None);
    }
    if !names_file(path) {
        return Err(TmuxifyError::InvalidBackupPath);
    }
    Ok(Some(backup_path(path, stamp)))
}

/// Decides on the copy of one target at the present time.
pub fn backup_file(path: &str, present: bool, force: bool) -> (r: Result<
    Option<String>,
    TmuxifyError,
>)
    ensures
        r is Err <==> keeps_backup(present, force) && !has_file_name(path@),
        r is Err ==> r->Err_0 is InvalidBackupPath,
        r is Ok ==> (r->Ok_0 is Some <==> keeps_backup(present, force)),
        r is Ok && r->Ok_0 is Some ==> exists|stamp: Seq<char>|
            stamp_shape(stamp) && r->Ok_0->0@ == #[trigger] backup_of(path@, stamp),
{
    if !present || force {
        return Ok(None);
    }
    let stamp = local_stamp();
    let r = plan_backup(path, present, force, stamp.as_str());
    proof {
        if r is Ok {
            assert(stamp_shape(stamp@) && r->Ok_0->0@ == backup_of(path@, stamp@));
        }
    }
    r
}

/// Plans the write of the two files, given which of them exist and the time
/// stamps for their copies.
pub fn plan_write(
    files: &Rendered,
    options: &WriteOptions,
    tmuxp_exists: bool,
    envrc_exists: bool,
    tmuxp_stamp: &str,
    envrc_stamp: &str,
) -> (r: Result<WritePlan, TmuxifyError>)
    ensures
        r is Err <==> unnamed_backup(files@, *options, tmuxp_exists, envrc_exists),
        r is Err ==> r->Err_0 is InvalidBackupPath,
        r is Ok ==> r->Ok_0.result@ == planned_result(
            files@,
            *options,
            tmuxp_exists,
            envrc_exists,
        ),
        r is Ok ==> action_views(r->Ok_0.actions@) == planned_actions(
            files@,
            *options,
            tmuxp_exists,
            envrc_exists,
            tmuxp_stamp@,
            envrc_stamp@,
        ),
{
    let mut actions: Vec<WriteAction> = Vec::new();
    if options.dry_run {
        actions.push(
            WriteAction::Print(preview(files.tmuxp_path.as_str(), files.tmuxp_content.as_str())),
        );
        actions.push(
            WriteAction::Print(preview(files.envrc_path.as_str(), files.envrc_content.as_str())),
        );
        let result = WriteResult {
            tmuxp_path: files.tmuxp_path.clone(),
            envrc_path: files.envrc_path.clone(),
            tmuxp_backed_up: false,
            envrc_backed_up: false,
        };
        proof {
            assert(action_views(actions@) =~= planned_actions(
                files@,
                *options,
                tmuxp_exists,
                envrc_exists,
                tmuxp_stamp@,
                envrc_stamp@,
            ));
        }
        return Ok(WritePlan { result, actions });
    }
    actions.push(WriteAction::CreateDir(parent(files.tmuxp_path.as_str())));
    let tmuxp_backup = match plan_backup(
        files.tmuxp_path.as_str(),
        tmuxp_exists,
        options.force,
        tmuxp_stamp,
    ) {
        Ok(b) => b,
        Err(e) => {
            return Err(e);
        },
    };
    let tmuxp_backed_up = tmuxp_backup.is_some();
    match tmuxp_backup {
        Some(to) => {
            actions.push(WriteAction::Copy { from: files.tmuxp_path.clone(), to });
        },
        None => {},
    }
    let envrc_backup = match plan_backup(
        files.envrc_path.as_str(),
        envrc_exists,
        options.force,
        envrc_stamp,
    ) {
        Ok(b) => b,
        Err(e) => {
            return Err(e);
        },
    };
    let envrc_backed_up = envrc_backup.is_some();
    match envrc_backup {
        Some(to) => {
            actions.push(WriteAction::Copy { from: files.envrc_path.clone(), to });
        },
        None => {},
    }
    actions.push(
        WriteAction::Write {
            path: files.tmuxp_path.clone(),
            content: files.tmuxp_content.clone(),
        },
    );
    actions.push(
        WriteAction::Write {
            path: files.envrc_path.clone(),
            content: files.envrc_content.clone(),
        },
    );
    let result = WriteResult {
        tmuxp_path: files.tmuxp_path.clone(),
        envrc_path: files.envrc_path.clone(),
        tmuxp_backed_up,
        envrc_backed_up,
    };
    proof {
        assert(action_views(actions@) =~= planned_actions(
            files@,
            *options,
            tmuxp_exists,
            envrc_exists,
            tmuxp_stamp@,
            envrc_stamp@,
        ));
    }
    Ok(WritePlan { result, actions })
}

/// The two files of a session: where they go and what they hold. The
/// session description is placed as `Config::get_file_path` says and holds
/// the session's YAML text; the shell hook lies in the project directory.
/// Fails where the home directory is needed and unknown, and otherwise
/// exactly where the YAML writer fails on the session.
pub fn render_files(config: &Config, location: TmuxpLocation, project_dir: &str) -> (r: Result<
    Rendered,
    TmuxifyError,
>)
    ensures
        location == TmuxpLocation::Project ==> (r is Ok <==> yaml_written(config_node(config@))
            is Some),
        yaml_written(config_node(config@)) is None ==> r is Err,
        r is Err ==> (r->Err_0 is Render && yaml_written(config_node(config@)) is None) || (
        r->Err_0 is MissingHome && location == TmuxpLocation::Home),
        r is Ok ==> exists|home: Option<Seq<char>>|
            Some(r->Ok_0@) == #[trigger] rendered_files(config@, location, project_dir@, home),
{
    let tmuxp_path = match config.get_file_path(location, Some(project_dir)) {
        Ok(path) => path,
        Err(e) => {
            return Err(e);
        },
    };
    let envrc_path = join(project_dir, ".envrc");
    let tmuxp_content = match config.to_yaml() {
        Ok(text) => text,
        Err(e) => {
            return Err(e);
        },
    };
    let envrc_content = config.generate_envrc(location);
    let files = Rendered { tmuxp_path, envrc_path, tmuxp_content, envrc_content };
    proof {
        let home = if location == TmuxpLocation::Home {
            let h = choose|h: Seq<char>|
                Some(tmuxp_path@) == #[trigger] file_path(
                    config@.session_name,
                    location,
                    Some(project_dir@),
                    Some(h),
                );
            Some(h)
        } else {
            None
        };
        assert(Some(files@) == rendered_files(config@, location, project_dir@, home));
    }
    Ok(files)
}

/// The plan is the one for these files with the given time stamps, each of
/// which has the shape of a time stamp where a copy is kept.
pub open spec fn planned(
    files: RenderedView,
    options: WriteOptions,
    tmuxp_exists: bool,
    envrc_exists: bool,
    tmuxp_stamp: Seq<char>,
    envrc_stamp: Seq<char>,
    plan: WritePlan,
) -> bool {
    &&& !options.dry_run && keeps_backup(tmuxp_exists, options.force) ==> stamp_shape(
        tmuxp_stamp,
    )
    &&& !options.dry_run && keeps_backup(envrc_exists, options.force) ==> stamp_shape(envrc_stamp)
    &&& plan.result@ == planned_result(files, options, tmuxp_exists, envrc_exists)
    &&& action_views(plan.actions@) == planned_actions(
        files,
        options,
        tmuxp_exists,
        envrc_exists,
        tmuxp_stamp,
        envrc_stamp,
    )
}

/// The time stamp for the copy of a target: the present time where a copy
/// is kept, and nothing where none is, without a look at the clock.
fn stamp_for(keeps: bool) -> (r: String)
    ensures
        keeps ==> stamp_shape(r@),
{
    if keeps {
        local_stamp()
    } else {
        String::new()
    }
}

/// Plans the write of the two files at the present time, given which of
/// them exist. It fails exactly where a copy is to be kept of a target
/// without a file name; otherwise the plan is the one of `plan_write` with
/// the time stamps of the moment, and its result does not depend on them.
pub fn plan_files(
    files: &Rendered,
    options: &WriteOptions,
    tmuxp_exists: bool,
    envrc_exists: bool,
) -> (r: Result<WritePlan, TmuxifyError>)
    ensures
        r is Err <==> unnamed_backup(files@, *options, tmuxp_exists, envrc_exists),
        r is Err ==> r->Err_0 is InvalidBackupPath,
        r is Ok ==> r->Ok_0.result@ == planned_result(
            files@,
            *options,
            tmuxp_exists,
            envrc_exists,
        ),
        r is Ok ==> exists|tmuxp_stamp: Seq<char>, envrc_stamp: Seq<char>|
            #[trigger] planned(
                files@,
                *options,
                tmuxp_exists,
                envrc_exists,
                tmuxp_stamp,
                envrc_stamp,
                r->Ok_0,
            ),
{
    let copies = !options.dry_run && !options.force;
    let tmuxp_stamp = stamp_for(copies && tmuxp_exists);
    let envrc_stamp = stamp_for(copies && envrc_exists);
    let r = plan_write(
        files,
        options,
        tmuxp_exists,
        envrc_exists,
        tmuxp_stamp.as_str(),
        envrc_stamp.as_str(),
    );
    proof {
        if r is Ok {
            assert(planned(
                files@,
                *options,
                tmuxp_exists,
                envrc_exists,
                tmuxp_stamp@,
                envrc_stamp@,
                r->Ok_0,
            ));
        }
    }
    r
}

/// Plans the write of a session's two files into place, given which of the
/// targets exist. The plan is the one of `plan_files` for the files of
/// `render_files`. It fails where the home directory is needed and unknown,
/// and otherwise exactly where the YAML writer fails on the session.
pub fn write_config(
    config: &Config,
    location: TmuxpLocation,
    project_dir: &str,
    options: &WriteOptions,
    tmuxp_exists: bool,
    envrc_exists: bool,
) -> (r: Result<WritePlan, TmuxifyError>)
    ensures
        location == TmuxpLocation::Project ==> (r is Ok <==> yaml_written(config_node(config@))
            is Some),
        yaml_written(config_node(config@)) is None ==> r is Err,
        r is Err ==> (r->Err_0 is Render && yaml_written(config_node(config@)) is None) || (
        r->Err_0 is MissingHome && location == TmuxpLocation::Home),
        r is Ok ==> r->Ok_0.result@.tmuxp_backed_up == (!options.dry_run && keeps_backup(
            tmuxp_exists,
            options.force,
        )),
        r is Ok ==> r->Ok_0.result@.envrc_backed_up == (!options.dry_run && keeps_backup(
            envrc_exists,
            options.force,
        )),
        r is Ok ==> exists|home: Option<Seq<char>>, tmuxp_stamp: Seq<char>, envrc_stamp: Seq<char>|
            #[trigger] written(
                config@,
                location,
                project_dir@,
                *options,
                tmuxp_exists,
                envrc_exists,
                home,
                tmuxp_stamp,
                envrc_stamp,
                r->Ok_0,
            ),
{
    let files = match render_files(config, location, project_dir) {
        Ok(files) => files,
        Err(e) => {
            return Err(e);
        },
    };
    proof {
        let home = choose|home: Option<Seq<char>>|
            Some(files@) == #[trigger] rendered_files(config@, location, project_dir@, home);
        lemma_targets_named(config@, location, project_dir@, home);
    }
    let r = plan_files(&files, options, tmuxp_exists, envrc_exists);
    proof {
        let home = choose|home: Option<Seq<char>>|
            Some(files@) == #[trigger] rendered_files(config@, location, project_dir@, home);
        let (tmuxp_stamp, envrc_stamp) = choose|tmuxp_stamp: Seq<char>, envrc_stamp: Seq<char>|
            #[trigger] planned(
                files@,
                *options,
                tmuxp_exists,
                envrc_exists,
                tmuxp_stamp,
                envrc_stamp,
                r->Ok_0,
            );
        assert(written(
            config@,
            location,
            project_dir@,
            *options,
            tmuxp_exists,
            envrc_exists,
            home,
            tmuxp_stamp,
            envrc_stamp,
            r->Ok_0,
        ));
    }
    r
}

/// The plan is the one for the session's files under the given home
/// directory, with the given time stamps.
pub open spec fn written(
    c: ConfigView,
    location: TmuxpLocation,
    project_dir: Seq<char>,
    options: WriteOptions,
    tmuxp_exists: bool,
    envrc_exists: bool,
    home: Option<Seq<char>>,
    tmuxp_stamp: Seq<char>,
    envrc_stamp: Seq<char>,
    plan: WritePlan,
) -> bool {
    let files = rendered_files(c, location, project_dir, home);
    &&& files is Some
    &&& planned(files->0, options, tmuxp_exists, envrc_exists, tmuxp_stamp, envrc_stamp, plan)
}

/// The command that lets direnv trust the project's shell hook, to be run
/// in the project directory: the program, then its argument.
pub fn direnv_allow_command() -> (r: Vec<String>)
    ensures
        r.deep_view() == seq!["direnv"@, "allow"@],
{
    let mut r: Vec<String> = Vec::new();
    r.push(String::from_str("direnv"));
    r.push(String::from_str("allow"));
    proof {
        assert(r.deep_view() =~= seq!["direnv"@, "allow"@]);
    }
    r
}

/// Judges what `direnv allow` left behind: a failure carries what it wrote
/// to stderr.
pub fn direnv_allow_outcome(output: &ProcessOutput) -> (r: Result<(), TmuxifyError>)
    ensures
        r is Ok <==> output.success,
        r is Err ==> r->Err_0 == TmuxifyError::Subprocess(output.stderr),
{
    if output.success {
        Ok(())
    } else {
        Err(TmuxifyError::Subprocess(output.stderr.clone()))
    }
}

} // verus!
