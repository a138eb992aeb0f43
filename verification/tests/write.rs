use tmuxify::error::TmuxifyError;
use tmuxify::model::{Config, TmuxpLocation, Window};
use tmuxify::ops::validate::ProcessOutput;
use tmuxify::ops::write::{
    backup_file, direnv_allow_command, direnv_allow_outcome, entry, plan_backup, plan_files,
    plan_write, preview, render_files, write_config, Rendered, WriteAction, WriteOptions,
    WriteResult,
};

fn files() -> Rendered {
    Rendered {
        tmuxp_path: "/p/.tmuxp.yaml".to_string(),
        envrc_path: "/p/.envrc".to_string(),
        tmuxp_content: "yaml".to_string(),
        envrc_content: "envrc".to_string(),
    }
}

fn is_stamp(s: &str) -> bool {
    s.len() == 15
        && s.chars().enumerate().all(|(i, c)| if i == 8 { c == '_' } else { c.is_ascii_digit() })
}

#[test]
fn write_config_creates_backups_when_files_exist() {
    let project_dir = "/work/proj";
    let cfg = Config::new("sess".into(), project_dir.to_string(), vec![Window::simple()]);
    let opts = WriteOptions { dry_run: false, force: false };

    let plan = write_config(&cfg, TmuxpLocation::Project, project_dir, &opts, true, true).unwrap();
    let res = &plan.result;

    assert!(res.tmuxp_backed_up);
    assert!(res.envrc_backed_up);

    let mut tmuxp_backup_found = false;
    let mut envrc_backup_found = false;
    for action in plan.actions.iter() {
        if let WriteAction::Copy { from, to } = action {
            if let Some(stamp) = to.strip_prefix("/work/proj/.tmuxp.yaml.backup.") {
                assert_eq!(from, "/work/proj/.tmuxp.yaml");
                assert!(is_stamp(stamp));
                tmuxp_backup_found = true;
            }
            if let Some(stamp) = to.strip_prefix("/work/proj/.envrc.backup.") {
                assert_eq!(from, "/work/proj/.envrc");
                assert!(is_stamp(stamp));
                envrc_backup_found = true;
            }
        }
    }

    assert!(tmuxp_backup_found, "expected tmuxp backup file");
    assert!(envrc_backup_found, "expected envrc backup file");
}

#[test]
fn write_config_plans_the_whole_write() {
    let cfg = Config::new("sess".into(), "/work/proj".to_string(), vec![Window::simple()]);
    let opts = WriteOptions { dry_run: false, force: false };
    let plan = write_config(&cfg, TmuxpLocation::Project, "/work/proj", &opts, false, false).unwrap();
    assert_eq!(
        plan.result,
        WriteResult {
            tmuxp_path: "/work/proj/.tmuxp.yaml".to_string(),
            envrc_path: "/work/proj/.envrc".to_string(),
            tmuxp_backed_up: false,
            envrc_backed_up: false,
        }
    );
    assert_eq!(
        plan.actions,
        vec![
            WriteAction::CreateDir("/work/proj".to_string()),
            WriteAction::Write {
                path: "/work/proj/.tmuxp.yaml".to_string(),
                content: cfg.to_yaml().unwrap(),
            },
            WriteAction::Write {
                path: "/work/proj/.envrc".to_string(),
                content: "if [ -z \"$TMUX\" ]; then\n  tmuxp load ./.tmuxp.yaml\nfi\n".to_string(),
            },
        ]
    );
}

#[test]
fn write_config_with_force_keeps_no_copies() {
    let cfg = Config::new("sess".into(), "/work/proj".to_string(), vec![Window::simple()]);
    let opts = WriteOptions { dry_run: false, force: true };
    let plan = write_config(&cfg, TmuxpLocation::Project, "/work/proj", &opts, true, true).unwrap();
    assert!(!plan.result.tmuxp_backed_up);
    assert!(!plan.result.envrc_backed_up);
    assert_eq!(plan.actions.len(), 3);
    assert!(plan.actions.iter().all(|a| !matches!(a, WriteAction::Copy { .. })));
    let written: Vec<&String> = plan
        .actions
        .iter()
        .filter_map(|a| if let WriteAction::Write { path, .. } = a { Some(path) } else { None })
        .collect();
    assert_eq!(written, vec!["/work/proj/.tmuxp.yaml", "/work/proj/.envrc"]);
}

#[test]
fn write_config_dry_run_only_shows() {
    let cfg = Config::new("sess".into(), "/work/proj".to_string(), vec![Window::simple()]);
    let opts = WriteOptions { dry_run: true, force: false };
    let plan = write_config(&cfg, TmuxpLocation::Project, "/work/proj", &opts, true, true).unwrap();
    assert!(!plan.result.tmuxp_backed_up);
    assert!(!plan.result.envrc_backed_up);
    assert_eq!(plan.result.tmuxp_path, "/work/proj/.tmuxp.yaml");
    assert_eq!(plan.result.envrc_path, "/work/proj/.envrc");
    assert_eq!(
        plan.actions,
        vec![
            WriteAction::Print(format!(
                "\n[DRY RUN] Would write to: /work/proj/.tmuxp.yaml\n---\n{}\n---\n",
                cfg.to_yaml().unwrap()
            )),
            WriteAction::Print(
                "\n[DRY RUN] Would write to: /work/proj/.envrc\n---\nif [ -z \"$TMUX\" ]; then\n  tmuxp load ./.tmuxp.yaml\nfi\n\n---\n"
                    .to_string()
            ),
        ]
    );
}

#[test]
fn write_config_for_home_goes_under_tmuxp() {
    let cfg = Config::new("sess".into(), "/work/proj".to_string(), vec![]);
    let opts = WriteOptions { dry_run: false, force: false };
    match write_config(&cfg, TmuxpLocation::Home, "/work/proj", &opts, false, true) {
        Ok(plan) => {
            assert!(plan.result.tmuxp_path.ends_with("/.tmuxp/sess.yaml"));
            assert_eq!(plan.result.envrc_path, "/work/proj/.envrc");
            assert!(!plan.result.tmuxp_backed_up);
            assert!(plan.result.envrc_backed_up);
            let dir = plan.result.tmuxp_path.strip_suffix("/sess.yaml").unwrap().to_string();
            assert_eq!(plan.actions[0], WriteAction::CreateDir(dir));
            assert_eq!(plan.actions.len(), 4);
            match &plan.actions[3] {
                WriteAction::Write { path, content } => {
                    assert_eq!(path, "/work/proj/.envrc");
                    assert!(content.contains("~/.tmuxp/sess.yaml"));
                }
                other => panic!("unexpected action: {:?}", other),
            }
        }
        Err(e) => assert_eq!(e, TmuxifyError::MissingHome),
    }
}

#[test]
fn render_files_gives_paths_and_contents() {
    let cfg = Config::new("sess".into(), "/s".to_string(), vec![]);
    let files = render_files(&cfg, TmuxpLocation::Project, "/work/proj").unwrap();
    assert_eq!(
        files,
        Rendered {
            tmuxp_path: "/work/proj/.tmuxp.yaml".to_string(),
            envrc_path: "/work/proj/.envrc".to_string(),
            tmuxp_content: "session_name: sess\nstart_directory: /s\nwindows: []\n".to_string(),
            envrc_content: "if [ -z \"$TMUX\" ]; then\n  tmuxp load ./.tmuxp.yaml\nfi\n".to_string(),
        }
    );
}

#[test]
fn plan_write_orders_the_steps() {
    let opts = WriteOptions { dry_run: false, force: false };
    let plan = plan_write(&files(), &opts, true, false, "20240102_030405", "20240102_030406").unwrap();
    assert_eq!(
        plan.actions,
        vec![
            WriteAction::CreateDir("/p".to_string()),
            WriteAction::Copy {
                from: "/p/.tmuxp.yaml".to_string(),
                to: "/p/.tmuxp.yaml.backup.20240102_030405".to_string(),
            },
            WriteAction::Write { path: "/p/.tmuxp.yaml".to_string(), content: "yaml".to_string() },
            WriteAction::Write { path: "/p/.envrc".to_string(), content: "envrc".to_string() },
        ]
    );
    assert!(plan.result.tmuxp_backed_up);
    assert!(!plan.result.envrc_backed_up);
}

#[test]
fn plan_write_uses_each_stamp_for_its_file() {
    let opts = WriteOptions { dry_run: false, force: false };
    let plan = plan_write(&files(), &opts, true, true, "20240102_030405", "20240102_030406").unwrap();
    assert_eq!(plan.actions.len(), 5);
    assert_eq!(
        plan.actions[2],
        WriteAction::Copy {
            from: "/p/.envrc".to_string(),
            to: "/p/.envrc.backup.20240102_030406".to_string(),
        }
    );
    assert!(plan.result.tmuxp_backed_up);
    assert!(plan.result.envrc_backed_up);
}

#[test]
fn plan_write_refuses_a_copy_without_a_name() {
    let mut odd = files();
    odd.envrc_path = "/p/..".to_string();
    let opts = WriteOptions { dry_run: false, force: false };
    assert_eq!(plan_write(&odd, &opts, false, true, "a", "b"), Err(TmuxifyError::InvalidBackupPath));
    assert!(plan_write(&odd, &opts, false, false, "a", "b").is_ok());
    let forced = WriteOptions { dry_run: false, force: true };
    assert!(plan_write(&odd, &forced, true, true, "a", "b").is_ok());
    let dry = WriteOptions { dry_run: true, force: false };
    assert!(plan_write(&odd, &dry, true, true, "a", "b").is_ok());
    assert_eq!(TmuxifyError::InvalidBackupPath.message(), "Invalid path for backup");
}

#[test]
fn plan_backup_follows_the_policy() {
    assert_eq!(plan_backup("/p/.envrc", false, false, "s"), Ok(None));
    assert_eq!(plan_backup("/p/.envrc", false, true, "s"), Ok(None));
    assert_eq!(plan_backup("/p/.envrc", true, true, "s"), Ok(None));
    assert_eq!(
        plan_backup("/p/.envrc", true, false, "20240102_030405"),
        Ok(Some("/p/.envrc.backup.20240102_030405".to_string()))
    );
    assert_eq!(plan_backup("/p/..", true, false, "s"), Err(TmuxifyError::InvalidBackupPath));
    assert_eq!(plan_backup("/p/..", true, true, "s"), Ok(None));
    assert_eq!(plan_backup("/", true, false, "s"), Err(TmuxifyError::InvalidBackupPath));
    assert_eq!(plan_backup("/p/dir/", true, false, "s"), Ok(Some("/p/dir.backup.s".to_string())));
}

#[test]
fn backup_file_stamps_with_the_present_time() {
    assert_eq!(backup_file("/p/.envrc", false, false), Ok(None));
    assert_eq!(backup_file("/p/.envrc", true, true), Ok(None));
    assert_eq!(backup_file("", true, false), Err(TmuxifyError::InvalidBackupPath));
    let to = backup_file("/p/.envrc", true, false).unwrap().unwrap();
    let stamp = to.strip_prefix("/p/.envrc.backup.").unwrap();
    assert!(is_stamp(stamp));
}

#[test]
fn preview_frames_the_content() {
    assert_eq!(
        preview("/p/.envrc", "body\n"),
        "\n[DRY RUN] Would write to: /p/.envrc\n---\nbody\n\n---\n"
    );
}

#[test]
fn summary_marks_the_files_that_were_backed_up() {
    let r = WriteResult {
        tmuxp_path: "/p/.tmuxp.yaml".to_string(),
        envrc_path: "/p/.envrc".to_string(),
        tmuxp_backed_up: true,
        envrc_backed_up: false,
    };
    assert_eq!(
        r.summary(),
        "\nFiles generated:\n  /p/.tmuxp.yaml (backed up existing file)\n  /p/.envrc\n"
    );
    assert_eq!(entry("/p/.envrc", true), "  /p/.envrc (backed up existing file)");
    assert_eq!(entry("/p/.envrc", false), "  /p/.envrc");
}

#[test]
fn direnv_allow_is_judged_by_its_status() {
    assert_eq!(direnv_allow_command(), vec!["direnv", "allow"]);
    let good = ProcessOutput { success: true, stdout: String::new(), stderr: "noise".to_string() };
    assert_eq!(direnv_allow_outcome(&good), Ok(()));
    let bad = ProcessOutput {
        success: false,
        stdout: String::new(),
        stderr: "blocked".to_string(),
    };
    let e = direnv_allow_outcome(&bad).unwrap_err();
    assert_eq!(e, TmuxifyError::Subprocess("blocked".to_string()));
    assert_eq!(e.message(), "direnv allow failed: blocked");
}

#[test]
fn write_config_keeps_one_copy_of_each_file() {
    let cfg = Config::new("sess".into(), "/work/proj".to_string(), vec![Window::simple()]);
    let opts = WriteOptions { dry_run: false, force: false };
    let plan = write_config(&cfg, TmuxpLocation::Project, "/work/proj", &opts, true, true).unwrap();
    assert_eq!(plan.actions.len(), 5);
    assert_eq!(plan.actions[0], WriteAction::CreateDir("/work/proj".to_string()));
    let copied: Vec<&String> = plan
        .actions
        .iter()
        .filter_map(|a| if let WriteAction::Copy { from, .. } = a { Some(from) } else { None })
        .collect();
    assert_eq!(copied, vec!["/work/proj/.tmuxp.yaml", "/work/proj/.envrc"]);
    assert!(matches!(plan.actions[3], WriteAction::Write { .. }));
    assert!(matches!(plan.actions[4], WriteAction::Write { .. }));

    let one = write_config(&cfg, TmuxpLocation::Project, "/work/proj", &opts, false, true).unwrap();
    assert_eq!(one.actions.len(), 4);
    assert!(!one.result.tmuxp_backed_up);
    assert!(one.result.envrc_backed_up);
}

#[test]
fn plan_files_stamps_only_the_copies() {
    let opts = WriteOptions { dry_run: false, force: false };
    let plan = plan_files(&files(), &opts, false, true).unwrap();
    assert!(!plan.result.tmuxp_backed_up);
    assert!(plan.result.envrc_backed_up);
    assert_eq!(plan.actions.len(), 4);
    match &plan.actions[1] {
        WriteAction::Copy { from, to } => {
            assert_eq!(from, "/p/.envrc");
            assert!(is_stamp(to.strip_prefix("/p/.envrc.backup.").unwrap()));
        }
        other => panic!("unexpected action: {:?}", other),
    }
    let none = plan_files(&files(), &opts, false, false).unwrap();
    assert_eq!(none, plan_write(&files(), &opts, false, false, "", "").unwrap());
    let dry = WriteOptions { dry_run: true, force: false };
    assert_eq!(
        plan_files(&files(), &dry, true, true).unwrap(),
        plan_write(&files(), &dry, true, true, "", "").unwrap()
    );
}

#[test]
fn plan_files_refuses_a_copy_without_a_name() {
    let mut odd = files();
    odd.tmuxp_path = "..".to_string();
    let opts = WriteOptions { dry_run: false, force: false };
    assert_eq!(plan_files(&odd, &opts, true, false), Err(TmuxifyError::InvalidBackupPath));
    assert!(plan_files(&odd, &opts, false, true).is_ok());
}

#[test]
fn write_config_succeeds_for_a_project() {
    let cfg = Config::new("sess".into(), "/work/proj".to_string(), vec![Window::simple()]);
    for dry_run in [false, true] {
        for force in [false, true] {
            for present in [false, true] {
                let opts = WriteOptions { dry_run, force };
                let plan =
                    write_config(&cfg, TmuxpLocation::Project, "rel", &opts, present, present)
                        .unwrap();
                let kept = !dry_run && present && !force;
                assert_eq!(plan.result.tmuxp_backed_up, kept);
                assert_eq!(plan.result.envrc_backed_up, kept);
                assert_eq!(plan.result.tmuxp_path, "rel/.tmuxp.yaml");
                assert_eq!(plan.result.envrc_path, "rel/.envrc");
            }
        }
    }
}
