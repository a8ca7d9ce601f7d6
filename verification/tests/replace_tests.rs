use spicetify_installer::errors::UpdateError;
use spicetify_installer::replace::FlowEvent;
use spicetify_installer::replace::FlowStep;
use spicetify_installer::replace::SimFs;
use spicetify_installer::replace::UpdateFlow;
use spicetify_installer::replace::UpdateStage;
use spicetify_installer::replace::apply_replace;
use spicetify_installer::replace::derive_install_filename;
use spicetify_installer::replace::plan_update;
use spicetify_installer::replace::UpdatePlan;
use spicetify_installer::update::progress_for_stage;

#[test]
fn filename_comes_from_the_last_url_segment() {
    assert_eq!(
        derive_install_filename("https://example.invalid/r/releases/download/v2.3.0/app-setup.exe"),
        "app-setup.exe"
    );
}

#[test]
fn filename_cuts_the_query_off() {
    assert_eq!(
        derive_install_filename("https://x/v1.0/tool.exe?token=abc123&x=1"),
        "tool.exe"
    );
}

#[test]
fn filename_edge_shapes() {
    assert_eq!(derive_install_filename("plain.exe"), "plain.exe");
    assert_eq!(derive_install_filename("https://x/dir/"), "");
    assert_eq!(derive_install_filename(""), "");
    assert_eq!(derive_install_filename("a/b?c/d"), "d");
}

#[test]
fn the_plan_lays_the_paths_out() {
    let plan = plan_update(
        "https://x/v2.3.0/app-setup.exe",
        "C:\\apps\\old-setup.exe",
        "C:\\apps",
        "C:\\tmp",
        "backup_20240101.exe",
    );
    assert_eq!(plan.current_exe, "C:\\apps\\old-setup.exe");
    assert_eq!(plan.install_dir, "C:\\apps");
    assert_eq!(plan.update_dir, "C:\\tmp\\spicetify_installer_update");
    assert_eq!(plan.script_path, "C:\\tmp\\spicetify_installer_update\\updater.ps1");
    assert_eq!(plan.batch_path, "C:\\tmp\\spicetify_installer_update\\run_updater.bat");
    assert_eq!(plan.staged_path, "C:\\tmp\\spicetify_installer_update\\app-setup.exe");
    assert_eq!(plan.target_path, "C:\\apps\\app-setup.exe");
    assert_eq!(plan.backup_path, "C:\\tmp\\backup_20240101.exe");
}

fn test_plan() -> UpdatePlan {
    plan_update(
        "https://x/v2.0/new-setup.exe",
        "C:\\apps\\old-setup.exe",
        "C:\\apps",
        "C:\\tmp",
        "backup.exe",
    )
}

#[test]
fn replace_dry_run_moves_the_bytes_and_drops_the_old_file() {
    let plan = test_plan();
    let mut fs = SimFs::new();
    fs.write(&plan.current_exe, vec![1, 2, 3]);
    fs.write(&plan.staged_path, vec![9, 9, 9, 9]);
    fs.write("C:\\apps\\other.txt", vec![7]);

    assert_eq!(apply_replace(&mut fs, &plan), Ok(()));

    // The target holds the staged bytes.
    assert_eq!(fs.read(&plan.target_path), Some(&vec![9, 9, 9, 9]));
    // The old binary sat at a different path, so it is gone.
    assert!(!fs.exists_file(&plan.current_exe));
    // Its bytes were backed up first.
    assert_eq!(fs.read(&plan.backup_path), Some(&vec![1, 2, 3]));
    // The staged copy is cleaned up.
    assert!(!fs.exists_file(&plan.staged_path));
    // An unrelated file is untouched.
    assert_eq!(fs.read("C:\\apps\\other.txt"), Some(&vec![7]));
}

#[test]
fn replace_dry_run_keeps_the_file_when_paths_coincide() {
    // The running binary already carries the upstream filename: the
    // target path equals the current path, so nothing is removed.
    let mut plan = test_plan();
    plan.current_exe = plan.target_path.clone();
    let mut fs = SimFs::new();
    fs.write(&plan.current_exe, vec![1, 2, 3]);
    fs.write(&plan.staged_path, vec![9, 9]);

    assert_eq!(apply_replace(&mut fs, &plan), Ok(()));
    assert_eq!(fs.read(&plan.target_path), Some(&vec![9, 9]));
    assert!(fs.exists_file(&plan.current_exe));
    assert_eq!(fs.read(&plan.backup_path), Some(&vec![1, 2, 3]));
}

#[test]
fn replace_dry_run_refuses_a_missing_or_empty_staged_binary() {
    let plan = test_plan();

    let mut fs = SimFs::new();
    fs.write(&plan.current_exe, vec![1]);
    assert_eq!(apply_replace(&mut fs, &plan), Err(UpdateError::StagedInstallerMissing));
    // Nothing changed.
    assert_eq!(fs.read(&plan.current_exe), Some(&vec![1]));
    assert!(!fs.exists_file(&plan.backup_path));

    let mut fs2 = SimFs::new();
    fs2.write(&plan.current_exe, vec![1]);
    fs2.write(&plan.staged_path, Vec::new());
    assert_eq!(apply_replace(&mut fs2, &plan), Err(UpdateError::StagedInstallerEmpty));
    assert_eq!(fs2.read(&plan.current_exe), Some(&vec![1]));
    assert!(!fs2.exists_file(&plan.target_path));
}

#[test]
fn replace_dry_run_refuses_a_clashing_plan() {
    let mut plan = test_plan();
    plan.backup_path = plan.target_path.clone();
    let mut fs = SimFs::new();
    fs.write(&plan.staged_path, vec![5]);
    assert_eq!(apply_replace(&mut fs, &plan), Err(UpdateError::PlanPathsClash));
    assert_eq!(fs.read(&plan.staged_path), Some(&vec![5]));
}

#[test]
fn the_flow_runs_its_steps_in_order() {
    let mut f = UpdateFlow::new();
    assert_eq!(f.stage, UpdateStage::Preparing);
    assert_eq!(f.step(FlowEvent::Succeeded), FlowStep::Download);
    assert_eq!(f.step(FlowEvent::Succeeded), FlowStep::WriteHelper);
    assert_eq!(f.step(FlowEvent::Succeeded), FlowStep::SpawnHelper);
    assert_eq!(f.step(FlowEvent::Succeeded), FlowStep::DelayAndExit);
    assert_eq!(f.step(FlowEvent::Succeeded), FlowStep::Rest);
    assert_eq!(f.stage, UpdateStage::Done);
}

#[test]
fn a_failed_download_generates_nothing_and_exits_nothing() {
    let mut f = UpdateFlow::new();
    assert_eq!(f.step(FlowEvent::Succeeded), FlowStep::Download);
    // The download fails: the run aborts; the helper script is never
    // ordered written and no exit is ordered, now or later.
    assert_eq!(f.step(FlowEvent::Failed), FlowStep::Abort);
    assert_eq!(f.stage, UpdateStage::Failed);
    assert_eq!(f.step(FlowEvent::Succeeded), FlowStep::Rest);
    assert_eq!(f.step(FlowEvent::Failed), FlowStep::Rest);
    assert_eq!(f.stage, UpdateStage::Failed);
}

#[test]
fn each_stage_reports_its_progress() {
    let p = progress_for_stage(UpdateStage::Preparing).unwrap();
    assert_eq!((p.stage.as_str(), p.progress, p.message.as_str()),
        ("Preparing update", 0, "Initializing update process..."));
    let p = progress_for_stage(UpdateStage::Downloading).unwrap();
    assert_eq!((p.stage.as_str(), p.progress), ("Downloading", 10));
    let p = progress_for_stage(UpdateStage::WritingHelper).unwrap();
    assert_eq!((p.stage.as_str(), p.progress), ("Creating updater", 30));
    let p = progress_for_stage(UpdateStage::Spawning).unwrap();
    assert_eq!((p.stage.as_str(), p.progress), ("Executing update", 50));
    let p = progress_for_stage(UpdateStage::Exiting).unwrap();
    assert_eq!((p.stage.as_str(), p.progress, p.message.as_str()),
        ("Completing", 90, "Update process started. Application will restart..."));
    assert!(progress_for_stage(UpdateStage::Done).is_none());
    assert!(progress_for_stage(UpdateStage::Failed).is_none());
}
