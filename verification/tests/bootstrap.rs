use rillio::bootstrap::created_notice;
use rillio::bootstrap::plan_bootstrap;
use rillio::bootstrap::SECRETS_FILE_MODE;

#[test]
fn fresh_root_creates_both_files() {
    let plan = plan_bootstrap(false, false, true);
    assert!(plan.create_config);
    assert!(plan.create_secrets);
    assert!(plan.restrict_secrets);
}

#[test]
fn existing_files_are_left_untouched() {
    let plan = plan_bootstrap(true, true, true);
    assert!(!plan.create_config);
    assert!(!plan.create_secrets);
    assert!(!plan.restrict_secrets);
}

#[test]
fn only_the_missing_file_is_created() {
    let plan = plan_bootstrap(true, false, true);
    assert!(!plan.create_config);
    assert!(plan.create_secrets);
    assert!(plan.restrict_secrets);

    let plan = plan_bootstrap(false, true, true);
    assert!(plan.create_config);
    assert!(!plan.create_secrets);
    assert!(!plan.restrict_secrets);
}

#[test]
fn no_permission_tightening_without_posix() {
    let plan = plan_bootstrap(false, false, false);
    assert!(plan.create_config);
    assert!(plan.create_secrets);
    assert!(!plan.restrict_secrets);
}

#[test]
fn fresh_secrets_file_mode_is_owner_read_write() {
    assert_eq!(SECRETS_FILE_MODE, 0o600);
}

#[test]
fn second_run_changes_nothing() {
    // First run on a fresh root creates both files; afterwards both exist,
    // so a second run plans no creation and no permission change.
    let first = plan_bootstrap(false, false, true);
    assert!(first.create_config && first.create_secrets);
    let second = plan_bootstrap(true, true, true);
    assert!(!second.create_config && !second.create_secrets && !second.restrict_secrets);
}

#[test]
fn created_notice_names_the_path() {
    assert_eq!(
        created_notice("/home/u/.config/rillio/config.toml"),
        "Created /home/u/.config/rillio/config.toml".to_string()
    );
}
