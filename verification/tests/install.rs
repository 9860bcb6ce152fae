use zed_client::install::{InstallStep, StepOutcome, SERVER_DIRECTORY, SERVER_FILE_NAME, SERVER_PATH};
use zed_client::path::join_path;

#[test]
fn install_paths_are_fixed() {
    assert_eq!(SERVER_DIRECTORY, "server");
    assert_eq!(SERVER_FILE_NAME, "server.bundle.js");
    assert_eq!(SERVER_PATH, "server/server.bundle.js");
}

#[test]
fn server_is_installed_in_the_server_directory() {
    assert_eq!(join_path(SERVER_DIRECTORY, SERVER_FILE_NAME), SERVER_PATH);
}

#[test]
fn install_starts_with_the_directory() {
    assert_eq!(InstallStep::first(), InstallStep::CreateDirectory);
    assert_eq!(InstallStep::first().target(), Some("server"));
}

#[test]
fn install_writes_the_bundle_after_the_directory() {
    let step = InstallStep::first().next(StepOutcome::Succeeded);
    assert_eq!(step, InstallStep::WriteBundle);
    assert_eq!(step.target(), Some("server/server.bundle.js"));
}

#[test]
fn install_ends_after_the_bundle() {
    let step = InstallStep::WriteBundle.next(StepOutcome::Succeeded);
    assert_eq!(step, InstallStep::Finished);
    assert_eq!(step.target(), None);
    assert_eq!(step.next(StepOutcome::Succeeded), InstallStep::Finished);
}

#[test]
fn install_goes_on_after_a_failure() {
    assert_eq!(InstallStep::CreateDirectory.next(StepOutcome::Failed), InstallStep::WriteBundle);
    assert_eq!(InstallStep::WriteBundle.next(StepOutcome::Failed), InstallStep::Finished);
    assert_eq!(InstallStep::Finished.next(StepOutcome::Failed), InstallStep::Finished);
}

#[test]
fn install_takes_two_steps_whatever_happens() {
    for first in [StepOutcome::Succeeded, StepOutcome::Failed] {
        for second in [StepOutcome::Succeeded, StepOutcome::Failed] {
            let mut targets = Vec::new();
            let mut step = InstallStep::first();
            let mut outcomes = vec![second, first];
            while let Some(target) = step.target() {
                targets.push(target);
                step = step.next(outcomes.pop().unwrap());
            }
            assert_eq!(step, InstallStep::Finished);
            assert_eq!(targets, vec!["server", "server/server.bundle.js"]);
        }
    }
}
