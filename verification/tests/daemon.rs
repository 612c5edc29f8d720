use tgdyk::daemon::DaemonStage;

fn life(failing: Option<DaemonStage>) -> Vec<DaemonStage> {
    let mut stage = DaemonStage::CheckSession;
    let mut seen = vec![stage];
    while stage != DaemonStage::Finished {
        stage = stage.next(failing != Some(stage));
        seen.push(stage);
    }
    seen
}

#[test]
fn daemon_runs_through_its_stages() {
    let whole = vec![
        DaemonStage::CheckSession,
        DaemonStage::CreateClient,
        DaemonStage::BindSocket,
        DaemonStage::Serve,
        DaemonStage::StopReceiver,
        DaemonStage::RemoveSocket,
        DaemonStage::Finished,
    ];
    assert_eq!(life(None), whole);
    assert_eq!(life(Some(DaemonStage::Serve)), whole);
    assert_eq!(life(Some(DaemonStage::StopReceiver)), whole);
    assert_eq!(life(Some(DaemonStage::RemoveSocket)), whole);
}

#[test]
fn daemon_that_cannot_start_ends() {
    assert_eq!(
        life(Some(DaemonStage::CheckSession)),
        vec![DaemonStage::CheckSession, DaemonStage::Finished]
    );
    assert_eq!(life(Some(DaemonStage::CreateClient)).len(), 3);
    assert_eq!(life(Some(DaemonStage::BindSocket)).len(), 4);
}

#[test]
fn cleaning_up_does_not_fail_the_command() {
    assert!(DaemonStage::CheckSession.fails_command());
    assert!(DaemonStage::CreateClient.fails_command());
    assert!(DaemonStage::BindSocket.fails_command());
    assert!(DaemonStage::Serve.fails_command());
    assert!(!DaemonStage::StopReceiver.fails_command());
    assert!(!DaemonStage::RemoveSocket.fails_command());
    assert!(!DaemonStage::Finished.fails_command());
}
