use openlogi::config_recovery::{
    error_chain, resolve, ErrorReport, Recovery, RecoveryAction, RecoveryEvent,
    BACK_UP_AND_USE_DEFAULTS, CLOSE_WITHOUT_CHANGES,
};

fn report(message: &str, causes: &[&str]) -> ErrorReport {
    ErrorReport {
        message: message.to_string(),
        causes: causes.iter().map(|cause| cause.to_string()).collect(),
    }
}

#[test]
fn error_chain_lists_all_causes() {
    assert_eq!(error_chain(&report("could not load", &[])), "could not load");
    assert_eq!(
        error_chain(&report("could not load", &["invalid TOML", "line 3"])),
        "could not load: invalid TOML: line 3"
    );
}

#[test]
fn user_is_asked_first() {
    let (recovery, action) = resolve(&report("could not load", &["invalid TOML"]));
    assert_eq!(recovery, Recovery::Asking);
    assert_eq!(
        action,
        RecoveryAction::Ask { error: "could not load: invalid TOML".to_string() }
    );
}

#[test]
fn anything_but_the_backup_answer_closes_without_changes() {
    for event in [
        RecoveryEvent::OpenFailed,
        RecoveryEvent::Answered(None),
        RecoveryEvent::Answered(Some(CLOSE_WITHOUT_CHANGES)),
        RecoveryEvent::Answered(Some(2)),
    ] {
        assert_eq!(
            Recovery::Asking.advance(event),
            (Recovery::Over, RecoveryAction::Close)
        );
    }
}

#[test]
fn defaults_are_used_after_a_backup() {
    let (recovery, action) =
        Recovery::Asking.advance(RecoveryEvent::Answered(Some(BACK_UP_AND_USE_DEFAULTS)));
    assert_eq!((recovery, action), (Recovery::BackingUp, RecoveryAction::BackUp));
    assert_eq!(
        recovery.advance(RecoveryEvent::BackedUp),
        (Recovery::Over, RecoveryAction::UseDefaults)
    );
}

#[test]
fn failed_backup_is_reported_and_closes() {
    let (recovery, action) = Recovery::BackingUp
        .advance(RecoveryEvent::BackUpFailed(report("could not rename", &["read-only"])));
    assert_eq!(recovery, Recovery::Reporting);
    assert_eq!(
        action,
        RecoveryAction::Report { error: "could not rename: read-only".to_string() }
    );
    assert_eq!(
        recovery.advance(RecoveryEvent::Acknowledged),
        (Recovery::Over, RecoveryAction::Close)
    );
}
