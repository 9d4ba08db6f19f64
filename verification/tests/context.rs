use humility::attach::AttachAction;
use humility::attach::AttachState;
use humility::attach::Target;
use humility::context::ArchiveSource;
use humility::context::Precedence;
use humility::Cli;
use humility::Error;
use humility::ExecutionContext;
use humility::Subcommand;

fn cli(archive: Option<&str>, dump: Option<&str>) -> Cli {
    Cli {
        verbose: false,
        version: false,
        chip: "STM32F407VGTx".to_string(),
        probe: None,
        archive: archive.map(|s| s.to_string()),
        dump: dump.map(|s| s.to_string()),
        cmd: Some(Subcommand::Other(vec!["flash".to_string()])),
    }
}

#[test]
fn a_new_session_is_empty() {
    let context = ExecutionContext::new(cli(Some("a.zip"), None), 0, 1).unwrap();
    assert_eq!(context.core, AttachState::Detached);
    assert!(context.history.is_empty());
    assert_eq!(context.archive, None);
    assert_eq!(context.cli.archive, Some("a.zip".to_string()));
    assert_eq!(context.cli.dump, None);
    assert_eq!(context.cli.chip, "STM32F407VGTx");
    assert_eq!(context.source(), Some(ArchiveSource::Archive("a.zip".to_string())));
}

#[test]
fn one_source_is_taken_wherever_it_comes_from() {
    for (d, a) in [(0, 0), (1, 0), (0, 1), (1, 1), (2, 2)] {
        let context = ExecutionContext::new(cli(None, Some("d.dump")), d, a).unwrap();
        assert_eq!(context.cli.dump, Some("d.dump".to_string()));
        assert_eq!(context.source(), Some(ArchiveSource::Dump("d.dump".to_string())));
        let context = ExecutionContext::new(cli(None, None), d, a).unwrap();
        assert_eq!(context.source(), None);
    }
}

#[test]
fn both_on_the_command_line_conflict() {
    let made = ExecutionContext::new(cli(Some("a.zip"), Some("d.dump")), 1, 1);
    assert_eq!(made.err(), Some(Error::ConflictingSources));
    assert_eq!(Error::ConflictingSources.message(), "cannot specify both a dump and an archive");
}

#[test]
fn both_from_the_environment_are_ambiguous() {
    let made = ExecutionContext::new(cli(Some("a.zip"), Some("d.dump")), 0, 0);
    assert_eq!(made.err(), Some(Error::AmbiguousEnvironment));
    let made = ExecutionContext::new(cli(Some("a.zip"), Some("d.dump")), 2, 0);
    assert_eq!(made.err(), Some(Error::AmbiguousEnvironment));
}

#[test]
fn the_command_line_wins_over_the_environment() {
    let context = ExecutionContext::new(cli(Some("a.zip"), Some("d.dump")), 1, 0).unwrap();
    assert_eq!(context.cli.archive, None);
    assert_eq!(context.cli.dump, Some("d.dump".to_string()));
    assert_eq!(context.source(), Some(ArchiveSource::Dump("d.dump".to_string())));
    let context = ExecutionContext::new(cli(Some("a.zip"), Some("d.dump")), 0, 1).unwrap();
    assert_eq!(context.cli.archive, Some("a.zip".to_string()));
    assert_eq!(context.cli.dump, None);
    assert_eq!(context.source(), Some(ArchiveSource::Archive("a.zip".to_string())));
}

#[test]
fn the_history_keeps_its_order() {
    let mut context = ExecutionContext::new(cli(None, None), 0, 0).unwrap();
    context.record("flash\n".to_string());
    context.record("rot-sprocket -g\n".to_string());
    assert_eq!(context.history, vec!["flash\n".to_string(), "rot-sprocket -g\n".to_string()]);
}

#[test]
fn ending_a_session_releases_the_target() {
    let mut context = ExecutionContext::new(cli(None, None), 0, 0).unwrap();
    assert_eq!(context.teardown(), AttachAction::Nothing);
    context.core = AttachState::Attached(Target { probe: "auto".to_string(), chip: "c".to_string() });
    context.record("x".to_string());
    assert_eq!(context.teardown(), AttachAction::Release);
    assert_eq!(context.core, AttachState::Detached);
    assert_eq!(context.history, vec!["x".to_string()]);
    assert_eq!(context.teardown(), AttachAction::Nothing);
}

#[test]
fn the_operator_is_told_which_source_was_kept() {
    let both = cli(Some("a.zip"), Some("d.dump"));
    assert_eq!(ExecutionContext::precedence(&both, 1, 0), Some(Precedence::DumpOverArchive));
    assert_eq!(ExecutionContext::precedence(&both, 0, 1), Some(Precedence::ArchiveOverDump));
    assert_eq!(ExecutionContext::precedence(&both, 1, 1), None);
    assert_eq!(ExecutionContext::precedence(&both, 0, 0), None);
    assert_eq!(ExecutionContext::precedence(&both, 2, 1), Some(Precedence::ArchiveOverDump));
    assert_eq!(ExecutionContext::precedence(&cli(Some("a.zip"), None), 0, 1), None);
    assert_eq!(ExecutionContext::precedence(&cli(None, Some("d.dump")), 1, 0), None);
}
