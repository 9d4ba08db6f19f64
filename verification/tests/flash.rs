use humility::attach::ArchiveRecord;
use humility::attach::Attach;
use humility::attach::AttachAction;
use humility::attach::AttachState;
use humility::attach::LiveTarget;
use humility::attach::Target;
use humility::attach::Validate;
use humility::chip::ChipIdentifier;
use humility::chip::FlashArgument;
use humility::chip::FlashConfig;
use humility::chip::FlashProgram;
use humility::chip::FlashProgramConfig;
use humility::cmd::Archive;
use humility::cmd::Handler;
use humility::context::ArchiveSource;
use humility::context::LoadedArchive;
use humility::error::Error;
use humility::flash::init;
use humility::flash::FlashAction;
use humility::flash::FlashArgs;
use humility::flash::FlashEvent;
use humility::flash::FlashOrchestrator;
use humility::flash::FlashPhase;
use humility::flash::FlashReport;
use humility::Cli;
use humility::ExecutionContext;
use humility::Subcommand;

fn args(force: bool, dryrun: bool, retain: bool) -> FlashArgs {
    FlashArgs { force, dryrun, retain }
}

fn session(probe: Option<&str>) -> ExecutionContext {
    let cli = Cli {
        verbose: false,
        version: false,
        chip: "STM32F407VGTx".to_string(),
        probe: probe.map(|p| p.to_string()),
        archive: Some("a.zip".to_string()),
        dump: None,
        cmd: Some(Subcommand::Other(vec!["flash".to_string()])),
    };
    let mut context = ExecutionContext::new(cli, 0, 1).unwrap();
    context.archive = Some(LoadedArchive {
        source: ArchiveSource::Archive("a.zip".to_string()),
        record: ArchiveRecord { identity: vec![7], image: vec![1, 2, 3] },
    });
    context
}

fn same() -> LiveTarget {
    LiveTarget { responsive: true, identity: vec![7], image: vec![1, 2, 3] }
}

fn other() -> LiveTarget {
    LiveTarget { responsive: true, identity: vec![7], image: vec![1, 2, 4] }
}

fn silent() -> LiveTarget {
    LiveTarget { responsive: false, identity: vec![], image: vec![1, 2, 3] }
}

fn config() -> FlashConfig {
    FlashConfig {
        program: FlashProgram::OpenOcd(FlashProgramConfig::Payload(
            "source [find target/stm32h7x.cfg]\n".to_string(),
        )),
        args: vec![FlashArgument::Config, FlashArgument::Payload],
    }
}

fn h7() -> Target {
    Target { probe: "auto".to_string(), chip: "STM32H753ZITx".to_string() }
}

fn feed(
    flash: &mut FlashOrchestrator,
    context: &mut ExecutionContext,
    events: Vec<FlashEvent>,
) -> Vec<FlashAction> {
    let table = ChipIdentifier::new();
    events.into_iter().map(|event| flash.step(context, &table, event)).collect()
}

fn path() -> String {
    "/tmp/image.ihex".to_string()
}

#[test]
fn a_flash_goes_through_every_step() {
    let mut context = session(None);
    let mut flash = FlashOrchestrator::new(args(false, false, false));
    assert_eq!(flash.phase(), FlashPhase::Configuring);
    assert_eq!(flash.outcome(), None);
    let actions = feed(
        &mut flash,
        &mut context,
        vec![
            FlashEvent::Config(Some(config())),
            FlashEvent::Opened(true),
            FlashEvent::Observed(other()),
            FlashEvent::Staged(Some(path())),
            FlashEvent::Loaded(true),
            FlashEvent::Removed,
        ],
    );
    assert_eq!(
        actions,
        vec![
            FlashAction::Open(h7()),
            FlashAction::Observe,
            FlashAction::Stage,
            FlashAction::Load(path()),
            FlashAction::Remove(path()),
            FlashAction::Finish,
        ]
    );
    assert_eq!(flash.phase(), FlashPhase::Done);
    assert_eq!(flash.artifact(), None);
    assert_eq!(
        flash.outcome(),
        Some(Ok(FlashReport {
            chip: "STM32H753ZITx".to_string(),
            probe: "auto".to_string(),
            artifact: path(),
            retained: false,
            forced: false,
            loaded: true,
        }))
    );
    assert_eq!(context.core, AttachState::Attached(h7()));
    assert!(context.history.is_empty());
    assert_eq!(context.teardown(), AttachAction::Release);
}

#[test]
fn the_chip_comes_from_the_first_rule_that_matches_any_line() {
    let mut context = session(None);
    let mut flash = FlashOrchestrator::new(args(false, false, false));
    let two = FlashConfig {
        program: FlashProgram::OpenOcd(FlashProgramConfig::Payload(
            "find target/stm32g0\nfind target/stm32h7".to_string(),
        )),
        args: vec![],
    };
    let actions = feed(&mut flash, &mut context, vec![FlashEvent::Config(Some(two))]);
    assert_eq!(actions, vec![FlashAction::Open(h7())]);
}

#[test]
fn a_named_probe_is_used() {
    let mut context = session(Some("0483:374e"));
    let mut flash = FlashOrchestrator::new(args(false, false, false));
    let actions = feed(&mut flash, &mut context, vec![FlashEvent::Config(Some(config()))]);
    let target = Target { probe: "0483:374e".to_string(), chip: "STM32H753ZITx".to_string() };
    assert_eq!(actions, vec![FlashAction::Open(target.clone())]);
    assert_eq!(context.core, AttachState::Attaching(target));
}

#[test]
fn a_session_that_holds_the_target_is_not_attached_again() {
    for held in [AttachState::Attached(h7()), AttachState::Validated(h7(), Validate::ArchiveMatch)] {
        let mut context = session(None);
        context.core = held;
        let mut flash = FlashOrchestrator::new(args(false, false, false));
        let actions = feed(
            &mut flash,
            &mut context,
            vec![FlashEvent::Config(Some(config())), FlashEvent::Observed(other())],
        );
        assert_eq!(actions, vec![FlashAction::Observe, FlashAction::Stage]);
        assert_eq!(context.core, AttachState::Attached(h7()));
    }
}

#[test]
fn a_session_that_holds_another_target_is_refused() {
    let mut context = session(None);
    let held = AttachState::Attached(Target { probe: "auto".to_string(), chip: "other".to_string() });
    context.core = held.clone();
    let mut flash = FlashOrchestrator::new(args(true, false, false));
    let actions = feed(&mut flash, &mut context, vec![FlashEvent::Config(Some(config()))]);
    assert_eq!(actions, vec![FlashAction::Finish]);
    assert_eq!(flash.outcome(), Some(Err(Error::ProbeAttachFailure)));
    assert_eq!(context.core, held);
}

#[test]
fn a_malformed_configuration_ends_the_flash() {
    let mut context = session(None);
    let mut flash = FlashOrchestrator::new(args(true, false, false));
    assert_eq!(feed(&mut flash, &mut context, vec![FlashEvent::Config(None)]), vec![FlashAction::Finish]);
    assert_eq!(flash.outcome(), Some(Err(Error::ConfigParseError)));
    assert_eq!(context.core, AttachState::Detached);
}

#[test]
fn an_unknown_chip_ends_the_flash() {
    let mut context = session(None);
    let mut flash = FlashOrchestrator::new(args(true, false, false));
    let unknown = FlashConfig {
        program: FlashProgram::OpenOcd(FlashProgramConfig::Payload(
            "find target/unknown_chip".to_string(),
        )),
        args: vec![],
    };
    let actions = feed(&mut flash, &mut context, vec![FlashEvent::Config(Some(unknown))]);
    assert_eq!(actions, vec![FlashAction::Finish]);
    assert_eq!(flash.outcome(), Some(Err(Error::ChipNotIdentified)));
}

#[test]
fn a_refused_probe_ends_the_flash() {
    let mut context = session(None);
    let mut flash = FlashOrchestrator::new(args(false, false, false));
    let actions = feed(
        &mut flash,
        &mut context,
        vec![FlashEvent::Config(Some(config())), FlashEvent::Opened(false)],
    );
    assert_eq!(actions, vec![FlashAction::Open(h7()), FlashAction::Finish]);
    assert_eq!(flash.outcome(), Some(Err(Error::ProbeAttachFailure)));
    assert_eq!(context.core, AttachState::Detached);
}

#[test]
fn an_archive_that_is_already_flashed_is_refused_without_force() {
    let mut context = session(None);
    let mut flash = FlashOrchestrator::new(args(false, false, false));
    let actions = feed(
        &mut flash,
        &mut context,
        vec![
            FlashEvent::Config(Some(config())),
            FlashEvent::Opened(true),
            FlashEvent::Observed(same()),
            FlashEvent::Staged(Some(path())),
            FlashEvent::Loaded(true),
        ],
    );
    assert_eq!(
        actions,
        vec![
            FlashAction::Open(h7()),
            FlashAction::Observe,
            FlashAction::Finish,
            FlashAction::Wait,
            FlashAction::Wait,
        ]
    );
    assert_eq!(flash.outcome(), Some(Err(Error::AlreadyFlashed)));
    assert!(Error::AlreadyFlashed.recoverable_by_force());
    assert_eq!(context.core, AttachState::Validated(h7(), Validate::ArchiveMatch));
    assert_eq!(context.teardown(), AttachAction::Release);
}

#[test]
fn an_archive_that_is_already_flashed_is_loaded_with_force() {
    let mut context = session(None);
    let mut flash = FlashOrchestrator::new(args(true, false, false));
    let actions = feed(
        &mut flash,
        &mut context,
        vec![
            FlashEvent::Config(Some(config())),
            FlashEvent::Opened(true),
            FlashEvent::Observed(same()),
            FlashEvent::Staged(Some(path())),
            FlashEvent::Loaded(true),
            FlashEvent::Removed,
        ],
    );
    assert_eq!(actions[2], FlashAction::Stage);
    assert_eq!(actions[3], FlashAction::Load(path()));
    assert!(flash.forced());
    let report = flash.outcome().unwrap().unwrap();
    assert!(report.forced);
    assert!(report.loaded);
    assert_eq!(context.core, AttachState::Attached(h7()));
}

#[test]
fn a_target_that_does_not_answer_is_flashed() {
    let mut context = session(None);
    let mut flash = FlashOrchestrator::new(args(false, false, false));
    let actions = feed(
        &mut flash,
        &mut context,
        vec![FlashEvent::Config(Some(config())), FlashEvent::Opened(true), FlashEvent::Observed(silent())],
    );
    assert_eq!(actions[2], FlashAction::Stage);
    assert!(!flash.forced());
}

#[test]
fn a_dry_run_never_loads() {
    for force in [false, true] {
        for retain in [false, true] {
            for live in [same(), other()] {
                let mut context = session(None);
                let mut flash = FlashOrchestrator::new(args(force, true, retain));
                let actions = feed(
                    &mut flash,
                    &mut context,
                    vec![
                        FlashEvent::Config(Some(config())),
                        FlashEvent::Opened(true),
                        FlashEvent::Observed(live),
                        FlashEvent::Staged(Some(path())),
                        FlashEvent::Loaded(true),
                        FlashEvent::Removed,
                        FlashEvent::Loaded(true),
                    ],
                );
                assert!(actions.iter().all(|a| !matches!(a, FlashAction::Load(_))));
            }
        }
    }
}

#[test]
fn a_dry_run_reports_the_plan() {
    let mut context = session(None);
    let mut flash = FlashOrchestrator::new(args(false, true, true));
    let actions = feed(
        &mut flash,
        &mut context,
        vec![
            FlashEvent::Config(Some(config())),
            FlashEvent::Opened(true),
            FlashEvent::Observed(other()),
            FlashEvent::Staged(Some(path())),
        ],
    );
    assert_eq!(actions[3], FlashAction::Finish);
    assert_eq!(
        flash.outcome(),
        Some(Ok(FlashReport {
            chip: "STM32H753ZITx".to_string(),
            probe: "auto".to_string(),
            artifact: path(),
            retained: true,
            forced: false,
            loaded: false,
        }))
    );
    assert_eq!(context.core, AttachState::Attached(h7()));
}

#[test]
fn a_dry_run_removes_the_file_unless_it_is_kept() {
    let mut context = session(None);
    let mut flash = FlashOrchestrator::new(args(false, true, false));
    let actions = feed(
        &mut flash,
        &mut context,
        vec![
            FlashEvent::Config(Some(config())),
            FlashEvent::Opened(true),
            FlashEvent::Observed(other()),
            FlashEvent::Staged(Some(path())),
            FlashEvent::Removed,
        ],
    );
    assert_eq!(actions[3], FlashAction::Remove(path()));
    assert_eq!(actions[4], FlashAction::Finish);
    let report = flash.outcome().unwrap().unwrap();
    assert_eq!(report.artifact, path());
    assert!(!report.retained);
    assert!(!report.loaded);
    assert_eq!(flash.artifact(), None);
}

#[test]
fn a_failed_load_still_removes_the_file_and_is_not_tried_again() {
    let mut context = session(None);
    let mut flash = FlashOrchestrator::new(args(false, false, false));
    let actions = feed(
        &mut flash,
        &mut context,
        vec![
            FlashEvent::Config(Some(config())),
            FlashEvent::Opened(true),
            FlashEvent::Observed(other()),
            FlashEvent::Staged(Some(path())),
            FlashEvent::Loaded(false),
            FlashEvent::Loaded(true),
            FlashEvent::Removed,
        ],
    );
    assert_eq!(actions[4], FlashAction::Remove(path()));
    assert_eq!(actions[5], FlashAction::Wait);
    assert_eq!(actions[6], FlashAction::Finish);
    assert_eq!(actions.iter().filter(|a| matches!(a, FlashAction::Load(_))).count(), 1);
    assert_eq!(flash.outcome(), Some(Err(Error::FlashWriteFailure)));
    assert_eq!(flash.artifact(), None);
}

#[test]
fn a_kept_file_is_never_removed() {
    let mut context = session(None);
    let mut flash = FlashOrchestrator::new(args(false, false, true));
    let actions = feed(
        &mut flash,
        &mut context,
        vec![
            FlashEvent::Config(Some(config())),
            FlashEvent::Opened(true),
            FlashEvent::Observed(other()),
            FlashEvent::Staged(Some(path())),
            FlashEvent::Loaded(false),
            FlashEvent::Removed,
        ],
    );
    assert!(actions.iter().all(|a| !matches!(a, FlashAction::Remove(_))));
    assert_eq!(actions[4], FlashAction::Finish);
    assert_eq!(actions[5], FlashAction::Wait);
    assert_eq!(flash.artifact(), Some(path()));
    assert_eq!(flash.outcome(), Some(Err(Error::FlashWriteFailure)));
}

#[test]
fn a_load_leaves_the_target_attached_and_not_validated() {
    let mut context = session(None);
    let mut flash = FlashOrchestrator::new(args(true, false, true));
    feed(
        &mut flash,
        &mut context,
        vec![
            FlashEvent::Config(Some(config())),
            FlashEvent::Opened(true),
            FlashEvent::Observed(same()),
            FlashEvent::Staged(Some(path())),
        ],
    );
    assert_eq!(context.core, AttachState::Validated(h7(), Validate::ArchiveMatch));
    feed(&mut flash, &mut context, vec![FlashEvent::Loaded(true)]);
    assert_eq!(context.core, AttachState::Attached(h7()));
}

#[test]
fn a_file_that_cannot_be_written_ends_the_flash() {
    let mut context = session(None);
    let mut flash = FlashOrchestrator::new(args(false, false, false));
    let actions = feed(
        &mut flash,
        &mut context,
        vec![
            FlashEvent::Config(Some(config())),
            FlashEvent::Opened(true),
            FlashEvent::Observed(other()),
            FlashEvent::Staged(None),
        ],
    );
    assert_eq!(actions[3], FlashAction::Finish);
    assert_eq!(flash.outcome(), Some(Err(Error::ArtifactFailure)));
    assert_eq!(context.core, AttachState::Attached(h7()));
}

#[test]
fn an_event_out_of_turn_changes_nothing() {
    let mut context = session(None);
    let mut flash = FlashOrchestrator::new(args(false, false, false));
    let actions = feed(
        &mut flash,
        &mut context,
        vec![
            FlashEvent::Loaded(true),
            FlashEvent::Opened(true),
            FlashEvent::Staged(Some(path())),
            FlashEvent::Removed,
        ],
    );
    assert_eq!(actions, vec![FlashAction::Wait, FlashAction::Wait, FlashAction::Wait, FlashAction::Wait]);
    assert_eq!(flash.phase(), FlashPhase::Configuring);
    assert_eq!(context.core, AttachState::Detached);
    let mut done = FlashOrchestrator::new(args(false, false, false));
    feed(&mut done, &mut context, vec![FlashEvent::Config(None)]);
    let actions = feed(&mut done, &mut context, vec![FlashEvent::Config(Some(config()))]);
    assert_eq!(actions, vec![FlashAction::Wait]);
    assert_eq!(done.outcome(), Some(Err(Error::ConfigParseError)));
}

#[test]
fn flash_command_requires_an_archive_and_attaches_by_itself() {
    let command = init();
    assert_eq!(command.name, "flash");
    assert_eq!(command.archive, Archive::Required);
    assert_eq!(command.attach, Attach::Skip);
    assert_eq!(command.validate, Validate::Skip);
    assert_eq!(command.run, Handler::Flash);
}
