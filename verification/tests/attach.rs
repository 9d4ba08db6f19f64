use humility::attach::bytes_equal;
use humility::attach::judge;
use humility::attach::ArchiveRecord;
use humility::attach::Attach;
use humility::attach::AttachAction;
use humility::attach::AttachState;
use humility::attach::LiveTarget;
use humility::attach::Target;
use humility::attach::Validate;
use humility::error::Error;
use humility::error::MismatchReason;

fn target(probe: &str, chip: &str) -> Target {
    Target { probe: probe.to_string(), chip: chip.to_string() }
}

fn record() -> ArchiveRecord {
    ArchiveRecord { identity: vec![1, 2, 3], image: vec![9, 8, 7, 6] }
}

fn live(responsive: bool, identity: &[u8], image: &[u8]) -> LiveTarget {
    LiveTarget { responsive, identity: identity.to_vec(), image: image.to_vec() }
}

#[test]
fn bytes_equal_compares_contents() {
    assert!(bytes_equal(&vec![], &vec![]));
    assert!(bytes_equal(&vec![1, 2], &vec![1, 2]));
    assert!(!bytes_equal(&vec![1, 2], &vec![1, 3]));
    assert!(!bytes_equal(&vec![1, 2], &vec![1, 2, 3]));
    assert!(!bytes_equal(&vec![1], &vec![]));
}

#[test]
fn judge_skip_asks_nothing() {
    assert_eq!(judge(Validate::Skip, &live(false, &[], &[]), &record()), Ok(()));
}

#[test]
fn judge_booted_needs_an_answer() {
    assert_eq!(judge(Validate::Booted, &live(true, &[], &[]), &record()), Ok(()));
    assert_eq!(
        judge(Validate::Booted, &live(false, &[1, 2, 3], &[9, 8, 7, 6]), &record()),
        Err(MismatchReason::NotBooted)
    );
}

#[test]
fn judge_match_compares_identities() {
    assert_eq!(judge(Validate::Match, &live(true, &[1, 2, 3], &[]), &record()), Ok(()));
    assert_eq!(
        judge(Validate::Match, &live(true, &[1, 2, 4], &[9, 8, 7, 6]), &record()),
        Err(MismatchReason::IdentityDiffers)
    );
    assert_eq!(
        judge(Validate::Match, &live(false, &[1, 2, 3], &[]), &record()),
        Err(MismatchReason::NotBooted)
    );
}

#[test]
fn judge_archive_match_compares_images() {
    assert_eq!(judge(Validate::ArchiveMatch, &live(true, &[], &[9, 8, 7, 6]), &record()), Ok(()));
    assert_eq!(
        judge(Validate::ArchiveMatch, &live(true, &[1, 2, 3], &[9, 8, 7]), &record()),
        Err(MismatchReason::ImageDiffers)
    );
    assert_eq!(
        judge(Validate::ArchiveMatch, &live(false, &[], &[9, 8, 7, 6]), &record()),
        Err(MismatchReason::NotBooted)
    );
}

#[test]
fn a_detached_session_attaches_on_request() {
    let mut state = AttachState::new();
    assert_eq!(state, AttachState::Detached);
    assert!(!state.holds());
    let action = state.request(Attach::LiveOnly, target("auto", "STM32H753ZITx"));
    assert_eq!(action, Ok(AttachAction::Open(target("auto", "STM32H753ZITx"))));
    assert_eq!(state, AttachState::Attaching(target("auto", "STM32H753ZITx")));
    assert!(!state.holds());
    assert_eq!(state.opened(true), Ok(()));
    assert_eq!(state, AttachState::Attached(target("auto", "STM32H753ZITx")));
    assert!(state.holds());
}

#[test]
fn a_refused_attach_leaves_the_session_detached() {
    let mut state = AttachState::new();
    let _ = state.request(Attach::Any, target("p", "c"));
    assert_eq!(state.opened(false), Err(Error::ProbeAttachFailure));
    assert_eq!(state, AttachState::Detached);
    assert_eq!(state.opened(true), Err(Error::ProbeAttachFailure));
    assert_eq!(state, AttachState::Detached);
}

#[test]
fn a_command_without_need_asks_nothing() {
    let mut state = AttachState::new();
    assert_eq!(state.request(Attach::Skip, target("p", "c")), Ok(AttachAction::Nothing));
    assert_eq!(state, AttachState::Detached);
}

#[test]
fn reattaching_to_the_same_target_is_a_no_op() {
    let mut state = AttachState::Attached(target("p", "c"));
    assert_eq!(state.request(Attach::Any, target("p", "c")), Ok(AttachAction::Nothing));
    assert_eq!(state, AttachState::Attached(target("p", "c")));
    assert_eq!(state.request(Attach::LiveOnly, target("p", "c")), Ok(AttachAction::Nothing));
    assert_eq!(state, AttachState::Attached(target("p", "c")));
}

#[test]
fn a_second_target_is_refused() {
    let mut state = AttachState::Attached(target("p", "c"));
    assert_eq!(state.request(Attach::Any, target("p", "d")), Err(Error::ProbeAttachFailure));
    assert_eq!(state.request(Attach::Any, target("q", "c")), Err(Error::ProbeAttachFailure));
    assert_eq!(state, AttachState::Attached(target("p", "c")));
    let mut state = AttachState::Validated(target("p", "c"), Validate::Booted);
    assert_eq!(state.request(Attach::LiveOnly, target("q", "c")), Err(Error::ProbeAttachFailure));
    assert_eq!(state, AttachState::Validated(target("p", "c"), Validate::Booted));
    let mut state = AttachState::Attaching(target("p", "c"));
    assert_eq!(state.request(Attach::Any, target("p", "c")), Err(Error::ProbeAttachFailure));
    assert_eq!(state, AttachState::Attaching(target("p", "c")));
}

#[test]
fn live_only_gives_up_an_earlier_validation() {
    let mut state = AttachState::Validated(target("p", "c"), Validate::Match);
    assert_eq!(state.request(Attach::Any, target("p", "c")), Ok(AttachAction::Nothing));
    assert_eq!(state, AttachState::Validated(target("p", "c"), Validate::Match));
    assert!(!state.needs_check(Attach::Any, Validate::Match));
    assert!(state.needs_check(Attach::Any, Validate::Booted));
    assert!(state.needs_check(Attach::LiveOnly, Validate::Match));
    assert!(!state.needs_check(Attach::LiveOnly, Validate::Skip));
    assert_eq!(state.request(Attach::LiveOnly, target("p", "c")), Ok(AttachAction::Nothing));
    assert_eq!(state, AttachState::Attached(target("p", "c")));
    assert!(state.needs_check(Attach::Any, Validate::Match));
}

#[test]
fn validation_passes_or_names_what_stands_against_it() {
    let mut state = AttachState::Attached(target("p", "c"));
    assert_eq!(state.validate(Validate::Booted, &live(true, &[], &[]), &record()), Ok(()));
    assert_eq!(state, AttachState::Validated(target("p", "c"), Validate::Booted));
    assert_eq!(
        state.validate(Validate::Match, &live(true, &[0], &[]), &record()),
        Err(Error::ValidationMismatch(MismatchReason::IdentityDiffers))
    );
    assert_eq!(state, AttachState::Attached(target("p", "c")));
    assert_eq!(
        state.validate(Validate::ArchiveMatch, &live(true, &[], &[0]), &record()),
        Err(Error::ValidationMismatch(MismatchReason::ImageDiffers))
    );
    assert_eq!(
        state.validate(Validate::Booted, &live(false, &[], &[]), &record()),
        Err(Error::ValidationMismatch(MismatchReason::NotBooted))
    );
    assert_eq!(state.validate(Validate::ArchiveMatch, &live(true, &[], &[9, 8, 7, 6]), &record()), Ok(()));
    assert_eq!(state, AttachState::Validated(target("p", "c"), Validate::ArchiveMatch));
    assert_eq!(state.validate(Validate::Skip, &live(false, &[], &[]), &record()), Ok(()));
    assert_eq!(state, AttachState::Validated(target("p", "c"), Validate::ArchiveMatch));
}

#[test]
fn nothing_is_validated_without_a_target() {
    let mut state = AttachState::Detached;
    assert_eq!(
        state.validate(Validate::Booted, &live(true, &[], &[]), &record()),
        Err(Error::ProbeAttachFailure)
    );
    assert_eq!(state, AttachState::Detached);
    let mut state = AttachState::Attaching(target("p", "c"));
    assert_eq!(
        state.validate(Validate::Skip, &live(true, &[], &[]), &record()),
        Err(Error::ProbeAttachFailure)
    );
}

#[test]
fn teardown_releases_whatever_was_asked_for() {
    let mut state = AttachState::Detached;
    assert_eq!(state.teardown(), AttachAction::Nothing);
    for start in [
        AttachState::Attaching(target("p", "c")),
        AttachState::Attached(target("p", "c")),
        AttachState::Validated(target("p", "c"), Validate::Match),
    ] {
        let mut state = start;
        assert_eq!(state.teardown(), AttachAction::Release);
        assert_eq!(state, AttachState::Detached);
    }
}

#[test]
fn target_same_compares_both_names() {
    assert!(target("p", "c").same(&target("p", "c")));
    assert!(!target("p", "c").same(&target("p", "d")));
    assert!(!target("p", "c").same(&target("q", "c")));
    assert_eq!(target("p", "c").duplicate(), target("p", "c"));
    assert_eq!(ArchiveRecord::empty(), ArchiveRecord { identity: vec![], image: vec![] });
}

#[test]
fn a_change_of_the_target_ends_its_validation() {
    let mut state = AttachState::Validated(target("p", "c"), Validate::ArchiveMatch);
    state.invalidate();
    assert_eq!(state, AttachState::Attached(target("p", "c")));
    state.invalidate();
    assert_eq!(state, AttachState::Attached(target("p", "c")));
    for start in [AttachState::Detached, AttachState::Attaching(target("p", "c"))] {
        let mut state = start.clone();
        state.invalidate();
        assert_eq!(state, start);
    }
}
