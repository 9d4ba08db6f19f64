//! Reprogramming a target with the image of an archive.
//!
//! The steps are: read the archive's flash configuration, find the chip it
//! is meant for, attach where the session does not hold that target yet,
//! look whether the target already runs the archive, write the image out
//! as a temporary file, have the transport load it, and remove the file.
//! [`FlashOrchestrator`] decides each step from the outcome of the one
//! before; the caller performs them. The target is the session's: it is
//! held when the reprogramming is done, and let go of when the session
//! ends.

use vstd::prelude::*;
use vstd::string::StringExecFns;
use crate::attach::ActionModel;
use crate::attach::ArchiveRecord;
use crate::attach::Attach;
use crate::attach::AttachAction;
use crate::attach::AttachModel;
use crate::attach::LiveTarget;
use crate::attach::Target;
use crate::attach::Validate;
use crate::attach::judge_spec;
use crate::chip::ChipIdentifier;
use crate::chip::FlashConfig;
use crate::chip::program_chip_spec;
use crate::cli::Cli;
use crate::cmd::Archive;
use crate::cmd::Command;
use crate::cmd::Handler;
use crate::cmd::record_of;
use crate::context::ExecutionContext;
use crate::context::SessionModel;
use crate::error::Error;

verus! {

/// The operator's options for one reprogramming.
#[derive(Clone, Copy, Debug, PartialEq, Eq, Structural)]
pub struct FlashArgs {
    /// Reprogram even where the target already runs the archive.
    pub force: bool,
    /// Stop before the image is loaded, and report what would be done.
    pub dryrun: bool,
    /// Keep the temporary file, and report its path.
    pub retain: bool,
}

/// The step that a reprogramming waits at.
#[derive(Clone, Copy, Debug, PartialEq, Eq, Structural)]
pub enum FlashPhase {
    /// For the archive's flash configuration.
    Configuring,
    /// For the transport to attach.
    Attaching,
    /// For what the target holds.
    Probing,
    /// For the temporary file to be written.
    Staging,
    /// For the transport to load the image.
    Loading,
    /// For the temporary file to be removed.
    Removing,
    /// For nothing: the outcome stands.
    Done,
}

/// What happened to the step that was asked for.
#[derive(Clone, Debug)]
pub enum FlashEvent {
    /// The flash configuration was read, or was malformed.
    Config(Option<FlashConfig>),
    /// The transport attached, or refused.
    Opened(bool),
    /// The target was read.
    Observed(LiveTarget),
    /// The temporary file was written to this path, or could not be written.
    Staged(Option<String>),
    /// The transport loaded the image, or failed.
    Loaded(bool),
    /// The temporary file is gone.
    Removed,
}

/// The step to perform next.
#[derive(Clone, Debug, PartialEq, Eq)]
pub enum FlashAction {
    /// None: the event was not the one waited for.
    Wait,
    /// Attach to this target.
    Open(Target),
    /// Read what the target holds.
    Observe,
    /// Write the image out as a temporary file.
    Stage,
    /// Have the transport load the file at this path.
    Load(String),
    /// Remove the file at this path.
    Remove(String),
    /// Report the outcome.
    Finish,
}

/// A [`FlashAction`] with its texts as sequences.
pub enum FlashActionModel {
    Wait,
    Open((Seq<char>, Seq<char>)),
    Observe,
    Stage,
    Load(Seq<char>),
    Remove(Seq<char>),
    Finish,
}

impl View for FlashAction {
    type V = FlashActionModel;

    open spec fn view(&self) -> FlashActionModel {
        match *self {
            FlashAction::Wait => FlashActionModel::Wait,
            FlashAction::Open(t) => FlashActionModel::Open(t@),
            FlashAction::Observe => FlashActionModel::Observe,
            FlashAction::Stage => FlashActionModel::Stage,
            FlashAction::Load(path) => FlashActionModel::Load(path@),
            FlashAction::Remove(path) => FlashActionModel::Remove(path@),
            FlashAction::Finish => FlashActionModel::Finish,
        }
    }
}

/// What a reprogramming that went through has done, or would do.
#[derive(Clone, Debug, PartialEq, Eq)]
pub struct FlashReport {
    /// The chip that the configuration is meant for.
    pub chip: String,
    /// The probe that was used.
    pub probe: String,
    /// The path to which the image was written out.
    pub artifact: String,
    /// Whether the file at that path was kept.
    pub retained: bool,
    /// Whether the target already ran the archive and was reprogrammed all the same.
    pub forced: bool,
    /// Whether the image was loaded: not so in a dry run.
    pub loaded: bool,
}

/// A [`FlashReport`] with its texts as sequences.
pub struct ReportModel {
    pub chip: Seq<char>,
    pub probe: Seq<char>,
    pub artifact: Seq<char>,
    pub retained: bool,
    pub forced: bool,
    pub loaded: bool,
}

impl View for FlashReport {
    type V = ReportModel;

    open spec fn view(&self) -> ReportModel {
        ReportModel {
            chip: self.chip@,
            probe: self.probe@,
            artifact: self.artifact@,
            retained: self.retained,
            forced: self.forced,
            loaded: self.loaded,
        }
    }
}

/// One reprogramming, from the configuration to the outcome.
pub struct FlashOrchestrator {
    args: FlashArgs,
    phase: FlashPhase,
    target: Option<Target>,
    staged: Option<String>,
    artifact: Option<String>,
    forced: bool,
    failure: Option<Error>,
}

/// A [`FlashOrchestrator`] as plain values.
pub struct FlashModel {
    /// The operator's options.
    pub args: FlashArgs,
    /// The step that is waited at.
    pub phase: FlashPhase,
    /// The probe and the chip, once the chip is found.
    pub target: Option<(Seq<char>, Seq<char>)>,
    /// The path to which the image was written out, once it was.
    pub staged: Option<Seq<char>>,
    /// The path of the temporary file, while there is one.
    pub artifact: Option<Seq<char>>,
    /// Whether the target already ran the archive and is reprogrammed all the same.
    pub forced: bool,
    /// What went wrong, if anything.
    pub failure: Option<Error>,
}

/// The probe that the options name, or `auto` where they name none.
pub open spec fn probe_of(cli: Cli) -> Seq<char> {
    match cli.probe {
        Some(probe) => probe@,
        None => "auto"@,
    }
}

impl FlashModel {
    /// What holds of a reprogramming and the session's attachment at each
    /// step: the target is held from the moment the transport attached,
    /// there is a temporary file only between its writing and its removal,
    /// and one that is still there at the end was asked to be kept.
    pub open spec fn wf(self, core: AttachModel) -> bool {
        &&& self.artifact is Some ==> self.staged == self.artifact
        &&& match self.phase {
            FlashPhase::Configuring => self.target is None && self.staged is None
                && self.failure is None && !self.forced,
            FlashPhase::Attaching => self.target is Some && core == AttachModel::Attaching(
                self.target->0,
            ) && self.staged is None && self.failure is None && !self.forced,
            FlashPhase::Probing => self.target is Some && core.holds() && core.target()
                == self.target && self.staged is None && self.failure is None && !self.forced,
            FlashPhase::Staging => self.target is Some && core.holds() && self.staged is None
                && self.failure is None,
            FlashPhase::Loading => self.target is Some && core.holds() && self.artifact is Some
                && self.failure is None && !self.args.dryrun,
            FlashPhase::Removing => self.target is Some && self.artifact is Some
                && !self.args.retain,
            FlashPhase::Done => (self.artifact is Some ==> self.args.retain) && (self.failure
                is None ==> self.target is Some && self.staged is Some),
        }
    }

    /// A reprogramming that has not begun.
    pub open spec fn initial(args: FlashArgs) -> FlashModel {
        FlashModel {
            args,
            phase: FlashPhase::Configuring,
            target: None,
            staged: None,
            artifact: None,
            forced: false,
            failure: None,
        }
    }

    /// This reprogramming ended by `failure`.
    pub open spec fn failed(self, failure: Error) -> FlashModel {
        FlashModel { phase: FlashPhase::Done, failure: Some(failure), ..self }
    }

    /// The step that ends a reprogramming with the outcome `failure`: the
    /// temporary file, where there is one and it is not to be kept, is
    /// removed first.
    pub open spec fn wind_down(self, failure: Option<Error>) -> (FlashModel, FlashActionModel) {
        if self.artifact is Some && !self.args.retain {
            (
                FlashModel { phase: FlashPhase::Removing, failure, ..self },
                FlashActionModel::Remove(self.artifact->0),
            )
        } else {
            (FlashModel { phase: FlashPhase::Done, failure, ..self }, FlashActionModel::Finish)
        }
    }

    /// The reprogramming and the session after `event`, and the step to
    /// perform next.
    ///
    /// An event other than the one that the reprogramming waits for changes
    /// nothing and asks for nothing.
    pub open spec fn step(self, session: SessionModel, table: ChipIdentifier, event: FlashEvent)
        -> (FlashModel, SessionModel, FlashActionModel) {
        match (self.phase, event) {
            (FlashPhase::Configuring, FlashEvent::Config(None)) => (
                self.failed(Error::ConfigParseError),
                session,
                FlashActionModel::Finish,
            ),
            (FlashPhase::Configuring, FlashEvent::Config(Some(config))) => match program_chip_spec(
                table,
                config.program,
            ) {
                None => (
                    self.failed(Error::ChipNotIdentified),
                    session,
                    FlashActionModel::Finish,
                ),
                Some(chip) => {
                    let target = (probe_of(session.cli), chip);
                    let asked = SessionModel {
                        core: session.core.after_request(Attach::LiveOnly, target),
                        ..session
                    };
                    match session.core.request_answer(Attach::LiveOnly, target) {
                        Err(e) => (self.failed(e), asked, FlashActionModel::Finish),
                        Ok(ActionModel::Open(wanted)) => (
                            FlashModel {
                                phase: FlashPhase::Attaching,
                                target: Some(target),
                                ..self
                            },
                            asked,
                            FlashActionModel::Open(wanted),
                        ),
                        Ok(_) => (
                            FlashModel {
                                phase: FlashPhase::Probing,
                                target: Some(target),
                                ..self
                            },
                            asked,
                            FlashActionModel::Observe,
                        ),
                    }
                },
            },
            (FlashPhase::Attaching, FlashEvent::Opened(ok)) => {
                let answered = SessionModel { core: session.core.after_opened(ok), ..session };
                if answered.core.holds() {
                    (
                        FlashModel { phase: FlashPhase::Probing, ..self },
                        answered,
                        FlashActionModel::Observe,
                    )
                } else {
                    (
                        self.failed(Error::ProbeAttachFailure),
                        answered,
                        FlashActionModel::Finish,
                    )
                }
            },
            (FlashPhase::Probing, FlashEvent::Observed(live)) => {
                let record = record_of(session.archive);
                let already = session.core.validate_answer(Validate::ArchiveMatch, live@, record)
                    is Ok;
                let judged = SessionModel {
                    core: session.core.after_validate(Validate::ArchiveMatch, live@, record),
                    ..session
                };
                if already && !self.args.force {
                    (self.failed(Error::AlreadyFlashed), judged, FlashActionModel::Finish)
                } else {
                    (
                        FlashModel { phase: FlashPhase::Staging, forced: already, ..self },
                        judged,
                        FlashActionModel::Stage,
                    )
                }
            },
            (FlashPhase::Staging, FlashEvent::Staged(None)) => (
                self.failed(Error::ArtifactFailure),
                session,
                FlashActionModel::Finish,
            ),
            (FlashPhase::Staging, FlashEvent::Staged(Some(path))) => {
                let staged = FlashModel { staged: Some(path@), artifact: Some(path@), ..self };
                if self.args.dryrun {
                    (staged.wind_down(None).0, session, staged.wind_down(None).1)
                } else {
                    (
                        FlashModel { phase: FlashPhase::Loading, ..staged },
                        session,
                        FlashActionModel::Load(path@),
                    )
                }
            },
            (FlashPhase::Loading, FlashEvent::Loaded(ok)) => {
                let failure = if ok {
                    None
                } else {
                    Some(Error::FlashWriteFailure)
                };
                (
                    self.wind_down(failure).0,
                    SessionModel { core: session.core.after_change(), ..session },
                    self.wind_down(failure).1,
                )
            },
            (FlashPhase::Removing, FlashEvent::Removed) => (
                FlashModel { phase: FlashPhase::Done, artifact: None, ..self },
                session,
                FlashActionModel::Finish,
            ),
            _ => (self, session, FlashActionModel::Wait),
        }
    }

    /// The outcome, once the reprogramming is done.
    pub open spec fn outcome(self) -> Option<Result<ReportModel, Error>> {
        if self.phase != FlashPhase::Done {
            None
        } else {
            match (self.failure, self.target, self.staged) {
                (Some(e), _, _) => Some(Err(e)),
                (None, Some(target), Some(staged)) => Some(
                    Ok(
                        ReportModel {
                            chip: target.1,
                            probe: target.0,
                            artifact: staged,
                            retained: self.artifact is Some,
                            forced: self.forced,
                            loaded: !self.args.dryrun,
                        },
                    ),
                ),
                _ => None,
            }
        }
    }

    /// Whether the image was written out, or the reprogramming ended before
    /// it came to that.
    pub open spec fn past_staging(self) -> bool {
        self.phase == FlashPhase::Loading || self.phase == FlashPhase::Removing || self.phase
            == FlashPhase::Done
    }

    /// The reprogramming and the session after `events`, taken in order.
    pub open spec fn run(
        self,
        session: SessionModel,
        table: ChipIdentifier,
        events: Seq<FlashEvent>,
    ) -> (FlashModel, SessionModel)
        decreases events.len(),
    {
        if events.len() == 0 {
            (self, session)
        } else {
            let next = self.step(session, table, events[0]);
            next.0.run(next.1, table, events.drop_first())
        }
    }

    /// The steps asked for in answer to `events`, one for each event.
    pub open spec fn actions(
        self,
        session: SessionModel,
        table: ChipIdentifier,
        events: Seq<FlashEvent>,
    ) -> Seq<FlashActionModel>
        decreases events.len(),
    {
        if events.len() == 0 {
            Seq::empty()
        } else {
            let next = self.step(session, table, events[0]);
            seq![next.2] + next.0.actions(next.1, table, events.drop_first())
        }
    }
}

/// No event changes the operator's options, the target is found once and
/// stays, nothing of the session but its attachment is touched, and what
/// holds of a reprogramming at each step holds after it.
pub proof fn law_step_keeps_well_formed(
    flash: FlashModel,
    session: SessionModel,
    table: ChipIdentifier,
    event: FlashEvent,
)
    requires
        flash.wf(session.core),
    ensures
        ({
            let (next, after, action) = flash.step(session, table, event);
            &&& next.wf(after.core)
            &&& next.args == flash.args
            &&& flash.target is Some ==> next.target == flash.target
            &&& after.history == session.history
            &&& after.archive == session.archive
            &&& after.cli == session.cli
        }),
{
}

/// Whatever events arrive in whatever order, a reprogramming that started
/// well formed stays so: at the end a temporary file is still there only
/// where it was asked to be kept.
pub proof fn law_run_keeps_well_formed(
    flash: FlashModel,
    session: SessionModel,
    table: ChipIdentifier,
    events: Seq<FlashEvent>,
)
    requires
        flash.wf(session.core),
    ensures
        ({
            let (end, after) = flash.run(session, table, events);
            &&& end.wf(after.core)
            &&& end.args == flash.args
            &&& end.phase == FlashPhase::Done && end.artifact is Some ==> flash.args.retain
        }),
    decreases events.len(),
{
    if events.len() > 0 {
        law_step_keeps_well_formed(flash, session, table, events[0]);
        let next = flash.step(session, table, events[0]);
        law_run_keeps_well_formed(next.0, next.1, table, events.drop_first());
    }
}

/// A reprogramming never asks for a second target and never lets go of the
/// session's: the transport is asked to attach only where the session is
/// detached, and a target that the session holds is held after every step,
/// and is the same target.
pub proof fn law_session_keeps_its_target(
    flash: FlashModel,
    session: SessionModel,
    table: ChipIdentifier,
    event: FlashEvent,
)
    ensures
        flash.step(session, table, event).2 is Open ==> session.core is Detached,
        session.core.holds() ==> flash.step(session, table, event).1.core.holds() && flash.step(
            session,
            table,
            event,
        ).1.core.target() == session.core.target(),
{
}

/// Where the session already holds the target that the configuration is
/// meant for, the reprogramming goes on with that target and asks the
/// transport for nothing; an earlier validation is not relied on.
pub proof fn law_held_target_is_used(
    flash: FlashModel,
    session: SessionModel,
    table: ChipIdentifier,
    config: FlashConfig,
)
    requires
        flash.phase == FlashPhase::Configuring,
        session.core.holds(),
        program_chip_spec(table, config.program) is Some,
        session.core.target() == Some(
            (probe_of(session.cli), program_chip_spec(table, config.program)->0),
        ),
    ensures
        flash.step(session, table, FlashEvent::Config(Some(config))).2
            == FlashActionModel::Observe,
        flash.step(session, table, FlashEvent::Config(Some(config))).1.core
            == AttachModel::Attached(session.core.target()->0),
{
}

/// Once a reprogramming is done, no event changes it or the session, or
/// asks for anything.
pub proof fn law_done_is_final(
    flash: FlashModel,
    session: SessionModel,
    table: ChipIdentifier,
    event: FlashEvent,
)
    requires
        flash.phase == FlashPhase::Done,
    ensures
        flash.step(session, table, event) == (flash, session, FlashActionModel::Wait),
{
}

/// A reprogramming that is done has an outcome.
pub proof fn law_done_has_outcome(flash: FlashModel, core: AttachModel)
    requires
        flash.wf(core),
    ensures
        flash.outcome() is Some <==> flash.phase == FlashPhase::Done,
{
}

/// A target that already runs the archive is not reprogrammed unasked: the
/// reprogramming ends at once with `AlreadyFlashed`, and nothing is written
/// or loaded.
pub proof fn law_already_flashed_is_refused(
    flash: FlashModel,
    session: SessionModel,
    table: ChipIdentifier,
    live: LiveTarget,
)
    requires
        flash.wf(session.core),
        flash.phase == FlashPhase::Probing,
        judge_spec(Validate::ArchiveMatch, live@, record_of(session.archive)) is None,
        !flash.args.force,
    ensures
        flash.step(session, table, FlashEvent::Observed(live)).2 == FlashActionModel::Finish,
        flash.step(session, table, FlashEvent::Observed(live)).0.outcome() == Some(
            Err::<ReportModel, Error>(Error::AlreadyFlashed),
        ),
{
}

/// A target that already runs the archive is reprogrammed where that is
/// forced: the temporary file is asked for, and once it is written, its
/// loading, unless this is a dry run.
pub proof fn law_forced_flash_proceeds(
    flash: FlashModel,
    session: SessionModel,
    table: ChipIdentifier,
    live: LiveTarget,
    path: String,
)
    requires
        flash.wf(session.core),
        flash.phase == FlashPhase::Probing,
        judge_spec(Validate::ArchiveMatch, live@, record_of(session.archive)) is None,
        flash.args.force,
    ensures
        ({
            let (next, after, action) = flash.step(session, table, FlashEvent::Observed(live));
            &&& action == FlashActionModel::Stage
            &&& next.forced
            &&& !flash.args.dryrun ==> next.step(after, table, FlashEvent::Staged(Some(path))).2
                == FlashActionModel::Load(path@)
        }),
{
}

/// A target that does not run the archive is reprogrammed whether or not
/// that is forced.
pub proof fn law_differing_target_proceeds(
    flash: FlashModel,
    session: SessionModel,
    table: ChipIdentifier,
    live: LiveTarget,
)
    requires
        flash.wf(session.core),
        flash.phase == FlashPhase::Probing,
        judge_spec(Validate::ArchiveMatch, live@, record_of(session.archive)) is Some,
    ensures
        flash.step(session, table, FlashEvent::Observed(live)).2 == FlashActionModel::Stage,
        !flash.step(session, table, FlashEvent::Observed(live)).0.forced,
{
}

proof fn lemma_actions_len(
    flash: FlashModel,
    session: SessionModel,
    table: ChipIdentifier,
    events: Seq<FlashEvent>,
)
    ensures
        flash.actions(session, table, events).len() == events.len(),
    decreases events.len(),
{
    if events.len() > 0 {
        let next = flash.step(session, table, events[0]);
        lemma_actions_len(next.0, next.1, table, events.drop_first());
    }
}

/// In a dry run the transport is never asked to load anything, whatever
/// events arrive and whether or not reprogramming is forced.
pub proof fn law_dry_run_never_loads(
    flash: FlashModel,
    session: SessionModel,
    table: ChipIdentifier,
    events: Seq<FlashEvent>,
    i: int,
)
    requires
        flash.args.dryrun,
        0 <= i < events.len(),
    ensures
        flash.actions(session, table, events).len() == events.len(),
        !(flash.actions(session, table, events)[i] is Load),
    decreases events.len(),
{
    lemma_actions_len(flash, session, table, events);
    if i > 0 {
        let next = flash.step(session, table, events[0]);
        lemma_actions_len(next.0, next.1, table, events.drop_first());
        law_dry_run_never_loads(next.0, next.1, table, events.drop_first(), i - 1);
    }
}

proof fn lemma_no_load_past_staging(
    flash: FlashModel,
    session: SessionModel,
    table: ChipIdentifier,
    events: Seq<FlashEvent>,
    i: int,
)
    requires
        flash.past_staging(),
        0 <= i < events.len(),
    ensures
        flash.actions(session, table, events).len() == events.len(),
        !(flash.actions(session, table, events)[i] is Load),
    decreases events.len(),
{
    lemma_actions_len(flash, session, table, events);
    if i > 0 {
        let next = flash.step(session, table, events[0]);
        lemma_actions_len(next.0, next.1, table, events.drop_first());
        lemma_no_load_past_staging(next.0, next.1, table, events.drop_first(), i - 1);
    }
}

/// The transport is asked to load the image once at most: a load that
/// failed is not tried again, whatever events arrive.
pub proof fn law_load_is_asked_once(
    flash: FlashModel,
    session: SessionModel,
    table: ChipIdentifier,
    events: Seq<FlashEvent>,
    i: int,
    j: int,
)
    requires
        0 <= i < j < events.len(),
        flash.actions(session, table, events)[i] is Load,
    ensures
        !(flash.actions(session, table, events)[j] is Load),
    decreases events.len(),
{
    let next = flash.step(session, table, events[0]);
    let rest = events.drop_first();
    lemma_actions_len(flash, session, table, events);
    lemma_actions_len(next.0, next.1, table, rest);
    if i == 0 {
        lemma_no_load_past_staging(next.0, next.1, table, rest, j - 1);
    } else {
        law_load_is_asked_once(next.0, next.1, table, rest, i - 1, j - 1);
    }
}

/// Where the temporary file is to be kept, nothing is ever asked to remove
/// it.
pub proof fn law_retained_file_is_never_removed(
    flash: FlashModel,
    session: SessionModel,
    table: ChipIdentifier,
    events: Seq<FlashEvent>,
    i: int,
)
    requires
        flash.args.retain,
        0 <= i < events.len(),
    ensures
        flash.actions(session, table, events).len() == events.len(),
        !(flash.actions(session, table, events)[i] is Remove),
    decreases events.len(),
{
    lemma_actions_len(flash, session, table, events);
    if i > 0 {
        let next = flash.step(session, table, events[0]);
        lemma_actions_len(next.0, next.1, table, events.drop_first());
        law_retained_file_is_never_removed(next.0, next.1, table, events.drop_first(), i - 1);
    }
}

/// Where the temporary file is not to be kept, a reprogramming that has
/// written it cannot end without asking for its removal, whether the
/// loading went through, failed or was left out.
pub proof fn law_staged_file_is_removed(
    flash: FlashModel,
    session: SessionModel,
    table: ChipIdentifier,
    path: String,
    events: Seq<FlashEvent>,
)
    requires
        flash.wf(session.core),
        flash.phase == FlashPhase::Staging,
        !flash.args.retain,
        ({
            let staged = flash.step(session, table, FlashEvent::Staged(Some(path)));
            staged.0.run(staged.1, table, events).0.phase == FlashPhase::Done
        }),
    ensures
        ({
            let staged = flash.step(session, table, FlashEvent::Staged(Some(path)));
            staged.2 == FlashActionModel::Remove(path@) || exists|j: int|
                0 <= j < events.len() && staged.0.actions(staged.1, table, events)[j]
                    == FlashActionModel::Remove(path@)
        }),
{
    let staged = flash.step(session, table, FlashEvent::Staged(Some(path)));
    if !flash.args.dryrun {
        lemma_loading_ends_in_removal(staged.0, staged.1, table, events);
    }
}

proof fn lemma_loading_ends_in_removal(
    flash: FlashModel,
    session: SessionModel,
    table: ChipIdentifier,
    events: Seq<FlashEvent>,
)
    requires
        flash.phase == FlashPhase::Loading,
        flash.artifact is Some,
        !flash.args.retain,
        flash.run(session, table, events).0.phase == FlashPhase::Done,
    ensures
        exists|j: int|
            0 <= j < events.len() && flash.actions(session, table, events)[j]
                == FlashActionModel::Remove(flash.artifact->0),
    decreases events.len(),
{
    if events.len() > 0 {
        let next = flash.step(session, table, events[0]);
        let rest = events.drop_first();
        lemma_actions_len(next.0, next.1, table, rest);
        if events[0] is Loaded {
            assert(flash.actions(session, table, events)[0] == FlashActionModel::Remove(
                flash.artifact->0,
            ));
        } else {
            assert(next.0 == flash && next.1 == session);
            lemma_loading_ends_in_removal(next.0, next.1, table, rest);
            let j = choose|j: int|
                0 <= j < rest.len() && next.0.actions(next.1, table, rest)[j]
                    == FlashActionModel::Remove(flash.artifact->0);
            assert(flash.actions(session, table, events)[j + 1] == next.0.actions(
                next.1,
                table,
                rest,
            )[j]);
        }
    }
}

impl View for FlashOrchestrator {
    type V = FlashModel;

    closed spec fn view(&self) -> FlashModel {
        FlashModel {
            args: self.args,
            phase: self.phase,
            target: match self.target {
                Some(target) => Some(target@),
                None => None,
            },
            staged: match self.staged {
                Some(path) => Some(path@),
                None => None,
            },
            artifact: match self.artifact {
                Some(path) => Some(path@),
                None => None,
            },
            forced: self.forced,
            failure: self.failure,
        }
    }
}

impl FlashOrchestrator {
    /// A reprogramming that has not begun.
    pub fn new(args: FlashArgs) -> (flash: FlashOrchestrator)
        ensures
            flash@ == FlashModel::initial(args),
            forall|core: AttachModel| flash@.wf(core),
    {
        FlashOrchestrator {
            args,
            phase: FlashPhase::Configuring,
            target: None,
            staged: None,
            artifact: None,
            forced: false,
            failure: None,
        }
    }

    /// The step that the reprogramming waits at.
    pub fn phase(&self) -> (phase: FlashPhase)
        ensures
            phase == self@.phase,
    {
        self.phase
    }

    /// Whether the target was found to run the archive already and is
    /// reprogrammed all the same: the operator is to be warned of it.
    pub fn forced(&self) -> (forced: bool)
        ensures
            forced == self@.forced,
    {
        self.forced
    }

    /// The path of the temporary file, while there is one.
    pub fn artifact(&self) -> (path: Option<String>)
        ensures
            path is Some <==> self@.artifact is Some,
            path matches Some(p) ==> self@.artifact == Some(p@),
    {
        match &self.artifact {
            Some(path) => Some(path.clone()),
            None => None,
        }
    }

    /// Ends the reprogramming by `failure`.
    fn fail(&mut self, failure: Error) -> (action: FlashAction)
        ensures
            final(self)@ == old(self)@.failed(failure),
            action@ == FlashActionModel::Finish,
    {
        self.failure = Some(failure);
        self.phase = FlashPhase::Done;
        FlashAction::Finish
    }

    /// Ends the reprogramming with the outcome `failure`, by way of the
    /// removal of the temporary file where that is due.
    fn wind_down(&mut self, failure: Option<Error>) -> (action: FlashAction)
        ensures
            final(self)@ == old(self)@.wind_down(failure).0,
            action@ == old(self)@.wind_down(failure).1,
    {
        self.failure = failure;
        if !self.args.retain {
            match &self.artifact {
                Some(path) => {
                    self.phase = FlashPhase::Removing;
                    return FlashAction::Remove(path.clone());
                },
                None => {},
            }
        }
        self.phase = FlashPhase::Done;
        FlashAction::Finish
    }

    /// Takes the outcome of the step that was asked for last, and gives the
    /// step to perform next.
    ///
    /// The target is that of the session `context`: the probe that its
    /// options name and the chip that the configuration is meant for. The
    /// transport is asked to attach only where the session holds no target;
    /// a session that holds another one is refused with
    /// [`Error::ProbeAttachFailure`]. The image is loaded only after the
    /// target was read, and not at all in a dry run. A target that already
    /// runs the archive is reprogrammed only where that is forced;
    /// otherwise the outcome is [`Error::AlreadyFlashed`]. Once the
    /// temporary file is written, every way to the end leads through its
    /// removal, unless it is to be kept. A failure is never followed by a
    /// second attempt. The target stays with the session; after a load it
    /// counts as attached and not validated.
    pub fn step(
        &mut self,
        context: &mut ExecutionContext,
        table: &ChipIdentifier,
        event: FlashEvent,
    ) -> (action: FlashAction)
        ensures
            final(self)@ == old(self)@.step(old(context)@, *table, event).0,
            final(context)@ == old(self)@.step(old(context)@, *table, event).1,
            action@ == old(self)@.step(old(context)@, *table, event).2,
            old(self)@.wf(old(context)@.core) ==> final(self)@.wf(final(context)@.core),
    {
        match (self.phase, event) {
            (FlashPhase::Configuring, FlashEvent::Config(None)) => self.fail(
                Error::ConfigParseError,
            ),
            (FlashPhase::Configuring, FlashEvent::Config(Some(config))) => {
                match table.identify(&config) {
                    Err(e) => self.fail(e),
                    Ok(id) => {
                        let probe = match &context.cli.probe {
                            Some(probe) => probe.clone(),
                            None => String::from_str("auto"),
                        };
                        let target = Target { probe, chip: id.model };
                        match context.core.request(Attach::LiveOnly, target.duplicate()) {
                            Err(e) => self.fail(e),
                            Ok(AttachAction::Open(wanted)) => {
                                self.target = Some(target);
                                self.phase = FlashPhase::Attaching;
                                FlashAction::Open(wanted)
                            },
                            Ok(_) => {
                                self.target = Some(target);
                                self.phase = FlashPhase::Probing;
                                FlashAction::Observe
                            },
                        }
                    },
                }
            },
            (FlashPhase::Attaching, FlashEvent::Opened(ok)) => {
                match context.core.opened(ok) {
                    Ok(()) => {
                        self.phase = FlashPhase::Probing;
                        FlashAction::Observe
                    },
                    Err(e) => self.fail(e),
                }
            },
            (FlashPhase::Probing, FlashEvent::Observed(live)) => {
                let verdict = match &context.archive {
                    Some(loaded) => context.core.validate(
                        Validate::ArchiveMatch,
                        &live,
                        &loaded.record,
                    ),
                    None => {
                        let nothing = ArchiveRecord::empty();
                        context.core.validate(Validate::ArchiveMatch, &live, &nothing)
                    },
                };
                let already = verdict.is_ok();
                if already && !self.args.force {
                    self.fail(Error::AlreadyFlashed)
                } else {
                    self.forced = already;
                    self.phase = FlashPhase::Staging;
                    FlashAction::Stage
                }
            },
            (FlashPhase::Staging, FlashEvent::Staged(None)) => self.fail(Error::ArtifactFailure),
            (FlashPhase::Staging, FlashEvent::Staged(Some(path))) => {
                self.staged = Some(path.clone());
                if self.args.dryrun {
                    self.artifact = Some(path);
                    self.wind_down(None)
                } else {
                    let load = path.clone();
                    self.artifact = Some(path);
                    self.phase = FlashPhase::Loading;
                    FlashAction::Load(load)
                }
            },
            (FlashPhase::Loading, FlashEvent::Loaded(ok)) => {
                context.core.invalidate();
                if ok {
                    self.wind_down(None)
                } else {
                    self.wind_down(Some(Error::FlashWriteFailure))
                }
            },
            (FlashPhase::Removing, FlashEvent::Removed) => {
                self.artifact = None;
                self.phase = FlashPhase::Done;
                FlashAction::Finish
            },
            _ => FlashAction::Wait,
        }
    }

    /// The outcome, once the reprogramming is done: the failure, or the
    /// report of what was done. `None` while it is under way.
    pub fn outcome(&self) -> (outcome: Option<Result<FlashReport, Error>>)
        ensures
            outcome is Some <==> self@.outcome() is Some,
            outcome matches Some(Err(e)) ==> self@.outcome() == Some(Err::<ReportModel, Error>(e)),
            outcome matches Some(Ok(report)) ==> self@.outcome() == Some(
                Ok::<ReportModel, Error>(report@),
            ),
    {
        if self.phase != FlashPhase::Done {
            return None;
        }
        match self.failure {
            Some(e) => Some(Err(e)),
            None => {
                match (&self.target, &self.staged) {
                    (Some(target), Some(written)) => Some(
                        Ok(
                            FlashReport {
                                chip: target.chip.clone(),
                                probe: target.probe.clone(),
                                artifact: written.clone(),
                                retained: self.artifact.is_some(),
                                forced: self.forced,
                                loaded: !self.args.dryrun,
                            },
                        ),
                    ),
                    _ => None,
                }
            },
        }
    }
}

/// The command that reprograms the target. It requires an archive, and
/// attaches to the target by itself, once it knows the chip.
pub fn init() -> (command: Command)
    ensures
        command.name@ == "flash"@,
        command.archive == Archive::Required,
        command.attach == Attach::Skip,
        command.validate == Validate::Skip,
        command.run == Handler::Flash,
{
    Command::unattached("flash", Archive::Required, Handler::Flash)
}

} // verus!
