//! The commands that the tool knows, and what running one takes.
//!
//! A command declares what it needs: an archive, an attached target, a
//! validation of that target. [`subcommand`] looks the command up and
//! starts on those needs; [`Dispatch::step`] takes the outcome of each
//! step and gives the next, down to the command's own handler and to the
//! end.

use vstd::prelude::*;
use vstd::string::StringExecFns;
use crate::attach::ActionModel;
use crate::attach::ArchiveRecord;
use crate::attach::Attach;
use crate::attach::AttachAction;
use crate::attach::LiveTarget;
use crate::attach::RecordModel;
use crate::attach::Target;
use crate::attach::Validate;
use crate::cli::Cli;
use crate::cli::Subcommand;
use crate::context::ArchiveSource;
use crate::context::ExecutionContext;
use crate::context::LoadedArchive;
use crate::context::SessionModel;
use crate::context::source_of;
use crate::error::Error;

verus! {

/// What a command needs of an archive or dump.
#[derive(Clone, Copy, Debug, PartialEq, Eq, Structural)]
pub enum Archive {
    /// It cannot run without one.
    Required,
    /// It loads one where one is supplied.
    Optional,
    /// It never loads one.
    Ignored,
}

/// The code that a command runs.
#[derive(Clone, Copy, Debug, PartialEq, Eq, Structural)]
pub enum Handler {
    /// Reprograms the target.
    Flash,
    /// Queries the root of trust.
    RotSprocket,
    /// Reads commands from the terminal.
    Repl,
    /// A handler of the caller's own, by its number.
    Other(u32),
}

/// A command: its name, what it needs, and what it runs.
#[derive(Clone, Debug, PartialEq, Eq)]
pub struct Command {
    /// The name under which the operator asks for it.
    pub name: String,
    /// What it needs of an archive.
    pub archive: Archive,
    /// What it needs of the attachment to the target.
    pub attach: Attach,
    /// What it needs to know of the target.
    pub validate: Validate,
    /// What it runs.
    pub run: Handler,
}

impl Command {
    /// A command that attaches to the target before it runs.
    pub fn attached(name: &str, archive: Archive, attach: Attach, validate: Validate, run: Handler)
        -> (command: Command)
        ensures
            command.name@ == name@,
            command.archive == archive,
            command.attach == attach,
            command.validate == validate,
            command.run == run,
    {
        Command { name: String::from_str(name), archive, attach, validate, run }
    }

    /// A command that does not have the target attached for it.
    pub fn unattached(name: &str, archive: Archive, run: Handler) -> (command: Command)
        ensures
            command.name@ == name@,
            command.archive == archive,
            command.attach == Attach::Skip,
            command.validate == Validate::Skip,
            command.run == run,
    {
        Command {
            name: String::from_str(name),
            archive,
            attach: Attach::Skip,
            validate: Validate::Skip,
            run,
        }
    }

    /// A copy of this command.
    pub fn duplicate(&self) -> (copy: Command)
        ensures
            copy == *self,
    {
        Command {
            name: self.name.clone(),
            archive: self.archive,
            attach: self.attach,
            validate: self.validate,
            run: self.run,
        }
    }
}

/// The commands by name. No two have the same name.
#[derive(Clone, Debug)]
pub struct Registry {
    commands: Vec<Command>,
}

impl View for Registry {
    type V = Seq<Command>;

    /// The commands, in the order in which they were registered.
    closed spec fn view(&self) -> Seq<Command> {
        self.commands@
    }
}

/// The index in `commands` of the first command named `name`, from index
/// `from` on.
pub open spec fn position_from(commands: Seq<Command>, name: Seq<char>, from: int) -> Option<int>
    decreases commands.len() - from,
{
    if from < 0 || from >= commands.len() {
        None
    } else if commands[from].name@ == name {
        Some(from)
    } else {
        position_from(commands, name, from + 1)
    }
}

/// The index in `commands` of the command named `name`.
pub open spec fn position(commands: Seq<Command>, name: Seq<char>) -> Option<int> {
    position_from(commands, name, 0)
}

/// Whether no two of `commands` have the same name.
pub open spec fn distinct_names(commands: Seq<Command>) -> bool {
    forall|i: int, j: int|
        0 <= i < j < commands.len() ==> (#[trigger] commands[i]).name@ != (
        #[trigger] commands[j]).name@
}

/// `position_from` finds a command of that name where there is one at or
/// after `from`, and the first such.
pub proof fn lemma_position_from(commands: Seq<Command>, name: Seq<char>, from: int)
    requires
        0 <= from,
    ensures
        position_from(commands, name, from) matches Some(i) ==> from <= i < commands.len()
            && commands[i].name@ == name && forall|j: int|
            from <= j < i ==> commands[j].name@ != name,
        position_from(commands, name, from) is None ==> forall|j: int|
            from <= j < commands.len() ==> commands[j].name@ != name,
    decreases commands.len() - from,
{
    if from < commands.len() && commands[from].name@ != name {
        lemma_position_from(commands, name, from + 1);
    }
}

impl Registry {
    /// What holds of every registry: no two commands have the same name.
    pub open spec fn wf(self) -> bool {
        distinct_names(self@)
    }

    /// A registry without commands.
    pub fn new() -> (registry: Registry)
        ensures
            registry.wf(),
            registry@ == Seq::<Command>::empty(),
    {
        Registry { commands: Vec::new() }
    }

    /// The number of commands.
    pub fn len(&self) -> (n: usize)
        ensures
            n == self@.len(),
    {
        self.commands.len()
    }

    /// The index of the command named `name`, if there is one.
    fn find(&self, name: &str) -> (found: Option<usize>)
        ensures
            found is Some <==> position(self@, name@) is Some,
            found matches Some(i) ==> position(self@, name@) == Some(i as int) && i < self@.len()
                && self@[i as int].name@ == name@,
            found is None ==> forall|j: int| 0 <= j < self@.len() ==> self@[j].name@ != name@,
    {
        proof {
            lemma_position_from(self@, name@, 0);
        }
        let wanted = String::from_str(name);
        let mut i: usize = 0;
        while i < self.commands.len()
            invariant
                i <= self.commands.len(),
                wanted@ == name@,
                position(self@, name@) == position_from(self@, name@, i as int),
            decreases self.commands.len() - i,
        {
            if self.commands[i].name == wanted {
                return Some(i);
            }
            i += 1;
        }
        None
    }

    /// Adds a command. Where a command of that name is there already, the
    /// new one is refused with [`Error::DuplicateCommand`] and the registry
    /// stays as it is.
    pub fn register(&mut self, command: Command) -> (done: Result<(), Error>)
        ensures
            old(self).wf() ==> final(self).wf(),
            done is Ok <==> position(old(self)@, command.name@) is None,
            done is Ok ==> final(self)@ == old(self)@.push(command),
            done matches Err(e) ==> e == Error::DuplicateCommand && final(self)@ == old(self)@,
    {
        match self.find(command.name.as_str()) {
            Some(_) => Err(Error::DuplicateCommand),
            None => {
                self.commands.push(command);
                Ok(())
            },
        }
    }

    /// The command named `name`, or [`Error::UnknownCommand`] where there is
    /// none.
    pub fn resolve(&self, name: &str) -> (command: Result<&Command, Error>)
        ensures
            command is Ok <==> position(self@, name@) is Some,
            command matches Ok(c) ==> *c == self@[position(self@, name@)->0] && c.name@ == name@,
            command matches Err(e) ==> e == Error::UnknownCommand,
    {
        match self.find(name) {
            Some(i) => Ok(&self.commands[i]),
            None => Err(Error::UnknownCommand),
        }
    }

    /// The names of the commands, in the order in which they were
    /// registered.
    pub fn names(&self) -> (names: Vec<String>)
        ensures
            names.len() == self@.len(),
            forall|i: int| 0 <= i < names.len() ==> names[i] == (#[trigger] self@[i]).name,
    {
        let mut names: Vec<String> = Vec::new();
        let mut i: usize = 0;
        while i < self.commands.len()
            invariant
                i <= self.commands.len(),
                names.len() == i,
                forall|j: int| 0 <= j < i ==> names[j] == (#[trigger] self@[j]).name,
            decreases self.commands.len() - i,
        {
            names.push(self.commands[i].name.clone());
            i += 1;
        }
        names
    }
}

/// The step that a command waits at.
#[derive(Clone, Copy, Debug, PartialEq, Eq, Structural)]
pub enum Phase {
    /// For the archive or dump to be loaded.
    Loading,
    /// For the transport to attach.
    Opening,
    /// For what the target holds.
    Checking,
    /// For its handler to return.
    Running,
    /// For nothing: the outcome stands.
    Done,
}

/// A command on its way.
#[derive(Clone, Debug, PartialEq, Eq)]
pub struct Dispatch {
    /// The command.
    pub command: Command,
    /// The text by which the operator asked for it.
    pub line: String,
    /// The step that it waits at.
    pub phase: Phase,
}

/// What happened to the step that was asked for.
#[derive(Clone, Debug)]
pub enum DispatchEvent {
    /// The archive or dump was loaded and records this, or could not be
    /// loaded.
    Loaded(Option<ArchiveRecord>),
    /// The transport attached, or refused.
    Opened(bool),
    /// The target was read.
    Observed(LiveTarget),
    /// The handler returned, with its failure if it failed.
    Returned(Option<Error>),
}

/// The step to perform next.
#[derive(Debug, PartialEq, Eq)]
pub enum DispatchAction {
    /// None: the event was not the one waited for.
    Wait,
    /// Load this archive or dump.
    Load(ArchiveSource),
    /// Attach to this target.
    Open(Target),
    /// Read from the target what this validation looks at.
    Observe(Validate),
    /// Run this handler.
    Run(Handler),
    /// Report the outcome.
    Finish(Result<(), Error>),
}

/// A [`DispatchAction`] with its target as sequences.
pub enum DispatchModel {
    Wait,
    Load(ArchiveSource),
    Open((Seq<char>, Seq<char>)),
    Observe(Validate),
    Run(Handler),
    Finish(Result<(), Error>),
}

impl View for DispatchAction {
    type V = DispatchModel;

    open spec fn view(&self) -> DispatchModel {
        match *self {
            DispatchAction::Wait => DispatchModel::Wait,
            DispatchAction::Load(source) => DispatchModel::Load(source),
            DispatchAction::Open(target) => DispatchModel::Open(target@),
            DispatchAction::Observe(mode) => DispatchModel::Observe(mode),
            DispatchAction::Run(handler) => DispatchModel::Run(handler),
            DispatchAction::Finish(outcome) => DispatchModel::Finish(outcome),
        }
    }
}

/// The name of the command that the options ask for: the first word after
/// the global options.
pub open spec fn name_of(cli: Cli) -> Option<Seq<char>> {
    match cli.cmd {
        Some(Subcommand::Other(words)) => if words.len() > 0 {
            Some(words[0]@)
        } else {
            None
        },
        None => None,
    }
}

/// The target that the options name: the probe, or `auto` where none is
/// named, and the chip.
pub open spec fn target_of(cli: Cli) -> (Seq<char>, Seq<char>) {
    (
        match cli.probe {
            Some(probe) => probe@,
            None => "auto"@,
        },
        cli.chip@,
    )
}

/// What the loaded archive records, or nothing where none is loaded.
pub open spec fn record_of(archive: Option<LoadedArchive>) -> RecordModel {
    match archive {
        Some(loaded) => loaded.record@,
        None => RecordModel { identity: Seq::empty(), image: Seq::empty() },
    }
}

/// Whether a validation holds the target against the archive.
pub open spec fn needs_record(mode: Validate) -> bool {
    mode == Validate::Match || mode == Validate::ArchiveMatch
}

impl Dispatch {
    /// This dispatch at the phase `phase`.
    pub open spec fn at(self, phase: Phase) -> Dispatch {
        Dispatch { phase, ..self }
    }

    /// The step after the target is held, or is not needed: to read the
    /// target where the command's validation has yet to be made, and to run
    /// the handler otherwise. A validation against the archive cannot be
    /// made without one.
    pub open spec fn check_spec(self, session: SessionModel) -> (
        Dispatch,
        SessionModel,
        DispatchModel,
    ) {
        if self.command.attach != Attach::Skip && session.core.needs_check(
            self.command.attach,
            self.command.validate,
        ) {
            if needs_record(self.command.validate) && session.archive is None {
                (
                    self.at(Phase::Done),
                    session,
                    DispatchModel::Finish(Err(Error::ArchiveMissing)),
                )
            } else {
                (self.at(Phase::Checking), session, DispatchModel::Observe(self.command.validate))
            }
        } else {
            (self.at(Phase::Running), session, DispatchModel::Run(self.command.run))
        }
    }

    /// The step after the archive is settled: to attach where the command
    /// needs the target and the session does not hold it, and on to the
    /// validation otherwise.
    pub open spec fn attach_spec(self, session: SessionModel) -> (
        Dispatch,
        SessionModel,
        DispatchModel,
    ) {
        let target = target_of(session.cli);
        let asked = SessionModel {
            core: session.core.after_request(self.command.attach, target),
            ..session
        };
        match session.core.request_answer(self.command.attach, target) {
            Err(e) => (self.at(Phase::Done), asked, DispatchModel::Finish(Err(e))),
            Ok(ActionModel::Open(t)) => (self.at(Phase::Opening), asked, DispatchModel::Open(t)),
            Ok(_) => self.check_spec(asked),
        }
    }

    /// The dispatch and the session after `event`, and the step to perform
    /// next.
    ///
    /// An event other than the one that the command waits for changes
    /// nothing and asks for nothing.
    pub open spec fn step_spec(self, session: SessionModel, event: DispatchEvent) -> (
        Dispatch,
        SessionModel,
        DispatchModel,
    ) {
        match (self.phase, event) {
            (Phase::Loading, DispatchEvent::Loaded(Some(record))) => match source_of(session.cli) {
                Some(source) => self.attach_spec(
                    SessionModel { archive: Some(LoadedArchive { source, record }), ..session },
                ),
                None => (
                    self.at(Phase::Done),
                    session,
                    DispatchModel::Finish(Err(Error::ArchiveMissing)),
                ),
            },
            (Phase::Loading, DispatchEvent::Loaded(None)) => (
                self.at(Phase::Done),
                session,
                DispatchModel::Finish(Err(Error::ArchiveLoadFailed)),
            ),
            (Phase::Opening, DispatchEvent::Opened(ok)) => {
                let answered = SessionModel { core: session.core.after_opened(ok), ..session };
                if answered.core.holds() {
                    self.check_spec(answered)
                } else {
                    (
                        self.at(Phase::Done),
                        answered,
                        DispatchModel::Finish(Err(Error::ProbeAttachFailure)),
                    )
                }
            },
            (Phase::Checking, DispatchEvent::Observed(live)) => {
                let record = record_of(session.archive);
                let mode = self.command.validate;
                let judged = SessionModel {
                    core: session.core.after_validate(mode, live@, record),
                    ..session
                };
                match session.core.validate_answer(mode, live@, record) {
                    Ok(_) => (
                        self.at(Phase::Running),
                        judged,
                        DispatchModel::Run(self.command.run),
                    ),
                    Err(e) => (self.at(Phase::Done), judged, DispatchModel::Finish(Err(e))),
                }
            },
            (Phase::Running, DispatchEvent::Returned(None)) => (
                self.at(Phase::Done),
                SessionModel { history: session.history.push(self.line), ..session },
                DispatchModel::Finish(Ok(())),
            ),
            (Phase::Running, DispatchEvent::Returned(Some(e))) => (
                self.at(Phase::Done),
                session,
                DispatchModel::Finish(Err(e)),
            ),
            _ => (self, session, DispatchModel::Wait),
        }
    }
}

/// What asking for a command gives: the refusal, or the dispatch, the
/// session and the first step.
///
/// The command is looked up by the first word after the global options. A
/// command that requires an archive is refused where the options name
/// neither an archive nor a dump. Whatever was loaded for an earlier command
/// is dropped. Where the command does not ignore archives and the options
/// name one, it is loaded first.
pub open spec fn subcommand_spec(commands: Seq<Command>, session: SessionModel, line: String)
    -> Result<(Dispatch, SessionModel, DispatchModel), Error> {
    match name_of(session.cli) {
        None => Err(Error::UnknownCommand),
        Some(name) => match position(commands, name) {
            None => Err(Error::UnknownCommand),
            Some(i) => {
                let command = commands[i];
                let source = source_of(session.cli);
                if command.archive == Archive::Required && source is None {
                    Err(Error::ArchiveMissing)
                } else {
                    let fresh = SessionModel { archive: None, ..session };
                    let dispatch = Dispatch { command, line, phase: Phase::Loading };
                    if command.archive != Archive::Ignored && source is Some {
                        Ok((dispatch, fresh, DispatchModel::Load(source->0)))
                    } else {
                        Ok(dispatch.attach_spec(fresh))
                    }
                }
            },
        },
    }
}

/// Whether the session has all that `command` needs before its handler
/// runs: the archive where it requires one, and, where it needs the target,
/// the target held and the validation that it asks for passed.
pub open spec fn needs_met(command: Command, session: SessionModel) -> bool {
    &&& command.archive == Archive::Required ==> session.archive is Some
    &&& command.attach != Attach::Skip ==> session.core.holds()
    &&& command.attach != Attach::Skip && command.validate != Validate::Skip
        ==> session.core.passed() == Some(command.validate)
}

impl Dispatch {
    /// What holds of a dispatch at each step: it waits for the transport
    /// only where the command needs the target, for the target to be read
    /// only where it is held and a validation is asked for, and for the
    /// handler only where all that the command needs is there.
    pub open spec fn wf(self, session: SessionModel) -> bool {
        match self.phase {
            Phase::Loading => self.command.archive == Archive::Required ==> source_of(session.cli)
                is Some,
            Phase::Opening => self.command.attach != Attach::Skip && session.core is Attaching && (
            self.command.archive == Archive::Required ==> session.archive is Some),
            Phase::Checking => self.command.attach != Attach::Skip && session.core.holds()
                && self.command.validate != Validate::Skip && (self.command.archive
                == Archive::Required ==> session.archive is Some),
            Phase::Running => needs_met(self.command, session),
            Phase::Done => true,
        }
    }

    /// The dispatch and the session after `events`, taken in order.
    pub open spec fn run(self, session: SessionModel, events: Seq<DispatchEvent>) -> (
        Dispatch,
        SessionModel,
    )
        decreases events.len(),
    {
        if events.len() == 0 {
            (self, session)
        } else {
            let next = self.step_spec(session, events[0]);
            next.0.run(next.1, events.drop_first())
        }
    }

    /// The steps asked for in answer to `events`, one for each event.
    pub open spec fn actions(self, session: SessionModel, events: Seq<DispatchEvent>) -> Seq<
        DispatchModel,
    >
        decreases events.len(),
    {
        if events.len() == 0 {
            Seq::empty()
        } else {
            let next = self.step_spec(session, events[0]);
            seq![next.2] + next.0.actions(next.1, events.drop_first())
        }
    }
}

/// A dispatch starts well formed, and where its first step is to run the
/// handler, all that the command needs is there.
pub proof fn law_start_is_well_formed(commands: Seq<Command>, session: SessionModel, line: String)
    requires
        subcommand_spec(commands, session, line) is Ok,
    ensures
        ({
            let (dispatch, after, action) = subcommand_spec(commands, session, line)->Ok_0;
            &&& dispatch.wf(after)
            &&& dispatch.line == line
            &&& after.history == session.history
            &&& after.cli == session.cli
            &&& action is Run ==> needs_met(dispatch.command, after)
        }),
{
}

/// Every step keeps a dispatch well formed, and the handler is asked for
/// only where all that the command needs is there.
pub proof fn law_step_keeps_well_formed(
    dispatch: Dispatch,
    session: SessionModel,
    event: DispatchEvent,
)
    requires
        dispatch.wf(session),
    ensures
        ({
            let (next, after, action) = dispatch.step_spec(session, event);
            &&& next.wf(after)
            &&& next.command == dispatch.command
            &&& next.line == dispatch.line
            &&& after.cli == session.cli
            &&& action is Run ==> needs_met(next.command, after)
        }),
{
}

/// Whatever events arrive in whatever order, the handler is never asked for
/// before all that the command needs is there.
pub proof fn law_handler_runs_with_needs_met(
    dispatch: Dispatch,
    session: SessionModel,
    events: Seq<DispatchEvent>,
    i: int,
)
    requires
        dispatch.wf(session),
        0 <= i < events.len(),
        dispatch.actions(session, events)[i] is Run,
    ensures
        needs_met(
            dispatch.command,
            dispatch.run(session, events.take(i + 1)).1,
        ),
    decreases events.len(),
{
    law_step_keeps_well_formed(dispatch, session, events[0]);
    let next = dispatch.step_spec(session, events[0]);
    let served = events.take(i + 1);
    assert(served[0] == events[0]);
    assert(dispatch.run(session, served) == next.0.run(next.1, served.drop_first()));
    assert(dispatch.actions(session, events) == seq![next.2] + next.0.actions(
        next.1,
        events.drop_first(),
    ));
    if i == 0 {
        assert(served.drop_first() =~= Seq::<DispatchEvent>::empty());
        assert(next.0.run(next.1, served.drop_first()) == (next.0, next.1));
    } else {
        assert(served.drop_first() =~= events.drop_first().take(i));
        lemma_one_action_each(next.0, next.1, events.drop_first());
        law_handler_runs_with_needs_met(next.0, next.1, events.drop_first(), i - 1);
    }
}

proof fn lemma_one_action_each(
    dispatch: Dispatch,
    session: SessionModel,
    events: Seq<DispatchEvent>,
)
    ensures
        dispatch.actions(session, events).len() == events.len(),
    decreases events.len(),
{
    if events.len() > 0 {
        let next = dispatch.step_spec(session, events[0]);
        lemma_one_action_each(next.0, next.1, events.drop_first());
    }
}

/// The history grows by the text of the command when its handler has
/// returned without failure, and stays as it is at every other step.
pub proof fn law_history_grows_on_success_only(
    dispatch: Dispatch,
    session: SessionModel,
    event: DispatchEvent,
)
    ensures
        dispatch.step_spec(session, event).1.history == (if dispatch.phase == Phase::Running
            && event == DispatchEvent::Returned(None) {
            session.history.push(dispatch.line)
        } else {
            session.history
        }),
{
}

/// Once a command is done, no event changes it or the session, or asks for
/// anything.
pub proof fn law_done_is_final(dispatch: Dispatch, session: SessionModel, event: DispatchEvent)
    requires
        dispatch.phase == Phase::Done,
    ensures
        dispatch.step_spec(session, event) == (dispatch, session, DispatchModel::Wait),
{
}

/// A failure of the handler ends the command and is reported as it is.
pub proof fn law_handler_failure_passes_unchanged(
    dispatch: Dispatch,
    session: SessionModel,
    failure: Error,
)
    requires
        dispatch.phase == Phase::Running,
    ensures
        dispatch.step_spec(session, DispatchEvent::Returned(Some(failure))).2
            == DispatchModel::Finish(Err(failure)),
        dispatch.step_spec(session, DispatchEvent::Returned(Some(failure))).0.phase == Phase::Done,
        dispatch.step_spec(session, DispatchEvent::Returned(Some(failure))).1 == session,
{
}

/// No step of a dispatch asks the transport for a target while the session
/// holds or awaits one: a session has one target at most.
pub proof fn law_one_target_at_most(dispatch: Dispatch, session: SessionModel, event: DispatchEvent)
    requires
        dispatch.step_spec(session, event).2 is Open,
    ensures
        session.core is Detached,
        dispatch.step_spec(session, event).1.core is Attaching,
{
}

impl Dispatch {
    /// The step after the target is held, or is not needed.
    fn check(&mut self, context: &ExecutionContext) -> (action: DispatchAction)
        ensures
            *final(self) == old(self).check_spec(context@).0,
            action@ == old(self).check_spec(context@).2,
    {
        if self.command.attach != Attach::Skip && context.core.needs_check(
            self.command.attach,
            self.command.validate,
        ) {
            let mode = self.command.validate;
            if (mode == Validate::Match || mode == Validate::ArchiveMatch)
                && context.archive.is_none() {
                self.phase = Phase::Done;
                DispatchAction::Finish(Err(Error::ArchiveMissing))
            } else {
                self.phase = Phase::Checking;
                DispatchAction::Observe(mode)
            }
        } else {
            self.phase = Phase::Running;
            DispatchAction::Run(self.command.run)
        }
    }

    /// The step after the archive is settled.
    fn attach(&mut self, context: &mut ExecutionContext) -> (action: DispatchAction)
        ensures
            *final(self) == old(self).attach_spec(old(context)@).0,
            final(context)@ == old(self).attach_spec(old(context)@).1,
            action@ == old(self).attach_spec(old(context)@).2,
    {
        let probe = match &context.cli.probe {
            Some(probe) => probe.clone(),
            None => String::from_str("auto"),
        };
        let target = Target { probe, chip: context.cli.chip.clone() };
        match context.core.request(self.command.attach, target) {
            Err(e) => {
                self.phase = Phase::Done;
                DispatchAction::Finish(Err(e))
            },
            Ok(AttachAction::Open(target)) => {
                self.phase = Phase::Opening;
                DispatchAction::Open(target)
            },
            Ok(_) => self.check(context),
        }
    }

    /// Takes the outcome of the step that was asked for last, and gives the
    /// step to perform next.
    ///
    /// The handler is run only once the archive that the command requires
    /// is loaded, the target that it needs is held, and the validation that
    /// it asks for has passed. The first failure ends the command and is
    /// reported as it is; so is a failure of the handler. The text of the
    /// command is appended to the history when the handler has returned
    /// without failure, and at no other time.
    pub fn step(&mut self, context: &mut ExecutionContext, event: DispatchEvent) -> (action:
        DispatchAction)
        ensures
            *final(self) == old(self).step_spec(old(context)@, event).0,
            final(context)@ == old(self).step_spec(old(context)@, event).1,
            action@ == old(self).step_spec(old(context)@, event).2,
    {
        match (self.phase, event) {
            (Phase::Loading, DispatchEvent::Loaded(Some(record))) => {
                match context.source() {
                    Some(source) => {
                        context.archive = Some(LoadedArchive { source, record });
                        self.attach(context)
                    },
                    None => {
                        self.phase = Phase::Done;
                        DispatchAction::Finish(Err(Error::ArchiveMissing))
                    },
                }
            },
            (Phase::Loading, DispatchEvent::Loaded(None)) => {
                self.phase = Phase::Done;
                DispatchAction::Finish(Err(Error::ArchiveLoadFailed))
            },
            (Phase::Opening, DispatchEvent::Opened(ok)) => {
                match context.core.opened(ok) {
                    Ok(()) => self.check(context),
                    Err(e) => {
                        self.phase = Phase::Done;
                        DispatchAction::Finish(Err(e))
                    },
                }
            },
            (Phase::Checking, DispatchEvent::Observed(live)) => {
                let mode = self.command.validate;
                let answer = match &context.archive {
                    Some(loaded) => context.core.validate(mode, &live, &loaded.record),
                    None => {
                        let nothing = ArchiveRecord::empty();
                        context.core.validate(mode, &live, &nothing)
                    },
                };
                match answer {
                    Ok(()) => {
                        self.phase = Phase::Running;
                        DispatchAction::Run(self.command.run)
                    },
                    Err(e) => {
                        self.phase = Phase::Done;
                        DispatchAction::Finish(Err(e))
                    },
                }
            },
            (Phase::Running, DispatchEvent::Returned(None)) => {
                context.history.push(self.line.clone());
                self.phase = Phase::Done;
                DispatchAction::Finish(Ok(()))
            },
            (Phase::Running, DispatchEvent::Returned(Some(e))) => {
                self.phase = Phase::Done;
                DispatchAction::Finish(Err(e))
            },
            _ => DispatchAction::Wait,
        }
    }
}

/// Starts on the command that the session's options ask for.
///
/// Gives the dispatch and the first step to perform, or the reason why
/// there is none: [`Error::UnknownCommand`] where no command of that name
/// is registered, or none is asked for; [`Error::ArchiveMissing`] where
/// the command requires an archive and the options name neither an archive
/// nor a dump. On a refusal the session stays as it is. `line` is the text
/// that goes into the history when the command has gone through.
pub fn subcommand(context: &mut ExecutionContext, commands: &Registry, line: String) -> (started:
    Result<(Dispatch, DispatchAction), Error>)
    ensures
        started is Ok <==> subcommand_spec(commands@, old(context)@, line) is Ok,
        started matches Ok((dispatch, action)) ==> subcommand_spec(commands@, old(context)@, line)
            == Ok::<(Dispatch, SessionModel, DispatchModel), Error>(
            (dispatch, final(context)@, action@),
        ),
        started matches Err(e) ==> subcommand_spec(commands@, old(context)@, line) == Err::<
            (Dispatch, SessionModel, DispatchModel),
            Error,
        >(e) && final(context)@ == old(context)@,
{
    let command = match &context.cli.cmd {
        Some(Subcommand::Other(words)) => {
            if words.len() == 0 {
                return Err(Error::UnknownCommand);
            }
            match commands.resolve(words[0].as_str()) {
                Ok(command) => command.duplicate(),
                Err(e) => {
                    return Err(e);
                },
            }
        },
        None => {
            return Err(Error::UnknownCommand);
        },
    };
    let source = context.source();
    if command.archive == Archive::Required && source.is_none() {
        return Err(Error::ArchiveMissing);
    }
    context.archive = None;
    let ignored = command.archive == Archive::Ignored;
    let mut dispatch = Dispatch { command, line, phase: Phase::Loading };
    match source {
        Some(source) if !ignored => Ok((dispatch, DispatchAction::Load(source))),
        _ => {
            let action = dispatch.attach(context);
            Ok((dispatch, action))
        },
    }
}

/// The commands of the tool: `flash`, `rot-sprocket` and `repl`, in that
/// order.
pub fn init() -> (commands: Registry)
    ensures
        commands.wf(),
        commands@.len() == 3,
        commands@[0].name@ == "flash"@ && commands@[0].archive == Archive::Required
            && commands@[0].attach == Attach::Skip && commands@[0].validate == Validate::Skip
            && commands@[0].run == Handler::Flash,
        commands@[1].name@ == "rot-sprocket"@ && commands@[1].archive == Archive::Required
            && commands@[1].attach == Attach::LiveOnly && commands@[1].validate
            == Validate::Booted && commands@[1].run == Handler::RotSprocket,
        commands@[2].name@ == "repl"@ && commands@[2].archive == Archive::Required
            && commands@[2].attach == Attach::Any && commands@[2].validate == Validate::Match
            && commands@[2].run == Handler::Repl,
{
    proof {
        reveal_strlit("flash");
        reveal_strlit("rot-sprocket");
        reveal_strlit("repl");
    }
    let mut commands = Registry::new();
    let flash = crate::flash::init();
    proof {
        lemma_position_from(commands@, flash.name@, 0);
    }
    let _ = commands.register(flash);
    let sprocket = crate::sprocket::init();
    proof {
        lemma_position_from(commands@, sprocket.name@, 0);
        assert(commands@[0].name@.len() != sprocket.name@.len());
    }
    let _ = commands.register(sprocket);
    let repl = crate::repl::init();
    proof {
        lemma_position_from(commands@, repl.name@, 0);
        assert(commands@[0].name@.len() != repl.name@.len());
        assert(commands@[1].name@.len() != repl.name@.len());
    }
    let _ = commands.register(repl);
    commands
}

/// The text that tells the operator of `failure`, for the command that the
/// options `cli` ask for: an unknown command is named, and so is the
/// archive or dump that could not be loaded; every other failure has its
/// own text.
pub open spec fn describe_spec(cli: Cli, failure: Error) -> Seq<char> {
    match failure {
        Error::UnknownCommand => match name_of(cli) {
            Some(name) => "command "@ + name + " not found"@,
            None => failure.message_spec(),
        },
        Error::ArchiveLoadFailed => match source_of(cli) {
            Some(ArchiveSource::Archive(path)) => "failed to load archive \""@ + path@ + "\""@,
            Some(ArchiveSource::Dump(path)) => "failed to load dump \""@ + path@ + "\""@,
            None => failure.message_spec(),
        },
        _ => failure.message_spec(),
    }
}

/// The text that tells the operator of a failure of the command that the
/// session's options ask for.
///
/// A command that is not known is named: `command <name> not found`. An
/// archive or dump that could not be loaded is named by its path:
/// `failed to load archive "<path>"`, `failed to load dump "<path>"`. Every
/// other failure has the text of [`Error::message`].
pub fn describe(context: &ExecutionContext, failure: Error) -> (text: String)
    ensures
        text@ == describe_spec(context.cli, failure),
{
    match failure {
        Error::UnknownCommand => {
            match &context.cli.cmd {
                Some(Subcommand::Other(words)) => {
                    if words.len() > 0 {
                        let mut text = String::from_str("command ");
                        text.append(words[0].as_str());
                        text.append(" not found");
                        return text;
                    }
                },
                None => {},
            }
            failure.message()
        },
        Error::ArchiveLoadFailed => {
            match context.source() {
                Some(ArchiveSource::Archive(path)) => {
                    let mut text = String::from_str("failed to load archive \"");
                    text.append(path.as_str());
                    text.append("\"");
                    text
                },
                Some(ArchiveSource::Dump(path)) => {
                    let mut text = String::from_str("failed to load dump \"");
                    text.append(path.as_str());
                    text.append("\"");
                    text
                },
                None => failure.message(),
            }
        },
        _ => failure.message(),
    }
}

} // verus!
