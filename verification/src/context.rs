//! What one session holds from command to command.

use vstd::prelude::*;
use crate::attach::ArchiveRecord;
use crate::attach::AttachAction;
use crate::attach::ActionModel;
use crate::attach::AttachModel;
use crate::attach::AttachState;
use crate::cli::Cli;
use crate::error::Error;

verus! {

/// Where the firmware comes from.
#[derive(Clone, Debug, PartialEq, Eq)]
pub enum ArchiveSource {
    /// An archive, at this path.
    Archive(String),
    /// A dump, at this path.
    Dump(String),
}

/// An archive or dump that was loaded.
#[derive(Clone, Debug, PartialEq, Eq)]
pub struct LoadedArchive {
    /// Where it came from.
    pub source: ArchiveSource,
    /// What it says the target should hold.
    pub record: ArchiveRecord,
}

/// The state of one session: the attachment to the target, the commands
/// that went through, the archive that is loaded, and the operator's
/// options.
#[derive(Clone, Debug)]
pub struct ExecutionContext {
    /// Where the session stands with its target.
    pub core: AttachState,
    /// The text of each command that went through, oldest first.
    pub history: Vec<String>,
    /// The archive or dump that is loaded, if any.
    pub archive: Option<LoadedArchive>,
    /// The operator's options.
    pub cli: Cli,
}

/// An [`ExecutionContext`] with the attachment as its model.
pub struct SessionModel {
    pub core: AttachModel,
    pub history: Seq<String>,
    pub archive: Option<LoadedArchive>,
    pub cli: Cli,
}

impl View for ExecutionContext {
    type V = SessionModel;

    open spec fn view(&self) -> SessionModel {
        SessionModel {
            core: self.core@,
            history: self.history@,
            archive: self.archive,
            cli: self.cli,
        }
    }
}

/// The options after a dump and an archive that were both supplied are
/// settled: the one that was named on the command line stays, the one that
/// came from the environment goes. Both on the command line, or both from
/// the environment, cannot be settled.
pub open spec fn settle(cli: Cli, dump_named: bool, archive_named: bool) -> Result<Cli, Error> {
    if cli.dump is Some && cli.archive is Some {
        if dump_named && archive_named {
            Err(Error::ConflictingSources)
        } else if !dump_named && !archive_named {
            Err(Error::AmbiguousEnvironment)
        } else if dump_named {
            Ok(Cli { archive: None, ..cli })
        } else {
            Ok(Cli { dump: None, ..cli })
        }
    } else {
        Ok(cli)
    }
}

/// Which of two sources that were both supplied was kept.
#[derive(Clone, Copy, Debug, PartialEq, Eq, Structural)]
pub enum Precedence {
    /// The dump, named on the command line, over the archive from the
    /// environment.
    DumpOverArchive,
    /// The archive, named on the command line, over the dump from the
    /// environment.
    ArchiveOverDump,
}

/// Which source is kept over which, where both were supplied and one of
/// them alone was named on the command line; `None` where nothing is
/// overridden.
pub open spec fn precedence_spec(cli: Cli, dump_named: bool, archive_named: bool) -> Option<
    Precedence,
> {
    if cli.dump is Some && cli.archive is Some && dump_named && !archive_named {
        Some(Precedence::DumpOverArchive)
    } else if cli.dump is Some && cli.archive is Some && !dump_named && archive_named {
        Some(Precedence::ArchiveOverDump)
    } else {
        None
    }
}

/// One source is overridden exactly where the options settle and lose a
/// source by it, and the source that goes is the one from the environment.
pub proof fn law_precedence(cli: Cli, dump_named: bool, archive_named: bool)
    ensures
        precedence_spec(cli, dump_named, archive_named) == Some(Precedence::DumpOverArchive)
            <==> settle(cli, dump_named, archive_named) == Ok::<Cli, Error>(
            Cli { archive: None, ..cli },
        ) && cli.archive is Some,
        precedence_spec(cli, dump_named, archive_named) == Some(Precedence::ArchiveOverDump)
            <==> settle(cli, dump_named, archive_named) == Ok::<Cli, Error>(
            Cli { dump: None, ..cli },
        ) && cli.dump is Some,
{
}

/// The source that the options name: the archive where there is one, else
/// the dump.
pub open spec fn source_of(cli: Cli) -> Option<ArchiveSource> {
    match (cli.archive, cli.dump) {
        (Some(path), _) => Some(ArchiveSource::Archive(path)),
        (None, Some(path)) => Some(ArchiveSource::Dump(path)),
        (None, None) => None,
    }
}

impl ExecutionContext {
    /// A new session for the options `cli`.
    ///
    /// `dump_occurrences` and `archive_occurrences` say how often each
    /// option stood on the command line; an option that has a value and
    /// did not stand there exactly once has it from the environment. Where
    /// both a dump and an archive are supplied, the one from the command
    /// line wins over the one from the environment. Both on the command
    /// line is [`Error::ConflictingSources`], both from the environment
    /// [`Error::AmbiguousEnvironment`].
    pub fn new(cli: Cli, dump_occurrences: u64, archive_occurrences: u64) -> (context: Result<
        ExecutionContext,
        Error,
    >)
        ensures
            context is Ok <==> settle(cli, dump_occurrences == 1, archive_occurrences == 1) is Ok,
            context matches Ok(c) ==> settle(cli, dump_occurrences == 1, archive_occurrences == 1)
                == Ok::<Cli, Error>(c.cli) && c.core@ == AttachModel::Detached && c.history@
                == Seq::<String>::empty() && c.archive is None,
            context matches Err(e) ==> settle(cli, dump_occurrences == 1, archive_occurrences == 1)
                == Err::<Cli, Error>(e),
    {
        let mut cli = cli;
        if cli.dump.is_some() && cli.archive.is_some() {
            match (dump_occurrences == 1, archive_occurrences == 1) {
                (true, true) => {
                    return Err(Error::ConflictingSources);
                },
                (false, false) => {
                    return Err(Error::AmbiguousEnvironment);
                },
                (true, false) => {
                    cli.archive = None;
                },
                (false, true) => {
                    cli.dump = None;
                },
            }
        }
        Ok(ExecutionContext { core: AttachState::new(), history: Vec::new(), archive: None, cli })
    }

    /// Says which source a new session for `cli` keeps over which, for the
    /// operator to be told: the one named on the command line over the one
    /// from the environment. `None` where nothing is overridden.
    pub fn precedence(cli: &Cli, dump_occurrences: u64, archive_occurrences: u64) -> (kept: Option<
        Precedence,
    >)
        ensures
            kept == precedence_spec(*cli, dump_occurrences == 1, archive_occurrences == 1),
    {
        if cli.dump.is_some() && cli.archive.is_some() {
            match (dump_occurrences == 1, archive_occurrences == 1) {
                (true, false) => Some(Precedence::DumpOverArchive),
                (false, true) => Some(Precedence::ArchiveOverDump),
                _ => None,
            }
        } else {
            None
        }
    }

    /// The source that the options name: the archive where there is one,
    /// else the dump.
    pub fn source(&self) -> (source: Option<ArchiveSource>)
        ensures
            source == source_of(self.cli),
    {
        match &self.cli.archive {
            Some(path) => Some(ArchiveSource::Archive(path.clone())),
            None => match &self.cli.dump {
                Some(path) => Some(ArchiveSource::Dump(path.clone())),
                None => None,
            },
        }
    }

    /// Appends the text of a command to the history.
    pub fn record(&mut self, line: String)
        ensures
            final(self).history@ == old(self).history@.push(line),
            final(self).core == old(self).core,
            final(self).archive == old(self).archive,
            final(self).cli == old(self).cli,
    {
        self.history.push(line);
    }

    /// Ends the session: the target is let go of, from whatever state, and
    /// the transport is to be released where it was asked for.
    pub fn teardown(&mut self) -> (action: AttachAction)
        ensures
            final(self).core@ == AttachModel::Detached,
            action@ == (if old(self).core@ is Detached {
                ActionModel::Nothing
            } else {
                ActionModel::Release
            }),
            final(self).history == old(self).history,
            final(self).archive == old(self).archive,
            final(self).cli == old(self).cli,
    {
        self.core.teardown()
    }
}

} // verus!
