//! Attaching to a target and validating it against the loaded archive.
//!
//! A session is detached, attaching, attached or validated. The transport
//! itself is driven by the caller: [`AttachState::request`] and
//! [`AttachState::teardown`] say what to ask of it, and
//! [`AttachState::opened`] and [`AttachState::validate`] take what it
//! answered.

use vstd::prelude::*;
use crate::error::Error;
use crate::error::MismatchReason;

verus! {

/// What a command needs of the attachment to the target.
#[derive(Clone, Copy, Debug, PartialEq, Eq, Structural)]
pub enum Attach {
    /// The command does not touch the target.
    Skip,
    /// The command needs a target that is attached, and validates it anew.
    LiveOnly,
    /// The command takes the session as an earlier command left it, attached
    /// or validated.
    Any,
}

/// What a command needs to know of the target before it runs.
#[derive(Clone, Copy, Debug, PartialEq, Eq, Structural)]
pub enum Validate {
    /// Nothing.
    Skip,
    /// The target is running and answers.
    Booted,
    /// The identity that the target reports is the one recorded in the archive.
    Match,
    /// The image in the target's flash is the archive's image.
    ArchiveMatch,
}

/// A probe and the chip behind it.
#[derive(Clone, Debug, PartialEq, Eq)]
pub struct Target {
    /// The probe, or `auto` to take whichever is found.
    pub probe: String,
    /// The model of the chip.
    pub chip: String,
}

impl View for Target {
    type V = (Seq<char>, Seq<char>);

    open spec fn view(&self) -> (Seq<char>, Seq<char>) {
        (self.probe@, self.chip@)
    }
}

impl Target {
    /// Whether both name the same probe and the same chip.
    pub fn same(&self, other: &Target) -> (b: bool)
        ensures
            b == (self@ == other@),
    {
        self.probe == other.probe && self.chip == other.chip
    }

    /// A copy of this target.
    pub fn duplicate(&self) -> (copy: Target)
        ensures
            copy == *self,
    {
        Target { probe: self.probe.clone(), chip: self.chip.clone() }
    }
}

/// What was read from the target through the probe.
#[derive(Clone, Debug, PartialEq, Eq)]
pub struct LiveTarget {
    /// Whether the target runs and answers.
    pub responsive: bool,
    /// The identity that the target reports for its image.
    pub identity: Vec<u8>,
    /// The image in the target's flash.
    pub image: Vec<u8>,
}

/// What the loaded archive says the target should hold.
#[derive(Clone, Debug, PartialEq, Eq)]
pub struct ArchiveRecord {
    /// The identity recorded for the image.
    pub identity: Vec<u8>,
    /// The image to be found in flash.
    pub image: Vec<u8>,
}

/// A [`LiveTarget`] with its bytes as sequences.
pub struct LiveModel {
    pub responsive: bool,
    pub identity: Seq<u8>,
    pub image: Seq<u8>,
}

/// An [`ArchiveRecord`] with its bytes as sequences.
pub struct RecordModel {
    pub identity: Seq<u8>,
    pub image: Seq<u8>,
}

impl View for LiveTarget {
    type V = LiveModel;

    open spec fn view(&self) -> LiveModel {
        LiveModel { responsive: self.responsive, identity: self.identity@, image: self.image@ }
    }
}

impl View for ArchiveRecord {
    type V = RecordModel;

    open spec fn view(&self) -> RecordModel {
        RecordModel { identity: self.identity@, image: self.image@ }
    }
}

impl ArchiveRecord {
    /// The record of no archive: nothing is recorded.
    pub fn empty() -> (record: ArchiveRecord)
        ensures
            record@ == (RecordModel { identity: Seq::empty(), image: Seq::empty() }),
    {
        ArchiveRecord { identity: Vec::new(), image: Vec::new() }
    }
}

/// Whether two byte strings hold the same bytes.
pub fn bytes_equal(a: &Vec<u8>, b: &Vec<u8>) -> (same: bool)
    ensures
        same == (a@ == b@),
{
    if a.len() != b.len() {
        return false;
    }
    let mut i: usize = 0;
    while i < a.len()
        invariant
            i <= a.len(),
            a.len() == b.len(),
            forall|j: int| 0 <= j < i ==> a[j] == b[j],
        decreases a.len() - i,
    {
        if a[i] != b[i] {
            return false;
        }
        i += 1;
    }
    assert(a@ =~= b@);
    true
}

/// What [`judge`] gives: what stands against the target under `mode`, if anything.
pub open spec fn judge_spec(mode: Validate, live: LiveModel, record: RecordModel) -> Option<
    MismatchReason,
> {
    match mode {
        Validate::Skip => None,
        Validate::Booted => if live.responsive {
            None
        } else {
            Some(MismatchReason::NotBooted)
        },
        Validate::Match => if !live.responsive {
            Some(MismatchReason::NotBooted)
        } else if live.identity == record.identity {
            None
        } else {
            Some(MismatchReason::IdentityDiffers)
        },
        Validate::ArchiveMatch => if !live.responsive {
            Some(MismatchReason::NotBooted)
        } else if live.image == record.image {
            None
        } else {
            Some(MismatchReason::ImageDiffers)
        },
    }
}

/// Holds what was read from the target against what the archive records.
///
/// Under `Booted` the target must answer; under `Match` it must answer and
/// report the recorded identity; under `ArchiveMatch` it must answer and
/// hold the recorded image. `Skip` asks nothing.
pub fn judge(mode: Validate, live: &LiveTarget, record: &ArchiveRecord) -> (verdict: Result<
    (),
    MismatchReason,
>)
    ensures
        verdict is Ok <==> judge_spec(mode, live@, record@) is None,
        verdict matches Err(reason) ==> judge_spec(mode, live@, record@) == Some(reason),
{
    match mode {
        Validate::Skip => Ok(()),
        Validate::Booted => if live.responsive {
            Ok(())
        } else {
            Err(MismatchReason::NotBooted)
        },
        Validate::Match => if !live.responsive {
            Err(MismatchReason::NotBooted)
        } else if bytes_equal(&live.identity, &record.identity) {
            Ok(())
        } else {
            Err(MismatchReason::IdentityDiffers)
        },
        Validate::ArchiveMatch => if !live.responsive {
            Err(MismatchReason::NotBooted)
        } else if bytes_equal(&live.image, &record.image) {
            Ok(())
        } else {
            Err(MismatchReason::ImageDiffers)
        },
    }
}

/// Where a session stands with its target.
#[derive(Clone, Debug, PartialEq, Eq)]
pub enum AttachState {
    /// No target is held.
    Detached,
    /// The transport was asked for this target and has not answered yet.
    Attaching(Target),
    /// The target is held and nothing is known of it.
    Attached(Target),
    /// The target is held and has passed this validation.
    Validated(Target, Validate),
}

/// What the caller is to ask of the transport.
#[derive(Clone, Debug, PartialEq, Eq)]
pub enum AttachAction {
    /// Nothing.
    Nothing,
    /// Attach to this target.
    Open(Target),
    /// Let go of the target that is held.
    Release,
}

/// An [`AttachState`] with its texts as sequences.
pub enum AttachModel {
    Detached,
    Attaching((Seq<char>, Seq<char>)),
    Attached((Seq<char>, Seq<char>)),
    Validated((Seq<char>, Seq<char>), Validate),
}

/// An [`AttachAction`] with its texts as sequences.
pub enum ActionModel {
    Nothing,
    Open((Seq<char>, Seq<char>)),
    Release,
}

impl View for AttachState {
    type V = AttachModel;

    open spec fn view(&self) -> AttachModel {
        match *self {
            AttachState::Detached => AttachModel::Detached,
            AttachState::Attaching(t) => AttachModel::Attaching(t@),
            AttachState::Attached(t) => AttachModel::Attached(t@),
            AttachState::Validated(t, mode) => AttachModel::Validated(t@, mode),
        }
    }
}

impl View for AttachAction {
    type V = ActionModel;

    open spec fn view(&self) -> ActionModel {
        match *self {
            AttachAction::Nothing => ActionModel::Nothing,
            AttachAction::Open(t) => ActionModel::Open(t@),
            AttachAction::Release => ActionModel::Release,
        }
    }
}

impl AttachModel {
    /// Whether a target is held.
    pub open spec fn holds(self) -> bool {
        self is Attached || self is Validated
    }

    /// The target that is held or asked for, if any.
    pub open spec fn target(self) -> Option<(Seq<char>, Seq<char>)> {
        match self {
            AttachModel::Detached => None,
            AttachModel::Attaching(t) => Some(t),
            AttachModel::Attached(t) => Some(t),
            AttachModel::Validated(t, _) => Some(t),
        }
    }

    /// The validation that the target has passed, if any.
    pub open spec fn passed(self) -> Option<Validate> {
        match self {
            AttachModel::Validated(_, mode) => Some(mode),
            _ => None,
        }
    }

    /// The state after a command with the need `need` asks for `target`.
    ///
    /// A detached session starts attaching. A session that holds the same
    /// target keeps it; under `LiveOnly` an earlier validation is given up.
    /// Everything else stays as it is.
    pub open spec fn after_request(self, need: Attach, target: (Seq<char>, Seq<char>))
        -> AttachModel {
        match (need, self) {
            (Attach::Skip, _) => self,
            (_, AttachModel::Detached) => AttachModel::Attaching(target),
            (Attach::LiveOnly, AttachModel::Validated(held, _)) => if held == target {
                AttachModel::Attached(held)
            } else {
                self
            },
            _ => self,
        }
    }

    /// What a command with the need `need` that asks for `target` gets: the
    /// action to take, or the refusal where the session holds or awaits
    /// another target, or awaits this one.
    pub open spec fn request_answer(self, need: Attach, target: (Seq<char>, Seq<char>)) -> Result<
        ActionModel,
        Error,
    > {
        match (need, self) {
            (Attach::Skip, _) => Ok(ActionModel::Nothing),
            (_, AttachModel::Detached) => Ok(ActionModel::Open(target)),
            (_, AttachModel::Attaching(_)) => Err(Error::ProbeAttachFailure),
            (_, AttachModel::Attached(held)) => if held == target {
                Ok(ActionModel::Nothing)
            } else {
                Err(Error::ProbeAttachFailure)
            },
            (_, AttachModel::Validated(held, _)) => if held == target {
                Ok(ActionModel::Nothing)
            } else {
                Err(Error::ProbeAttachFailure)
            },
        }
    }

    /// The state after what the target holds was changed: an earlier
    /// validation says nothing any more, the target is held as before.
    pub open spec fn after_change(self) -> AttachModel {
        match self {
            AttachModel::Validated(t, _) => AttachModel::Attached(t),
            _ => self,
        }
    }

    /// The state after the transport answered a request to attach.
    pub open spec fn after_opened(self, ok: bool) -> AttachModel {
        match self {
            AttachModel::Attaching(t) => if ok {
                AttachModel::Attached(t)
            } else {
                AttachModel::Detached
            },
            _ => self,
        }
    }

    /// Whether a command that needs `mode` must have the target read: not
    /// where it needs nothing, and not where it takes the session as it is
    /// and the session has passed that validation already.
    pub open spec fn needs_check(self, need: Attach, mode: Validate) -> bool {
        mode != Validate::Skip && !(need == Attach::Any && self.passed() == Some(mode))
    }

    /// The state after the target was read and held against the archive.
    pub open spec fn after_validate(self, mode: Validate, live: LiveModel, record: RecordModel)
        -> AttachModel {
        match self.target() {
            Some(t) if self.holds() => if mode == Validate::Skip {
                self
            } else if judge_spec(mode, live, record) is None {
                AttachModel::Validated(t, mode)
            } else {
                AttachModel::Attached(t)
            },
            _ => self,
        }
    }

    /// What a validation answers: nothing to validate where no target is
    /// held, else what stands against the target.
    pub open spec fn validate_answer(self, mode: Validate, live: LiveModel, record: RecordModel)
        -> Result<(), Error> {
        if !self.holds() {
            Err(Error::ProbeAttachFailure)
        } else {
            match judge_spec(mode, live, record) {
                None => Ok(()),
                Some(reason) => Err(Error::ValidationMismatch(reason)),
            }
        }
    }
}

/// A session has one target at most: the transport is asked to attach only
/// where the session is detached, and a request leaves the target that is
/// held or awaited as it is.
pub proof fn law_one_target_at_most(
    state: AttachModel,
    need: Attach,
    target: (Seq<char>, Seq<char>),
)
    ensures
        state.request_answer(need, target) matches Ok(ActionModel::Open(asked)) ==> state
            is Detached && asked == target && state.after_request(need, target)
            == AttachModel::Attaching(target),
        !(state is Detached) ==> state.after_request(need, target).target() == state.target(),
        state.request_answer(need, target) is Err ==> state.after_request(need, target) == state,
{
}

/// To ask again for the target that is held changes nothing for a command
/// that takes the session as it is, and asks nothing of the transport.
pub proof fn law_reattach_changes_nothing(state: AttachModel, target: (Seq<char>, Seq<char>))
    requires
        state.holds(),
        state.target() == Some(target),
    ensures
        state.request_answer(Attach::Any, target) == Ok::<ActionModel, Error>(ActionModel::Nothing),
        state.after_request(Attach::Any, target) == state,
        state.request_answer(Attach::LiveOnly, target) == Ok::<ActionModel, Error>(
            ActionModel::Nothing,
        ),
        state.after_request(Attach::LiveOnly, target) == AttachModel::Attached(target),
{
}

/// A validation never lets go of the target: it is held afterwards exactly
/// where it was held before, and it is the same target. The session is
/// validated afterwards exactly where the target was held and passed.
pub proof fn law_validation_keeps_target(
    state: AttachModel,
    mode: Validate,
    live: LiveModel,
    record: RecordModel,
)
    ensures
        state.after_validate(mode, live, record).holds() == state.holds(),
        state.after_validate(mode, live, record).target() == state.target(),
        mode != Validate::Skip ==> (state.after_validate(mode, live, record).passed() == Some(mode)
            <==> state.validate_answer(mode, live, record) is Ok),
{
}

impl AttachState {
    /// A session that holds no target.
    pub fn new() -> (state: AttachState)
        ensures
            state@ == AttachModel::Detached,
    {
        AttachState::Detached
    }

    /// Whether a target is held.
    pub fn holds(&self) -> (b: bool)
        ensures
            b == self@.holds(),
    {
        match self {
            AttachState::Attached(_) => true,
            AttachState::Validated(_, _) => true,
            _ => false,
        }
    }

    /// A command with the need `need` asks for `target`.
    ///
    /// Gives the action to take: to attach, where the session is detached,
    /// and nothing where it holds that target already. A session holds one
    /// target at most, so a request for another one, or one made while the
    /// transport has not answered, is refused with
    /// [`Error::ProbeAttachFailure`] and changes nothing.
    pub fn request(&mut self, need: Attach, target: Target) -> (answer: Result<AttachAction, Error>)
        ensures
            final(self)@ == old(self)@.after_request(need, target@),
            answer is Ok <==> old(self)@.request_answer(need, target@) is Ok,
            answer matches Ok(action) ==> old(self)@.request_answer(need, target@) == Ok::<
                ActionModel,
                Error,
            >(action@),
            answer matches Err(e) ==> old(self)@.request_answer(need, target@) == Err::<
                ActionModel,
                Error,
            >(e),
    {
        if need == Attach::Skip {
            return Ok(AttachAction::Nothing);
        }
        match self {
            AttachState::Detached => {
                let open = target.duplicate();
                *self = AttachState::Attaching(target);
                Ok(AttachAction::Open(open))
            },
            AttachState::Attaching(_) => Err(Error::ProbeAttachFailure),
            AttachState::Attached(held) => {
                if held.same(&target) {
                    Ok(AttachAction::Nothing)
                } else {
                    Err(Error::ProbeAttachFailure)
                }
            },
            AttachState::Validated(held, _) => {
                if held.same(&target) {
                    if need == Attach::LiveOnly {
                        let kept = held.duplicate();
                        *self = AttachState::Attached(kept);
                    }
                    Ok(AttachAction::Nothing)
                } else {
                    Err(Error::ProbeAttachFailure)
                }
            },
        }
    }

    /// Takes the transport's answer to a request to attach: `ok` where it
    /// attached. Succeeds exactly where the session holds a target
    /// afterwards, and fails with [`Error::ProbeAttachFailure`] otherwise.
    pub fn opened(&mut self, ok: bool) -> (answer: Result<(), Error>)
        ensures
            final(self)@ == old(self)@.after_opened(ok),
            answer is Ok <==> final(self)@.holds(),
            answer matches Err(e) ==> e == Error::ProbeAttachFailure,
    {
        match self {
            AttachState::Attaching(t) => {
                if ok {
                    let held = t.duplicate();
                    *self = AttachState::Attached(held);
                    Ok(())
                } else {
                    *self = AttachState::Detached;
                    Err(Error::ProbeAttachFailure)
                }
            },
            AttachState::Attached(_) => Ok(()),
            AttachState::Validated(_, _) => Ok(()),
            AttachState::Detached => Err(Error::ProbeAttachFailure),
        }
    }

    /// Whether a command with the need `need` that asks for the validation
    /// `mode` must have the target read first.
    pub fn needs_check(&self, need: Attach, mode: Validate) -> (b: bool)
        ensures
            b == self@.needs_check(need, mode),
    {
        if mode == Validate::Skip {
            return false;
        }
        match self {
            AttachState::Validated(_, passed) => !(need == Attach::Any && *passed == mode),
            _ => true,
        }
    }

    /// Holds what was read from the target against the archive under `mode`.
    ///
    /// A target that passes is validated; one that fails stays attached,
    /// any earlier validation is lost, and the answer is
    /// [`Error::ValidationMismatch`] with what stands against it. Where no
    /// target is held there is nothing to validate:
    /// [`Error::ProbeAttachFailure`].
    pub fn validate(&mut self, mode: Validate, live: &LiveTarget, record: &ArchiveRecord)
        -> (answer: Result<(), Error>)
        ensures
            final(self)@ == old(self)@.after_validate(mode, live@, record@),
            answer == old(self)@.validate_answer(mode, live@, record@),
    {
        let held = match self {
            AttachState::Attached(t) => t.duplicate(),
            AttachState::Validated(t, _) => t.duplicate(),
            _ => {
                return Err(Error::ProbeAttachFailure);
            },
        };
        match judge(mode, live, record) {
            Ok(()) => {
                if mode != Validate::Skip {
                    *self = AttachState::Validated(held, mode);
                }
                Ok(())
            },
            Err(reason) => {
                *self = AttachState::Attached(held);
                Err(Error::ValidationMismatch(reason))
            },
        }
    }

    /// Takes note that what the target holds was changed, or may have been:
    /// a validation that passed before says nothing any more.
    pub fn invalidate(&mut self)
        ensures
            final(self)@ == old(self)@.after_change(),
    {
        let held = match self {
            AttachState::Validated(t, _) => t.duplicate(),
            _ => {
                return ;
            },
        };
        *self = AttachState::Attached(held);
    }

    /// Ends the session's hold on the target, from any state. The transport
    /// is to be released wherever it was asked for, whether or not it
    /// answered and whether or not a validation passed.
    pub fn teardown(&mut self) -> (action: AttachAction)
        ensures
            final(self)@ == AttachModel::Detached,
            action@ == (if old(self)@ is Detached {
                ActionModel::Nothing
            } else {
                ActionModel::Release
            }),
    {
        let action = match self {
            AttachState::Detached => AttachAction::Nothing,
            _ => AttachAction::Release,
        };
        *self = AttachState::Detached;
        action
    }
}

} // verus!
