//! Programs for the interpreter on the target, and what comes back from
//! running them.
//!
//! A program is a short sequence of operations: constants pushed for the
//! calls that follow, calls of functions on the target, and one closing
//! operation. The target runs a program as a whole and answers with one
//! result for each call. Sending the program and waiting for the target is
//! the caller's part; [`BytecodeExecutor`] checks a program before it is
//! sent, decides how long to wait, and takes the answer apart.

use vstd::prelude::*;
use crate::error::Error;

verus! {

/// The number of a function on the target.
#[derive(Clone, Copy, Debug, PartialEq, Eq, Structural)]
pub struct FunctionId(pub u8);

/// One operation of a program.
#[derive(Clone, Copy, Debug, PartialEq, Eq, Structural)]
pub enum Operation {
    /// Push a constant for a later call.
    PushConstant(u32),
    /// Call a function of the target, which leaves one result.
    Call(FunctionId),
    /// End the program.
    Terminate,
}

/// The number of calls among `ops`.
pub open spec fn count_calls(ops: Seq<Operation>) -> nat
    decreases ops.len(),
{
    if ops.len() == 0 {
        0
    } else {
        count_calls(ops.drop_last()) + if ops.last() is Call {
            1nat
        } else {
            0nat
        }
    }
}

/// Whether `ops` end in a closing operation and hold no other one.
pub open spec fn terminated(ops: Seq<Operation>) -> bool {
    &&& ops.len() > 0
    &&& ops.last() is Terminate
    &&& forall|i: int| 0 <= i < ops.len() - 1 ==> !(#[trigger] ops[i] is Terminate)
}

/// The greatest constant that `ops` push, or 0 where they push none.
pub open spec fn greatest_constant(ops: Seq<Operation>) -> nat
    decreases ops.len(),
{
    if ops.len() == 0 {
        0
    } else {
        let before = greatest_constant(ops.drop_last());
        match ops.last() {
            Operation::PushConstant(value) => if value > before {
                value as nat
            } else {
                before
            },
            _ => before,
        }
    }
}

/// A program: operations that end in exactly one closing operation.
#[derive(Clone, Debug, PartialEq, Eq)]
pub struct Program {
    body: Vec<Operation>,
}

impl View for Program {
    type V = Seq<Operation>;

    /// The operations, the closing one included.
    closed spec fn view(&self) -> Seq<Operation> {
        self.body@.push(Operation::Terminate)
    }
}

impl Program {
    /// What holds of every program: it ends in the one closing operation
    /// that it has.
    pub closed spec fn wf(self) -> bool {
        forall|i: int| 0 <= i < self.body.len() ==> !(#[trigger] self.body[i] is Terminate)
    }

    /// The program that only ends.
    pub fn new() -> (program: Program)
        ensures
            program.wf(),
            program@ == seq![Operation::Terminate],
    {
        let program = Program { body: Vec::new() };
        assert(program@ =~= seq![Operation::Terminate]);
        program
    }

    /// Puts a constant to push before the closing operation.
    pub fn push(&mut self, value: u32)
        ensures
            old(self).wf() ==> final(self).wf(),
            final(self)@ == old(self)@.drop_last().push(Operation::PushConstant(value)).push(
                Operation::Terminate,
            ),
    {
        self.body.push(Operation::PushConstant(value));
        assert(old(self)@.drop_last() =~= old(self).body@);
    }

    /// Puts a call before the closing operation.
    pub fn call(&mut self, function: FunctionId)
        ensures
            old(self).wf() ==> final(self).wf(),
            final(self)@ == old(self)@.drop_last().push(Operation::Call(function)).push(
                Operation::Terminate,
            ),
    {
        self.body.push(Operation::Call(function));
        assert(old(self)@.drop_last() =~= old(self).body@);
    }

    /// Takes operations as a program, where they end in a closing operation
    /// and hold no other one; `None` otherwise.
    pub fn from_ops(ops: Vec<Operation>) -> (program: Option<Program>)
        ensures
            program is Some <==> terminated(ops@),
            program matches Some(p) ==> p.wf() && p@ == ops@,
    {
        let mut body = ops;
        match body.pop() {
            Some(Operation::Terminate) => {},
            _ => {
                return None;
            },
        }
        assert(body@ =~= ops@.drop_last());
        let mut i: usize = 0;
        while i < body.len()
            invariant
                i <= body.len(),
                body@ == ops@.drop_last(),
                ops@.len() > 0,
                forall|j: int| 0 <= j < i ==> !(#[trigger] body[j] is Terminate),
            decreases body.len() - i,
        {
            match body[i] {
                Operation::Terminate => {
                    assert(ops@[i as int] == body[i as int]);
                    return None;
                },
                _ => {},
            }
            i += 1;
        }
        assert forall|j: int| 0 <= j < ops@.len() - 1 implies !(
        #[trigger] ops@[j] is Terminate) by {
            assert(ops@[j] == body[j]);
        }
        let program = Program { body };
        assert(program@ =~= ops@);
        Some(program)
    }

    /// The operations, the closing one included.
    pub fn ops(&self) -> (ops: Vec<Operation>)
        ensures
            ops@ == self@,
            self.wf() ==> terminated(ops@),
    {
        let mut ops: Vec<Operation> = Vec::new();
        let mut i: usize = 0;
        while i < self.body.len()
            invariant
                i <= self.body.len(),
                ops@ == self.body@.take(i as int),
            decreases self.body.len() - i,
        {
            ops.push(self.body[i]);
            assert(self.body@.take(i + 1) =~= self.body@.take(i as int).push(self.body[i as int]));
            i += 1;
        }
        assert(self.body@.take(i as int) =~= self.body@);
        ops.push(Operation::Terminate);
        ops
    }

    /// The number of calls in the program.
    pub fn calls(&self) -> (n: usize)
        ensures
            n == count_calls(self@),
    {
        let mut n: usize = 0;
        let mut i: usize = 0;
        while i < self.body.len()
            invariant
                i <= self.body.len(),
                n <= i,
                n == count_calls(self.body@.take(i as int)),
            decreases self.body.len() - i,
        {
            assert(self.body@.take(i + 1).drop_last() =~= self.body@.take(i as int));
            match self.body[i] {
                Operation::Call(_) => {
                    n += 1;
                },
                _ => {},
            }
            i += 1;
        }
        assert(self.body@.take(i as int) =~= self.body@);
        assert(self@.drop_last() =~= self.body@);
        n
    }

    /// The greatest constant that the program pushes, or 0 where it pushes
    /// none.
    pub fn greatest_constant(&self) -> (top: u32)
        ensures
            top == greatest_constant(self@),
    {
        let mut top: u32 = 0;
        let mut i: usize = 0;
        while i < self.body.len()
            invariant
                i <= self.body.len(),
                top == greatest_constant(self.body@.take(i as int)),
            decreases self.body.len() - i,
        {
            assert(self.body@.take(i + 1).drop_last() =~= self.body@.take(i as int));
            match self.body[i] {
                Operation::PushConstant(value) => {
                    if value > top {
                        top = value;
                    }
                },
                _ => {},
            }
            i += 1;
        }
        assert(self.body@.take(i as int) =~= self.body@);
        assert(self@.drop_last() =~= self.body@);
        top
    }
}

/// What the target answered to a program.
#[derive(Clone, Debug, PartialEq, Eq)]
pub enum Reply {
    /// The target ran the whole program; these are the results of its
    /// calls, in the order of the calls. A call that failed on the target
    /// left its error code.
    Finished(Vec<Result<Vec<u8>, u32>>),
    /// The time ran out; these are the results that had arrived by then.
    TimedOut(Vec<Result<Vec<u8>, u32>>),
}

/// What to do while the target runs a program.
#[derive(Clone, Copy, Debug, PartialEq, Eq, Structural)]
pub enum Wait {
    /// Look again later.
    Again,
    /// Fetch the results.
    Collect,
    /// Stop waiting: the time has run out.
    GiveUp,
}

/// The limits under which programs are run on one target.
#[derive(Clone, Copy, Debug, PartialEq, Eq, Structural)]
pub struct BytecodeExecutor {
    /// How long to wait for the target, in milliseconds.
    pub timeout: u32,
    /// The size of the target's buffer for the input of calls, in bytes.
    pub max_payload: u32,
}

impl BytecodeExecutor {
    /// Whether `program` with `input` is within the limits: no constant
    /// that it pushes, and no input, is larger than the target's buffer.
    pub open spec fn admits(self, program: Seq<Operation>, input: Option<Seq<u8>>) -> bool {
        &&& greatest_constant(program) <= self.max_payload
        &&& input matches Some(bytes) ==> bytes.len() <= self.max_payload
    }

    /// What [`BytecodeExecutor::poll`] gives.
    pub open spec fn poll_spec(self, elapsed: u32, finished: bool) -> Wait {
        if finished {
            Wait::Collect
        } else if elapsed >= self.timeout {
            Wait::GiveUp
        } else {
            Wait::Again
        }
    }

    /// What [`BytecodeExecutor::complete`] gives.
    pub open spec fn complete_spec(program: Seq<Operation>, reply: Reply) -> Result<
        Vec<Result<Vec<u8>, u32>>,
        Error,
    > {
        match reply {
            Reply::TimedOut(_) => Err(Error::ExecutionTimeout),
            Reply::Finished(results) => if results.len() == count_calls(program) {
                Ok(results)
            } else {
                Err(Error::MalformedMessage)
            },
        }
    }

    /// The limits `timeout`, in milliseconds, and `max_payload`, in bytes.
    pub fn new(timeout: u32, max_payload: u32) -> (executor: BytecodeExecutor)
        ensures
            executor.timeout == timeout,
            executor.max_payload == max_payload,
    {
        BytecodeExecutor { timeout, max_payload }
    }

    /// Checks a program and its input before anything is sent, and gives the
    /// operations to send. A program that pushes a constant larger than the
    /// target's buffer, or comes with an input larger than that, is refused
    /// with [`Error::ProtocolSizeExceeded`].
    pub fn prepare(&self, program: &Program, input: Option<&Vec<u8>>) -> (ops: Result<
        Vec<Operation>,
        Error,
    >)
        ensures
            ops is Ok <==> self.admits(
                program@,
                match input {
                    Some(bytes) => Some(bytes@),
                    None => None,
                },
            ),
            ops matches Ok(sent) ==> sent@ == program@,
            ops matches Err(e) ==> e == Error::ProtocolSizeExceeded,
    {
        if program.greatest_constant() > self.max_payload {
            return Err(Error::ProtocolSizeExceeded);
        }
        match input {
            Some(bytes) => {
                if bytes.len() > self.max_payload as usize {
                    return Err(Error::ProtocolSizeExceeded);
                }
            },
            None => {},
        }
        Ok(program.ops())
    }

    /// Decides, `elapsed` milliseconds after a program was sent, what to do:
    /// fetch the results where the target has finished, give up where the
    /// time has run out, and look again otherwise.
    pub fn poll(&self, elapsed: u32, finished: bool) -> (wait: Wait)
        ensures
            wait == self.poll_spec(elapsed, finished),
    {
        if finished {
            Wait::Collect
        } else if elapsed >= self.timeout {
            Wait::GiveUp
        } else {
            Wait::Again
        }
    }

    /// Takes the target's answer to `program`.
    ///
    /// Where the target finished, the results are handed on as they came:
    /// one for each call, in the order of the calls. An answer with another
    /// number of results is [`Error::MalformedMessage`]. Where the time ran
    /// out the outcome is [`Error::ExecutionTimeout`], and the results that
    /// had arrived are dropped.
    pub fn complete(program: &Program, reply: Reply) -> (results: Result<
        Vec<Result<Vec<u8>, u32>>,
        Error,
    >)
        ensures
            results == Self::complete_spec(program@, reply),
            results matches Ok(list) ==> list.len() == count_calls(program@),
    {
        match reply {
            Reply::TimedOut(_) => Err(Error::ExecutionTimeout),
            Reply::Finished(results) => {
                if results.len() == program.calls() {
                    Ok(results)
                } else {
                    Err(Error::MalformedMessage)
                }
            },
        }
    }
}

} // verus!
