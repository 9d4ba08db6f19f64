use humility::error::Error;
use humility::hiffy::BytecodeExecutor;
use humility::hiffy::FunctionId;
use humility::hiffy::Operation;
use humility::hiffy::Program;
use humility::hiffy::Reply;
use humility::hiffy::Wait;

fn two_calls() -> Program {
    let mut program = Program::new();
    program.push(4);
    program.call(FunctionId(1));
    program.push(300);
    program.push(2);
    program.call(FunctionId(9));
    program
}

#[test]
fn a_new_program_only_ends() {
    let program = Program::new();
    assert_eq!(program.ops(), vec![Operation::Terminate]);
    assert_eq!(program.calls(), 0);
    assert_eq!(program.greatest_constant(), 0);
}

#[test]
fn operations_go_before_the_closing_one() {
    let program = two_calls();
    assert_eq!(
        program.ops(),
        vec![
            Operation::PushConstant(4),
            Operation::Call(FunctionId(1)),
            Operation::PushConstant(300),
            Operation::PushConstant(2),
            Operation::Call(FunctionId(9)),
            Operation::Terminate,
        ]
    );
    assert_eq!(program.calls(), 2);
    assert_eq!(program.greatest_constant(), 300);
}

#[test]
fn only_terminated_operations_are_a_program() {
    assert_eq!(Program::from_ops(vec![]), None);
    assert_eq!(Program::from_ops(vec![Operation::PushConstant(1)]), None);
    assert_eq!(Program::from_ops(vec![Operation::Terminate, Operation::Call(FunctionId(0))]), None);
    assert_eq!(
        Program::from_ops(vec![Operation::Terminate, Operation::PushConstant(1), Operation::Terminate]),
        None
    );
    assert_eq!(Program::from_ops(vec![Operation::Terminate, Operation::Terminate]), None);
    let ops = vec![Operation::PushConstant(1), Operation::Call(FunctionId(2)), Operation::Terminate];
    let program = Program::from_ops(ops.clone()).unwrap();
    assert_eq!(program.ops(), ops);
    assert_eq!(Program::from_ops(two_calls().ops()), Some(two_calls()));
    assert_eq!(Program::from_ops(vec![Operation::Terminate]), Some(Program::new()));
}

#[test]
fn a_constant_over_the_limit_is_refused() {
    let program = two_calls();
    assert_eq!(BytecodeExecutor::new(5000, 299).prepare(&program, None), Err(Error::ProtocolSizeExceeded));
    assert_eq!(BytecodeExecutor::new(5000, 300).prepare(&program, None), Ok(program.ops()));
    assert_eq!(BytecodeExecutor::new(5000, 0).prepare(&Program::new(), None), Ok(vec![Operation::Terminate]));
}

#[test]
fn an_input_over_the_limit_is_refused() {
    let mut program = Program::new();
    program.push(3);
    program.call(FunctionId(0));
    let executor = BytecodeExecutor::new(5000, 3);
    assert_eq!(executor.prepare(&program, Some(&vec![1, 2, 3])), Ok(program.ops()));
    assert_eq!(executor.prepare(&program, Some(&vec![1, 2, 3, 4])), Err(Error::ProtocolSizeExceeded));
    assert_eq!(executor.prepare(&program, Some(&vec![])), Ok(program.ops()));
}

#[test]
fn poll_waits_until_the_time_is_up() {
    let executor = BytecodeExecutor::new(5000, 256);
    assert_eq!(executor.poll(0, false), Wait::Again);
    assert_eq!(executor.poll(4999, false), Wait::Again);
    assert_eq!(executor.poll(5000, false), Wait::GiveUp);
    assert_eq!(executor.poll(u32::MAX, false), Wait::GiveUp);
    assert_eq!(executor.poll(0, true), Wait::Collect);
    assert_eq!(executor.poll(9000, true), Wait::Collect);
    assert_eq!(BytecodeExecutor::new(0, 0).poll(0, false), Wait::GiveUp);
}

#[test]
fn one_result_for_each_call_in_call_order() {
    let program = two_calls();
    let results = vec![Ok(vec![1, 2]), Err(7)];
    assert_eq!(BytecodeExecutor::complete(&program, Reply::Finished(results.clone())), Ok(results));
    let none: Vec<Result<Vec<u8>, u32>> = vec![];
    assert_eq!(BytecodeExecutor::complete(&Program::new(), Reply::Finished(none.clone())), Ok(none));
}

#[test]
fn a_wrong_number_of_results_is_malformed() {
    let program = two_calls();
    assert_eq!(
        BytecodeExecutor::complete(&program, Reply::Finished(vec![Ok(vec![])])),
        Err(Error::MalformedMessage)
    );
    assert_eq!(
        BytecodeExecutor::complete(&program, Reply::Finished(vec![Ok(vec![]), Ok(vec![]), Ok(vec![])])),
        Err(Error::MalformedMessage)
    );
}

#[test]
fn a_timeout_drops_what_had_arrived() {
    let program = two_calls();
    assert_eq!(
        BytecodeExecutor::complete(&program, Reply::TimedOut(vec![Ok(vec![1, 2])])),
        Err(Error::ExecutionTimeout)
    );
    assert_eq!(
        BytecodeExecutor::complete(&program, Reply::TimedOut(vec![Ok(vec![1]), Ok(vec![2])])),
        Err(Error::ExecutionTimeout)
    );
    assert_eq!(BytecodeExecutor::complete(&program, Reply::TimedOut(vec![])), Err(Error::ExecutionTimeout));
}
