use humility::attach::Attach;
use humility::attach::Validate;
use humility::cmd::Archive;
use humility::cmd::Handler;
use humility::error::Error;
use humility::hiffy::BytecodeExecutor;
use humility::hiffy::FunctionId;
use humility::hiffy::Operation;
use humility::sprocket::answer;
use humility::sprocket::init;
use humility::sprocket::query;
use humility::sprocket::AttestationMessage;
use humility::sprocket::MessageKind;
use humility::sprocket::RotOpV1;
use humility::sprocket::RotRequest;
use humility::sprocket::RotResponse;
use humility::sprocket::RotResultV1;
use humility::sprocket::RotSprocketArgs;
use humility::sprocket::REQUEST_MAX_SIZE;
use humility::sprocket::RESPONSE_HEADER_SIZE;
use humility::sprocket::RESPONSE_MAX_PAYLOAD;
use humility::sprocket::RESPONSE_MAX_SIZE;
use humility::sprocket::VERSION;

fn response(id: u32, result: RotResultV1, payload: Vec<u8>) -> RotResponse {
    RotResponse { id, version: VERSION, result, payload }
}

#[test]
fn sizes_are_as_declared() {
    assert_eq!(VERSION, 1);
    assert_eq!(REQUEST_MAX_SIZE, 9);
    assert_eq!(RESPONSE_HEADER_SIZE, 11);
    assert_eq!(RESPONSE_MAX_PAYLOAD, 512);
    assert_eq!(RESPONSE_MAX_SIZE, RESPONSE_HEADER_SIZE + RESPONSE_MAX_PAYLOAD);
}

#[test]
fn a_request_is_nine_bytes_little_endian() {
    let request = RotRequest::new(0x0403_0201, RotOpV1::GetEndorsements);
    assert_eq!(request, RotRequest { id: 0x0403_0201, version: 1, op: RotOpV1::GetEndorsements });
    assert_eq!(request.encode(), Ok(vec![1, 2, 3, 4, 1, 0, 0, 0, 0]));
    assert_eq!(request.to_bytes(), vec![1, 2, 3, 4, 1, 0, 0, 0, 0]);
    let zero = RotRequest { id: 0, version: 1, op: RotOpV1::GetEndorsements };
    assert_eq!(zero.encode(), Ok(vec![0, 0, 0, 0, 1, 0, 0, 0, 0]));
}

#[test]
fn requests_round_trip() {
    for id in [0, 1, 255, 256, 65535, 65536, 0x00ff_ffff, 0x0100_0000, 0xdead_beef, u32::MAX] {
        let request = RotRequest::new(id, RotOpV1::GetEndorsements);
        let bytes = request.encode().unwrap();
        assert_eq!(bytes.len(), REQUEST_MAX_SIZE);
        assert_eq!(RotRequest::decode(&bytes), Ok(request));
    }
}

#[test]
fn malformed_requests_are_refused() {
    assert_eq!(RotRequest::decode(&[]), Err(Error::MalformedMessage));
    assert_eq!(RotRequest::decode(&[0, 0, 0, 0, 1, 0, 0, 0]), Err(Error::MalformedMessage));
    assert_eq!(RotRequest::decode(&[0, 0, 0, 0, 1, 0, 0, 0, 0, 0]), Err(Error::MalformedMessage));
    assert_eq!(RotRequest::decode(&[0, 0, 0, 0, 2, 0, 0, 0, 0]), Err(Error::MalformedMessage));
    assert_eq!(RotRequest::decode(&[0, 0, 0, 0, 1, 0, 0, 1, 0]), Err(Error::MalformedMessage));
    assert_eq!(RotRequest::decode(&[0, 0, 0, 0, 1, 0, 0, 0, 1]), Err(Error::MalformedMessage));
    assert_eq!(RotRequest::decode(&[0, 0, 0, 0, 1, 0, 0, 0, 255]), Err(Error::MalformedMessage));
}

#[test]
fn a_request_of_another_version_does_not_come_back() {
    let request = RotRequest { id: 0, version: 2, op: RotOpV1::GetEndorsements };
    let bytes = request.encode().unwrap();
    assert_eq!(bytes, vec![0, 0, 0, 0, 2, 0, 0, 0, 0]);
    assert_eq!(RotRequest::decode(&bytes), Err(Error::MalformedMessage));
}

#[test]
fn a_response_carries_its_length() {
    let bytes = response(0x0a0b_0c0d, RotResultV1::Endorsements, vec![9, 8, 7]).encode().unwrap();
    assert_eq!(bytes, vec![0x0d, 0x0c, 0x0b, 0x0a, 1, 0, 0, 0, 2, 3, 0, 9, 8, 7]);
    let bytes = response(1, RotResultV1::Done, vec![]).encode().unwrap();
    assert_eq!(bytes, vec![1, 0, 0, 0, 1, 0, 0, 0, 0, 0, 0]);
    let bytes = response(1, RotResultV1::Failed, vec![5; 300]).encode().unwrap();
    assert_eq!(&bytes[..11], &[1, 0, 0, 0, 1, 0, 0, 0, 1, 44, 1]);
    assert_eq!(bytes.len(), 311);
}

#[test]
fn responses_round_trip_up_to_the_greatest_size() {
    for result in [RotResultV1::Done, RotResultV1::Failed, RotResultV1::Endorsements] {
        for n in [0, 1, 255, 256, 257, 511, RESPONSE_MAX_PAYLOAD] {
            let payload: Vec<u8> = (0..n).map(|i| (i % 251) as u8).collect();
            let message = response(n as u32 * 77, result, payload);
            let bytes = message.encode().unwrap();
            assert_eq!(bytes.len(), RESPONSE_HEADER_SIZE + n);
            assert!(bytes.len() <= RESPONSE_MAX_SIZE);
            assert_eq!(RotResponse::decode(&bytes), Ok(message));
        }
    }
}

#[test]
fn a_response_over_the_greatest_size_is_not_encoded() {
    let message = response(1, RotResultV1::Endorsements, vec![0; RESPONSE_MAX_PAYLOAD + 1]);
    assert_eq!(message.encode(), Err(Error::ProtocolSizeExceeded));
    let message = response(1, RotResultV1::Endorsements, vec![0; 70000]);
    assert_eq!(message.encode(), Err(Error::ProtocolSizeExceeded));
}

#[test]
fn malformed_responses_are_refused() {
    let good = response(3, RotResultV1::Endorsements, vec![1, 2]).encode().unwrap();
    assert_eq!(RotResponse::decode(&good[..12]), Err(Error::MalformedMessage));
    assert_eq!(RotResponse::decode(&good[..10]), Err(Error::MalformedMessage));
    assert_eq!(RotResponse::decode(&[]), Err(Error::MalformedMessage));
    let mut long = good.clone();
    long.push(0);
    assert_eq!(RotResponse::decode(&long), Err(Error::MalformedMessage));
    let mut version = good.clone();
    version[4] = 2;
    assert_eq!(RotResponse::decode(&version), Err(Error::MalformedMessage));
    let mut code = good.clone();
    code[8] = 3;
    assert_eq!(RotResponse::decode(&code), Err(Error::MalformedMessage));
    let mut huge = vec![0u8; RESPONSE_MAX_SIZE + 1];
    huge[4] = 1;
    huge[9] = 1;
    huge[10] = 2;
    assert_eq!(huge.len() - RESPONSE_HEADER_SIZE, 513);
    assert_eq!(RotResponse::decode(&huge), Err(Error::MalformedMessage));
}

#[test]
fn messages_decode_only_as_their_own_kind() {
    let request = AttestationMessage::Request(RotRequest::new(5, RotOpV1::GetEndorsements));
    let answer = AttestationMessage::Response(response(5, RotResultV1::Done, vec![]));
    let request_bytes = request.encode().unwrap();
    let answer_bytes = answer.encode().unwrap();
    assert_eq!(AttestationMessage::decode(MessageKind::Request, &request_bytes), Ok(request));
    assert_eq!(AttestationMessage::decode(MessageKind::Response, &answer_bytes), Ok(answer));
    assert_eq!(
        AttestationMessage::decode(MessageKind::Response, &request_bytes),
        Err(Error::MalformedMessage)
    );
    assert_eq!(
        AttestationMessage::decode(MessageKind::Request, &answer_bytes),
        Err(Error::MalformedMessage)
    );
    let large = AttestationMessage::Response(response(5, RotResultV1::Done, vec![0; 513]));
    assert_eq!(large.encode(), Err(Error::ProtocolSizeExceeded));
}

#[test]
fn codes_are_fixed() {
    assert_eq!(RotOpV1::GetEndorsements.code(), 0);
    assert_eq!(RotOpV1::from_code(0), Some(RotOpV1::GetEndorsements));
    assert_eq!(RotOpV1::from_code(1), None);
    assert_eq!(RotResultV1::Done.code(), 0);
    assert_eq!(RotResultV1::Failed.code(), 1);
    assert_eq!(RotResultV1::Endorsements.code(), 2);
    for code in 0..=255u8 {
        match RotResultV1::from_code(code) {
            Some(result) => assert_eq!(result.code(), code),
            None => assert!(code > 2),
        }
    }
    assert_eq!(RotOpV1::GetEndorsements.function_name(), "RotSprocketGetEndorsements");
    assert_eq!(RotOpV1::GetEndorsements.function_arguments(), 1);
}

#[test]
fn a_query_without_an_operation_is_a_usage_error() {
    let args = RotSprocketArgs { get_endorsements: false, timeout: 5000 };
    assert_eq!(args.operation(), Err(Error::NoOperation));
    let args = RotSprocketArgs { get_endorsements: true, timeout: 5000 };
    assert_eq!(args.operation(), Ok(RotOpV1::GetEndorsements));
}

#[test]
fn a_query_pushes_the_size_and_calls_once() {
    let built = query(0, RotOpV1::GetEndorsements, FunctionId(17));
    assert_eq!(built.input, vec![0, 0, 0, 0, 1, 0, 0, 0, 0]);
    assert_eq!(
        built.program.ops(),
        vec![Operation::PushConstant(9), Operation::Call(FunctionId(17)), Operation::Terminate]
    );
    assert_eq!(built.program.calls(), 1);
    let executor = BytecodeExecutor::new(5000, 8);
    assert_eq!(executor.prepare(&built.program, Some(&built.input)), Err(Error::ProtocolSizeExceeded));
    let executor = BytecodeExecutor::new(5000, 9);
    assert_eq!(executor.prepare(&built.program, Some(&built.input)), Ok(built.program.ops()));
}

#[test]
fn an_answer_is_the_one_result_decoded() {
    let message = response(0, RotResultV1::Endorsements, vec![1, 2, 3]);
    let bytes = message.encode().unwrap();
    assert_eq!(answer(&vec![Ok(bytes.clone())]), Ok(message.clone()));
    let echoed = response(99, RotResultV1::Endorsements, vec![1, 2, 3]);
    assert_eq!(answer(&vec![Ok(echoed.encode().unwrap())]), Ok(echoed));
    assert_eq!(answer(&vec![]), Err(Error::MalformedMessage));
    assert_eq!(answer(&vec![Ok(bytes.clone()), Ok(bytes.clone())]), Err(Error::MalformedMessage));
    assert_eq!(answer(&vec![Err(3)]), Err(Error::RemoteFailure(3)));
    assert_eq!(answer(&vec![Ok(vec![1, 2, 3])]), Err(Error::MalformedMessage));
}

#[test]
fn rot_sprocket_command_needs_a_booted_live_target() {
    let command = init();
    assert_eq!(command.name, "rot-sprocket");
    assert_eq!(command.archive, Archive::Required);
    assert_eq!(command.attach, Attach::LiveOnly);
    assert_eq!(command.validate, Validate::Booted);
    assert_eq!(command.run, Handler::RotSprocket);
}
