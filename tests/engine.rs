use yerpc::flight::{poll_ready, start_send, FlightState};
use yerpc::{
    classify, downcast_params, message_to_text, notification_reply, parse_message, reply_outcome,
    request_reply, Error, Id, Incoming, Message, Params, PendingRequests, Request, Response,
    RpcClient, RpcServer, RpcSession, Version,
};

struct Calculator {}

impl RpcServer for Calculator {
    fn handle_request(&self, method: String, params: String) -> Result<String, Error> {
        match method.as_str() {
            "add" => {
                let args: Vec<f64> =
                    serde_json::from_str(&params).map_err(|_| Error::invalid_args_len(2))?;
                if args.len() != 2 {
                    return Err(Error::invalid_args_len(2));
                }
                Ok(serde_json::to_string(&(args[0] + args[1])).unwrap())
            }
            "echo" => Ok(params),
            _ => Err(Error::method_not_found()),
        }
    }

    fn handle_notification(&self, method: String, _params: String) -> Result<(), Error> {
        if method == "fail" {
            Err(Error::new(Error::INTERNAL_ERROR, "failed".to_string()))
        } else {
            Ok(())
        }
    }
}

fn text_of(message: Option<Message>) -> String {
    message_to_text(&message.unwrap())
}

#[test]
fn call_add_over_two_sessions() {
    let mut caller = RpcSession::create(());
    let mut callee = RpcSession::create(Calculator {});
    let params = serde_json::to_string(&[1.2, 2.3]).unwrap();
    let (request, mut rx) = caller.send_request("add".to_string(), Some(params)).unwrap();
    let request_text = message_to_text(&request);
    let reply = callee.handle_incoming(&request_text).unwrap();
    let reply_text = message_to_text(&reply);
    assert!(caller.handle_incoming(&reply_text).is_none());
    let result = reply_outcome(rx.try_recv().unwrap()).unwrap();
    let result: f64 = serde_json::from_str(&result).unwrap();
    assert_eq!(result, 3.5);
}

#[test]
fn upper_scenario_without_version_member() {
    struct Upper {}
    impl RpcServer for Upper {
        fn handle_request(&self, _method: String, params: String) -> Result<String, Error> {
            let args: Vec<String> = serde_json::from_str(&params).unwrap();
            Ok(serde_json::to_string(&args[0].to_uppercase()).unwrap())
        }
    }
    let mut session = RpcSession::create(Upper {});
    let out = session.handle_incoming(r#"{"method":"upper","params":["foo"],"id":7}"#);
    assert_eq!(text_of(out), r#"{"jsonrpc":"2.0","id":7,"result":"FOO"}"#);
}

#[test]
fn two_pending_calls_resolved_out_of_order() {
    let mut session = RpcSession::create(());
    let (first, mut rx1) = session.send_request("a".to_string(), None).unwrap();
    let (second, mut rx2) = session.send_request("b".to_string(), None).unwrap();
    assert_eq!(message_to_text(&first), r#"{"jsonrpc":"2.0","method":"a","id":1}"#);
    assert_eq!(message_to_text(&second), r#"{"jsonrpc":"2.0","method":"b","id":2}"#);
    assert!(session
        .handle_incoming(r#"{"jsonrpc":"2.0","id":2,"result":"second"}"#)
        .is_none());
    assert_eq!(rx1.try_recv().unwrap().is_none(), true);
    assert!(session
        .handle_incoming(r#"{"jsonrpc":"2.0","id":1,"result":"first"}"#)
        .is_none());
    assert_eq!(reply_outcome(rx1.try_recv().unwrap()).unwrap(), r#""first""#);
    assert_eq!(reply_outcome(rx2.try_recv().unwrap()).unwrap(), r#""second""#);
}

#[test]
fn malformed_json_gives_parse_error_with_null_id() {
    let mut session = RpcSession::create(Calculator {});
    let out = session.handle_incoming("{not json");
    assert_eq!(
        text_of(out),
        r#"{"jsonrpc":"2.0","id":null,"error":{"code":-32700,"message":"Parse error"}}"#
    );
}

#[test]
fn non_object_input_gives_parse_error() {
    let mut session = RpcSession::create(Calculator {});
    let out = session.handle_incoming("[1,2]").unwrap();
    match out {
        Message::Response(res) => {
            assert!(res.id.is_none());
            assert_eq!(res.error.unwrap().code, Error::PARSE_ERROR);
        }
        Message::Request(_) => panic!("expected a response"),
    }
}

#[test]
fn scalar_params_give_invalid_params() {
    let mut session = RpcSession::create(Calculator {});
    let out = session.handle_incoming(r#"{"jsonrpc":"2.0","method":"add","params":5,"id":3}"#);
    assert_eq!(
        text_of(out),
        r#"{"jsonrpc":"2.0","id":null,"error":{"code":-32602,"message":"Params has to be an object or array"}}"#
    );
}

#[test]
fn bad_version_gives_parse_error() {
    let mut session = RpcSession::create(Calculator {});
    let out = session.handle_incoming(r#"{"jsonrpc":"1.0","method":"add","id":3}"#).unwrap();
    match out {
        Message::Response(res) => assert_eq!(res.error.unwrap().code, Error::PARSE_ERROR),
        Message::Request(_) => panic!("expected a response"),
    }
}

#[test]
fn notification_success_is_not_answered() {
    let mut session = RpcSession::create(Calculator {});
    assert!(session.handle_incoming(r#"{"jsonrpc":"2.0","method":"ok"}"#).is_none());
    assert!(session
        .handle_incoming(r#"{"jsonrpc":"2.0","method":"ok","id":0}"#)
        .is_none());
}

#[test]
fn notification_failure_is_answered_once() {
    let mut session = RpcSession::create(Calculator {});
    let out = session.handle_incoming(r#"{"jsonrpc":"2.0","method":"fail"}"#);
    assert_eq!(
        text_of(out),
        r#"{"jsonrpc":"2.0","id":null,"error":{"code":-32603,"message":"failed"}}"#
    );
    let out = session.handle_incoming(r#"{"jsonrpc":"2.0","method":"fail","id":0}"#);
    assert_eq!(
        text_of(out),
        r#"{"jsonrpc":"2.0","id":0,"error":{"code":-32603,"message":"failed"}}"#
    );
}

#[test]
fn request_with_structured_params_is_echoed() {
    let mut session = RpcSession::create(Calculator {});
    let out = session.handle_incoming(r#"{"jsonrpc":"2.0","method":"echo","params":{"b":2,"a":[1]},"id":"x"}"#);
    let text = text_of(out);
    let value: serde_json::Value = serde_json::from_str(&text).unwrap();
    let expected: serde_json::Value =
        serde_json::from_str(r#"{"jsonrpc":"2.0","id":"x","result":{"a":[1],"b":2}}"#).unwrap();
    assert_eq!(value, expected);
}

#[test]
fn request_without_params_gets_null() {
    let mut session = RpcSession::create(Calculator {});
    let out = session.handle_incoming(r#"{"jsonrpc":"2.0","method":"echo","id":12}"#);
    assert_eq!(text_of(out), r#"{"jsonrpc":"2.0","id":12,"result":null}"#);
}

#[test]
fn unknown_reply_is_dropped() {
    let mut session = RpcSession::create(());
    let (_request, mut rx) = session.send_request("a".to_string(), None).unwrap();
    assert!(session
        .handle_incoming(r#"{"jsonrpc":"2.0","id":99,"result":1}"#)
        .is_none());
    assert!(session
        .handle_incoming(r#"{"jsonrpc":"2.0","id":"1","result":1}"#)
        .is_none());
    assert!(rx.try_recv().unwrap().is_none());
    assert!(session
        .handle_incoming(r#"{"jsonrpc":"2.0","id":1,"result":1}"#)
        .is_none());
    assert_eq!(reply_outcome(rx.try_recv().unwrap()).unwrap(), "1");
}

#[test]
fn duplicate_reply_is_dropped() {
    let mut pending = PendingRequests::new();
    let (_request, mut rx) = pending.insert("a".to_string(), None);
    pending.handle_response(Response::success(Id::Number(1), "true".to_string()));
    pending.handle_response(Response::success(Id::Number(1), "false".to_string()));
    assert_eq!(reply_outcome(rx.try_recv().unwrap()).unwrap(), "true");
}

#[test]
fn registrations_count_up_from_one() {
    let mut pending = PendingRequests::new();
    for expected in 1..=20u32 {
        let (message, _rx) = pending.insert("m".to_string(), None);
        match message {
            Message::Request(req) => assert_eq!(req.id, Some(Id::Number(expected))),
            Message::Response(_) => panic!("expected a request"),
        }
    }
    assert!(pending.can_insert());
}

#[test]
fn reply_with_result_and_error_is_bad_response() {
    let both = Response {
        jsonrpc: Version::V2,
        id: Some(Id::Number(1)),
        result: Some("1".to_string()),
        error: Some(Error::method_not_found()),
    };
    let err = reply_outcome(Some(both)).unwrap_err();
    assert_eq!(err.code, Error::BAD_RESPONSE);
    assert_eq!(err.message, "Error while processing a response");
}

#[test]
fn reply_with_neither_is_bad_response() {
    let neither = Response { jsonrpc: Version::V2, id: Some(Id::Number(1)), result: None, error: None };
    assert_eq!(reply_outcome(Some(neither)).unwrap_err().code, Error::BAD_RESPONSE);
    assert_eq!(reply_outcome(None).unwrap_err().code, Error::BAD_RESPONSE);
}

#[test]
fn reply_with_error_only_gives_that_error() {
    let res = Response::error(Some(Id::Number(1)), Error::invalid_params());
    let err = reply_outcome(Some(res)).unwrap_err();
    assert_eq!(err.code, Error::INVALID_PARAMS);
}

#[test]
fn dropped_slot_gives_bad_response_through_session() {
    let mut caller = RpcSession::create(());
    let (_request, mut rx) = caller
        .send_request("x".to_string(), None)
        .unwrap();
    let answered = caller.handle_incoming(r#"{"jsonrpc":"2.0","id":1,"result":2,"error":{"code":1,"message":"m"}}"#);
    assert!(answered.is_none());
    assert_eq!(reply_outcome(rx.try_recv().unwrap()).unwrap_err().code, Error::BAD_RESPONSE);
    drop(caller);
}

#[test]
fn scalar_params_are_a_bad_request() {
    let mut client = RpcClient::new();
    let err = client.send_request("m".to_string(), Some("3".to_string())).unwrap_err();
    assert_eq!(err.code, Error::BAD_REQUEST);
    assert!(client.can_send_request());
    let (message, _rx) = client.send_request("m".to_string(), Some("{}".to_string())).unwrap();
    assert_eq!(message_to_text(&message), r#"{"jsonrpc":"2.0","method":"m","params":{},"id":1}"#);
    assert_eq!(downcast_params(Some("null".to_string())).unwrap_err().code, Error::BAD_REQUEST);
    assert!(downcast_params(None).unwrap().is_none());
}

#[test]
fn notification_has_no_id() {
    let client = RpcClient::new();
    let message = client
        .send_notification("event".to_string(), Some(r#"["a", 1]"#.to_string()))
        .unwrap();
    assert_eq!(
        message_to_text(&message),
        r#"{"jsonrpc":"2.0","method":"event","params":["a",1]}"#
    );
    let err = client.send_notification("event".to_string(), Some("true".to_string())).unwrap_err();
    assert_eq!(err.code, Error::BAD_REQUEST);
}

fn semantically_equal(a: &str, b: &str) -> bool {
    let a: serde_json::Value = serde_json::from_str(a).unwrap();
    let b: serde_json::Value = serde_json::from_str(b).unwrap();
    a == b
}

#[test]
fn round_trip_of_requests_and_responses() {
    let texts = [
        r#"{"jsonrpc":"2.0","method":"sum","params":[1,2,3],"id":1}"#,
        r#"{"jsonrpc":"2.0","method":"sum","params":{"x":[1.5,"a\"b"],"y":null},"id":"abc"}"#,
        r#"{"jsonrpc":"2.0","method":"ping"}"#,
        r#"{ "id" : 4 , "jsonrpc" : "2.0" , "result" : { "k" : [ true , false ] } }"#,
        r#"{"jsonrpc":"2.0","id":null,"error":{"code":-32700,"message":"Parse error","data":{"at":3}}}"#,
        r#"{"jsonrpc":"2.0","id":"é\n","result":"snöw"}"#,
    ];
    for text in texts {
        let message = parse_message(text).unwrap();
        let written = message_to_text(&message);
        assert!(semantically_equal(text, &written), "{} vs {}", text, written);
        let again = parse_message(&written).unwrap();
        assert_eq!(message_to_text(&again), written);
    }
}

#[test]
fn parse_classifies_by_method_member() {
    match parse_message(r#"{"jsonrpc":"2.0","method":"m","id":3}"#).unwrap() {
        Message::Request(req) => {
            assert_eq!(req.method, "m");
            assert_eq!(req.id, Some(Id::Number(3)));
            assert_eq!(req.jsonrpc, Some(Version::V2));
            assert!(req.params.is_none());
        }
        Message::Response(_) => panic!("expected a request"),
    }
    match parse_message(r#"{"jsonrpc":"2.0","id":"3","result":[]}"#).unwrap() {
        Message::Response(res) => {
            assert_eq!(res.id, Some(Id::String("3".to_string())));
            assert_eq!(res.result.as_deref(), Some("[]"));
            assert!(res.error.is_none());
        }
        Message::Request(_) => panic!("expected a response"),
    }
    assert!(parse_message(r#"{"id":3,"result":1}"#).is_err());
    assert!(parse_message(r#"{"jsonrpc":"2.0","method":3}"#).is_err());
    assert!(parse_message(r#"{"jsonrpc":"2.0","id":-1,"result":1}"#).is_err());
}

#[test]
fn classify_marks_notifications() {
    let req = |id: Option<Id>| {
        Message::Request(Request { jsonrpc: None, method: "m".to_string(), params: None, id })
    };
    assert!(matches!(classify(req(None)), Incoming::Notification { id: None, .. }));
    assert!(matches!(
        classify(req(Some(Id::Number(0)))),
        Incoming::Notification { id: Some(Id::Number(0)), .. }
    ));
    match classify(req(Some(Id::Number(5)))) {
        Incoming::Call { id, method, params } => {
            assert_eq!(id, Id::Number(5));
            assert_eq!(method, "m");
            assert_eq!(params, "null");
        }
        _ => panic!("expected a call"),
    }
    assert!(matches!(classify(req(Some(Id::String("0".to_string())))), Incoming::Call { .. }));
}

#[test]
fn replies_for_calls_and_notifications() {
    let ok = request_reply(Id::Number(2), Ok("7".to_string()));
    assert_eq!(message_to_text(&Message::Response(ok)), r#"{"jsonrpc":"2.0","id":2,"result":7}"#);
    let failed = request_reply(Id::String("q".to_string()), Err(Error::method_not_found()));
    assert_eq!(failed.id, Some(Id::String("q".to_string())));
    assert!(failed.result.is_none());
    assert!(notification_reply(None, Ok(())).is_none());
    let res = notification_reply(Some(Id::Number(0)), Err(Error::bad_request())).unwrap();
    assert_eq!(res.id, Some(Id::Number(0)));
    assert_eq!(res.error.unwrap().code, Error::BAD_REQUEST);
}

#[test]
fn error_constructors() {
    let e = Error::invalid_args_len(3);
    assert_eq!(e.code, -32602);
    assert_eq!(e.message, "This method takes an array of 3 arguments");
    let e = Error::invalid_args_len(1234567);
    assert_eq!(e.message, "This method takes an array of 1234567 arguments");
    assert!(Error::remote_disconnected().is_disconnnected());
    assert!(!Error::bad_request().is_disconnnected());
    assert_eq!(Error::remote_disconnected().code, -32002);
    assert_eq!(Error::bad_request().code, -32000);
    assert_eq!(Error::method_not_found().message, "Method not found");
    let e = Error::with_data(5, "five".to_string(), Some("[5]".to_string()));
    assert_eq!(e.data.as_deref(), Some("[5]"));
    assert_eq!(Error::PARSE_ERROR, -32700);
    assert_eq!(Error::INVALID_REQUEST, -32600);
}

#[test]
fn params_conversions() {
    assert_eq!(Params::try_from_value("5").unwrap_err().code, Error::INVALID_PARAMS);
    assert_eq!(Params::try_from_value("null").unwrap_err().code, Error::INVALID_PARAMS);
    assert_eq!(Params::try_from_value("\"s\"").unwrap_err().code, Error::INVALID_PARAMS);
    let p = Params::try_from_value(r#"[ 1 , "two" ]"#).unwrap();
    assert_eq!(p.into_value(), r#"[1,"two"]"#);
    let p = Params::try_from_value(r#"{"k\"ey": {"n": 1}}"#).unwrap();
    assert_eq!(p.into_value(), r#"{"k\"ey":{"n": 1}}"#);
    assert_eq!(Params::Positional(vec![]).into_value(), "[]");
}

#[test]
fn version_text() {
    assert_eq!(Version::from_text("2.0"), Some(Version::V2));
    assert_eq!(Version::from_text("1.0"), None);
    assert_eq!(Version::from_text(""), None);
}

#[test]
fn encoded_error_and_ids() {
    let res = Response::error(
        Some(Id::Number(4294967295)),
        Error::with_data(-1, "tab\there".to_string(), Some("{}".to_string())),
    );
    assert_eq!(
        message_to_text(&Message::Response(res)),
        r#"{"jsonrpc":"2.0","id":4294967295,"error":{"code":-1,"message":"tab\there","data":{}}}"#
    );
}

#[test]
fn single_flight_states() {
    assert_eq!(poll_ready(FlightState::Idle, false), (FlightState::Idle, true));
    assert_eq!(start_send(FlightState::Idle), Ok(FlightState::InFlight));
    assert_eq!(start_send(FlightState::InFlight), Err(FlightState::InFlight));
    assert_eq!(poll_ready(FlightState::InFlight, false), (FlightState::InFlight, false));
    assert_eq!(poll_ready(FlightState::InFlight, true), (FlightState::Idle, true));
}

#[test]
fn cancelled_call_gets_no_reply() {
    let mut client = RpcClient::new();
    let (_message, mut rx) = client.send_request("m".to_string(), None).unwrap();
    client.cancel_request(1);
    client.handle_response(Response::success(Id::Number(1), "1".to_string()));
    assert!(rx.try_recv().is_err());
    let (message, _rx) = client.send_request("m".to_string(), None).unwrap();
    assert_eq!(message_to_text(&message), r#"{"jsonrpc":"2.0","method":"m","id":2}"#);
}

#[test]
fn taken_slot_is_the_pending_calls_own() {
    let mut pending = PendingRequests::new();
    let (_first, mut rx1) = pending.insert("a".to_string(), None);
    let (_second, mut rx2) = pending.insert("b".to_string(), None);
    let reply = Response::success(Id::Number(2), "\"two\"".to_string());
    let (tx, res) = pending.take_slot(reply).unwrap();
    assert_eq!(res.result.as_deref(), Some("\"two\""));
    assert!(tx.send(res).is_ok());
    assert_eq!(reply_outcome(rx2.try_recv().unwrap()).unwrap(), "\"two\"");
    assert!(rx1.try_recv().unwrap().is_none());
    assert!(pending
        .take_slot(Response::success(Id::Number(2), "0".to_string()))
        .is_none());
    assert!(pending
        .take_slot(Response::success(Id::String("1".to_string()), "0".to_string()))
        .is_none());
}
