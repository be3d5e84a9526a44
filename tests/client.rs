use std::sync::Mutex;

use jsonrpc_core::{IoHandler, Params, Value};
use rpc_client::client::{complete_call, invoke, request_for, RpcClient};
use rpc_client::error::ClientError;
use rpc_client::ids::IdCounter;
use rpc_client::method::{names_unique, plan_client, plan_method, ClientMethod, MethodDescriptor, Param};
use rpc_client::request::{build_request, frame_request};
use rpc_client::response::{decode_reply, decode_response, finish_decode, Reply};

struct Local {
    io: IoHandler,
    seen: Mutex<Vec<String>>,
}

impl RpcClient for Local {
    fn call_method(&self, request: String) -> Result<String, ClientError> {
        self.seen.lock().unwrap().push(request.clone());
        match self.io.handle_request_sync(&request) {
            Some(s) => Ok(s),
            None => Err(ClientError::Transport("no response".to_string())),
        }
    }
}

struct Down;

impl RpcClient for Down {
    fn call_method(&self, _request: String) -> Result<String, ClientError> {
        Err(ClientError::Transport("connection refused".to_string()))
    }
}

fn param(name: &str, ty: &str) -> Param {
    Param { name: name.to_string(), ty: ty.to_string() }
}

fn descriptor(local: &str, wire: &str, aliases: &[&str], params: Vec<Param>) -> MethodDescriptor {
    MethodDescriptor {
        local_name: local.to_string(),
        wire_name: wire.to_string(),
        aliases: aliases.iter().map(|a| a.to_string()).collect(),
        params,
        metadata: None,
        result_type: "u64".to_string(),
        has_async_result_override: true,
    }
}

fn add_method() -> ClientMethod {
    plan_method(&descriptor("add", "add", &[], vec![param("a", "u64"), param("b", "u64")]), "Value")
}

fn local_adder() -> Local {
    let mut io = IoHandler::new();
    io.add_sync_method("add", |params: Params| {
        let (a, b): (u64, u64) = params.parse()?;
        Ok(Value::from(a + b))
    });
    Local { io, seen: Mutex::new(vec![]) }
}

#[test]
fn end_to_end_add() {
    let client = local_adder();
    let method = add_method();
    let mut ids = IdCounter::new();

    let id = ids.next_id();
    let v = invoke(&client, &method, &vec!["2".to_string(), "3".to_string()], id).unwrap();
    assert_eq!(finish_decode(serde_json::from_value::<u64>(v)).unwrap(), 5);

    let id = ids.next_id();
    let v = invoke(&client, &method, &vec!["3".to_string(), "4".to_string()], id).unwrap();
    assert_eq!(finish_decode(serde_json::from_value::<u64>(v)).unwrap(), 7);

    let seen = client.seen.lock().unwrap();
    assert_eq!(seen[0], r#"{"jsonrpc":"2.0","method":"add","params":[2,3],"id":0}"#);
    assert_eq!(seen[1], r#"{"jsonrpc":"2.0","method":"add","params":[3,4],"id":1}"#);
}

#[test]
fn ids_are_distinct_and_wrap() {
    let mut ids = IdCounter::new();
    let got: Vec<u64> = (0..100).map(|_| ids.next_id()).collect();
    for i in 0..got.len() {
        assert_eq!(got[i], i as u64);
    }
    let mut top = IdCounter { next: u64::MAX };
    assert_eq!(top.next_id(), u64::MAX);
    assert_eq!(top.next_id(), 0);
}

#[test]
fn zero_arguments_send_empty_array() {
    let r = build_request("getOne", &vec![], 12);
    assert_eq!(r, r#"{"jsonrpc":"2.0","method":"getOne","params":[],"id":12}"#);
}

#[test]
fn params_keep_every_argument_in_order() {
    let args = vec!["1".to_string(), "null".to_string(), "\"x\"".to_string()];
    let r = build_request("mul", &args, 18446744073709551615);
    assert_eq!(r, r#"{"jsonrpc":"2.0","method":"mul","params":[1,null,"x"],"id":18446744073709551615}"#);
}

#[test]
fn wire_name_is_escaped() {
    let r = build_request("a\"b\\c", &vec!["1".to_string()], 7);
    assert_eq!(r, r#"{"jsonrpc":"2.0","method":"a\"b\\c","params":[1],"id":7}"#);
}

#[test]
fn request_for_uses_wire_name() {
    let m = plan_method(&descriptor("call_meta", "callAsyncMeta", &["callAsyncMetaAlias"], vec![param("map", "Map")]), "String");
    let r = request_for(&m, &vec!["{}".to_string()], 3);
    assert_eq!(r, r#"{"jsonrpc":"2.0","method":"callAsyncMeta","params":[{}],"id":3}"#);
}

#[test]
fn success_round_trip() {
    let text = r#"{"jsonrpc":"2.0","result":5,"id":0}"#;
    let v = decode_response(text).unwrap();
    assert_eq!(v, Value::from(5u64));
    assert_eq!(finish_decode(serde_json::from_value::<u64>(v)).unwrap(), 5);

    let sent = vec!["a".to_string(), "b".to_string()];
    let text = format!(r#"{{"jsonrpc":"2.0","result":{},"id":1}}"#, serde_json::to_string(&sent).unwrap());
    let v = decode_response(&text).unwrap();
    assert_eq!(finish_decode(serde_json::from_value::<Vec<String>>(v)).unwrap(), sent);
}

#[test]
fn malformed_json_is_parse_error() {
    assert!(matches!(decode_response("{not json"), Err(ClientError::Parse)));
    assert!(matches!(decode_response(""), Err(ClientError::Parse)));
}

#[test]
fn batch_is_parse_error() {
    let text = r#"[{"jsonrpc":"2.0","result":1,"id":0},{"jsonrpc":"2.0","result":2,"id":1}]"#;
    assert!(matches!(decode_response(text), Err(ClientError::Parse)));
}

#[test]
fn server_error_is_kept_verbatim() {
    let text = r#"{"jsonrpc":"2.0","error":{"code":-32601,"message":"Method not found"},"id":1}"#;
    match decode_response(text) {
        Err(ClientError::Server { code, message, data }) => {
            assert_eq!(code, -32601);
            assert_eq!(message, "Method not found");
            assert!(data.is_none());
        }
        _ => panic!("expected a server error"),
    }
    let text = r#"{"jsonrpc":"2.0","error":{"code":-32000,"message":"busy","data":[1,"x"]},"id":null}"#;
    match decode_response(text) {
        Err(ClientError::Server { code, message, data }) => {
            assert_eq!(code, -32000);
            assert_eq!(message, "busy");
            assert_eq!(data, Some(serde_json::from_str::<Value>(r#"[1,"x"]"#).unwrap()));
        }
        _ => panic!("expected a server error"),
    }
}

#[test]
fn result_of_wrong_type_is_parse_error() {
    let v = decode_response(r#"{"jsonrpc":"2.0","result":"five","id":0}"#).unwrap();
    assert!(matches!(finish_decode(serde_json::from_value::<u64>(v)), Err(ClientError::Parse)));
}

#[test]
fn decode_reply_by_shape() {
    assert!(matches!(decode_reply(Reply::Malformed), Err(ClientError::Parse)));
    assert!(matches!(decode_reply(Reply::Batch), Err(ClientError::Parse)));
    assert_eq!(decode_reply(Reply::Success(Value::from(9))).unwrap(), Value::from(9));
    match decode_reply(Reply::Failure { code: 4, message: "m".to_string(), data: None }) {
        Err(ClientError::Server { code, message, .. }) => {
            assert_eq!(code, 4);
            assert_eq!(message, "m");
        }
        _ => panic!("expected a server error"),
    }
}

#[test]
fn transport_failure_is_passed_on() {
    let r = invoke(&Down, &add_method(), &vec!["1".to_string(), "2".to_string()], 0);
    match r {
        Err(ClientError::Transport(why)) => assert_eq!(why, "connection refused"),
        _ => panic!("expected a transport error"),
    }
    let r = complete_call(Err(ClientError::Transport("x".to_string())));
    assert!(matches!(r, Err(ClientError::Transport(_))));
    let r = complete_call(Ok(r#"{"jsonrpc":"2.0","result":true,"id":0}"#.to_string()));
    assert_eq!(r.unwrap(), Value::from(true));
}

#[test]
fn unknown_method_through_transport() {
    let client = local_adder();
    let m = plan_method(&descriptor("sub", "sub", &[], vec![]), "Value");
    match invoke(&client, &m, &vec![], 0) {
        Err(ClientError::Server { code, message, .. }) => {
            assert_eq!(code, -32601);
            assert_eq!(message, "Method not found");
        }
        _ => panic!("expected a server error"),
    }
}

#[test]
fn plan_resolves_result_type_and_keeps_metadata_apart() {
    let mut with_meta = descriptor("call_meta", "callAsyncMeta", &["callAsyncMetaAlias"], vec![param("map", "Map")]);
    with_meta.metadata = Some("Meta".to_string());
    let mut plain = descriptor("one", "getOne", &[], vec![]);
    plain.has_async_result_override = false;
    let plans = plan_client(&vec![with_meta, plain], "Value");
    assert_eq!(plans.len(), 2);
    assert_eq!(plans[0].name, "call_meta");
    assert_eq!(plans[0].wire_name, "callAsyncMeta");
    assert_eq!(plans[0].params.len(), 1);
    assert_eq!(plans[0].params[0].name, "map");
    assert_eq!(plans[0].metadata, Some("Meta".to_string()));
    assert_eq!(plans[0].result_type, "u64");
    assert_eq!(plans[1].wire_name, "getOne");
    assert_eq!(plans[1].params.len(), 0);
    assert_eq!(plans[1].result_type, "Value");
}

#[test]
fn names_unique_checks_wire_names_and_aliases() {
    let a = descriptor("a", "a", &["x"], vec![]);
    let b = descriptor("b", "b", &["y", "z"], vec![]);
    assert!(names_unique(&vec![a, b]));
    assert!(names_unique(&vec![]));
    let a = descriptor("a", "a", &["x"], vec![]);
    let c = descriptor("c", "x", &[], vec![]);
    assert!(!names_unique(&vec![a, c]));
    let d = descriptor("d", "d", &["d"], vec![]);
    assert!(!names_unique(&vec![d]));
}

#[test]
fn frame_request_keeps_quoted_name() {
    let r = frame_request("\"a\\u0001\"", &vec!["[1,2]".to_string(), "{}".to_string()], 42);
    assert_eq!(r, r#"{"jsonrpc":"2.0","method":"a\u0001","params":[[1,2],{}],"id":42}"#);
    let r = build_request("a\u{1}", &vec!["[1,2]".to_string(), "{}".to_string()], 42);
    assert_eq!(r, r#"{"jsonrpc":"2.0","method":"a\u0001","params":[[1,2],{}],"id":42}"#);
}
