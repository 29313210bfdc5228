use actorizor::bar::Bar;
use actorizor::config::parse_decimal;
use actorizor::generate::actorize;
use actorizor::model::{
    ClassifyError, ConfigToken, GenerateError, ImplBlock, RawInput, RawMethod, RawOutput, Root,
    Visibility,
};
use actorizor::naming::{impl_to_ident, pascal_ident};
use actorizor::text::decimal;

fn typed(name: &str, ty: &str) -> RawInput {
    RawInput::Typed { name: Some(name.to_string()), ty: ty.to_string() }
}

fn ret_type(text: &str) -> RawOutput {
    let ident = if text.chars().all(|c| c.is_alphanumeric() || c == '_') {
        Some(text.to_string())
    } else {
        None
    };
    RawOutput::Type { text: text.to_string(), ident }
}

fn method(name: &str, vis: Visibility, is_async: bool, inputs: Vec<RawInput>, output: RawOutput) -> RawMethod {
    RawMethod { name: name.to_string(), vis, is_async, inputs, output }
}

fn block(self_ty: &str, methods: Vec<RawMethod>) -> ImplBlock {
    ImplBlock {
        self_ty: self_ty.to_string(),
        header: format!("impl {self_ty}"),
        items: String::from("/* items */"),
        methods,
    }
}

fn adder() -> ImplBlock {
    block(
        "Adder",
        vec![
            method("new", Visibility::Public, false, vec![], ret_type("Self")),
            method(
                "add",
                Visibility::Public,
                false,
                vec![RawInput::Receiver, typed("a", "i64"), typed("b", "i64")],
                ret_type("i64"),
            ),
        ],
    )
}

fn generate(item: &ImplBlock) -> String {
    actorize(&vec![], item).unwrap()
}

#[test]
fn adder_scenario() {
    let out = generate(&adder());
    assert!(out.contains("enum AdderActorMsg {\nAdd { a: i64, b: i64, respond_to: tokio::sync::oneshot::Sender<i64> },\n}\n"));
    assert!(out.contains("pub async fn add(&self, a: i64, b: i64, ) -> Result<i64, AdderHandleError> {"));
    assert!(out.contains("let msg = AdderActorMsg::Add { a, b, respond_to };"));
    assert!(out.contains("pub fn new() -> Self {\nlet mut actor = Adder::new();\nSelf::launch_actor(actor)\n}\n"));
    assert!(out.contains("AdderActorMsg::Add { a, b, respond_to } => {\nlet res = self.add(a, b, );"));
    assert!(out.contains("pub struct AdderHandle {"));
    assert!(out.contains("pub enum AdderHandleError {"));
    assert!(out.contains("tokio::sync::mpsc::channel(10)"));
}

#[test]
fn output_order_is_fixed() {
    let out = generate(&adder());
    let error = out.find("pub enum AdderHandleError").unwrap();
    let imp = out.find("impl Adder {").unwrap();
    let msg = out.find("enum AdderActorMsg {").unwrap();
    let handle = out.find("pub struct AdderHandle {").unwrap();
    let worker = out.find("async fn run_actor(").unwrap();
    assert!(error < imp && imp < msg && msg < handle && handle < worker);
    assert!(out.starts_with("#[derive(thiserror::Error, Debug)]"));
    assert!(out.contains("impl Adder {\n/* items */\nasync fn handle_msg(&mut self, msg: AdderActorMsg)"));
}

#[test]
fn unrelated_return_type_is_passed_over() {
    let mut with_helper = adder();
    with_helper.methods.push(method("helper", Visibility::Public, false, vec![typed("x", "u64")], ret_type("u64")));
    let out = generate(&with_helper);
    assert_eq!(out, generate(&adder()));
    assert!(!out.contains("Helper"));
    assert!(!out.contains("fn helper"));
}

#[test]
fn counts_of_generated_items() {
    let item = block(
        "Counter",
        vec![
            method("new", Visibility::Public, false, vec![], ret_type("Self")),
            method("with_start", Visibility::Public, false, vec![typed("start", "u64")], ret_type("Counter")),
            method("incr", Visibility::Public, false, vec![RawInput::Receiver], RawOutput::Default),
            method("get", Visibility::Restricted, true, vec![RawInput::Receiver], ret_type("u64")),
            method("reset", Visibility::Public, false, vec![RawInput::Receiver], RawOutput::Default),
            method("hidden", Visibility::Inherited, false, vec![RawInput::Receiver], RawOutput::Default),
            method("hidden_new", Visibility::Inherited, false, vec![], ret_type("Self")),
            method("parse", Visibility::Public, false, vec![typed("s", "&str")], ret_type("Option<Self>")),
        ],
    );
    let out = generate(&item);
    assert_eq!(out.matches("pub async fn ").count(), 3);
    assert_eq!(out.matches("Self::launch_actor(actor)").count(), 2);
    assert_eq!(out.matches("respond_to: tokio::sync::oneshot::Sender<").count(), 3);
    assert_eq!(out.matches("respond_to } => {").count(), 3);
    assert!(out.contains("Incr { respond_to: tokio::sync::oneshot::Sender<()> }"));
    assert!(out.contains("let res = self.get().await;"));
    assert!(out.contains("pub fn with_start(start: u64, ) -> Self {\nlet mut actor = Counter::with_start(start, );"));
    assert!(!out.contains("Hidden"));
    assert!(!out.contains("fn parse"));
}

#[test]
fn parameters_keep_their_order() {
    let names = ["a", "b", "c", "d", "e"];
    let types = ["u8", "String", "Vec<u32>", "bool", "(i32, i32)"];
    let mut inputs = vec![RawInput::Receiver];
    for k in 0..5 {
        inputs.push(typed(names[k], types[k]));
    }
    let item = block("Five", vec![method("take_five", Visibility::Public, false, inputs, ret_type("u8"))]);
    let out = generate(&item);
    assert!(out.contains("TakeFive { a: u8, b: String, c: Vec<u32>, d: bool, e: (i32, i32), respond_to"));
    assert!(out.contains("pub async fn take_five(&self, a: u8, b: String, c: Vec<u32>, d: bool, e: (i32, i32), )"));
    assert!(out.contains("FiveActorMsg::TakeFive { a, b, c, d, e, respond_to };"));
    assert!(out.contains("let res = self.take_five(a, b, c, d, e, );"));
}

#[test]
fn zero_parameters() {
    let item = block("Z", vec![method("ping", Visibility::Public, false, vec![RawInput::Receiver], RawOutput::Default)]);
    let out = generate(&item);
    assert!(out.contains("Ping { respond_to: tokio::sync::oneshot::Sender<()> }"));
    assert!(out.contains("pub async fn ping(&self, ) -> Result<(), ZHandleError>"));
}

#[test]
fn generation_is_deterministic() {
    let attr = vec![ConfigToken::Literal("7".to_string())];
    let a = actorize(&attr, &adder()).unwrap();
    let b = actorize(&attr, &adder()).unwrap();
    assert_eq!(a, b);
}

#[test]
fn async_constructor_awaits() {
    let item = block("Net", vec![method("connect", Visibility::Public, true, vec![typed("port", "u16")], ret_type("Self"))]);
    let out = generate(&item);
    assert!(out.contains("pub async fn connect(port: u16, ) -> Self {\nlet mut actor = Net::connect(port, ).await;"));
}

#[test]
fn empty_interface() {
    let out = generate(&block("Empty", vec![]));
    assert!(out.contains("enum EmptyActorMsg {\n}\n"));
    assert!(out.contains("match msg {\n};"));
}

#[test]
fn capacity_literal() {
    let out = actorize(&vec![ConfigToken::Literal("20".to_string())], &adder()).unwrap();
    assert!(out.contains("tokio::sync::mpsc::channel(20)"));
}

#[test]
fn capacity_default_for_other_configurations() {
    let two = vec![ConfigToken::Literal("20".to_string()), ConfigToken::Literal("30".to_string())];
    assert!(actorize(&two, &adder()).unwrap().contains("channel(10)"));
    assert!(actorize(&vec![ConfigToken::Other], &adder()).unwrap().contains("channel(10)"));
}

#[test]
fn capacity_rejected() {
    for lit in ["0", "abc", "", "18446744073709551616", "2x"] {
        let r = actorize(&vec![ConfigToken::Literal(lit.to_string())], &adder());
        assert_eq!(r, Err(GenerateError::InvalidCapacity { literal: lit.to_string() }));
    }
}

#[test]
fn pattern_parameter_rejected() {
    let item = block(
        "P",
        vec![
            method("ok", Visibility::Public, false, vec![RawInput::Receiver, typed("x", "u8")], RawOutput::Default),
            method(
                "bad",
                Visibility::Public,
                false,
                vec![RawInput::Receiver, typed("y", "u8"), RawInput::Typed { name: None, ty: "(u8, u8)".to_string() }],
                RawOutput::Default,
            ),
        ],
    );
    let r = actorize(&vec![], &item);
    assert_eq!(
        r,
        Err(GenerateError::Classify(ClassifyError::PatternParameter { method: "bad".to_string(), position: 2 }))
    );
}

#[test]
fn misplaced_receiver_rejected() {
    let item = block(
        "P",
        vec![method("odd", Visibility::Public, false, vec![typed("x", "u8"), RawInput::Receiver], ret_type("Self"))],
    );
    let r = actorize(&vec![], &item);
    assert_eq!(
        r,
        Err(GenerateError::Classify(ClassifyError::MisplacedReceiver { method: "odd".to_string(), position: 1 }))
    );
}

#[test]
fn classification_error_comes_before_capacity_error() {
    let item = block(
        "P",
        vec![method("bad", Visibility::Public, false, vec![RawInput::Typed { name: None, ty: "u8".to_string() }], ret_type("Self"))],
    );
    let r = actorize(&vec![ConfigToken::Literal("0".to_string())], &item);
    assert_eq!(
        r,
        Err(GenerateError::Classify(ClassifyError::PatternParameter { method: "bad".to_string(), position: 0 }))
    );
}

#[test]
fn unselected_methods_are_not_checked() {
    let pat = RawInput::Typed { name: None, ty: "(u8, u8)".to_string() };
    let item = block(
        "P",
        vec![
            method("private", Visibility::Inherited, false, vec![RawInput::Receiver, pat.clone()], RawOutput::Default),
            method("util", Visibility::Public, false, vec![pat], ret_type("u8")),
        ],
    );
    assert!(actorize(&vec![], &item).is_ok());
}

#[test]
fn root_model() {
    let root = Root::from_impl(&adder(), 10).unwrap();
    assert_eq!(root.actor_ident, "Adder");
    assert_eq!(root.message_enum_ident, "AdderActorMsg");
    assert_eq!(root.handle_ident, "AdderHandle");
    assert_eq!(root.handle_error_ident, "AdderHandleError");
    assert_eq!(root.actor_funcs.len(), 1);
    assert_eq!(root.actor_constructors.len(), 1);
    let f = &root.actor_funcs[0];
    assert_eq!(f.msg_name, "Add");
    assert_eq!(f.enum_name, "AdderActorMsg");
    assert_eq!(f.error_name, "AdderHandleError");
    assert_eq!(f.actor_name, "Adder");
    assert_eq!(f.inputs.len(), 2);
    assert_eq!(f.inputs[1].inp_name, "b");
    assert_eq!(root.actor_constructors[0].output, "Self");
}

#[test]
fn unit_return_type() {
    let item = block("U", vec![method("go", Visibility::Public, false, vec![RawInput::Receiver], RawOutput::Default)]);
    let root = Root::from_impl(&item, 3).unwrap();
    assert_eq!(root.actor_funcs[0].output, "()");
    assert_eq!(root.qdepth, 3);
}

#[test]
fn pascal_case_names() {
    assert_eq!(pascal_ident("do_thing", ""), "DoThing");
    assert_eq!(pascal_ident("do_thing", "X"), "DoThingX");
    assert_eq!(impl_to_ident("my_actor", "Handle"), "MyActorHandle");
    let item = block("Bar", vec![method("do_thing", Visibility::Public, false, vec![RawInput::Receiver], ret_type("u64"))]);
    let out = generate(&item);
    assert!(out.contains("BarActorMsg::DoThing {"));
}

#[test]
fn error_enum_kinds() {
    let out = generate(&adder());
    assert!(out.contains("SendToActorError(#[from] tokio::sync::mpsc::error::SendError<AdderActorMsg>),"));
    assert!(out.contains("\nReplyDeliveryError,\n"));
    assert!(out.contains("ReceiveFromActorError(#[from] tokio::sync::oneshot::error::RecvError),"));
    assert!(out.contains("map_err(|_e| AdderHandleError::ReplyDeliveryError)?;"));
}

#[test]
fn worker_loop_continues_on_error() {
    let out = generate(&adder());
    assert!(out.contains("async fn run_actor(mut actor: Adder, mut receiver: tokio::sync::mpsc::Receiver<AdderActorMsg>) {"));
    assert!(out.contains("Ok(_) => continue,"));
}

#[test]
fn decimal_numbers() {
    assert_eq!(decimal(0), "0");
    assert_eq!(decimal(10), "10");
    assert_eq!(decimal(4096), "4096");
    assert_eq!(decimal(usize::MAX), usize::MAX.to_string());
    assert_eq!(parse_decimal("0"), Some(0));
    assert_eq!(parse_decimal("123"), Some(123));
    assert_eq!(parse_decimal("18446744073709551615"), Some(18446744073709551615));
    assert_eq!(parse_decimal("+1"), None);
    assert_eq!(parse_decimal(""), None);
}

#[test]
fn bar_methods() {
    assert_eq!(Bar::new().number, 123);
    assert_eq!(Bar::new_2(6, 7).number, 42);
    assert_eq!(Bar::new_4(9).number, 9);
    assert_eq!(Bar::do_a(), 42);
    assert_eq!(Bar::do_b(5), 5);
    assert_eq!(Bar::do_c(2, 3), 5);
}
