use crate::naming::pascal_of;
use vstd::prelude::*;

verus! {

/// How a method of the interface is exposed.
#[derive(Clone, Copy, Debug, PartialEq, Eq, Structural)]
pub enum Visibility {
    /// `pub`
    Public,
    /// `pub(crate)`, `pub(super)` and the like
    Restricted,
    /// no visibility qualifier: the method stays private
    Inherited,
}

/// One entry of a method's parameter list, as written.
#[derive(Clone, Debug, PartialEq, Eq)]
pub enum RawInput {
    /// a `self`, `&self` or `&mut self` receiver
    Receiver,
    /// a typed parameter; `name` is `None` when it is bound by a pattern
    /// other than a plain identifier
    Typed { name: Option<String>, ty: String },
}

/// A method's declared return type.
#[derive(Clone, Debug, PartialEq, Eq)]
pub enum RawOutput {
    /// no return type
    Default,
    /// a return type: its text, and its identifier when the type is a path
    /// made of one identifier
    Type { text: String, ident: Option<String> },
}

/// One method of an interface definition.
#[derive(Clone, Debug, PartialEq, Eq)]
pub struct RawMethod {
    pub name: String,
    pub vis: Visibility,
    pub is_async: bool,
    pub inputs: Vec<RawInput>,
    pub output: RawOutput,
}

/// An interface definition: the block of methods of one named type.
#[derive(Clone, Debug, PartialEq, Eq)]
pub struct ImplBlock {
    /// the implementing type, as written
    pub self_ty: String,
    /// everything before the block's opening brace (attributes, `impl`, generics)
    pub header: String,
    /// the block's original items, as text
    pub items: String,
    /// the block's methods, in order
    pub methods: Vec<RawMethod>,
}

/// One parameter of a generated method: a name and a type.
#[derive(Clone, Debug, PartialEq, Eq)]
pub struct FuncInput {
    pub inp_name: String,
    pub inp_ty: String,
}

/// A method of the interface that the actor exposes.
#[derive(Clone, Debug, PartialEq, Eq)]
pub struct ActorFunc {
    pub fn_name: String,
    /// the message variant's name
    pub msg_name: String,
    /// the message enum it belongs to
    pub enum_name: String,
    /// the actor type it belongs to
    pub actor_name: String,
    /// the error enum of its handle
    pub error_name: String,
    pub is_async: bool,
    pub inputs: Vec<FuncInput>,
    /// the return type's text
    pub output: String,
}

/// Why no actor can be generated.
#[derive(Clone, Debug, PartialEq, Eq)]
pub enum GenerateError {
    /// the interface definition is malformed
    Classify(ClassifyError),
    /// the configuration literal is not a positive decimal number that fits a `usize`
    InvalidCapacity { literal: String },
}

/// One token of the configuration that accompanies an interface definition.
#[derive(Clone, Debug, PartialEq, Eq)]
pub enum ConfigToken {
    /// a literal, as written
    Literal(String),
    /// any other token
    Other,
}

/// The model of one interface: its methods sorted into behaviors and
/// constructors, the names of the generated types and the mailbox capacity.
#[derive(Clone, Debug, PartialEq, Eq)]
pub struct Root {
    pub header: String,
    pub items: String,
    pub actor_ident: String,
    pub message_enum_ident: String,
    pub handle_ident: String,
    pub handle_error_ident: String,
    pub actor_funcs: Vec<ActorFunc>,
    pub actor_constructors: Vec<ActorFunc>,
    pub qdepth: usize,
}

/// Why an interface definition cannot be turned into an actor.
#[derive(Clone, Debug, PartialEq, Eq)]
pub enum ClassifyError {
    /// the parameter at `position` of `method` is bound by a pattern, not a name
    PatternParameter { method: String, position: usize },
    /// `method` has a receiver at `position`, where a typed parameter belongs
    MisplacedReceiver { method: String, position: usize },
}

pub open spec fn is_exposed(m: RawMethod) -> bool {
    m.vis != Visibility::Inherited
}

pub open spec fn has_receiver(m: RawMethod) -> bool {
    m.inputs@.len() > 0 && m.inputs@[0] is Receiver
}

/// An exposed method with a receiver: it becomes a message.
pub open spec fn is_behavior(m: RawMethod) -> bool {
    is_exposed(m) && has_receiver(m)
}

/// The return type names `Self` or the implementing type itself.
pub open spec fn returns_own_type(m: RawMethod, actor: Seq<char>) -> bool {
    match m.output {
        RawOutput::Type { ident: Some(id), .. } => id@ == "Self"@ || id@ == actor,
        _ => false,
    }
}

/// An exposed method without a receiver that returns the actor's own type:
/// it becomes a constructor of the handle.
pub open spec fn is_constructor(m: RawMethod, actor: Seq<char>) -> bool {
    is_exposed(m) && !has_receiver(m) && returns_own_type(m, actor)
}

/// The method takes part in the generated code.
pub open spec fn is_selected(m: RawMethod, actor: Seq<char>) -> bool {
    is_behavior(m) || is_constructor(m, actor)
}

/// Where the typed parameters start: after the receiver, if there is one.
pub open spec fn first_param(m: RawMethod) -> int {
    if has_receiver(m) {
        1
    } else {
        0
    }
}

pub open spec fn input_ok(i: RawInput) -> bool {
    i matches RawInput::Typed { name: Some(_), .. }
}

/// Every parameter after the receiver is a typed parameter bound to a name.
pub open spec fn method_ok(m: RawMethod) -> bool {
    forall|k: int| first_param(m) <= k < m.inputs@.len() ==> input_ok(#[trigger] m.inputs@[k])
}

/// `e` reports the first offending parameter of `m`.
pub open spec fn reports(e: ClassifyError, m: RawMethod) -> bool {
    let (name, pos) = match e {
        ClassifyError::PatternParameter { method, position } => (method, position),
        ClassifyError::MisplacedReceiver { method, position } => (method, position),
    };
    let k = pos as int;
    &&& name@ == m.name@
    &&& first_param(m) <= k < m.inputs@.len()
    &&& !input_ok(m.inputs@[k])
    &&& (forall|l: int| first_param(m) <= l < k ==> input_ok(#[trigger] m.inputs@[l]))
    &&& (e is MisplacedReceiver <==> m.inputs@[k] is Receiver)
}

/// The text of the type a method returns; `()` where none is declared.
pub open spec fn output_text(o: RawOutput) -> Seq<char> {
    match o {
        RawOutput::Default => "()"@,
        RawOutput::Type { text, .. } => text@,
    }
}

/// `p` is the typed parameter `i`.
pub open spec fn param_of(p: FuncInput, i: RawInput) -> bool {
    match i {
        RawInput::Typed { name: Some(n), ty } => p.inp_name@ == n@ && p.inp_ty@ == ty@,
        _ => false,
    }
}

/// `f` describes method `m` of the actor type `actor`, whose message enum is
/// `message_enum` and whose handle's error enum is `error`.
pub open spec fn describes(
    f: ActorFunc,
    m: RawMethod,
    actor: Seq<char>,
    message_enum: Seq<char>,
    error: Seq<char>,
) -> bool {
    &&& f.fn_name@ == m.name@
    &&& f.msg_name@ == pascal_of(m.name@)
    &&& f.enum_name@ == message_enum
    &&& f.actor_name@ == actor
    &&& f.error_name@ == error
    &&& f.is_async == m.is_async
    &&& f.output@ == output_text(m.output)
    &&& f.inputs@.len() == m.inputs@.len() - first_param(m)
    &&& forall|k: int|
        0 <= k < f.inputs@.len() ==> param_of(#[trigger] f.inputs@[k], m.inputs@[k + first_param(m)])
}

} // verus!
