use crate::model::{
    describes, has_receiver, input_ok, is_behavior, is_constructor, is_selected,
    method_ok, param_of, reports, returns_own_type, first_param, ActorFunc,
    ClassifyError, FuncInput, ImplBlock, RawInput, RawMethod, RawOutput, Root, Visibility,
};
use crate::naming::{impl_ident_spec, impl_to_ident, pascal_ident, pascal_of};
use vstd::prelude::*;

verus! {

/// The exposed methods with a receiver, in order.
pub open spec fn behaviors(ms: Seq<RawMethod>) -> Seq<RawMethod> {
    ms.filter(|m: RawMethod| is_behavior(m))
}

/// The exposed methods without a receiver that return the type `actor`, in order.
pub open spec fn constructors(ms: Seq<RawMethod>, actor: Seq<char>) -> Seq<RawMethod> {
    ms.filter(|m: RawMethod| is_constructor(m, actor))
}

/// Every method that takes part in the generated code has well-formed parameters.
pub open spec fn all_ok(ms: Seq<RawMethod>, actor: Seq<char>) -> bool {
    forall|i: int| 0 <= i < ms.len() && is_selected(#[trigger] ms[i], actor) ==> method_ok(ms[i])
}

/// Every function of `fs` describes the method of `ms` at the same place.
pub open spec fn all_describe(
    fs: Seq<ActorFunc>,
    ms: Seq<RawMethod>,
    actor: Seq<char>,
    message_enum: Seq<char>,
    error: Seq<char>,
) -> bool {
    &&& fs.len() == ms.len()
    &&& forall|j: int| 0 <= j < fs.len() ==> describes(#[trigger] fs[j], ms[j], actor, message_enum, error)
}

/// `root` is the model of the interface `ast` with mailbox capacity `qdepth`.
pub open spec fn models(root: Root, ast: ImplBlock, qdepth: usize) -> bool {
    let ms = ast.methods@;
    let actor = ast.self_ty@;
    let message_enum = impl_ident_spec(actor, "ActorMsg"@);
    let error = impl_ident_spec(actor, "HandleError"@);
    &&& root.header@ == ast.header@
    &&& root.items@ == ast.items@
    &&& root.actor_ident@ == actor
    &&& root.message_enum_ident@ == message_enum
    &&& root.handle_ident@ == impl_ident_spec(actor, "Handle"@)
    &&& root.handle_error_ident@ == error
    &&& all_describe(root.actor_funcs@, behaviors(ms), actor, message_enum, error)
    &&& all_describe(root.actor_constructors@, constructors(ms, actor), actor, message_enum, error)
    &&& root.qdepth == qdepth
}

/// The failure of `ast`'s classification: `e` reports the first method taking
/// part in the generated code whose parameters are not well-formed.
pub open spec fn first_failure(e: ClassifyError, ast: ImplBlock) -> bool {
    let ms = ast.methods@;
    let actor = ast.self_ty@;
    exists|i: int|
        0 <= i < ms.len() && is_selected(#[trigger] ms[i], actor) && !method_ok(ms[i])
            && all_ok(ms.take(i), actor) && reports(e, ms[i])
}

impl FuncInput {
    /// The parameter for input `position` of `method`.
    pub fn from_input(method: &String, position: usize, input: &RawInput) -> (r: Result<
        FuncInput,
        ClassifyError,
    >)
        ensures
            match r {
                Ok(p) => param_of(p, *input),
                Err(e) => !input_ok(*input) && match e {
                    ClassifyError::PatternParameter { method: n, position: k } => {
                        &&& *input is Typed
                        &&& n@ == method@
                        &&& k == position
                    },
                    ClassifyError::MisplacedReceiver { method: n, position: k } => {
                        &&& *input is Receiver
                        &&& n@ == method@
                        &&& k == position
                    },
                },
            },
    {
        match input {
            RawInput::Receiver => Err(ClassifyError::MisplacedReceiver { method: method.clone(), position }),
            RawInput::Typed { name: None, .. } => Err(
                ClassifyError::PatternParameter { method: method.clone(), position },
            ),
            RawInput::Typed { name: Some(n), ty } => Ok(FuncInput { inp_name: n.clone(), inp_ty: ty.clone() }),
        }
    }
}

fn has_receiver_exec(m: &RawMethod) -> (r: bool)
    ensures
        r == has_receiver(*m),
{
    m.inputs.len() > 0 && match &m.inputs[0] {
        RawInput::Receiver => true,
        _ => false,
    }
}

fn returns_own_type_exec(m: &RawMethod, actor: &String) -> (r: bool)
    ensures
        r == returns_own_type(*m, actor@),
{
    match &m.output {
        RawOutput::Type { ident: Some(id), .. } => {
            let self_word = String::from_str("Self");
            *id == self_word || *id == *actor
        },
        _ => false,
    }
}

impl ActorFunc {
    /// The description of method `m` of the actor type `actor_name`, whose
    /// message enum is `enum_name` and whose handle's error enum is `error_name`;
    /// an error for the first parameter after the receiver that is not a
    /// typed parameter bound to a name.
    pub fn from_method(m: &RawMethod, enum_name: &String, actor_name: &String, error_name: &String) -> (r:
        Result<ActorFunc, ClassifyError>)
        ensures
            match r {
                Ok(f) => method_ok(*m) && describes(f, *m, actor_name@, enum_name@, error_name@),
                Err(e) => !method_ok(*m) && reports(e, *m),
            },
    {
        let first: usize = if has_receiver_exec(m) {
            1
        } else {
            0
        };
        let mut inputs: Vec<FuncInput> = Vec::new();
        let mut k: usize = first;
        while k < m.inputs.len()
            invariant
                first as int == first_param(*m),
                first <= k <= m.inputs@.len(),
                inputs@.len() == k - first,
                forall|l: int| first <= l < k ==> input_ok(#[trigger] m.inputs@[l]),
                forall|l: int|
                    0 <= l < inputs@.len() ==> param_of(#[trigger] inputs@[l], m.inputs@[l + first]),
            decreases m.inputs@.len() - k,
        {
            match FuncInput::from_input(&m.name, k, &m.inputs[k]) {
                Ok(p) => {
                    inputs.push(p);
                },
                Err(e) => {
                    return Err(e);
                },
            }
            k = k + 1;
        }
        let output = match &m.output {
            RawOutput::Default => String::from_str("()"),
            RawOutput::Type { text, .. } => text.clone(),
        };
        let msg_name = pascal_ident(m.name.as_str(), "");
        proof {
            reveal_strlit("");
            assert(msg_name@ =~= pascal_of(m.name@));
        }
        Ok(ActorFunc {
            fn_name: m.name.clone(),
            msg_name,
            enum_name: enum_name.clone(),
            actor_name: actor_name.clone(),
            error_name: error_name.clone(),
            is_async: m.is_async,
            inputs,
            output,
        })
    }
}

proof fn lemma_filter_step(ms: Seq<RawMethod>, i: int, p: spec_fn(RawMethod) -> bool)
    requires
        0 <= i < ms.len(),
    ensures
        ms.take(i + 1).filter(p) == if p(ms[i]) {
            ms.take(i).filter(p).push(ms[i])
        } else {
            ms.take(i).filter(p)
        },
{
    reveal(Seq::filter);
    assert(ms.take(i + 1).drop_last() =~= ms.take(i));
}

impl Root {
    /// Sorts the methods of `ast` into behaviors (exposed, with a receiver) and
    /// constructors (exposed, no receiver, returning `Self` or the type's own
    /// name), keeping their order, and names the generated types. Fails on the
    /// first such method with a parameter that is not a typed parameter bound
    /// to a name. The mailbox capacity `qdepth` is positive.
    pub fn from_impl(ast: &ImplBlock, qdepth: usize) -> (r: Result<Root, ClassifyError>)
        requires
            qdepth > 0,
        ensures
            match r {
                Ok(root) => all_ok(ast.methods@, ast.self_ty@) && models(root, *ast, qdepth),
                Err(e) => !all_ok(ast.methods@, ast.self_ty@) && first_failure(e, *ast),
            },
    {
        let ghost ms = ast.methods@;
        let ghost actor = ast.self_ty@;
        let actor_ident = ast.self_ty.clone();
        let message_enum_ident = impl_to_ident(ast.self_ty.as_str(), "ActorMsg");
        let handle_ident = impl_to_ident(ast.self_ty.as_str(), "Handle");
        let handle_error_ident = impl_to_ident(ast.self_ty.as_str(), "HandleError");
        let mut actor_funcs: Vec<ActorFunc> = Vec::new();
        let mut actor_constructors: Vec<ActorFunc> = Vec::new();
        let mut i: usize = 0;
        while i < ast.methods.len()
            invariant
                ms == ast.methods@,
                actor == ast.self_ty@,
                actor_ident@ == actor,
                message_enum_ident@ == impl_ident_spec(actor, "ActorMsg"@),
                handle_error_ident@ == impl_ident_spec(actor, "HandleError"@),
                0 <= i <= ms.len(),
                all_ok(ms.take(i as int), actor),
                all_describe(
                    actor_funcs@,
                    behaviors(ms.take(i as int)),
                    actor,
                    message_enum_ident@,
                    handle_error_ident@,
                ),
                all_describe(
                    actor_constructors@,
                    constructors(ms.take(i as int), actor),
                    actor,
                    message_enum_ident@,
                    handle_error_ident@,
                ),
            decreases ms.len() - i,
        {
            let m = &ast.methods[i];
            let exposed = m.vis != Visibility::Inherited;
            let receiver = has_receiver_exec(m);
            let behavior = exposed && receiver;
            let constructor = exposed && !receiver && returns_own_type_exec(m, &actor_ident);
            proof {
                lemma_filter_step(ms, i as int, |m: RawMethod| is_behavior(m));
                lemma_filter_step(ms, i as int, |m: RawMethod| is_constructor(m, actor));
                assert(ms.take(i + 1).take(i as int) =~= ms.take(i as int));
                assert(ms.take(i + 1)[i as int] == ms[i as int]);
            }
            if behavior || constructor {
                match ActorFunc::from_method(m, &message_enum_ident, &actor_ident, &handle_error_ident) {
                    Ok(f) => {
                        if behavior {
                            actor_funcs.push(f);
                        } else {
                            actor_constructors.push(f);
                        }
                    },
                    Err(e) => {
                        proof {
                            assert(is_selected(ms[i as int], actor));
                        }
                        return Err(e);
                    },
                }
            }
            i = i + 1;
        }
        proof {
            assert(ms.take(ms.len() as int) =~= ms);
        }
        Ok(Root {
            header: ast.header.clone(),
            items: ast.items.clone(),
            actor_ident,
            message_enum_ident,
            handle_ident,
            handle_error_ident,
            actor_funcs,
            actor_constructors,
            qdepth,
        })
    }
}

} // verus!
