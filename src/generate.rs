use crate::classify::{all_ok, behaviors, constructors, first_failure, models};
use crate::config::{capacity_from_attr, configured_capacity, STD_QUEUE_DEPTH};
use crate::emit::{
    arm_frags, arm_text, constructor_frags, field_text, fields_text, generated_text,
    handle_fn_frags, handle_fn_text, handle_message_fn_text, handle_text, msg_enum_text,
    passthru_text, passthrus_text, variant_frags, variant_text,
};
use crate::model::{
    describes, first_param, param_of, ActorFunc, ConfigToken, FuncInput, GenerateError, ImplBlock,
    RawInput, RawMethod, Root,
};
use crate::text::concat_all;
use vstd::prelude::*;

verus! {

/// `s` is the output generated for the interface `item` under the configuration `attr`.
pub open spec fn generates(attr: Seq<ConfigToken>, item: ImplBlock, s: Seq<char>) -> bool {
    exists|root: Root|
        models(root, item, configured_capacity(attr).unwrap()) && s == #[trigger] generated_text(root)
}

/// Generates the actor for the interface `item`: the error enum, the original
/// block with the dispatch function, the message enum, the handle and the
/// worker loop. Fails on a malformed parameter of a method that takes part in
/// the generated code, then on a configuration literal that is not a positive
/// decimal number.
pub fn actorize(attr: &Vec<ConfigToken>, item: &ImplBlock) -> (r: Result<String, GenerateError>)
    ensures
        match r {
            Ok(s) => {
                &&& all_ok(item.methods@, item.self_ty@)
                &&& configured_capacity(attr@) is Some
                &&& generates(attr@, *item, s@)
            },
            Err(GenerateError::Classify(e)) => !all_ok(item.methods@, item.self_ty@) && first_failure(
                e,
                *item,
            ),
            Err(GenerateError::InvalidCapacity { literal }) => {
                &&& all_ok(item.methods@, item.self_ty@)
                &&& configured_capacity(attr@) is None
                &&& attr@[0] matches ConfigToken::Literal(t) && t@ == literal@
            },
        },
{
    let mut root = match Root::from_impl(item, STD_QUEUE_DEPTH) {
        Ok(root) => root,
        Err(e) => {
            return Err(GenerateError::Classify(e));
        },
    };
    let qdepth = match capacity_from_attr(attr) {
        Ok(q) => q,
        Err(e) => {
            return Err(e);
        },
    };
    root.qdepth = qdepth;
    let s = root.generate();
    assert(models(root, *item, configured_capacity(attr@).unwrap()));
    Ok(s)
}

proof fn lemma_same_inputs(f1: ActorFunc, f2: ActorFunc, m: RawMethod, a: Seq<char>, e: Seq<char>, er: Seq<char>)
    requires
        describes(f1, m, a, e, er),
        describes(f2, m, a, e, er),
    ensures
        fields_text(f1.inputs@) == fields_text(f2.inputs@),
        passthrus_text(f1.inputs@) == passthrus_text(f2.inputs@),
{
    let fp = first_param(m);
    assert forall|k: int| 0 <= k < f1.inputs@.len() implies field_text(f1.inputs@[k]) == field_text(
        f2.inputs@[k],
    ) && passthru_text(f1.inputs@[k]) == passthru_text(f2.inputs@[k]) by {
        assert(param_of(f1.inputs@[k], m.inputs@[k + fp]));
        assert(param_of(f2.inputs@[k], m.inputs@[k + fp]));
    }
    assert(f1.inputs@.map_values(|p: FuncInput| field_text(p)) =~= f2.inputs@.map_values(
        |p: FuncInput| field_text(p),
    ));
    assert(f1.inputs@.map_values(|p: FuncInput| passthru_text(p)) =~= f2.inputs@.map_values(
        |p: FuncInput| passthru_text(p),
    ));
}

/// Two models of one interface with one capacity generate the same text:
/// generation is a function of the interface definition and its configuration.
pub proof fn lemma_models_same_text(r1: Root, r2: Root, ast: ImplBlock, qdepth: usize)
    requires
        models(r1, ast, qdepth),
        models(r2, ast, qdepth),
    ensures
        generated_text(r1) == generated_text(r2),
{
    let ms = ast.methods@;
    let actor = ast.self_ty@;
    let bs = behaviors(ms);
    let cs = constructors(ms, actor);
    let e = r1.message_enum_ident@;
    let er = r1.handle_error_ident@;
    assert forall|j: int| 0 <= j < bs.len() implies variant_frags(r1)[j] == variant_frags(r2)[j]
        && handle_fn_frags(r1)[j] == handle_fn_frags(r2)[j] && arm_frags(r1)[j] == arm_frags(
        r2,
    )[j] by {
        assert(describes(r1.actor_funcs@[j], bs[j], actor, e, er));
        assert(describes(r2.actor_funcs@[j], bs[j], actor, e, er));
        lemma_same_inputs(r1.actor_funcs@[j], r2.actor_funcs@[j], bs[j], actor, e, er);
    }
    assert forall|j: int| 0 <= j < cs.len() implies constructor_frags(r1)[j] == constructor_frags(
        r2,
    )[j] by {
        assert(describes(r1.actor_constructors@[j], cs[j], actor, e, er));
        assert(describes(r2.actor_constructors@[j], cs[j], actor, e, er));
        lemma_same_inputs(r1.actor_constructors@[j], r2.actor_constructors@[j], cs[j], actor, e, er);
    }
    assert(variant_frags(r1) =~= variant_frags(r2));
    assert(handle_fn_frags(r1) =~= handle_fn_frags(r2));
    assert(arm_frags(r1) =~= arm_frags(r2));
    assert(constructor_frags(r1) =~= constructor_frags(r2));
}

/// Generating twice from one interface definition and one configuration gives
/// the same text, byte for byte.
pub proof fn lemma_generation_deterministic(
    attr: Seq<ConfigToken>,
    item: ImplBlock,
    s1: Seq<char>,
    s2: Seq<char>,
)
    requires
        generates(attr, item, s1),
        generates(attr, item, s2),
    ensures
        s1 == s2,
{
    let q = configured_capacity(attr).unwrap();
    let r1 = choose|root: Root| models(root, item, q) && s1 == #[trigger] generated_text(root);
    let r2 = choose|root: Root| models(root, item, q) && s2 == #[trigger] generated_text(root);
    lemma_models_same_text(r1, r2, item, q);
}

/// For an interface with N exposed methods that take a receiver and M exposed
/// methods without one that return the type itself, the message enum has N
/// variants, the dispatch function N arms, and the handle M constructors
/// followed by N behavior functions.
pub proof fn lemma_generated_counts(root: Root, ast: ImplBlock, qdepth: usize)
    requires
        models(root, ast, qdepth),
    ensures
        variant_frags(root).len() == behaviors(ast.methods@).len(),
        arm_frags(root).len() == behaviors(ast.methods@).len(),
        handle_fn_frags(root).len() == behaviors(ast.methods@).len(),
        constructor_frags(root).len() == constructors(ast.methods@, ast.self_ty@).len(),
        msg_enum_text(root) == "enum "@ + root.message_enum_ident@ + " {\n"@ + concat_all(
            variant_frags(root),
        ) + "}\n"@,
        handle_message_fn_text(root) == "async fn handle_msg(&mut self, msg: "@
            + root.message_enum_ident@ + ") -> Result<(), "@ + root.handle_error_ident@
            + "> {\nmatch msg {\n"@ + concat_all(arm_frags(root)) + "};\nOk(())\n}\n"@,
        handle_text(root).subrange(
            handle_text(root).len() - concat_all(constructor_frags(root)).len() - concat_all(
                handle_fn_frags(root),
            ).len() - 2,
            handle_text(root).len() as int,
        ) == concat_all(constructor_frags(root)) + concat_all(handle_fn_frags(root)) + "}\n"@,
{
    reveal_strlit("}\n");
    let c = concat_all(constructor_frags(root));
    let h = concat_all(handle_fn_frags(root));
    let t = handle_text(root);
    let tail = c + h + "}\n"@;
    assert(t.subrange(t.len() - c.len() - h.len() - 2, t.len() as int) =~= tail);
}

/// The typed parameters of `m`, after its receiver if it has one.
pub open spec fn declared_params(m: RawMethod) -> Seq<RawInput> {
    m.inputs@.subrange(first_param(m), m.inputs@.len() as int)
}

/// `name: type, ` for a typed parameter as declared.
pub open spec fn declared_field_text(i: RawInput) -> Seq<char> {
    match i {
        RawInput::Typed { name: Some(n), ty } => n@ + ": "@ + ty@ + ", "@,
        _ => Seq::empty(),
    }
}

/// `name, ` for a typed parameter as declared.
pub open spec fn declared_name_text(i: RawInput) -> Seq<char> {
    match i {
        RawInput::Typed { name: Some(n), .. } => n@ + ", "@,
        _ => Seq::empty(),
    }
}

proof fn lemma_params_kept(f: ActorFunc, m: RawMethod, a: Seq<char>, e: Seq<char>, er: Seq<char>)
    requires
        describes(f, m, a, e, er),
    ensures
        fields_text(f.inputs@) == concat_all(declared_params(m).map_values(|i: RawInput| declared_field_text(i))),
        passthrus_text(f.inputs@) == concat_all(declared_params(m).map_values(|i: RawInput| declared_name_text(i))),
{
    let fp = first_param(m);
    assert forall|k: int| 0 <= k < f.inputs@.len() implies field_text(f.inputs@[k]) == declared_field_text(
        declared_params(m)[k],
    ) && passthru_text(f.inputs@[k]) == declared_name_text(declared_params(m)[k]) by {
        assert(param_of(f.inputs@[k], m.inputs@[k + fp]));
    }
    assert(f.inputs@.map_values(|p: FuncInput| field_text(p)) =~= declared_params(m).map_values(
        |i: RawInput| declared_field_text(i),
    ));
    assert(f.inputs@.map_values(|p: FuncInput| passthru_text(p)) =~= declared_params(m).map_values(
        |i: RawInput| declared_name_text(i),
    ));
}

/// Each generated function keeps its method's parameters: the handle
/// function declares them with their names and types in the declared order,
/// and the message it sends, the dispatch arm's pattern and the arm's call of
/// the method all hand them on by name in that same order.
pub proof fn lemma_params_associated(root: Root, ast: ImplBlock, qdepth: usize, j: int)
    requires
        models(root, ast, qdepth),
        0 <= j < behaviors(ast.methods@).len(),
    ensures
        ({
            let f = root.actor_funcs@[j];
            let m = behaviors(ast.methods@)[j];
            let fields = concat_all(declared_params(m).map_values(|i: RawInput| declared_field_text(i)));
            let names = concat_all(declared_params(m).map_values(|i: RawInput| declared_name_text(i)));
            &&& f.fn_name@ == m.name@
            &&& fields_text(f.inputs@) == fields
            &&& passthrus_text(f.inputs@) == names
            &&& handle_fn_frags(root)[j] == handle_fn_text(f)
            &&& arm_frags(root)[j] == arm_text(f) + ",\n"@
            &&& variant_frags(root)[j] == variant_text(f) + ",\n"@
        }),
{
    let m = behaviors(ast.methods@)[j];
    lemma_params_kept(
        root.actor_funcs@[j],
        m,
        ast.self_ty@,
        root.message_enum_ident@,
        root.handle_error_ident@,
    );
}

} // verus!
