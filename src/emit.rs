use crate::model::{ActorFunc, FuncInput, Root};
use crate::text::{concat_all, decimal, decimal_spec, lemma_concat_take};
use vstd::prelude::*;

verus! {

/// `name: type, ` — a field of a message variant, or a parameter of a handle function.
pub open spec fn field_text(p: FuncInput) -> Seq<char> {
    p.inp_name@ + ": "@ + p.inp_ty@ + ", "@
}

/// `name, ` — the parameter handed on under its own name.
pub open spec fn passthru_text(p: FuncInput) -> Seq<char> {
    p.inp_name@ + ", "@
}

pub open spec fn fields_text(ps: Seq<FuncInput>) -> Seq<char> {
    concat_all(ps.map_values(|p: FuncInput| field_text(p)))
}

pub open spec fn passthrus_text(ps: Seq<FuncInput>) -> Seq<char> {
    concat_all(ps.map_values(|p: FuncInput| passthru_text(p)))
}

pub open spec fn await_text(is_async: bool) -> Seq<char> {
    if is_async {
        ".await"@
    } else {
        Seq::empty()
    }
}

/// The message variant of a behavior: its parameters, then the reply channel.
pub open spec fn variant_text(f: ActorFunc) -> Seq<char> {
    f.msg_name@ + " { "@ + fields_text(f.inputs@) + "respond_to: tokio::sync::oneshot::Sender<"@
        + f.output@ + "> }"@
}

/// The handle's function for a behavior: it sends the message and awaits the reply.
pub open spec fn handle_fn_text(f: ActorFunc) -> Seq<char> {
    "pub async fn "@ + f.fn_name@ + "(&self, "@ + fields_text(f.inputs@) + ") -> Result<"@ + f.output@
        + ", "@ + f.error_name@ + "> {\nlet (respond_to, response) = tokio::sync::oneshot::channel();\nlet msg = "@
        + f.enum_name@ + "::"@ + f.msg_name@ + " { "@ + passthrus_text(f.inputs@)
        + "respond_to };\nself.sender.send(msg).await.map_err(|e| "@ + f.error_name@
        + "::from(e))?;\nlet response = response.await.map_err(|e| "@ + f.error_name@
        + "::from(e))?;\nOk(response)\n}\n"@
}

/// The handle's function for a constructor: it builds the actor and launches it.
pub open spec fn constructor_text(f: ActorFunc) -> Seq<char> {
    (if f.is_async {
        "pub async fn "@
    } else {
        "pub fn "@
    }) + f.fn_name@ + "("@ + fields_text(f.inputs@) + ") -> Self {\nlet mut actor = "@ + f.actor_name@
        + "::"@ + f.fn_name@ + "("@ + passthrus_text(f.inputs@) + ")"@ + await_text(f.is_async)
        + ";\nSelf::launch_actor(actor)\n}\n"@
}

/// The dispatch arm of a behavior: it calls the method and sends back the result.
pub open spec fn arm_text(f: ActorFunc) -> Seq<char> {
    f.enum_name@ + "::"@ + f.msg_name@ + " { "@ + passthrus_text(f.inputs@)
        + "respond_to } => {\nlet res = self."@ + f.fn_name@ + "("@ + passthrus_text(f.inputs@) + ")"@
        + await_text(f.is_async) + ";\nrespond_to.send(res).map_err(|_e| "@ + f.error_name@
        + "::ReplyDeliveryError)?;\n}"@
}

pub open spec fn variant_item(f: ActorFunc) -> Seq<char> {
    variant_text(f) + ",\n"@
}

pub open spec fn arm_item(f: ActorFunc) -> Seq<char> {
    arm_text(f) + ",\n"@
}

/// The message variants, one for each behavior, in order.
pub open spec fn variant_frags(r: Root) -> Seq<Seq<char>> {
    r.actor_funcs@.map_values(|f: ActorFunc| variant_item(f))
}

/// The handle's behavior functions, one for each behavior, in order.
pub open spec fn handle_fn_frags(r: Root) -> Seq<Seq<char>> {
    r.actor_funcs@.map_values(|f: ActorFunc| handle_fn_text(f))
}

/// The handle's constructors, one for each constructor, in order.
pub open spec fn constructor_frags(r: Root) -> Seq<Seq<char>> {
    r.actor_constructors@.map_values(|f: ActorFunc| constructor_text(f))
}

/// The dispatch arms, one for each behavior, in order.
pub open spec fn arm_frags(r: Root) -> Seq<Seq<char>> {
    r.actor_funcs@.map_values(|f: ActorFunc| arm_item(f))
}

/// The message enum.
pub open spec fn msg_enum_text(r: Root) -> Seq<char> {
    "enum "@ + r.message_enum_ident@ + " {\n"@ + concat_all(variant_frags(r)) + "}\n"@
}

/// The handle type: its mailbox sender, the launch function, the constructors
/// and the behavior functions.
pub open spec fn handle_text(r: Root) -> Seq<char> {
    "#[derive(Clone)]\npub struct "@ + r.handle_ident@ + " {\nsender: tokio::sync::mpsc::Sender<"@
        + r.message_enum_ident@ + ">,\n}\n\nimpl "@ + r.handle_ident@
        + " {\nfn launch_actor(mut actor: "@ + r.actor_ident@
        + ") -> Self {\nlet (sender, receiver) = tokio::sync::mpsc::channel("@
        + decimal_spec(r.qdepth as nat)
        + ");\ntokio::task::spawn(run_actor(actor, receiver));\nSelf { sender }\n}\n"@
        + concat_all(constructor_frags(r)) + concat_all(handle_fn_frags(r)) + "}\n"@
}

/// The dispatch function added to the actor's own methods.
pub open spec fn handle_message_fn_text(r: Root) -> Seq<char> {
    "async fn handle_msg(&mut self, msg: "@ + r.message_enum_ident@ + ") -> Result<(), "@
        + r.handle_error_ident@ + "> {\nmatch msg {\n"@ + concat_all(arm_frags(r)) + "};\nOk(())\n}\n"@
}

/// The original block of methods, with the dispatch function added.
pub open spec fn impl_text(r: Root) -> Seq<char> {
    r.header@ + " {\n"@ + r.items@ + "\n"@ + handle_message_fn_text(r) + "}\n"@
}

/// The worker loop: it dispatches each message until the mailbox closes, and
/// logs a failed dispatch without stopping.
pub open spec fn run_actor_text(r: Root) -> Seq<char> {
    "async fn run_actor(mut actor: "@ + r.actor_ident@
        + ", mut receiver: tokio::sync::mpsc::Receiver<"@ + r.message_enum_ident@
        + ">) {\nwhile let Some(msg) = receiver.recv().await {\nmatch actor.handle_msg(msg).await {\nOk(_) => continue,\nErr(e) => eprintln!(\"error during actor message handling: {e:?}\"),\n};\n}\n}\n"@
}

/// The error enum of the handle, with its three kinds.
pub open spec fn error_enum_text(r: Root) -> Seq<char> {
    "#[derive(thiserror::Error, Debug)]\npub enum "@ + r.handle_error_ident@
        + " {\n#[error(\"send to actor error\")]\nSendToActorError(#[from] tokio::sync::mpsc::error::SendError<"@
        + r.message_enum_ident@
        + ">),\n#[error(\"reply delivery error\")]\nReplyDeliveryError,\n#[error(\"receive from actor error\")]\nReceiveFromActorError(#[from] tokio::sync::oneshot::error::RecvError),\n}\n"@
}

/// The whole output, in its fixed order.
pub open spec fn generated_text(r: Root) -> Seq<char> {
    error_enum_text(r) + impl_text(r) + msg_enum_text(r) + handle_text(r) + run_actor_text(r)
}

impl FuncInput {
    pub fn to_enum_params(&self) -> (r: String)
        ensures
            r@ == field_text(*self),
    {
        let mut s = self.inp_name.clone();
        s.append(": ");
        s.append(self.inp_ty.as_str());
        s.append(", ");
        s
    }

    pub fn to_handle_fn_params(&self) -> (r: String)
        ensures
            r@ == field_text(*self),
    {
        self.to_enum_params()
    }

    pub fn to_msg_passthru(&self) -> (r: String)
        ensures
            r@ == passthru_text(*self),
    {
        let mut s = self.inp_name.clone();
        s.append(", ");
        s
    }
}

fn append_fields(s: &mut String, ps: &Vec<FuncInput>)
    ensures
        final(s)@ == old(s)@ + fields_text(ps@),
{
    let ghost base = s@;
    let ghost frags = ps@.map_values(|p: FuncInput| field_text(p));
    let mut i: usize = 0;
    while i < ps.len()
        invariant
            frags == ps@.map_values(|p: FuncInput| field_text(p)),
            0 <= i <= ps@.len(),
            s@ == base + concat_all(frags.take(i as int)),
        decreases ps@.len() - i,
    {
        let t = ps[i].to_handle_fn_params();
        s.append(t.as_str());
        proof {
            lemma_concat_take(frags, i as int);
            assert(s@ =~= base + concat_all(frags.take(i + 1)));
        }
        i = i + 1;
    }
    assert(frags.take(ps@.len() as int) =~= frags);
}

fn append_passthrus(s: &mut String, ps: &Vec<FuncInput>)
    ensures
        final(s)@ == old(s)@ + passthrus_text(ps@),
{
    let ghost base = s@;
    let ghost frags = ps@.map_values(|p: FuncInput| passthru_text(p));
    let mut i: usize = 0;
    while i < ps.len()
        invariant
            frags == ps@.map_values(|p: FuncInput| passthru_text(p)),
            0 <= i <= ps@.len(),
            s@ == base + concat_all(frags.take(i as int)),
        decreases ps@.len() - i,
    {
        let t = ps[i].to_msg_passthru();
        s.append(t.as_str());
        proof {
            lemma_concat_take(frags, i as int);
            assert(s@ =~= base + concat_all(frags.take(i + 1)));
        }
        i = i + 1;
    }
    assert(frags.take(ps@.len() as int) =~= frags);
}

impl ActorFunc {
    pub fn to_enum_variant(&self) -> (r: String)
        ensures
            r@ == variant_text(*self),
    {
        let mut s = self.msg_name.clone();
        s.append(" { ");
        append_fields(&mut s, &self.inputs);
        s.append("respond_to: tokio::sync::oneshot::Sender<");
        s.append(self.output.as_str());
        s.append("> }");
        s
    }

    pub fn to_handle_func(&self) -> (r: String)
        ensures
            r@ == handle_fn_text(*self),
    {
        let mut s = String::from_str("pub async fn ");
        s.append(self.fn_name.as_str());
        s.append("(&self, ");
        append_fields(&mut s, &self.inputs);
        s.append(") -> Result<");
        s.append(self.output.as_str());
        s.append(", ");
        s.append(self.error_name.as_str());
        s.append("> {\nlet (respond_to, response) = tokio::sync::oneshot::channel();\nlet msg = ");
        s.append(self.enum_name.as_str());
        s.append("::");
        s.append(self.msg_name.as_str());
        s.append(" { ");
        append_passthrus(&mut s, &self.inputs);
        s.append("respond_to };\nself.sender.send(msg).await.map_err(|e| ");
        s.append(self.error_name.as_str());
        s.append("::from(e))?;\nlet response = response.await.map_err(|e| ");
        s.append(self.error_name.as_str());
        s.append("::from(e))?;\nOk(response)\n}\n");
        s
    }

    pub fn to_constructor_func(&self) -> (r: String)
        ensures
            r@ == constructor_text(*self),
    {
        let mut s = if self.is_async {
            String::from_str("pub async fn ")
        } else {
            String::from_str("pub fn ")
        };
        s.append(self.fn_name.as_str());
        s.append("(");
        append_fields(&mut s, &self.inputs);
        s.append(") -> Self {\nlet mut actor = ");
        s.append(self.actor_name.as_str());
        s.append("::");
        s.append(self.fn_name.as_str());
        s.append("(");
        append_passthrus(&mut s, &self.inputs);
        s.append(")");
        if self.is_async {
            s.append(".await");
        }
        s.append(";\nSelf::launch_actor(actor)\n}\n");
        assert(s@ =~= constructor_text(*self));
        s
    }

    pub fn to_handle_match(&self) -> (r: String)
        ensures
            r@ == arm_text(*self),
    {
        let mut s = self.enum_name.clone();
        s.append("::");
        s.append(self.msg_name.as_str());
        s.append(" { ");
        append_passthrus(&mut s, &self.inputs);
        s.append("respond_to } => {\nlet res = self.");
        s.append(self.fn_name.as_str());
        s.append("(");
        append_passthrus(&mut s, &self.inputs);
        s.append(")");
        if self.is_async {
            s.append(".await");
        }
        s.append(";\nrespond_to.send(res).map_err(|_e| ");
        s.append(self.error_name.as_str());
        s.append("::ReplyDeliveryError)?;\n}");
        assert(s@ =~= arm_text(*self));
        s
    }
}

impl Root {
    pub fn actor_msg_enum_token_stream(&self) -> (r: String)
        ensures
            r@ == msg_enum_text(*self),
    {
        let mut s = String::from_str("enum ");
        s.append(self.message_enum_ident.as_str());
        s.append(" {\n");
        let ghost base = s@;
        let ghost frags = variant_frags(*self);
        let mut i: usize = 0;
        while i < self.actor_funcs.len()
            invariant
                frags == variant_frags(*self),
                0 <= i <= frags.len(),
                s@ == base + concat_all(frags.take(i as int)),
            decreases frags.len() - i,
        {
            let t = self.actor_funcs[i].to_enum_variant();
            s.append(t.as_str());
            s.append(",\n");
            proof {
                lemma_concat_take(frags, i as int);
                assert(s@ =~= base + concat_all(frags.take(i + 1)));
            }
            i = i + 1;
        }
        assert(frags.take(frags.len() as int) =~= frags);
        s.append("}\n");
        s
    }

    pub fn handle_message_fn(&self) -> (r: String)
        ensures
            r@ == handle_message_fn_text(*self),
    {
        let mut s = String::from_str("async fn handle_msg(&mut self, msg: ");
        s.append(self.message_enum_ident.as_str());
        s.append(") -> Result<(), ");
        s.append(self.handle_error_ident.as_str());
        s.append("> {\nmatch msg {\n");
        let ghost base = s@;
        let ghost frags = arm_frags(*self);
        let mut i: usize = 0;
        while i < self.actor_funcs.len()
            invariant
                frags == arm_frags(*self),
                0 <= i <= frags.len(),
                s@ == base + concat_all(frags.take(i as int)),
            decreases frags.len() - i,
        {
            let t = self.actor_funcs[i].to_handle_match();
            s.append(t.as_str());
            s.append(",\n");
            proof {
                lemma_concat_take(frags, i as int);
                assert(s@ =~= base + concat_all(frags.take(i + 1)));
            }
            i = i + 1;
        }
        assert(frags.take(frags.len() as int) =~= frags);
        s.append("};\nOk(())\n}\n");
        s
    }

    pub fn impl_token_stream(&self) -> (r: String)
        ensures
            r@ == impl_text(*self),
    {
        let mut s = self.header.clone();
        s.append(" {\n");
        s.append(self.items.as_str());
        s.append("\n");
        let d = self.handle_message_fn();
        s.append(d.as_str());
        s.append("}\n");
        s
    }

    pub fn handle_token_stream(&self) -> (r: String)
        ensures
            r@ == handle_text(*self),
    {
        let mut s = String::from_str("#[derive(Clone)]\npub struct ");
        s.append(self.handle_ident.as_str());
        s.append(" {\nsender: tokio::sync::mpsc::Sender<");
        s.append(self.message_enum_ident.as_str());
        s.append(">,\n}\n\nimpl ");
        s.append(self.handle_ident.as_str());
        s.append(" {\nfn launch_actor(mut actor: ");
        s.append(self.actor_ident.as_str());
        s.append(") -> Self {\nlet (sender, receiver) = tokio::sync::mpsc::channel(");
        let depth = decimal(self.qdepth);
        s.append(depth.as_str());
        s.append(");\ntokio::task::spawn(run_actor(actor, receiver));\nSelf { sender }\n}\n");
        let ghost base = s@;
        let ghost cfrags = constructor_frags(*self);
        let mut i: usize = 0;
        while i < self.actor_constructors.len()
            invariant
                cfrags == constructor_frags(*self),
                0 <= i <= cfrags.len(),
                s@ == base + concat_all(cfrags.take(i as int)),
            decreases cfrags.len() - i,
        {
            let t = self.actor_constructors[i].to_constructor_func();
            s.append(t.as_str());
            proof {
                lemma_concat_take(cfrags, i as int);
                assert(s@ =~= base + concat_all(cfrags.take(i + 1)));
            }
            i = i + 1;
        }
        assert(cfrags.take(cfrags.len() as int) =~= cfrags);
        let ghost base2 = s@;
        let ghost hfrags = handle_fn_frags(*self);
        let mut j: usize = 0;
        while j < self.actor_funcs.len()
            invariant
                hfrags == handle_fn_frags(*self),
                0 <= j <= hfrags.len(),
                s@ == base2 + concat_all(hfrags.take(j as int)),
            decreases hfrags.len() - j,
        {
            let t = self.actor_funcs[j].to_handle_func();
            s.append(t.as_str());
            proof {
                lemma_concat_take(hfrags, j as int);
                assert(s@ =~= base2 + concat_all(hfrags.take(j + 1)));
            }
            j = j + 1;
        }
        assert(hfrags.take(hfrags.len() as int) =~= hfrags);
        s.append("}\n");
        s
    }

    pub fn run_actor_fn_stream(&self) -> (r: String)
        ensures
            r@ == run_actor_text(*self),
    {
        let mut s = String::from_str("async fn run_actor(mut actor: ");
        s.append(self.actor_ident.as_str());
        s.append(", mut receiver: tokio::sync::mpsc::Receiver<");
        s.append(self.message_enum_ident.as_str());
        s.append(
            ">) {\nwhile let Some(msg) = receiver.recv().await {\nmatch actor.handle_msg(msg).await {\nOk(_) => continue,\nErr(e) => eprintln!(\"error during actor message handling: {e:?}\"),\n};\n}\n}\n",
        );
        s
    }

    pub fn error_enum_stream(&self) -> (r: String)
        ensures
            r@ == error_enum_text(*self),
    {
        let mut s = String::from_str("#[derive(thiserror::Error, Debug)]\npub enum ");
        s.append(self.handle_error_ident.as_str());
        s.append(
            " {\n#[error(\"send to actor error\")]\nSendToActorError(#[from] tokio::sync::mpsc::error::SendError<",
        );
        s.append(self.message_enum_ident.as_str());
        s.append(
            ">),\n#[error(\"reply delivery error\")]\nReplyDeliveryError,\n#[error(\"receive from actor error\")]\nReceiveFromActorError(#[from] tokio::sync::oneshot::error::RecvError),\n}\n",
        );
        s
    }

    /// The five generated items, in order: the error enum, the original block
    /// with the dispatch function, the message enum, the handle and the worker loop.
    pub fn generate(&self) -> (r: String)
        ensures
            r@ == generated_text(*self),
    {
        let mut s = self.error_enum_stream();
        let a = self.impl_token_stream();
        s.append(a.as_str());
        let b = self.actor_msg_enum_token_stream();
        s.append(b.as_str());
        let c = self.handle_token_stream();
        s.append(c.as_str());
        let d = self.run_actor_fn_stream();
        s.append(d.as_str());
        s
    }
}

} // verus!
