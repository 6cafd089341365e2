//! The laws that hold across the two dispatchers.
//!
//! Each law is a public proof: it states, over the same spec functions that
//! the executable functions' contracts use, a property of the whole call
//! path rather than of one function.

use vstd::prelude::*;

use crate::catalog::{lemma_method_round_trip, method_str, op_of_method, Op};
use crate::envelope::{
    client_maybe_text_spec, client_roots_spec, client_unit_spec, envelope_spec,
    lemma_mode_transparency_maybe_text, lemma_mode_transparency_roots, out_shape_ok, resp_shape,
    OutView,
};
use crate::requests::{
    arg_shape, decode_args_spec, lemma_params_round_trip, params_view, shape_of_args, ArgsView,
};

verus! {

/// Round trip of a forwarded request: sending an operation's own wire
/// string with its encoded arguments reaches exactly that operation, and
/// decoding yields exactly the encoded arguments — whether the optional
/// fields are absent or populated.
pub proof fn lemma_request_round_trip(op: Op, a: ArgsView)
    requires
        shape_of_args(a) == arg_shape(op),
    ensures
        op_of_method(method_str(op)) == Some(op),
        decode_args_spec(arg_shape(op), params_view(a)) == Ok::<ArgsView, Seq<char>>(a),
{
    lemma_method_round_trip(op);
    lemma_params_round_trip(a);
}

/// Mode transparency: for one operation and one handler outcome of its
/// shape, the remote path — encode the request, decode it at the daemon,
/// envelope the handler's result, decode the reply at the caller — ends in
/// exactly the result that the local path reads off the handler directly.
pub proof fn lemma_mode_transparency(op: Op, a: ArgsView, out: Result<OutView, Seq<char>>)
    requires
        shape_of_args(a) == arg_shape(op),
        out matches Ok(o) ==> out_shape_ok(resp_shape(op), o),
    ensures
        op_of_method(method_str(op)) == Some(op),
        decode_args_spec(arg_shape(op), params_view(a)) == Ok::<ArgsView, Seq<char>>(a),
        resp_shape(op) is Unit ==> client_unit_spec(envelope_spec(out)) == (match out {
            Ok(_) => Ok::<(), Seq<char>>(()),
            Err(e) => Err(e),
        }),
        resp_shape(op) is Roots ==> client_roots_spec(envelope_spec(out)) == (match out {
            Ok(o) => Ok::<Seq<Seq<char>>, Seq<char>>(o->Roots_0),
            Err(e) => Err(e),
        }),
        resp_shape(op) is MaybeText ==> client_maybe_text_spec(envelope_spec(out)) == (match out {
            Ok(o) => Ok::<Option<Seq<char>>, Seq<char>>(o->MaybeText_0),
            Err(e) => Err(e),
        }),
        resp_shape(op) is Raw ==> envelope_spec(out) == (match out {
            Ok(o) => Ok::<crate::value::Jv, Seq<char>>(o->Raw_0),
            Err(e) => Err(e),
        }),
{
    lemma_method_round_trip(op);
    lemma_params_round_trip(a);
    if resp_shape(op) is Roots {
        match out {
            Ok(o) => lemma_mode_transparency_roots(Ok(o->Roots_0)),
            Err(e) => lemma_mode_transparency_roots(Err(e)),
        }
    }
    if resp_shape(op) is MaybeText {
        match out {
            Ok(o) => lemma_mode_transparency_maybe_text(Ok(o->MaybeText_0)),
            Err(e) => lemma_mode_transparency_maybe_text(Err(e)),
        }
    }
}


} // verus!
