//! The response envelope codec.
//!
//! A handler's result reaches the caller in one of a few shapes: a unit
//! success becomes `{ok: true}`, a typed value is encoded directly, and an
//! already-structured value passes through unchanged.  Failures travel as an
//! opaque message either way.  The caller side decodes a forwarded reply back
//! into the typed form; the transparency lemmas state that this decoding
//! returns exactly what the handler produced.

use vstd::prelude::*;

use crate::catalog::Op;
use crate::value::{arr_view, lemma_arr_view_len, lemma_obj_view_len, obj_view, Jv, WireValue};

verus! {

broadcast use vstd::std_specs::vec::group_vec_axioms, vstd::seq::group_seq_axioms;

/// The response shape of an operation.
#[derive(Clone, Copy, PartialEq, Eq, Structural, Debug)]
pub enum RespShape {
    /// The handler returns no data; success is `{ok: true}`.
    Unit,
    /// The handler returns an already-structured value, passed through.
    Raw,
    /// The handler returns a list of strings.
    Roots,
    /// The handler returns an optional string.
    MaybeText,
    /// The handler returns a string.
    Text,
}

/// The response shape each operation uses.
pub open spec fn resp_shape(op: Op) -> RespShape {
    match op {
        Op::GetGitStatus => RespShape::Raw,
        Op::InitGitRepo => RespShape::Raw,
        Op::CreateGithubRepo => RespShape::Raw,
        Op::StageGitFile => RespShape::Unit,
        Op::StageGitAll => RespShape::Unit,
        Op::UnstageGitFile => RespShape::Unit,
        Op::RevertGitFile => RespShape::Unit,
        Op::RevertGitAll => RespShape::Unit,
        Op::CommitGit => RespShape::Unit,
        Op::PushGit => RespShape::Unit,
        Op::PullGit => RespShape::Unit,
        Op::FetchGit => RespShape::Unit,
        Op::SyncGit => RespShape::Unit,
        Op::ListGitRoots => RespShape::Roots,
        Op::GetGitDiffs => RespShape::Raw,
        Op::GetGitLog => RespShape::Raw,
        Op::GetGitCommitDiff => RespShape::Raw,
        Op::GetGitRemote => RespShape::MaybeText,
        Op::GetGithubIssues => RespShape::Raw,
        Op::GetGithubPullRequests => RespShape::Raw,
        Op::GetGithubPullRequestDiff => RespShape::Raw,
        Op::GetGithubPullRequestComments => RespShape::Raw,
        Op::CheckoutGithubPullRequest => RespShape::Unit,
        Op::ListGitBranches => RespShape::Raw,
        Op::CheckoutGitBranch => RespShape::Unit,
        Op::CreateGitBranch => RespShape::Unit,
        Op::GenerateCommitMessage => RespShape::Text,
    }
}

/// A successful handler outcome, in mathematical form.
pub enum OutView {
    Unit,
    Raw(Jv),
    Roots(Seq<Seq<char>>),
    MaybeText(Option<Seq<char>>),
    Text(Seq<char>),
}

/// Whether an outcome belongs to a response shape.
pub open spec fn out_shape_ok(s: RespShape, o: OutView) -> bool {
    match o {
        OutView::Unit => s is Unit,
        OutView::Raw(_) => s is Raw,
        OutView::Roots(_) => s is Roots,
        OutView::MaybeText(_) => s is MaybeText,
        OutView::Text(_) => s is Text,
    }
}

/// The unit success envelope `{ok: true}`.
pub open spec fn ok_unit_jv() -> Jv {
    Jv::Obj(seq![("ok"@, Jv::Bool(true))])
}

/// Element-wise string array.
pub open spec fn strings_jv(items: Seq<Seq<char>>) -> Jv {
    Jv::Arr(Seq::new(items.len(), |i: int| Jv::Str(items[i])))
}

/// What the daemon sends back for a handler result: failures pass through as
/// messages, successes are encoded by their shape.
pub open spec fn envelope_spec(res: Result<OutView, Seq<char>>) -> Result<Jv, Seq<char>> {
    match res {
        Err(e) => Err(e),
        Ok(o) => Ok(
            match o {
                OutView::Unit => ok_unit_jv(),
                OutView::Raw(v) => v,
                OutView::Roots(items) => strings_jv(items),
                OutView::MaybeText(t) => match t {
                    Option::Some(s) => Jv::Str(s),
                    Option::None => Jv::Null,
                },
                OutView::Text(s) => Jv::Str(s),
            },
        ),
    }
}

/// The mathematical value of an executable response.
pub open spec fn res_jv(r: Result<WireValue, String>) -> Result<Jv, Seq<char>> {
    match r {
        Ok(v) => Ok(v@),
        Err(e) => Err(e@),
    }
}

/// The outcome a unit handler result denotes.
pub open spec fn unit_outcome(res: Result<(), String>) -> Result<OutView, Seq<char>> {
    match res {
        Ok(_) => Ok(OutView::Unit),
        Err(e) => Err(e@),
    }
}

/// The outcome a pre-structured handler result denotes.
pub open spec fn raw_outcome(res: Result<WireValue, String>) -> Result<OutView, Seq<char>> {
    match res {
        Ok(v) => Ok(OutView::Raw(v@)),
        Err(e) => Err(e@),
    }
}

/// Element-wise view of a list of strings.
pub open spec fn strings_view(items: Seq<String>) -> Seq<Seq<char>> {
    Seq::new(items.len(), |i: int| items[i]@)
}

/// The outcome a string-list handler result denotes.
pub open spec fn roots_outcome(res: Result<Vec<String>, String>) -> Result<OutView, Seq<char>> {
    match res {
        Ok(v) => Ok(OutView::Roots(strings_view(v@))),
        Err(e) => Err(e@),
    }
}

/// The outcome an optional-string handler result denotes.
pub open spec fn maybe_text_outcome(res: Result<Option<String>, String>) -> Result<
    OutView,
    Seq<char>,
> {
    match res {
        Ok(t) => Ok(
            OutView::MaybeText(
                match t {
                    Option::Some(s) => Some(s@),
                    Option::None => None,
                },
            ),
        ),
        Err(e) => Err(e@),
    }
}

/// The outcome a string handler result denotes.
pub open spec fn text_outcome(res: Result<String, String>) -> Result<OutView, Seq<char>> {
    match res {
        Ok(s) => Ok(OutView::Text(s@)),
        Err(e) => Err(e@),
    }
}

/// Builds the `{ok: true}` envelope.
pub fn ok_unit_value() -> (r: WireValue)
    ensures
        r@ == ok_unit_jv(),
{
    let mut fields: Vec<(String, WireValue)> = Vec::new();
    fields.push((String::from_str("ok"), WireValue::Bool(true)));
    proof {
        lemma_obj_view_len(fields@);
        assert(obj_view(fields@) =~= seq![("ok"@, Jv::Bool(true))]);
    }
    WireValue::Obj(fields)
}

/// Wraps a unit handler result into the envelope.
pub fn envelope_unit(res: Result<(), String>) -> (r: Result<WireValue, String>)
    ensures
        res_jv(r) == envelope_spec(unit_outcome(res)),
{
    match res {
        Ok(_) => Ok(ok_unit_value()),
        Err(e) => Err(e),
    }
}

/// Passes an already-structured handler result through the envelope.
pub fn envelope_raw(res: Result<WireValue, String>) -> (r: Result<WireValue, String>)
    ensures
        res_jv(r) == envelope_spec(raw_outcome(res)),
{
    res
}

/// Encodes a string-list handler result.
pub fn envelope_roots(res: Result<Vec<String>, String>) -> (r: Result<WireValue, String>)
    ensures
        res_jv(r) == envelope_spec(roots_outcome(res)),
{
    match res {
        Err(e) => Err(e),
        Ok(items) => {
            let mut arr: Vec<WireValue> = Vec::new();
            let n = items.len();
            let mut i: usize = 0;
            while i < n
                invariant
                    n == items@.len(),
                    0 <= i <= n,
                    arr@.len() == i,
                    forall|j: int| 0 <= j < i ==> arr@[j] == WireValue::Str(items@[j]),
                decreases n - i,
            {
                arr.push(WireValue::Str(items[i].clone()));
                i = i + 1;
            }
            proof {
                lemma_arr_view_len(arr@);
                assert(arr_view(arr@) =~= Seq::new(items@.len(), |k: int| Jv::Str(items@[k]@)));
                assert(arr_view(arr@) =~= Seq::new(
                    strings_view(items@).len(),
                    |k: int| Jv::Str(strings_view(items@)[k]),
                ));
            }
            Ok(WireValue::Arr(arr))
        },
    }
}

/// Encodes an optional-string handler result.
pub fn envelope_maybe_text(res: Result<Option<String>, String>) -> (r: Result<WireValue, String>)
    ensures
        res_jv(r) == envelope_spec(maybe_text_outcome(res)),
{
    match res {
        Err(e) => Err(e),
        Ok(Option::Some(s)) => Ok(WireValue::Str(s)),
        Ok(Option::None) => Ok(WireValue::Null),
    }
}

/// Encodes a string handler result.
pub fn envelope_text(res: Result<String, String>) -> (r: Result<WireValue, String>)
    ensures
        res_jv(r) == envelope_spec(text_outcome(res)),
{
    match res {
        Err(e) => Err(e),
        Ok(s) => Ok(WireValue::Str(s)),
    }
}

/// The message for a forwarded reply that does not have the declared result
/// type.
pub open spec fn bad_reply_msg() -> Seq<char> {
    "invalid remote response"@
}

/// What the caller makes of a forwarded reply to a unit operation: any
/// successful reply counts as the unit success.
pub open spec fn client_unit_spec(reply: Result<Jv, Seq<char>>) -> Result<(), Seq<char>> {
    match reply {
        Ok(_) => Ok(()),
        Err(e) => Err(e),
    }
}

/// Reads a string array back out of a structured value.
pub open spec fn arr_strings(items: Seq<Jv>) -> Option<Seq<Seq<char>>>
    decreases items.len(),
{
    if items.len() == 0 {
        Some(Seq::empty())
    } else {
        match (arr_strings(items.drop_last()), items.last()) {
            (Option::Some(pre), Jv::Str(s)) => Some(pre.push(s)),
            _ => None,
        }
    }
}

/// What the caller makes of a forwarded reply to a string-list operation.
pub open spec fn client_roots_spec(reply: Result<Jv, Seq<char>>) -> Result<
    Seq<Seq<char>>,
    Seq<char>,
> {
    match reply {
        Err(e) => Err(e),
        Ok(v) => match v {
            Jv::Arr(items) => match arr_strings(items) {
                Option::Some(ss) => Ok(ss),
                Option::None => Err(bad_reply_msg()),
            },
            _ => Err(bad_reply_msg()),
        },
    }
}

/// What the caller makes of a forwarded reply to an optional-string
/// operation.
pub open spec fn client_maybe_text_spec(reply: Result<Jv, Seq<char>>) -> Result<
    Option<Seq<char>>,
    Seq<char>,
> {
    match reply {
        Err(e) => Err(e),
        Ok(v) => match v {
            Jv::Null => Ok(None),
            Jv::Str(s) => Ok(Some(s)),
            _ => Err(bad_reply_msg()),
        },
    }
}

fn bad_reply_err() -> (r: String)
    ensures
        r@ == bad_reply_msg(),
{
    String::from_str("invalid remote response")
}

/// Decodes a forwarded reply to a unit operation, as `client_unit_spec`
/// describes.
pub fn client_decode_unit(reply: Result<WireValue, String>) -> (r: Result<(), String>)
    ensures
        match r {
            Ok(_) => client_unit_spec(res_jv(reply)) == Ok::<(), Seq<char>>(()),
            Err(e) => client_unit_spec(res_jv(reply)) == Err::<(), Seq<char>>(e@),
        },
{
    match reply {
        Ok(_) => Ok(()),
        Err(e) => Err(e),
    }
}

/// Decodes a forwarded reply to a string-list operation, as
/// `client_roots_spec` describes.
pub fn client_decode_roots(reply: Result<WireValue, String>) -> (r: Result<Vec<String>, String>)
    ensures
        match r {
            Ok(v) => client_roots_spec(res_jv(reply)) == Ok::<Seq<Seq<char>>, Seq<char>>(
                strings_view(v@),
            ),
            Err(e) => client_roots_spec(res_jv(reply)) == Err::<Seq<Seq<char>>, Seq<char>>(e@),
        },
{
    let v = match reply {
        Ok(v) => v,
        Err(e) => {
            return Err(e);
        },
    };
    match v {
        WireValue::Arr(items) => {
            let ghost jitems = arr_view(items@);
            proof {
                lemma_arr_view_len(items@);
            }
            let mut out: Vec<String> = Vec::new();
            let n = items.len();
            let mut i: usize = 0;
            while i < n
                invariant
                    reply == Ok::<WireValue, String>(v),
                    v == WireValue::Arr(items),
                    jitems == arr_view(items@),
                    n == items@.len(),
                    jitems.len() == n,
                    forall|k: int| 0 <= k < n ==> jitems[k] == crate::value::wire_view(items@[k]),
                    0 <= i <= n,
                    out@.len() == i,
                    arr_strings(jitems.subrange(0, i as int)) == Some(strings_view(out@)),
                decreases n - i,
            {
                match &items[i] {
                    WireValue::Str(s) => {
                        out.push(s.clone());
                        proof {
                            let pre = jitems.subrange(0, i as int);
                            let cur = jitems.subrange(0, i as int + 1);
                            assert(cur.drop_last() =~= pre);
                            assert(cur.last() == jitems[i as int]);
                            assert(strings_view(out@) =~= strings_view(
                                out@.subrange(0, i as int),
                            ).push(out@[i as int]@));
                            assert(out@.subrange(0, i as int) =~= out@.drop_last());
                        }
                    },
                    _ => {
                        proof {
                            lemma_arr_strings_bad(jitems, i as int);
                        }
                        return Err(bad_reply_err());
                    },
                }
                i = i + 1;
            }
            proof {
                assert(jitems.subrange(0, n as int) =~= jitems);
            }
            Ok(out)
        },
        _ => Err(bad_reply_err()),
    }
}

proof fn lemma_arr_strings_bad(items: Seq<Jv>, k: int)
    requires
        0 <= k < items.len(),
        !(items[k] is Str),
    ensures
        arr_strings(items) is None,
    decreases items.len(),
{
    if k < items.len() - 1 {
        lemma_arr_strings_bad(items.drop_last(), k);
    }
}

/// Decodes a forwarded reply to an optional-string operation, as
/// `client_maybe_text_spec` describes.
pub fn client_decode_maybe_text(reply: Result<WireValue, String>) -> (r: Result<
    Option<String>,
    String,
>)
    ensures
        match r {
            Ok(t) => (match t {
                Some(s) => client_maybe_text_spec(res_jv(reply)) == Ok::<
                    Option<Seq<char>>,
                    Seq<char>,
                >(Some(s@)),
                None => client_maybe_text_spec(res_jv(reply)) == Ok::<
                    Option<Seq<char>>,
                    Seq<char>,
                >(None),
            }),
            Err(e) => client_maybe_text_spec(res_jv(reply)) == Err::<
                Option<Seq<char>>,
                Seq<char>,
            >(e@),
        },
{
    match reply {
        Err(e) => Err(e),
        Ok(WireValue::Null) => Ok(None),
        Ok(WireValue::Str(s)) => Ok(Some(s)),
        Ok(_) => Err(bad_reply_err()),
    }
}

/// Mode transparency for unit operations: decoding the daemon's envelope of
/// a unit handler result gives back exactly that result.
pub proof fn lemma_mode_transparency_unit(res: Result<OutView, Seq<char>>)
    requires
        res matches Ok(o) ==> o is Unit,
    ensures
        client_unit_spec(envelope_spec(res)) == (match res {
            Ok(_) => Ok::<(), Seq<char>>(()),
            Err(e) => Err(e),
        }),
{
}

/// Mode transparency for string-list operations.
pub proof fn lemma_mode_transparency_roots(res: Result<Seq<Seq<char>>, Seq<char>>)
    ensures
        client_roots_spec(
            envelope_spec(
                match res {
                    Ok(ss) => Ok(OutView::Roots(ss)),
                    Err(e) => Err(e),
                },
            ),
        ) == res,
{
    match res {
        Ok(ss) => {
            lemma_strings_round_trip(ss);
        },
        Err(_) => {},
    }
}

proof fn lemma_strings_round_trip(ss: Seq<Seq<char>>)
    ensures
        arr_strings(Seq::new(ss.len(), |i: int| Jv::Str(ss[i]))) == Some(ss),
    decreases ss.len(),
{
    let items = Seq::new(ss.len(), |i: int| Jv::Str(ss[i]));
    if ss.len() == 0 {
        assert(arr_strings(items) == Some(Seq::<Seq<char>>::empty()));
        assert(Seq::<Seq<char>>::empty() =~= ss);
    } else {
        lemma_strings_round_trip(ss.drop_last());
        assert(items.drop_last() =~= Seq::new(
            ss.drop_last().len(),
            |i: int| Jv::Str(ss.drop_last()[i]),
        ));
        assert(ss.drop_last().push(ss.last()) =~= ss);
    }
}

/// Mode transparency for optional-string operations.
pub proof fn lemma_mode_transparency_maybe_text(res: Result<Option<Seq<char>>, Seq<char>>)
    ensures
        client_maybe_text_spec(
            envelope_spec(
                match res {
                    Ok(t) => Ok(OutView::MaybeText(t)),
                    Err(e) => Err(e),
                },
            ),
        ) == res,
{
}

/// Mode transparency for pass-through operations: the forwarded value is
/// returned unchanged.
pub proof fn lemma_mode_transparency_raw(res: Result<Jv, Seq<char>>)
    ensures
        envelope_spec(
            match res {
                Ok(v) => Ok(OutView::Raw(v)),
                Err(e) => Err(e),
            },
        ) == res,
{
}

} // verus!
