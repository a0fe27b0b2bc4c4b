//! Method dispatch decisions: classifying a declared method as view or call,
//! and materializing its arguments.  A view-kind method is routed to the
//! unsigned read-only path; only a call-kind method ever reaches the signing
//! submitter.  An unrecognized kind is reported and skipped, never fatal.

use vstd::prelude::*;
use rand::Rng;
use crate::numfmt::dec_digits;

verus! {

/// One declared parameter of a contract method: a display name, a logical
/// type tag, an optional literal example, and an optional upper bound for
/// synthesized numeric arguments.
pub struct ParamSpec {
    pub name: String,
    pub param_type: String,
    pub example: Option<String>,
    pub max: Option<u64>,
}

/// One declared contract method.
pub struct MethodSpec {
    pub name: String,
    pub label: String,
    pub params: Vec<ParamSpec>,
    pub method_type: String,
}

/// How a declared method is invoked.
pub enum MethodKind {
    /// Read-only: no signature, no nonce.
    View,
    /// State-changing: signed submission with nonce management.
    Call,
    /// Not recognized: reported and skipped.
    Unknown,
}

/// Classifies a method's declared type tag.  Exactly the tag "view" takes
/// the unsigned read-only path and exactly the tag "call" takes the signing
/// path; everything else is skipped.
pub fn classify(method_type: &String) -> (k: MethodKind)
    ensures
        k is View <==> method_type@ == "view"@,
        k is Call <==> method_type@ == "call"@,
        k is Unknown <==> method_type@ != "view"@ && method_type@ != "call"@,
{
    proof {
        reveal_strlit("view");
        reveal_strlit("call");
        assert("view"@[0] != "call"@[0]);
        assert("view"@ != "call"@);
    }
    let view_tag = String::from_str("view");
    let call_tag = String::from_str("call");
    if *method_type == view_tag {
        MethodKind::View
    } else if *method_type == call_tag {
        MethodKind::Call
    } else {
        MethodKind::Unknown
    }
}

/// A correctly materialized argument for `p`: the declared example verbatim
/// when there is one, otherwise the decimal text of a draw from 1 up to the
/// declared bound (or up to 100 with no bound).
pub open spec fn param_value_ok(p: ParamSpec, v: Seq<char>) -> bool {
    match p.example {
        Some(e) => v == e@,
        None => match p.max {
            Some(m) => exists|k: nat| 1 <= k <= m && v == dec_digits(k),
            None => exists|k: nat| 1 <= k <= 100 && v == dec_digits(k),
        },
    }
}

/// Relies on `rand::thread_rng` and `rand::Rng::gen_range` over an inclusive
/// non-empty range: the draw lies in the range; nothing else is assumed of
/// its value.
#[verifier::external_body]
fn draw_in_range(lo: u64, hi: u64) -> (r: u64)
    requires
        lo <= hi,
    ensures
        lo <= r <= hi,
{
    rand::thread_rng().gen_range(lo..=hi)
}

/// Materializes one argument per declared parameter, in declaration order.
/// A parameter with a declared bound must bound a non-empty range, as a draw
/// from an empty range has no value to take.
pub fn generate_params(params: &Vec<ParamSpec>) -> (r: Vec<String>)
    requires
        forall|i: int| 0 <= i < params@.len() ==> ((#[trigger] params@[i]).example is None
            && params@[i].max is Some ==> params@[i].max->0 >= 1),
    ensures
        r@.len() == params@.len(),
        forall|i: int| 0 <= i < r@.len() ==> param_value_ok(params@[i], (#[trigger] r@[i])@),
{
    let mut out: Vec<String> = Vec::new();
    let mut i: usize = 0;
    while i < params.len()
        invariant
            0 <= i <= params@.len(),
            out@.len() == i,
            forall|j: int| 0 <= j < i ==> param_value_ok(params@[j], (#[trigger] out@[j])@),
            forall|j: int| 0 <= j < params@.len() ==> ((#[trigger] params@[j]).example is None
                && params@[j].max is Some ==> params@[j].max->0 >= 1),
        decreases params@.len() - i,
    {
        let p = &params[i];
        let v: String = match &p.example {
            Some(e) => e.clone(),
            None => {
                let hi: u64 = match p.max {
                    Some(m) => m,
                    None => 100,
                };
                let k = draw_in_range(1, hi);
                let text = crate::numfmt::u64_to_string(k);
                proof {
                    assert(1 <= k as nat <= hi as nat && text@ == dec_digits(k as nat));
                }
                text
            },
        };
        out.push(v);
        i = i + 1;
    }
    out
}

} // verus!
