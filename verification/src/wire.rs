//! Request bodies for the node's two POST endpoints, framed as exact JSON
//! text.  Like the canonical transaction encoding, these are built from
//! quote-free field texts, so the quoting below is unambiguous.

use vstd::prelude::*;
use crate::numfmt::dec_digits;
use crate::tx::Transaction;

verus! {

/// The JSON text of a list of strings, each quoted, comma-separated.
pub open spec fn json_string_list(items: Seq<Seq<char>>) -> Seq<char>
    decreases items.len(),
{
    if items.len() == 0 {
        Seq::<char>::empty()
    } else {
        json_string_list(items.drop_last()) + (if items.len() == 1 {
            Seq::<char>::empty()
        } else {
            seq![',']
        }) + seq!['"'] + items.last() + seq!['"']
    }
}

/// The body of a call-view request.
pub open spec fn view_body_spec(
    contract: Seq<char>,
    method: Seq<char>,
    params: Seq<Seq<char>>,
    caller: Seq<char>,
) -> Seq<char> {
    "{\"contract\":\""@ + contract + "\",\"method\":\""@ + method + "\",\"params\":["@
        + json_string_list(params) + "],\"caller\":\""@ + caller + "\"}"@
}

/// The body of a call-contract request: the view fields plus the nonce, the
/// timestamp, and the transport encodings of signature and public key.
pub open spec fn call_body_spec(
    contract: Seq<char>,
    method: Seq<char>,
    params: Seq<Seq<char>>,
    tx: &Transaction,
    signature: Seq<char>,
    public_key: Seq<char>,
) -> Seq<char> {
    "{\"contract\":\""@ + contract + "\",\"method\":\""@ + method + "\",\"params\":["@
        + json_string_list(params) + "],\"caller\":\""@ + tx.from@ + "\",\"nonce\":"@ + dec_digits(
        tx.nonce as nat,
    ) + ",\"timestamp\":"@ + tx.timestamp@ + ",\"signature\":\""@ + signature
        + "\",\"public_key\":\""@ + public_key + "\"}"@
}

/// Builds the quoted, comma-separated JSON list of the parameter texts.
fn build_string_list(items: &Vec<String>) -> (r: String)
    ensures
        r@ == json_string_list(items@.map_values(|s: String| s@)),
{
    let ghost views = items@.map_values(|s: String| s@);
    let mut out = String::new();
    let mut i: usize = 0;
    while i < items.len()
        invariant
            0 <= i <= items@.len(),
            views == items@.map_values(|s: String| s@),
            out@ == json_string_list(views.take(i as int)),
        decreases items@.len() - i,
    {
        if i > 0 {
            out.append(",");
        }
        out.append("\"");
        out.append(items[i].as_str());
        out.append("\"");
        proof {
            reveal_strlit(",");
            reveal_strlit("\"");
            assert(views.take(i + 1).drop_last() =~= views.take(i as int));
            assert(views.take(i + 1).last() == views[i as int]);
            assert(out@ =~= json_string_list(views.take(i + 1)));
        }
        i = i + 1;
    }
    proof {
        assert(views.take(items@.len() as int) =~= views);
    }
    out
}

/// The exact text a call-view request carries.
pub fn view_call_body(contract: &str, method: &str, params: &Vec<String>, caller: &str) -> (r:
    String)
    ensures
        r@ == view_body_spec(
            contract@,
            method@,
            params@.map_values(|s: String| s@),
            caller@,
        ),
{
    let mut s = String::new();
    s.append("{\"contract\":\"");
    s.append(contract);
    s.append("\",\"method\":\"");
    s.append(method);
    s.append("\",\"params\":[");
    let list = build_string_list(params);
    s.append(list.as_str());
    s.append("],\"caller\":\"");
    s.append(caller);
    s.append("\"}");
    proof {
        assert(s@ =~= view_body_spec(
            contract@,
            method@,
            params@.map_values(|s: String| s@),
            caller@,
        ));
    }
    s
}

/// The exact text a call-contract request carries.  The caller field is the
/// transaction's own sender, so the signed fields and the enclosing request
/// cannot disagree.
pub fn call_contract_body(
    method: &str,
    params: &Vec<String>,
    tx: &Transaction,
    signature: &String,
    public_key: &String,
) -> (r: String)
    ensures
        r@ == call_body_spec(
            tx.to@,
            method@,
            params@.map_values(|s: String| s@),
            tx,
            signature@,
            public_key@,
        ),
{
    let mut s = String::new();
    s.append("{\"contract\":\"");
    s.append(tx.to.as_str());
    s.append("\",\"method\":\"");
    s.append(method);
    s.append("\",\"params\":[");
    let list = build_string_list(params);
    s.append(list.as_str());
    s.append("],\"caller\":\"");
    s.append(tx.from.as_str());
    s.append("\",\"nonce\":");
    let nonce_text = crate::numfmt::u64_to_string(tx.nonce);
    s.append(nonce_text.as_str());
    s.append(",\"timestamp\":");
    s.append(tx.timestamp.as_str());
    s.append(",\"signature\":\"");
    s.append(signature.as_str());
    s.append("\",\"public_key\":\"");
    s.append(public_key.as_str());
    s.append("\"}");
    proof {
        assert(s@ =~= call_body_spec(
            tx.to@,
            method@,
            params@.map_values(|s: String| s@),
            tx,
            signature@,
            public_key@,
        ));
    }
    s
}

} // verus!
