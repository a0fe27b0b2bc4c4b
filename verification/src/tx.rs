//! The transaction value object and its canonical wire encoding.  The node
//! and this client must agree on the exact byte sequence that is signed, so
//! the field order and textual formatting below are part of the protocol:
//! the six fields in a fixed order, text fields quoted, nonce and timestamp
//! bare, no whitespace.

use vstd::prelude::*;
use crate::numfmt::{dec_digits, all_digits, is_digit_char, lemma_dec_digits_are_digits,
    lemma_dec_digits_injective};
use crate::seqtext::{free_of, lemma_cancel_prefix, lemma_cancel_suffix, lemma_split_at_sep};

verus! {

/// A state-changing contract call, fully materialized for one submission
/// attempt.  `amount` is a decimal string ("0" for plain contract calls),
/// `ou` is the fixed operation-unit fee tag, and `timestamp` is the textual
/// form of a fractional seconds-since-epoch reading.
pub struct Transaction {
    pub from: String,
    pub to: String,
    pub amount: String,
    pub nonce: u64,
    pub ou: String,
    pub timestamp: String,
}

/// A valid field set: no text field may contain a double quote, since quotes
/// delimit the text fields inside the canonical encoding.
pub open spec fn tx_wf(t: &Transaction) -> bool {
    &&& free_of(t.from@, '"')
    &&& free_of(t.to@, '"')
    &&& free_of(t.amount@, '"')
    &&& free_of(t.ou@, '"')
    &&& free_of(t.timestamp@, '"')
}

pub open spec fn lit_from() -> Seq<char> {
    seq!['{', '"', 'f', 'r', 'o', 'm', '"', ':', '"']
}

pub open spec fn lit_to() -> Seq<char> {
    seq!['"', ',', '"', 't', 'o', '_', '"', ':', '"']
}

pub open spec fn lit_amount() -> Seq<char> {
    seq!['"', ',', '"', 'a', 'm', 'o', 'u', 'n', 't', '"', ':', '"']
}

pub open spec fn lit_nonce() -> Seq<char> {
    seq!['"', ',', '"', 'n', 'o', 'n', 'c', 'e', '"', ':']
}

pub open spec fn lit_ou() -> Seq<char> {
    seq![',', '"', 'o', 'u', '"', ':', '"']
}

pub open spec fn lit_timestamp() -> Seq<char> {
    seq!['"', ',', '"', 't', 'i', 'm', 'e', 's', 't', 'a', 'm', 'p', '"', ':']
}

pub open spec fn lit_close() -> Seq<char> {
    seq!['}']
}

/// The canonical text of a transaction.  This single sequence is what gets
/// signed and what the node re-derives to check the signature.
pub open spec fn canon_spec(t: &Transaction) -> Seq<char> {
    lit_from() + (t.from@ + (lit_to() + (t.to@ + (lit_amount() + (t.amount@ + (lit_nonce() + (
    dec_digits(t.nonce as nat) + (lit_ou() + (t.ou@ + (lit_timestamp() + (t.timestamp@
        + lit_close())))))))))))
}

impl Transaction {
    /// Produces the canonical text.  Being a pure function of the fields,
    /// the output is byte-identical across calls on identical fields.
    pub fn canonicalize(&self) -> (r: String)
        ensures
            r@ == canon_spec(self),
    {
        let mut s = String::new();
        s.append("{\"from\":\"");
        s.append(self.from.as_str());
        s.append("\",\"to_\":\"");
        s.append(self.to.as_str());
        s.append("\",\"amount\":\"");
        s.append(self.amount.as_str());
        s.append("\",\"nonce\":");
        let n = crate::numfmt::u64_to_string(self.nonce);
        s.append(n.as_str());
        s.append(",\"ou\":\"");
        s.append(self.ou.as_str());
        s.append("\",\"timestamp\":");
        s.append(self.timestamp.as_str());
        s.append("}");
        proof {
            reveal_strlit("{\"from\":\"");
            reveal_strlit("\",\"to_\":\"");
            reveal_strlit("\",\"amount\":\"");
            reveal_strlit("\",\"nonce\":");
            reveal_strlit(",\"ou\":\"");
            reveal_strlit("\",\"timestamp\":");
            reveal_strlit("}");
            assert(("{\"from\":\"")@ =~= lit_from());
            assert(("\",\"to_\":\"")@ =~= lit_to());
            assert(("\",\"amount\":\"")@ =~= lit_amount());
            assert(("\",\"nonce\":")@ =~= lit_nonce());
            assert((",\"ou\":\"")@ =~= lit_ou());
            assert(("\",\"timestamp\":")@ =~= lit_timestamp());
            assert(("}")@ =~= lit_close());
            assert(s@ =~= canon_spec(self));
        }
        s
    }
}

/// Canonicalization is deterministic: transactions whose fields carry the
/// same text and the same nonce produce the same canonical text.
pub proof fn lemma_canonical_deterministic(a: &Transaction, b: &Transaction)
    requires
        a.from@ == b.from@,
        a.to@ == b.to@,
        a.amount@ == b.amount@,
        a.nonce == b.nonce,
        a.ou@ == b.ou@,
        a.timestamp@ == b.timestamp@,
    ensures
        canon_spec(a) == canon_spec(b),
{
}

/// Canonicalization is injective on valid field sets: equal canonical text
/// forces every field to agree, so changing any one field changes the output.
pub proof fn lemma_canonical_injective(a: &Transaction, b: &Transaction)
    requires
        tx_wf(a),
        tx_wf(b),
        canon_spec(a) == canon_spec(b),
    ensures
        a.from@ == b.from@,
        a.to@ == b.to@,
        a.amount@ == b.amount@,
        a.nonce == b.nonce,
        a.ou@ == b.ou@,
        a.timestamp@ == b.timestamp@,
{
    let ra1 = a.from@ + (lit_to() + (a.to@ + (lit_amount() + (a.amount@ + (lit_nonce() + (
    dec_digits(a.nonce as nat) + (lit_ou() + (a.ou@ + (lit_timestamp() + (a.timestamp@
        + lit_close()))))))))));
    let rb1 = b.from@ + (lit_to() + (b.to@ + (lit_amount() + (b.amount@ + (lit_nonce() + (
    dec_digits(b.nonce as nat) + (lit_ou() + (b.ou@ + (lit_timestamp() + (b.timestamp@
        + lit_close()))))))))));
    lemma_cancel_prefix(lit_from(), ra1, rb1);

    let ra2 = lit_to() + (a.to@ + (lit_amount() + (a.amount@ + (lit_nonce() + (dec_digits(
    a.nonce as nat) + (lit_ou() + (a.ou@ + (lit_timestamp() + (a.timestamp@ + lit_close())))))))));
    let rb2 = lit_to() + (b.to@ + (lit_amount() + (b.amount@ + (lit_nonce() + (dec_digits(
    b.nonce as nat) + (lit_ou() + (b.ou@ + (lit_timestamp() + (b.timestamp@ + lit_close())))))))));
    assert(ra2[0] == '"');
    assert(rb2[0] == '"');
    lemma_split_at_sep(a.from@, b.from@, ra2, rb2, '"');

    let ra3 = a.to@ + (lit_amount() + (a.amount@ + (lit_nonce() + (dec_digits(a.nonce as nat) + (
    lit_ou() + (a.ou@ + (lit_timestamp() + (a.timestamp@ + lit_close()))))))));
    let rb3 = b.to@ + (lit_amount() + (b.amount@ + (lit_nonce() + (dec_digits(b.nonce as nat) + (
    lit_ou() + (b.ou@ + (lit_timestamp() + (b.timestamp@ + lit_close()))))))));
    lemma_cancel_prefix(lit_to(), ra3, rb3);

    let ra4 = lit_amount() + (a.amount@ + (lit_nonce() + (dec_digits(a.nonce as nat) + (lit_ou()
        + (a.ou@ + (lit_timestamp() + (a.timestamp@ + lit_close())))))));
    let rb4 = lit_amount() + (b.amount@ + (lit_nonce() + (dec_digits(b.nonce as nat) + (lit_ou()
        + (b.ou@ + (lit_timestamp() + (b.timestamp@ + lit_close())))))));
    assert(ra4[0] == '"');
    assert(rb4[0] == '"');
    lemma_split_at_sep(a.to@, b.to@, ra4, rb4, '"');

    let ra5 = a.amount@ + (lit_nonce() + (dec_digits(a.nonce as nat) + (lit_ou() + (a.ou@ + (
    lit_timestamp() + (a.timestamp@ + lit_close()))))));
    let rb5 = b.amount@ + (lit_nonce() + (dec_digits(b.nonce as nat) + (lit_ou() + (b.ou@ + (
    lit_timestamp() + (b.timestamp@ + lit_close()))))));
    lemma_cancel_prefix(lit_amount(), ra5, rb5);

    let ra6 = lit_nonce() + (dec_digits(a.nonce as nat) + (lit_ou() + (a.ou@ + (lit_timestamp()
        + (a.timestamp@ + lit_close())))));
    let rb6 = lit_nonce() + (dec_digits(b.nonce as nat) + (lit_ou() + (b.ou@ + (lit_timestamp()
        + (b.timestamp@ + lit_close())))));
    assert(ra6[0] == '"');
    assert(rb6[0] == '"');
    lemma_split_at_sep(a.amount@, b.amount@, ra6, rb6, '"');

    let ra7 = dec_digits(a.nonce as nat) + (lit_ou() + (a.ou@ + (lit_timestamp() + (a.timestamp@
        + lit_close()))));
    let rb7 = dec_digits(b.nonce as nat) + (lit_ou() + (b.ou@ + (lit_timestamp() + (b.timestamp@
        + lit_close()))));
    lemma_cancel_prefix(lit_nonce(), ra7, rb7);

    let ra8 = lit_ou() + (a.ou@ + (lit_timestamp() + (a.timestamp@ + lit_close())));
    let rb8 = lit_ou() + (b.ou@ + (lit_timestamp() + (b.timestamp@ + lit_close())));
    lemma_dec_digits_are_digits(a.nonce as nat);
    lemma_dec_digits_are_digits(b.nonce as nat);
    assert(free_of(dec_digits(a.nonce as nat), ',')) by {
        assert(forall|i: int| 0 <= i < dec_digits(a.nonce as nat).len() ==> is_digit_char(
            #[trigger] dec_digits(a.nonce as nat)[i]));
    }
    assert(free_of(dec_digits(b.nonce as nat), ',')) by {
        assert(forall|i: int| 0 <= i < dec_digits(b.nonce as nat).len() ==> is_digit_char(
            #[trigger] dec_digits(b.nonce as nat)[i]));
    }
    assert(ra8[0] == ',');
    assert(rb8[0] == ',');
    lemma_split_at_sep(dec_digits(a.nonce as nat), dec_digits(b.nonce as nat), ra8, rb8, ',');
    lemma_dec_digits_injective(a.nonce as nat, b.nonce as nat);

    let ra9 = a.ou@ + (lit_timestamp() + (a.timestamp@ + lit_close()));
    let rb9 = b.ou@ + (lit_timestamp() + (b.timestamp@ + lit_close()));
    lemma_cancel_prefix(lit_ou(), ra9, rb9);

    let ra10 = lit_timestamp() + (a.timestamp@ + lit_close());
    let rb10 = lit_timestamp() + (b.timestamp@ + lit_close());
    assert(ra10[0] == '"');
    assert(rb10[0] == '"');
    lemma_split_at_sep(a.ou@, b.ou@, ra10, rb10, '"');

    lemma_cancel_prefix(lit_timestamp(), a.timestamp@ + lit_close(), b.timestamp@ + lit_close());
    lemma_cancel_suffix(a.timestamp@, b.timestamp@, lit_close());
}

} // verus!
