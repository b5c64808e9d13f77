//! Canonical payment identifiers and how they are derived.
//!
//! The calling protocol identifies every payment by the 32-byte BOLT11
//! payment hash. An identifier is derived either exactly, from a decoded
//! invoice, or best-effort, from a wallet notification whose hash field may
//! be missing or malformed.

use vstd::prelude::*;
use vstd::string::StringSliceAdditionalSpecFns;

use crate::errors::PaymentError;

verus! {

/// A canonical payment identifier: a 32-byte Lightning payment hash, or a
/// hash-shaped value derived from a wallet payment id when no hash is known.
#[derive(Clone, Copy)]
pub struct PaymentIdentifier {
    bytes: [u8; 32],
}

impl View for PaymentIdentifier {
    type V = Seq<u8>;

    closed spec fn view(&self) -> Seq<u8> {
        self.bytes@
    }
}

impl PaymentIdentifier {
    /// Wrap 32 raw bytes as an identifier.
    pub fn from_bytes(bytes: [u8; 32]) -> (r: Self)
        ensures
            r@ == bytes@,
    {
        PaymentIdentifier { bytes }
    }

    /// The 32 bytes of the identifier.
    pub fn as_bytes(&self) -> (r: &[u8; 32])
        ensures
            r@ == self@,
    {
        &self.bytes
    }
}

/// Whether `c` is an ASCII hexadecimal digit, in either case.
pub open spec fn is_hex_char(c: char) -> bool {
    ('0' <= c && c <= '9') || ('a' <= c && c <= 'f') || ('A' <= c && c <= 'F')
}

/// The numeric value of a hexadecimal digit.
pub open spec fn hex_char_value(c: char) -> int {
    if '0' <= c && c <= '9' {
        c as int - '0' as int
    } else if 'a' <= c && c <= 'f' {
        10 + c as int - 'a' as int
    } else if 'A' <= c && c <= 'F' {
        10 + c as int - 'A' as int
    } else {
        0
    }
}

/// Whether a string is well-formed hexadecimal: even length, hex digits only.
pub open spec fn hex_decodable(s: Seq<char>) -> bool {
    s.len() % 2 == 0 && forall|i: int| 0 <= i < s.len() ==> is_hex_char(#[trigger] s[i])
}

/// The byte spelled by the `i`-th pair of hexadecimal digits of `s`.
pub open spec fn hex_byte_at(s: Seq<char>, i: int) -> u8 {
    (hex_char_value(s[2 * i]) * 16 + hex_char_value(s[2 * i + 1])) as u8
}

/// The bytes spelled by a well-formed hexadecimal string.
pub open spec fn hex_decoded(s: Seq<char>) -> Seq<u8> {
    Seq::new((s.len() / 2) as nat, |i: int| hex_byte_at(s, i))
}

/// Relies on hex::decode: a string of hexadecimal digit pairs decodes to the
/// bytes those pairs spell; an odd length or a non-hex character is rejected.
/// hex::decode reads the UTF-8 bytes of the string; on a string whose
/// characters are all hex digits the bytes and the characters coincide, and
/// on any other string both views are rejected (a non-ASCII character
/// encodes to bytes that are not hex digits).
#[verifier::external_body]
fn hex_decode(s: &str) -> (r: Option<Vec<u8>>)
    ensures
        r is Some <==> hex_decodable(s@),
        r matches Some(v) ==> v@ == hex_decoded(s@),
{
    hex::decode(s).ok()
}

/// The payment hash carried by a BOLT11 invoice string, if the string parses
/// as one; what it is on a given string is decided by the invoice decoder.
pub uninterp spec fn invoice_payment_hash(s: Seq<char>) -> Option<Seq<u8>>;

/// Relies on cdk_common::Bolt11Invoice::from_str (BOLT11 parsing) and
/// Bolt11Invoice::payment_hash: the decoded hash is a function of the
/// invoice text alone, and parsing fails only on malformed invoices.
#[verifier::external_body]
fn decode_invoice_hash(invoice: &str) -> (r: Option<[u8; 32]>)
    ensures
        r matches Some(h) ==> invoice_payment_hash(invoice@) == Some(h@),
        r is None <==> invoice_payment_hash(invoice@) is None,
{
    match <cdk_common::Bolt11Invoice as std::str::FromStr>::from_str(invoice) {
        Ok(inv) => Some(cdk_common::bitcoin::hashes::Hash::to_byte_array(*inv.payment_hash())),
        Err(_) => None,
    }
}

/// The all-zero identifier value.
pub open spec fn zero_identifier() -> Seq<u8> {
    Seq::new(32, |i: int| 0u8)
}

/// The fallback identifier derived from a wallet payment-id string: its first
/// 32 bytes, or the all-zero value when it is shorter than 32 bytes.
pub open spec fn fallback_identifier_spec(id_bytes: Seq<u8>) -> Seq<u8> {
    if id_bytes.len() >= 32 {
        id_bytes.take(32)
    } else {
        zero_identifier()
    }
}

/// The exact identifier a notification's hash field yields, if it is
/// well-formed hexadecimal spelling exactly 32 bytes.
pub open spec fn exact_hash_from_hex(hex_field: Seq<char>) -> Option<Seq<u8>> {
    if hex_decodable(hex_field) && hex_decoded(hex_field).len() == 32 {
        Some(hex_decoded(hex_field))
    } else {
        None
    }
}

/// The identifier a notification yields: the exact hash when the hash field
/// holds one, else the fallback derived from the payment-id bytes.
pub open spec fn notification_identifier_spec(
    hash_hex: Option<Seq<char>>,
    id_bytes: Seq<u8>,
) -> Seq<u8> {
    match hash_hex {
        Some(hx) => match exact_hash_from_hex(hx) {
            Some(h) => h,
            None => fallback_identifier_spec(id_bytes),
        },
        None => fallback_identifier_spec(id_bytes),
    }
}

/// Copy a 32-byte vector into an array.
fn bytes_to_array(v: &Vec<u8>) -> (r: [u8; 32])
    requires
        v@.len() == 32,
    ensures
        r@ == v@,
{
    let mut out: [u8; 32] = [0u8; 32];
    let mut i: usize = 0;
    while i < 32
        invariant
            i <= 32,
            v@.len() == 32,
            forall|j: int| 0 <= j < i ==> out@[j] == v@[j],
        decreases 32 - i,
    {
        out[i] = v[i];
        i = i + 1;
    }
    assert(out@ =~= v@);
    out
}

/// Derive the fallback identifier from a wallet payment-id string.
pub fn fallback_identifier(payment_id: &str) -> (r: PaymentIdentifier)
    ensures
        r@ == fallback_identifier_spec(payment_id.spec_bytes()),
{
    let bytes: &[u8] = payment_id.as_bytes();
    let mut out: [u8; 32] = [0u8; 32];
    if bytes.len() >= 32 {
        let mut i: usize = 0;
        while i < 32
            invariant
                i <= 32,
                bytes@.len() >= 32,
                forall|j: int| 0 <= j < i ==> out@[j] == bytes@[j],
            decreases 32 - i,
        {
            out[i] = bytes[i];
            i = i + 1;
        }
        assert(out@ =~= bytes@.take(32));
    } else {
        assert(out@ =~= zero_identifier());
    }
    PaymentIdentifier::from_bytes(out)
}

/// Derive the canonical identifier from an invoice string: the decoded
/// payment hash, or `InvalidInvoice` when the invoice does not parse.
pub fn from_invoice(invoice: &str) -> (r: Result<PaymentIdentifier, PaymentError>)
    ensures
        r matches Ok(id) ==> invoice_payment_hash(invoice@) matches Some(h) && id@ == h,
        r matches Err(e) ==> e is InvalidInvoice,
        r is Err <==> invoice_payment_hash(invoice@) is None,
{
    match decode_invoice_hash(invoice) {
        Some(h) => Ok(PaymentIdentifier::from_bytes(h)),
        None => Err(PaymentError::InvalidInvoice),
    }
}

/// Derive a canonical identifier from a wallet notification: exactly from its
/// hash field when that field holds 32 hex-spelled bytes, else best-effort
/// from the payment-id string. The second component reports which path was
/// taken; this derivation never fails.
pub fn from_notification(payment_hash_hex: &Option<String>, payment_id: &str) -> (r: (
    PaymentIdentifier,
    bool,
))
    ensures
        payment_hash_hex matches Some(hx) ==> {
            &&& exact_hash_from_hex(hx@) matches Some(h) ==> r.0@ == h && r.1 == true
            &&& exact_hash_from_hex(hx@) is None ==> r.0@ == fallback_identifier_spec(
                payment_id.spec_bytes(),
            ) && r.1 == false
        },
        payment_hash_hex is None ==> r.0@ == fallback_identifier_spec(payment_id.spec_bytes())
            && r.1 == false,
        r.0@ == notification_identifier_spec(payment_hash_hex.deep_view(), payment_id.spec_bytes()),
{
    match payment_hash_hex {
        Some(hx) => match hex_decode(hx.as_str()) {
            Some(bytes) => if bytes.len() == 32 {
                assert(exact_hash_from_hex(hx@) == Some(bytes@));
                (PaymentIdentifier::from_bytes(bytes_to_array(&bytes)), true)
            } else {
                assert(exact_hash_from_hex(hx@) is None);
                (fallback_identifier(payment_id), false)
            },
            None => {
                assert(exact_hash_from_hex(hx@) is None);
                (fallback_identifier(payment_id), false)
            },
        },
        None => (fallback_identifier(payment_id), false),
    }
}

/// The fallback derivation is deterministic: it is a function of the
/// payment-id bytes alone, taking their first 32 bytes when at least 32 are
/// present and the all-zero value otherwise.
pub proof fn lemma_fallback_identifier_determinism(id_bytes: Seq<u8>)
    ensures
        id_bytes.len() >= 32 ==> fallback_identifier_spec(id_bytes) == id_bytes.take(32),
        id_bytes.len() < 32 ==> fallback_identifier_spec(id_bytes) == zero_identifier(),
        fallback_identifier_spec(id_bytes).len() == 32,
{
}

} // verus!
