//! The quote lifecycle coordinator: the decision logic of the five adapter
//! operations. Each operation that talks to the wallet is split into a
//! preparation step (validate the caller's options and fix what is handed to
//! the wallet) and a completion step (turn the wallet's answer into the
//! canonical response and record the correlation); the wallet call itself
//! happens between the two, outside this library.

use vstd::prelude::*;
use vstd::string::StringExecFns;
use vstd::utf8::encode_utf8;

use crate::errors::PaymentError;
use crate::identifier::fallback_identifier;
use crate::identifier::fallback_identifier_spec;
use crate::identifier::from_invoice;
use crate::identifier::invoice_payment_hash;
use crate::identifier::PaymentIdentifier;
use crate::store::record_incoming;
use crate::store::record_outgoing;
use crate::store::QuoteDatabase;

verus! {

/// The currency unit a caller tags an operation with. This adapter supports
/// exactly one currency; everything else is opaque.
#[derive(Clone, Copy, Debug, PartialEq, Eq, Structural)]
pub enum CurrencyUnit {
    /// Satoshis, the one supported unit.
    Sat,
    /// Any other unit.
    Other,
}

/// The canonical status of a quoted payment.
#[derive(Clone, Copy, Debug, PartialEq, Eq, Structural)]
pub enum QuoteState {
    /// Not paid (including a failed outgoing attempt).
    Unpaid,
    /// In flight.
    Pending,
    /// Settled.
    Paid,
}

/// The wallet's own status enumeration for an outgoing payment.
#[derive(Clone, Copy, Debug, PartialEq, Eq, Structural)]
pub enum WalletPaymentStatus {
    /// The wallet reports the payment settled.
    Completed,
    /// The wallet reports the payment failed.
    Failed,
    /// The wallet reports the payment in flight.
    Pending,
}

/// The fixed, total mapping from wallet status to canonical status.
pub open spec fn status_spec(s: WalletPaymentStatus) -> QuoteState {
    match s {
        WalletPaymentStatus::Completed => QuoteState::Paid,
        WalletPaymentStatus::Failed => QuoteState::Unpaid,
        WalletPaymentStatus::Pending => QuoteState::Pending,
    }
}

/// Translate a wallet status to the canonical status.
pub fn map_wallet_status(s: WalletPaymentStatus) -> (r: QuoteState)
    ensures
        r == status_spec(s),
{
    match s {
        WalletPaymentStatus::Completed => QuoteState::Paid,
        WalletPaymentStatus::Failed => QuoteState::Unpaid,
        WalletPaymentStatus::Pending => QuoteState::Pending,
    }
}

/// The status mapping is total and exact: each of the three wallet statuses
/// maps to exactly one canonical status, and nothing else maps there.
pub proof fn lemma_status_mapping_total(s: WalletPaymentStatus)
    ensures
        status_spec(s) is Paid <==> s is Completed,
        status_spec(s) is Unpaid <==> s is Failed,
        status_spec(s) is Pending <==> s is Pending,
{
}

/// Caller options for an incoming BOLT11 payment request.
pub struct Bolt11IncomingOptions {
    /// Description to embed in the invoice.
    pub description: Option<String>,
    /// Amount in satoshis; zero asks for an open-amount invoice.
    pub amount: u64,
}

/// Caller options for an incoming payment request.
pub enum IncomingOptions {
    /// The one supported style: a BOLT11 invoice.
    Bolt11(Bolt11IncomingOptions),
    /// Any other style.
    Other,
}

/// What is handed to the wallet to mint an invoice.
pub struct InvoiceParams {
    /// Invoice description.
    pub description: String,
    /// Requested amount, or None for an open-amount invoice.
    pub amount_sats: Option<u64>,
}

/// Validate incoming-request options and fix the invoice parameters: the
/// description defaults, a zero amount becomes an open-amount request, and
/// any style but BOLT11 is rejected.
pub fn prepare_incoming_request(options: &IncomingOptions) -> (r: Result<
    InvoiceParams,
    PaymentError,
>)
    ensures
        options matches IncomingOptions::Bolt11(opts) ==> r matches Ok(p) && {
            &&& opts.description matches Some(d) ==> p.description@ == d@
            &&& opts.description is None ==> p.description@ == "Payment"@
            &&& p.amount_sats == if opts.amount > 0 {
                Some(opts.amount)
            } else {
                None::<u64>
            }
        },
        options is Other ==> (r matches Err(e) && e is UnsupportedOption),
{
    match options {
        IncomingOptions::Bolt11(opts) => {
            let description = match &opts.description {
                Some(d) => d.clone(),
                None => String::from_str("Payment"),
            };
            let amount_sats = if opts.amount > 0 {
                Some(opts.amount)
            } else {
                None
            };
            Ok(InvoiceParams { description, amount_sats })
        },
        IncomingOptions::Other => Err(PaymentError::UnsupportedOption),
    }
}

/// The canonical answer to a create-incoming-request operation.
pub struct IncomingRequestOutcome {
    /// The canonical identifier: the invoice's payment hash.
    pub identifier: PaymentIdentifier,
    /// The invoice the wallet minted, as handed back to the caller.
    pub request: String,
    /// Invoice expiry; this adapter reports none.
    pub expiry: Option<u64>,
}

/// Complete a create-incoming-request operation once the wallet has minted
/// the invoice: derive the canonical identifier from the invoice and record
/// the incoming correlation durably before answering.
pub fn finish_incoming_request(db: &mut QuoteDatabase, payment_request: &str) -> (r: Result<
    IncomingRequestOutcome,
    PaymentError,
>)
    ensures
        r matches Ok(out) ==> {
            &&& invoice_payment_hash(payment_request@) matches Some(h) && out.identifier@ == h
                && final(db)@ == record_incoming(old(db)@, h, payment_request@)
            &&& out.request@ == payment_request@
            &&& out.expiry is None
        },
        r matches Err(e) ==> {
            &&& e is InvalidInvoice || e is StoreFailure
            &&& e is InvalidInvoice <==> invoice_payment_hash(payment_request@) is None
            &&& e is InvalidInvoice ==> final(db)@ == old(db)@
            &&& final(db)@ == old(db)@ || (invoice_payment_hash(payment_request@) matches Some(h)
                && final(db)@ == record_incoming(old(db)@, h, payment_request@))
        },
{
    let identifier = match from_invoice(payment_request) {
        Ok(id) => id,
        Err(e) => {
            return Err(e);
        },
    };
    match db.insert_mint_quote(identifier.as_bytes(), payment_request) {
        Ok(()) => Ok(
            IncomingRequestOutcome {
                identifier,
                request: String::from_str(payment_request),
                expiry: None,
            },
        ),
        Err(e) => Err(e),
    }
}

/// Caller options for an outgoing BOLT11 payment.
pub struct Bolt11OutgoingOptions {
    /// The invoice to pay, as text.
    pub bolt11: String,
}

/// Caller options for an outgoing payment.
pub enum OutgoingOptions {
    /// The one supported style: a BOLT11 invoice.
    Bolt11(Bolt11OutgoingOptions),
    /// Any other style.
    Other,
}

/// Validate outgoing-payment options: only a BOLT11 invoice is supported,
/// and the invoice text is what the wallet will be asked to prepare.
pub fn prepare_outgoing_payment(options: &OutgoingOptions) -> (r: Result<String, PaymentError>)
    ensures
        options matches OutgoingOptions::Bolt11(o) ==> r matches Ok(s) && s@ == o.bolt11@,
        options is Other ==> (r matches Err(e) && e is UnsupportedOption),
{
    match options {
        OutgoingOptions::Bolt11(o) => Ok(o.bolt11.clone()),
        OutgoingOptions::Other => Err(PaymentError::UnsupportedOption),
    }
}

/// The fee breakdown the wallet reports for a prepared send.
#[derive(Clone, Copy, Debug, PartialEq, Eq, Structural)]
pub enum PreparedSendFees {
    /// A prepared BOLT11 send: an optional transfer fee and a routing fee.
    Bolt11 {
        /// Transfer fee in satoshis, when the wallet reports one.
        spark_transfer_fee_sats: Option<u64>,
        /// Lightning routing fee in satoshis.
        lightning_fee_sats: u64,
    },
    /// Any other prepared payment method.
    Other,
}

/// The total fee of a prepared send: the transfer fee (zero when missing)
/// plus the routing fee; zero for other payment methods.
pub open spec fn total_fee_spec(f: PreparedSendFees) -> int {
    match f {
        PreparedSendFees::Bolt11 { spark_transfer_fee_sats, lightning_fee_sats } => (
        match spark_transfer_fee_sats {
            Some(t) => t as int,
            None => 0,
        }) + lightning_fee_sats,
        PreparedSendFees::Other => 0,
    }
}

/// Compute the total fee of a prepared send.
pub fn total_fee(fees: &PreparedSendFees) -> (r: u64)
    requires
        total_fee_spec(*fees) <= u64::MAX,
    ensures
        r == total_fee_spec(*fees),
{
    match fees {
        PreparedSendFees::Bolt11 { spark_transfer_fee_sats, lightning_fee_sats } => {
            let transfer = match spark_transfer_fee_sats {
                Some(t) => *t,
                None => 0,
            };
            transfer + *lightning_fee_sats
        },
        PreparedSendFees::Other => 0,
    }
}

/// The canonical answer to a quote-outgoing-payment operation.
pub struct PaymentQuoteOutcome {
    /// The canonical identifier: the invoice's payment hash.
    pub identifier: PaymentIdentifier,
    /// The amount the wallet reports for the prepared send, in minor units.
    pub amount: u64,
    /// The total fee for the prepared send.
    pub fee: u64,
    /// The unit the caller quoted in, echoed back.
    pub unit: CurrencyUnit,
    /// A fresh quote is always unpaid.
    pub state: QuoteState,
}

/// Complete a quote-outgoing-payment operation once the wallet has prepared
/// the send: total the fees, derive the canonical identifier from the
/// invoice, and record the outgoing correlation so a later status check can
/// find the same request.
pub fn finish_outgoing_quote(
    db: &mut QuoteDatabase,
    unit: CurrencyUnit,
    invoice: &str,
    amount: u64,
    fees: &PreparedSendFees,
) -> (r: Result<PaymentQuoteOutcome, PaymentError>)
    requires
        total_fee_spec(*fees) <= u64::MAX,
    ensures
        r matches Ok(out) ==> {
            &&& invoice_payment_hash(invoice@) matches Some(h) && out.identifier@ == h
                && final(db)@ == record_outgoing(old(db)@, h, invoice@)
            &&& out.amount == amount
            &&& out.fee == total_fee_spec(*fees)
            &&& out.unit == unit
            &&& out.state is Unpaid
        },
        r matches Err(e) ==> {
            &&& e is InvalidInvoice || e is StoreFailure
            &&& e is InvalidInvoice <==> invoice_payment_hash(invoice@) is None
            &&& e is InvalidInvoice ==> final(db)@ == old(db)@
            &&& final(db)@ == old(db)@ || (invoice_payment_hash(invoice@) matches Some(h)
                && final(db)@ == record_outgoing(old(db)@, h, invoice@))
        },
{
    let identifier = match from_invoice(invoice) {
        Ok(id) => id,
        Err(e) => {
            return Err(e);
        },
    };
    let fee = total_fee(fees);
    match db.insert_melt_quote(identifier.as_bytes(), invoice) {
        Ok(()) => Ok(
            PaymentQuoteOutcome { identifier, amount, fee, unit, state: QuoteState::Unpaid },
        ),
        Err(e) => Err(e),
    }
}

/// The canonical answer to an execute-outgoing-payment operation or to an
/// outgoing status check.
pub struct MakePaymentOutcome {
    /// The canonical identifier, derived from the invoice, independent of
    /// whatever identifier the wallet itself assigned.
    pub identifier: PaymentIdentifier,
    /// Wallet-reported amount plus wallet-reported fee.
    pub total_spent: u64,
    /// The one supported unit.
    pub unit: CurrencyUnit,
    /// The canonical status of the payment.
    pub state: QuoteState,
}

/// Complete an execute-outgoing-payment operation once the wallet has sent
/// the payment: total what was spent and derive the canonical identifier
/// from the invoice. Callers must uphold the unit contract: anything but the
/// supported currency is a caller bug, not a runtime condition.
pub fn finish_make_payment(unit: CurrencyUnit, invoice: &str, amount: u64, fees: u64) -> (r:
    Result<MakePaymentOutcome, PaymentError>)
    requires
        unit is Sat,
        amount + fees <= u64::MAX,
    ensures
        r matches Ok(out) ==> {
            &&& invoice_payment_hash(invoice@) matches Some(h) && out.identifier@ == h
            &&& out.total_spent == amount + fees
            &&& out.unit is Sat
            &&& out.state is Paid
        },
        r matches Err(e) ==> e is InvalidInvoice,
        r is Err <==> invoice_payment_hash(invoice@) is None,
{
    match from_invoice(invoice) {
        Ok(identifier) => Ok(
            MakePaymentOutcome {
                identifier,
                total_spent: amount + fees,
                unit: CurrencyUnit::Sat,
                state: QuoteState::Paid,
            },
        ),
        Err(e) => Err(e),
    }
}

/// Look up the persisted request for an incoming quote. Absence is a normal
/// outcome (no such quote yet), not an error; only store failures are hard
/// errors.
pub fn lookup_incoming_request(db: &QuoteDatabase, identifier: &PaymentIdentifier) -> (r: Result<
    Option<String>,
    PaymentError,
>)
    ensures
        r matches Ok(o) ==> {
            &&& o is Some <==> db@.incoming.contains_key(identifier@)
            &&& o matches Some(s) ==> s@ == db@.incoming[identifier@]
        },
        r matches Err(e) ==> e is StoreFailure,
{
    db.get_mint_quote(identifier.as_bytes())
}

/// A payment the wallet resolved for a status check.
pub struct WalletPaymentOutcome {
    /// The wallet's own payment id.
    pub payment_id: String,
    /// Wallet-reported amount in minor units.
    pub amount: u64,
    /// Wallet-reported fee in minor units.
    pub fees: u64,
}

/// One observed payment, as reported to the caller of a status check.
pub struct PaymentObservation {
    /// The wallet's own payment id.
    pub payment_id: String,
    /// The canonical identifier, derived by the fallback rule from the
    /// wallet's payment id (the status answer carries no hash field).
    pub identifier: PaymentIdentifier,
    /// Wallet-reported amount plus wallet-reported fee.
    pub amount: u64,
    /// The one supported unit.
    pub unit: CurrencyUnit,
}

/// Turn the wallet's answer to an incoming status check into the canonical
/// observation list: no payment yet gives an empty list (never an error), a
/// resolved payment gives exactly one observation whose identifier is
/// derived from the wallet payment id by the fallback rule.
pub fn incoming_observations(outcome: Option<&WalletPaymentOutcome>) -> (r: Vec<
    PaymentObservation,
>)
    requires
        outcome matches Some(p) ==> p.amount + p.fees <= u64::MAX,
    ensures
        outcome is None ==> r@.len() == 0,
        outcome matches Some(p) ==> r@.len() == 1 && {
            let ob = r@[0];
            &&& ob.payment_id@ == p.payment_id@
            &&& ob.identifier@ == fallback_identifier_spec(encode_utf8(p.payment_id@))
            &&& ob.amount == p.amount + p.fees
            &&& ob.unit is Sat
        },
{
    match outcome {
        None => Vec::new(),
        Some(p) => {
            let identifier = fallback_identifier(p.payment_id.as_str());
            let mut observations: Vec<PaymentObservation> = Vec::new();
            observations.push(
                PaymentObservation {
                    payment_id: p.payment_id.clone(),
                    identifier,
                    amount: p.amount + p.fees,
                    unit: CurrencyUnit::Sat,
                },
            );
            observations
        },
    }
}

/// Classify what an outgoing-correlation read found: a stored request is
/// handed on unchanged, and absence becomes `NotFound` — the one error this
/// classification can produce. Unlike the incoming path, absence is a hard
/// error: a caller checking an outgoing payment is expected to have a prior
/// quote on record.
pub fn classify_outgoing_lookup(found: Option<String>) -> (r: Result<String, PaymentError>)
    ensures
        found matches Some(s) ==> r matches Ok(t) && t == s,
        found is None ==> (r matches Err(e) && e is NotFound),
{
    match found {
        Some(s) => Ok(s),
        None => Err(PaymentError::NotFound),
    }
}

/// Look up the persisted request for an outgoing quote, classifying absence
/// as `NotFound`. `StoreFailure` is possible only when the store read
/// itself fails; what the read hands back is classified by
/// `classify_outgoing_lookup`, whose contract pins absence to `NotFound`.
pub fn lookup_outgoing_request(db: &QuoteDatabase, identifier: &PaymentIdentifier) -> (r: Result<
    String,
    PaymentError,
>)
    ensures
        r matches Ok(s) ==> db@.outgoing.contains_key(identifier@) && s@
            == db@.outgoing[identifier@],
        r matches Err(e) ==> {
            &&& e is NotFound || e is StoreFailure
            &&& e is NotFound ==> !db@.outgoing.contains_key(identifier@)
        },
{
    match db.get_melt_quote(identifier.as_bytes()) {
        Ok(found) => classify_outgoing_lookup(found),
        Err(e) => Err(e),
    }
}

/// One outgoing payment in the wallet's payment list.
pub struct OutgoingPaymentRecord {
    /// The invoice the payment paid, when the wallet knows one.
    pub invoice: Option<String>,
    /// The wallet's status for this payment.
    pub status: WalletPaymentStatus,
    /// Wallet-reported amount in minor units.
    pub amount: u64,
    /// Wallet-reported fee in minor units.
    pub fees: u64,
}

/// Whether a wallet payment record paid the given request string.
pub open spec fn record_matches(p: OutgoingPaymentRecord, request: Seq<char>) -> bool {
    p.invoice matches Some(s) && s@ == request
}

/// Whether a record's amount and fee can be totalled without overflow.
pub open spec fn sum_fits(p: OutgoingPaymentRecord) -> bool {
    p.amount + p.fees <= u64::MAX
}

/// Linear-scan the wallet's payment list for the first payment whose invoice
/// equals the persisted request string.
pub fn find_outgoing_payment(payments: &Vec<OutgoingPaymentRecord>, request: &String) -> (r:
    Option<usize>)
    ensures
        r matches Some(i) ==> i < payments@.len() && record_matches(payments@[i as int], request@)
            && forall|j: int| 0 <= j < i ==> !record_matches(payments@[j], request@),
        r is None ==> forall|j: int|
            0 <= j < payments@.len() ==> !record_matches(payments@[j], request@),
{
    let mut i: usize = 0;
    while i < payments.len()
        invariant
            i <= payments@.len(),
            forall|j: int| 0 <= j < i ==> !record_matches(payments@[j], request@),
        decreases payments@.len() - i,
    {
        let p = &payments[i];
        match &p.invoice {
            Some(s) => {
                if s.eq(request) {
                    return Some(i);
                }
            },
            None => {},
        }
        i = i + 1;
    }
    None
}

/// Complete an outgoing status check once the wallet has listed its outgoing
/// payments: find the first payment that paid the persisted request, map its
/// wallet status to the canonical status, and total what was spent. No match
/// is `NotFound`.
pub fn finish_check_outgoing(
    identifier: &PaymentIdentifier,
    payments: &Vec<OutgoingPaymentRecord>,
    request: &String,
) -> (r: Result<MakePaymentOutcome, PaymentError>)
    requires
        forall|j: int| 0 <= j < payments@.len() ==> sum_fits(#[trigger] payments@[j]),
    ensures
        r matches Ok(out) ==> exists|i: int|
            {
                &&& 0 <= i < payments@.len()
                &&& #[trigger] record_matches(payments@[i], request@)
                &&& forall|j: int| 0 <= j < i ==> !record_matches(payments@[j], request@)
                &&& out.state == status_spec(payments@[i].status)
                &&& out.total_spent == payments@[i].amount + payments@[i].fees
                &&& out.identifier@ == identifier@
                &&& out.unit is Sat
            },
        r matches Err(e) ==> e is NotFound && forall|j: int|
            0 <= j < payments@.len() ==> !record_matches(payments@[j], request@),
        r is Ok <==> exists|j: int|
            0 <= j < payments@.len() && #[trigger] record_matches(payments@[j], request@),
{
    match find_outgoing_payment(payments, request) {
        Some(i) => {
            let p = &payments[i];
            let out = MakePaymentOutcome {
                identifier: *identifier,
                total_spent: p.amount + p.fees,
                unit: CurrencyUnit::Sat,
                state: map_wallet_status(p.status),
            };
            assert(record_matches(payments@[i as int], request@));
            Ok(out)
        },
        None => Err(PaymentError::NotFound),
    }
}

} // verus!
