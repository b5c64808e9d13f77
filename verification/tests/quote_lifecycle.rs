//! Tests of the quote lifecycle coordinator: option validation, fee
//! totalling, status mapping, and the end-to-end incoming scenario.

use cdk_spark_payment_processor::errors::PaymentError;
use cdk_spark_payment_processor::events::PaymentNotification;
use cdk_spark_payment_processor::events::WalletEvent;
use cdk_spark_payment_processor::events::EventBridgeState;
use cdk_spark_payment_processor::events::translate_event;
use cdk_spark_payment_processor::identifier::PaymentIdentifier;
use cdk_spark_payment_processor::quotes::classify_outgoing_lookup;
use cdk_spark_payment_processor::quotes::find_outgoing_payment;
use cdk_spark_payment_processor::quotes::finish_check_outgoing;
use cdk_spark_payment_processor::quotes::finish_incoming_request;
use cdk_spark_payment_processor::quotes::finish_make_payment;
use cdk_spark_payment_processor::quotes::finish_outgoing_quote;
use cdk_spark_payment_processor::quotes::incoming_observations;
use cdk_spark_payment_processor::quotes::lookup_incoming_request;
use cdk_spark_payment_processor::quotes::lookup_outgoing_request;
use cdk_spark_payment_processor::quotes::map_wallet_status;
use cdk_spark_payment_processor::quotes::prepare_incoming_request;
use cdk_spark_payment_processor::quotes::prepare_outgoing_payment;
use cdk_spark_payment_processor::quotes::total_fee;
use cdk_spark_payment_processor::quotes::Bolt11IncomingOptions;
use cdk_spark_payment_processor::quotes::Bolt11OutgoingOptions;
use cdk_spark_payment_processor::quotes::CurrencyUnit;
use cdk_spark_payment_processor::quotes::IncomingOptions;
use cdk_spark_payment_processor::quotes::OutgoingOptions;
use cdk_spark_payment_processor::quotes::OutgoingPaymentRecord;
use cdk_spark_payment_processor::quotes::PreparedSendFees;
use cdk_spark_payment_processor::quotes::QuoteState;
use cdk_spark_payment_processor::quotes::WalletPaymentOutcome;
use cdk_spark_payment_processor::quotes::WalletPaymentStatus;
use cdk_spark_payment_processor::store::QuoteDatabase;

/// A BOLT11 invoice test vector; its payment hash is the byte
/// pattern spelled by `EXAMPLE_HASH_HEX`.
const EXAMPLE_INVOICE: &str = "lnbc100n1p5z3a63pp56854ytysg7e5z9fl3w5mgvrlqjfcytnjv8ff5hm5qt6gl6alxesqdqqcqzzsxqyz5vqsp5p0x0dlhn27s63j4emxnk26p7f94u0lyarnfp5yqmac9gzy4ngdss9qxpqysgqne3v0hnzt2lp0hc69xpzckk0cdcar7glvjhq60lsrfe8gejdm8c564prrnsft6ctxxyrewp4jtezrq3gxxqnfjj0f9tw2qs9y0lslmqpfu7et9";

const EXAMPLE_HASH_HEX: &str = "d1e9522c9047b341153f8ba9b4307f0493822e7261d29a5f7402f48febbf3660";

fn example_hash() -> [u8; 32] {
    let bytes = hex::decode(EXAMPLE_HASH_HEX).unwrap();
    let mut h = [0u8; 32];
    h.copy_from_slice(&bytes);
    h
}

#[test]
fn status_mapping_is_total_and_exact() {
    assert_eq!(map_wallet_status(WalletPaymentStatus::Completed), QuoteState::Paid);
    assert_eq!(map_wallet_status(WalletPaymentStatus::Failed), QuoteState::Unpaid);
    assert_eq!(map_wallet_status(WalletPaymentStatus::Pending), QuoteState::Pending);
}

#[test]
fn prepare_incoming_defaults_description_and_open_amount() {
    let open = prepare_incoming_request(&IncomingOptions::Bolt11(Bolt11IncomingOptions {
        description: None,
        amount: 0,
    }))
    .unwrap();
    assert_eq!(open.description, "Payment");
    assert_eq!(open.amount_sats, None);

    let fixed = prepare_incoming_request(&IncomingOptions::Bolt11(Bolt11IncomingOptions {
        description: Some("coffee".to_string()),
        amount: 1000,
    }))
    .unwrap();
    assert_eq!(fixed.description, "coffee");
    assert_eq!(fixed.amount_sats, Some(1000));
}

#[test]
fn unsupported_incoming_option_is_rejected() {
    let r = prepare_incoming_request(&IncomingOptions::Other);
    assert!(matches!(r, Err(PaymentError::UnsupportedOption)));
}

#[test]
fn unsupported_outgoing_option_is_rejected_without_store_mutation() {
    let r = prepare_outgoing_payment(&OutgoingOptions::Other);
    assert!(matches!(r, Err(PaymentError::UnsupportedOption)));

    let db = QuoteDatabase::new("/tmp/quote_lifecycle_unsupported.redb").unwrap();
    let id = PaymentIdentifier::from_bytes(example_hash());
    assert!(matches!(
        lookup_outgoing_request(&db, &id),
        Err(PaymentError::NotFound)
    ));
}

#[test]
fn prepare_outgoing_hands_back_the_invoice() {
    let r = prepare_outgoing_payment(&OutgoingOptions::Bolt11(Bolt11OutgoingOptions {
        bolt11: EXAMPLE_INVOICE.to_string(),
    }))
    .unwrap();
    assert_eq!(r, EXAMPLE_INVOICE);
}

#[test]
fn total_fee_sums_transfer_and_routing_fee() {
    let both = PreparedSendFees::Bolt11 {
        spark_transfer_fee_sats: Some(2),
        lightning_fee_sats: 3,
    };
    assert_eq!(total_fee(&both), 5);

    let missing_transfer = PreparedSendFees::Bolt11 {
        spark_transfer_fee_sats: None,
        lightning_fee_sats: 7,
    };
    assert_eq!(total_fee(&missing_transfer), 7);

    assert_eq!(total_fee(&PreparedSendFees::Other), 0);
}

#[test]
fn incoming_request_persists_correlation_and_checks_empty_before_payment() {
    let mut db = QuoteDatabase::new("/tmp/quote_lifecycle_incoming.redb").unwrap();
    let out = finish_incoming_request(&mut db, EXAMPLE_INVOICE).unwrap();
    assert_eq!(&out.identifier.as_bytes()[..], &example_hash()[..]);
    assert_eq!(out.request, EXAMPLE_INVOICE);
    assert_eq!(out.expiry, None);

    let stored = lookup_incoming_request(&db, &out.identifier).unwrap();
    assert_eq!(stored, Some(EXAMPLE_INVOICE.to_string()));

    let observations = incoming_observations(None);
    assert!(observations.is_empty());
}

#[test]
fn incoming_request_rejects_bad_invoice_without_store_mutation() {
    let mut db = QuoteDatabase::new("/tmp/quote_lifecycle_bad_invoice.redb").unwrap();
    let r = finish_incoming_request(&mut db, "garbage");
    assert!(matches!(r, Err(PaymentError::InvalidInvoice)));
}

#[test]
fn incoming_observation_uses_fallback_identifier_and_totals_amount() {
    let outcome = WalletPaymentOutcome {
        payment_id: "0123456789abcdef0123456789abcdef-rest".to_string(),
        amount: 900,
        fees: 100,
    };
    let observations = incoming_observations(Some(&outcome));
    assert_eq!(observations.len(), 1);
    let ob = &observations[0];
    assert_eq!(ob.payment_id, outcome.payment_id);
    assert_eq!(ob.amount, 1000);
    assert_eq!(ob.unit, CurrencyUnit::Sat);
    assert_eq!(&ob.identifier.as_bytes()[..], &outcome.payment_id.as_bytes()[..32]);
}

#[test]
fn outgoing_quote_persists_correlation_and_reports_fee() {
    let mut db = QuoteDatabase::new("/tmp/quote_lifecycle_outgoing.redb").unwrap();
    let fees = PreparedSendFees::Bolt11 {
        spark_transfer_fee_sats: Some(1),
        lightning_fee_sats: 2,
    };
    let quote =
        finish_outgoing_quote(&mut db, CurrencyUnit::Sat, EXAMPLE_INVOICE, 1000, &fees).unwrap();
    assert_eq!(&quote.identifier.as_bytes()[..], &example_hash()[..]);
    assert_eq!(quote.amount, 1000);
    assert_eq!(quote.fee, 3);
    assert_eq!(quote.unit, CurrencyUnit::Sat);
    assert_eq!(quote.state, QuoteState::Unpaid);

    let stored = lookup_outgoing_request(&db, &quote.identifier).unwrap();
    assert_eq!(stored, EXAMPLE_INVOICE);
}

#[test]
fn make_payment_totals_spent_and_reports_paid() {
    let out = finish_make_payment(CurrencyUnit::Sat, EXAMPLE_INVOICE, 1000, 3).unwrap();
    assert_eq!(&out.identifier.as_bytes()[..], &example_hash()[..]);
    assert_eq!(out.total_spent, 1003);
    assert_eq!(out.unit, CurrencyUnit::Sat);
    assert_eq!(out.state, QuoteState::Paid);
}

#[test]
fn outgoing_lookup_classification_pins_absence_to_not_found() {
    let hit = classify_outgoing_lookup(Some("lnbc1stored".to_string()));
    assert_eq!(hit.unwrap(), "lnbc1stored");

    let miss = classify_outgoing_lookup(None);
    assert!(matches!(miss, Err(PaymentError::NotFound)));
}

#[test]
fn check_outgoing_for_hash_never_quoted_is_not_found() {
    let db = QuoteDatabase::new("/tmp/quote_lifecycle_never_quoted.redb").unwrap();
    let id = PaymentIdentifier::from_bytes(example_hash());
    let r = lookup_outgoing_request(&db, &id);
    assert!(matches!(r, Err(PaymentError::NotFound)));
}

#[test]
fn find_outgoing_payment_returns_first_match() {
    let records = vec![
        OutgoingPaymentRecord {
            invoice: None,
            status: WalletPaymentStatus::Pending,
            amount: 1,
            fees: 0,
        },
        OutgoingPaymentRecord {
            invoice: Some("lnbc1target".to_string()),
            status: WalletPaymentStatus::Completed,
            amount: 2,
            fees: 1,
        },
        OutgoingPaymentRecord {
            invoice: Some("lnbc1target".to_string()),
            status: WalletPaymentStatus::Failed,
            amount: 3,
            fees: 0,
        },
    ];
    let found = find_outgoing_payment(&records, &"lnbc1target".to_string());
    assert_eq!(found, Some(1));
    assert_eq!(find_outgoing_payment(&records, &"lnbc1absent".to_string()), None);
}

#[test]
fn check_outgoing_maps_status_and_totals_spent() {
    let id = PaymentIdentifier::from_bytes(example_hash());
    let records = vec![OutgoingPaymentRecord {
        invoice: Some("lnbc1paid".to_string()),
        status: WalletPaymentStatus::Completed,
        amount: 500,
        fees: 2,
    }];
    let out = finish_check_outgoing(&id, &records, &"lnbc1paid".to_string()).unwrap();
    assert_eq!(out.state, QuoteState::Paid);
    assert_eq!(out.total_spent, 502);
    assert_eq!(&out.identifier.as_bytes()[..], &example_hash()[..]);

    let miss = finish_check_outgoing(&id, &records, &"lnbc1missing".to_string());
    assert!(matches!(miss, Err(PaymentError::NotFound)));
}

#[test]
fn successful_incoming_payment_scenario() {
    let mut db = QuoteDatabase::new("/tmp/quote_lifecycle_scenario.redb").unwrap();
    let created = finish_incoming_request(&mut db, EXAMPLE_INVOICE).unwrap();

    let stored = lookup_incoming_request(&db, &created.identifier).unwrap();
    assert_eq!(stored, Some(EXAMPLE_INVOICE.to_string()));

    let notification = PaymentNotification {
        payment_id: "wallet-payment-id".to_string(),
        payment_hash_hex: Some(EXAMPLE_HASH_HEX.to_string()),
        amount: 1000,
        fees: 0,
    };
    let event = translate_event(&WalletEvent::PaymentSucceeded(notification)).unwrap();
    assert_eq!(&event.identifier.as_bytes()[..], &created.identifier.as_bytes()[..]);
    assert_eq!(event.amount, 1000);
    assert_eq!(event.unit, CurrencyUnit::Sat);
    assert_eq!(event.payment_id, "wallet-payment-id");
}

#[test]
fn other_wallet_events_are_dropped() {
    assert!(translate_event(&WalletEvent::Other).is_none());
}

#[test]
fn bridge_state_reflects_latest_start_or_cancel() {
    let mut bridge = EventBridgeState::new();
    assert!(!bridge.is_active());
    bridge.start();
    assert!(bridge.is_active());
    bridge.cancel();
    assert!(!bridge.is_active());
}
