//! The payment event bridge: translation of wallet notifications into
//! canonical events, and the bridge's advisory activation state.

use vstd::prelude::*;
use vstd::utf8::encode_utf8;

use crate::identifier::from_notification;
use crate::identifier::notification_identifier_spec;
use crate::identifier::PaymentIdentifier;
use crate::quotes::CurrencyUnit;

verus! {

/// What the bridge reads from a wallet "payment succeeded" notification.
pub struct PaymentNotification {
    /// The wallet's own payment id.
    pub payment_id: String,
    /// The hex-encoded payment hash from the notification's Lightning
    /// details, when the notification carries one.
    pub payment_hash_hex: Option<String>,
    /// Wallet-reported amount in minor units.
    pub amount: u64,
    /// Wallet-reported fee in minor units.
    pub fees: u64,
}

/// A notification from the wallet's event stream, as the bridge sees it.
pub enum WalletEvent {
    /// A payment succeeded.
    PaymentSucceeded(PaymentNotification),
    /// Any other notification kind; the bridge drops these.
    Other,
}

/// The one canonical event the bridge emits.
pub struct PaymentReceivedEvent {
    /// The wallet's own payment id.
    pub payment_id: String,
    /// The canonical identifier: exact when the notification carried a
    /// decodable hash, else derived by the fallback rule.
    pub identifier: PaymentIdentifier,
    /// Wallet-reported amount plus wallet-reported fee.
    pub amount: u64,
    /// The one supported unit.
    pub unit: CurrencyUnit,
}

/// Translate one wallet notification: a succeeded payment becomes a
/// canonical payment-received event with a resolved identifier and the
/// amount totalled with the fee; every other notification kind is dropped.
pub fn translate_event(event: &WalletEvent) -> (r: Option<PaymentReceivedEvent>)
    requires
        event matches WalletEvent::PaymentSucceeded(n) ==> n.amount + n.fees <= u64::MAX,
    ensures
        event is Other ==> r is None,
        event matches WalletEvent::PaymentSucceeded(n) ==> (r matches Some(ev) && {
            &&& ev.payment_id@ == n.payment_id@
            &&& ev.identifier@ == notification_identifier_spec(
                n.payment_hash_hex.deep_view(),
                encode_utf8(n.payment_id@),
            )
            &&& ev.amount == n.amount + n.fees
            &&& ev.unit is Sat
        }),
{
    match event {
        WalletEvent::PaymentSucceeded(n) => {
            let resolved = from_notification(&n.payment_hash_hex, n.payment_id.as_str());
            Some(
                PaymentReceivedEvent {
                    payment_id: n.payment_id.clone(),
                    identifier: resolved.0,
                    amount: n.amount + n.fees,
                    unit: CurrencyUnit::Sat,
                },
            )
        },
        WalletEvent::Other => None,
    }
}

/// The bridge's activation state: `Inactive -> Active -> Inactive`, entered
/// when a caller starts waiting for payments and left on explicit
/// cancellation. The state is advisory: cancelling does not deregister the
/// underlying wallet listener.
pub struct EventBridgeState {
    active: bool,
}

impl EventBridgeState {
    /// Whether the bridge is active.
    pub closed spec fn spec_active(&self) -> bool {
        self.active
    }

    /// A fresh bridge is inactive.
    pub fn new() -> (r: Self)
        ensures
            !r.spec_active(),
    {
        EventBridgeState { active: false }
    }

    /// Enter the active state: the bridge is waiting for payments.
    pub fn start(&mut self)
        ensures
            final(self).spec_active(),
    {
        self.active = true;
    }

    /// Leave the active state.
    pub fn cancel(&mut self)
        ensures
            !final(self).spec_active(),
    {
        self.active = false;
    }

    /// Whether the bridge is active: reflects the latest start or cancel.
    pub fn is_active(&self) -> (r: bool)
        ensures
            r == self.spec_active(),
    {
        self.active
    }
}

} // verus!
