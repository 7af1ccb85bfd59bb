//! Identifiers of API entities.

use vstd::prelude::*;

verus! {

/// Unique Paddle ID for this address entity, prefixed with `add_`.
#[derive(Clone, Debug, PartialEq, Eq, PartialOrd, Ord, Hash)]
pub struct AddressID(pub String);

impl AsRef<str> for AddressID {
    fn as_ref(&self) -> &str {
        self.0.as_str()
    }
}

/// Unique Paddle ID for this customer entity, prefixed with `ctm_`.
#[derive(Clone, Debug, PartialEq, Eq, PartialOrd, Ord, Hash)]
pub struct CustomerID(pub String);

impl AsRef<str> for CustomerID {
    fn as_ref(&self) -> &str {
        self.0.as_str()
    }
}

/// Unique Paddle ID for this adjustment entity, prefixed with `adj_`.
#[derive(Clone, Debug, PartialEq, Eq, PartialOrd, Ord, Hash)]
pub struct AdjustmentID(pub String);

impl AsRef<str> for AdjustmentID {
    fn as_ref(&self) -> &str {
        self.0.as_str()
    }
}

/// Unique Paddle ID for this transaction entity, prefixed with `txn_`.
#[derive(Clone, Debug, PartialEq, Eq, PartialOrd, Ord, Hash)]
pub struct TransactionID(pub String);

impl AsRef<str> for TransactionID {
    fn as_ref(&self) -> &str {
        self.0.as_str()
    }
}

/// Unique Paddle ID for this subscription entity, prefixed with `sub_`.
#[derive(Clone, Debug, PartialEq, Eq, PartialOrd, Ord, Hash)]
pub struct SubscriptionID(pub String);

impl AsRef<str> for SubscriptionID {
    fn as_ref(&self) -> &str {
        self.0.as_str()
    }
}

/// Unique Paddle ID for this transaction item, prefixed with `txnitm_`. Used when working with [adjustments](https://developer.paddle.com/build/transactions/create-transaction-adjustments).
#[derive(Clone, Debug, PartialEq, Eq, PartialOrd, Ord, Hash)]
pub struct TransactionItemID(pub String);

impl AsRef<str> for TransactionItemID {
    fn as_ref(&self) -> &str {
        self.0.as_str()
    }
}

/// Unique Paddle ID for this adjustment item, prefixed with `adjitm_`.
#[derive(Clone, Debug, PartialEq, Eq, PartialOrd, Ord, Hash)]
pub struct AdjustmentItemID(pub String);

impl AsRef<str> for AdjustmentItemID {
    fn as_ref(&self) -> &str {
        self.0.as_str()
    }
}

/// Unique Paddle ID for this business entity, prefixed with `biz_`.
#[derive(Clone, Debug, PartialEq, Eq, PartialOrd, Ord, Hash)]
pub struct BusinessID(pub String);

impl AsRef<str> for BusinessID {
    fn as_ref(&self) -> &str {
        self.0.as_str()
    }
}

/// Unique Paddle ID for this payment method entity, prefixed with `paymtd_`.
#[derive(Clone, Debug, PartialEq, Eq, PartialOrd, Ord, Hash)]
pub struct PaymentMethodID(pub String);

impl AsRef<str> for PaymentMethodID {
    fn as_ref(&self) -> &str {
        self.0.as_str()
    }
}

/// Unique Paddle ID for this customer portal session entity, prefixed with `cpls_`.
#[derive(Clone, Debug, PartialEq, Eq, PartialOrd, Ord, Hash)]
pub struct CustomerPortalSessionID(pub String);

impl AsRef<str> for CustomerPortalSessionID {
    fn as_ref(&self) -> &str {
        self.0.as_str()
    }
}

/// Unique Paddle ID for this discount, prefixed with `dsc_`.
#[derive(Clone, Debug, PartialEq, Eq, PartialOrd, Ord, Hash)]
pub struct DiscountID(pub String);

impl AsRef<str> for DiscountID {
    fn as_ref(&self) -> &str {
        self.0.as_str()
    }
}

/// Unique code that customers can use to apply this discount at checkout. Use letters and numbers only, up to 16 characters. Not case-sensitive.
#[derive(Clone, Debug, PartialEq, Eq, PartialOrd, Ord, Hash)]
pub struct DiscountCode(pub String);

impl AsRef<str> for DiscountCode {
    fn as_ref(&self) -> &str {
        self.0.as_str()
    }
}

/// Unique Paddle ID for this event, prefixed with `evt_`.
#[derive(Clone, Debug, PartialEq, Eq, PartialOrd, Ord, Hash)]
pub struct EventID(pub String);

impl AsRef<str> for EventID {
    fn as_ref(&self) -> &str {
        self.0.as_str()
    }
}

/// Unique Paddle ID for this price, prefixed with `pri_`.
#[derive(Clone, Debug, PartialEq, Eq, PartialOrd, Ord, Hash)]
pub struct PriceID(pub String);

impl AsRef<str> for PriceID {
    fn as_ref(&self) -> &str {
        self.0.as_str()
    }
}

/// Unique Paddle ID for this product, prefixed with `pro_`.
#[derive(Clone, Debug, PartialEq, Eq, PartialOrd, Ord, Hash)]
pub struct ProductID(pub String);

impl AsRef<str> for ProductID {
    fn as_ref(&self) -> &str {
        self.0.as_str()
    }
}

/// Unique Paddle ID for API keys, prefixed with `apikey_`.
#[derive(Clone, Debug, PartialEq, Eq, PartialOrd, Ord, Hash)]
pub struct ApiKeyID(pub String);

impl AsRef<str> for ApiKeyID {
    fn as_ref(&self) -> &str {
        self.0.as_str()
    }
}

/// Unique Paddle ID for payouts, prefixed with `payout_`.
#[derive(Clone, Debug, PartialEq, Eq, PartialOrd, Ord, Hash)]
pub struct PayoutID(pub String);

impl AsRef<str> for PayoutID {
    fn as_ref(&self) -> &str {
        self.0.as_str()
    }
}

/// Unique Paddle ID for this notification, prefixed with `ntf_`.
#[derive(Clone, Debug, PartialEq, Eq, PartialOrd, Ord, Hash)]
pub struct NotificationID(pub String);

impl AsRef<str> for NotificationID {
    fn as_ref(&self) -> &str {
        self.0.as_str()
    }
}

/// Unique Paddle ID for this notification setting, prefixed with `ntfset_`.
#[derive(Clone, Debug, PartialEq, Eq, PartialOrd, Ord, Hash)]
pub struct NotificationSettingID(pub String);

impl AsRef<str> for NotificationSettingID {
    fn as_ref(&self) -> &str {
        self.0.as_str()
    }
}

/// Unique Paddle ID for this notification log, prefixed with `ntflog_`.
#[derive(Clone, Debug, PartialEq, Eq, PartialOrd, Ord, Hash)]
pub struct NotificationLogID(pub String);

impl AsRef<str> for NotificationLogID {
    fn as_ref(&self) -> &str {
        self.0.as_str()
    }
}

/// Webhook destination secret key, prefixed with `pdl_ntfset_`. Used for signature verification.
#[derive(Clone, Debug, PartialEq, Eq, PartialOrd, Ord, Hash)]
pub struct EndpointSecretKey(pub String);

impl AsRef<str> for EndpointSecretKey {
    fn as_ref(&self) -> &str {
        self.0.as_str()
    }
}

/// Just a Paddle ID. I've noticed this used in some places.
#[derive(Clone, Debug, PartialEq, Eq, PartialOrd, Ord, Hash)]
pub struct PaddleID(pub String);

impl AsRef<str> for PaddleID {
    fn as_ref(&self) -> &str {
        self.0.as_str()
    }
}

/// Unique Paddle ID for this simulation event, prefixed with `ntfsimevt_`.
#[derive(Clone, Debug, PartialEq, Eq, PartialOrd, Ord, Hash)]
pub struct SimulationEventID(pub String);

impl AsRef<str> for SimulationEventID {
    fn as_ref(&self) -> &str {
        self.0.as_str()
    }
}

/// Unique Paddle ID for this simulation run, prefixed with `ntfsimrun_`.
#[derive(Clone, Debug, PartialEq, Eq, PartialOrd, Ord, Hash)]
pub struct SimulationRunID(pub String);

impl AsRef<str> for SimulationRunID {
    fn as_ref(&self) -> &str {
        self.0.as_str()
    }
}

/// Unique Paddle ID for this simulation, prefixed with `ntfsim_`.
#[derive(Clone, Debug, PartialEq, Eq, PartialOrd, Ord, Hash)]
pub struct SimulationID(pub String);

impl AsRef<str> for SimulationID {
    fn as_ref(&self) -> &str {
        self.0.as_str()
    }
}

/// Paddle ID of the invoice that this transaction is related to, prefixed with `inv_`. Used for compatibility with the Paddle Invoice API, which is now deprecated. This field is scheduled to be removed in the next version of the Paddle API.
#[derive(Clone, Debug, PartialEq, Eq, PartialOrd, Ord, Hash)]
pub struct InvoiceId(pub String);

impl AsRef<str> for InvoiceId {
    fn as_ref(&self) -> &str {
        self.0.as_str()
    }
}

} // verus!
