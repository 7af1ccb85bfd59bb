//! Entity types of the API.

use std::collections::HashMap;

use vstd::prelude::*;

use crate::enums::{
    AdjustmentItemType, CardType, CountryCodeSupported, CurrencyCode, CurrencyCodeChargebacks,
    CurrencyCodePayouts, EffectiveFrom, EventData, EventTypeName, Interval,
    NotificationSettingType, PaymentMethodType, PayoutStatus, SimulationKind,
    SimulationRunStatus, SimulationScenarioType, Status, TrafficSource,
    UpdateSummaryResultAction,
};
use crate::ids::{
    CustomerID, DiscountID, EndpointSecretKey, EventID, NotificationID, NotificationLogID,
    NotificationSettingID, PayoutID, PriceID, SimulationRunID, SubscriptionID,
    TransactionItemID,
};

verus! {

/// Import information for this entity. `null` if this entity is not imported.
#[derive(Clone, Debug)]
pub struct ImportMeta {
    /// Reference or identifier for this entity from the solution where it was imported from.
    pub external_id: Option<String>,
    /// Name of the platform where this entity was imported from.
    pub imported_from: String,
}

/// Represents an address entity when previewing addresses.
#[derive(Clone, Debug)]
pub struct AddressPreview {
    /// ZIP or postal code of this address. Include for more accurate tax calculations.
    pub postal_code: Option<String>,
    /// Supported two-letter ISO 3166-1 alpha-2 country code.
    pub country_code: CountryCodeSupported,
}

/// Breakdown of the total for an adjustment.
#[derive(Clone, Debug)]
pub struct AdjustmentTotals {
    /// Total before tax. For tax adjustments, the value is 0.
    pub subtotal: String,
    /// Total tax on the subtotal.
    pub tax: String,
    /// Total after tax.
    pub total: String,
    /// Total fee taken by Paddle for this adjustment.
    pub fee: String,
    /// Total earnings. This is the subtotal minus the Paddle fee.
    /// For tax adjustments, this value is negative, which means a positive effect in the transaction earnings.
    /// This is because the fee is originally calculated from the transaction total, so if a tax adjustment is made,
    /// then the fee portion of it is returned.
    pub earnings: String,
    /// Supported three-letter ISO 4217 currency code.
    pub currency_code: CurrencyCode,
}

/// Chargeback fee before conversion to the payout currency. `null` when the chargeback fee is the same as the payout currency.
#[derive(Clone, Debug)]
pub struct Original {
    /// Fee amount for this chargeback in the original currency.
    pub amount: String,
    /// Three-letter ISO 4217 currency code for chargeback fees.
    pub currency_code: CurrencyCodeChargebacks,
}

/// Chargeback fees incurred for this adjustment. Only returned when the adjustment `action` is `chargeback` or `chargeback_warning`.
#[derive(Clone, Debug)]
pub struct ChargebackFee {
    /// Chargeback fee converted into the payout currency.
    pub amount: String,
    /// Chargeback fee before conversion to the payout currency. `null` when the chargeback fee is the same as the payout currency.
    pub original: Option<Original>,
}

/// Breakdown of how this adjustment affects your payout balance.
#[derive(Clone, Debug)]
pub struct AdjustmentPayoutTotals {
    /// Adjustment total before tax and fees.
    pub subtotal: String,
    /// Total tax on the adjustment subtotal.
    pub tax: String,
    /// Adjustment total after tax.
    pub total: String,
    /// Adjusted Paddle fee.
    pub fee: String,
    /// Chargeback fees incurred for this adjustment. Only returned when the adjustment `action` is `chargeback` or `chargeback_warning`.
    pub chargeback_fee: Option<ChargebackFee>,
    /// Adjusted payout earnings. This is the adjustment total plus adjusted Paddle fees, excluding chargeback fees.
    pub earnings: String,
    /// Supported three-letter ISO 4217 currency code for payouts from Paddle.
    pub currency_code: CurrencyCodePayouts,
}

/// Calculated totals for the tax applied to this adjustment.
#[derive(Clone, Debug)]
pub struct AdjustmentTaxRateUsedTotals {
    /// Total before tax. For tax adjustments, the value is 0.
    pub subtotal: String,
    /// Total tax on the subtotal.
    pub tax: String,
    /// Total after tax.
    pub total: String,
}

#[derive(Clone, Debug)]
pub struct AdjustmentTaxRateUsed {
    /// Rate used to calculate tax for this adjustment.
    pub tax_rate: String,
    /// Calculated totals for the tax applied to this adjustment.
    pub totals: AdjustmentTaxRateUsedTotals,
}

/// Breakdown of the total for an adjustment item.
#[derive(Clone, Debug)]
pub struct AdjustmentItemTotals {
    /// Amount multiplied by quantity.
    pub subtotal: String,
    /// Total tax on the subtotal.
    pub tax: String,
    /// Total after tax.
    pub total: String,
}

#[derive(Clone, Debug)]
pub struct AdjustmentItemInput {
    /// Unique Paddle ID for this transaction item, prefixed with `txnitm_`. Used when working with [adjustments](https://developer.paddle.com/build/transactions/create-transaction-adjustments).
    pub item_id: TransactionItemID,
    /// Type of adjustment for this transaction item. `tax` adjustments are automatically created by Paddle.
    /// Include `amount` when creating a `partial` adjustment.
    pub type_: AdjustmentItemType,
    /// Amount adjusted for this transaction item. Required when item type is `partial`.
    pub amount: Option<String>,
}

#[derive(Clone, Debug)]
pub struct Duration {
    /// Unit of time.
    pub interval: Interval,
    /// Amount of time.
    pub frequency: u64,
}

/// Details for invoicing. Required if `collection_mode` is `manual`.
#[derive(Clone, Debug)]
pub struct BillingDetails {
    /// Whether the related transaction may be paid using Paddle Checkout. If omitted when creating a transaction, defaults to `false`.
    pub enable_checkout: bool,
    /// Customer purchase order number. Appears on invoice documents.
    pub purchase_order_number: String,
    /// Notes or other information to include on this invoice. Appears on invoice documents.
    pub additional_information: Option<String>,
    pub payment_terms: Duration,
}

/// Details for invoicing. Required if `collection_mode` is `manual`.
#[derive(Clone, Debug)]
pub struct BillingDetailsUpdate {
    /// Whether the related transaction may be paid using Paddle Checkout.
    pub enable_checkout: bool,
    /// Customer purchase order number. Appears on invoice documents.
    pub purchase_order_number: String,
    /// Notes or other information to include on this invoice. Appears on invoice documents.
    pub additional_information: Option<String>,
    pub payment_terms: Duration,
}

#[derive(Clone, Debug)]
pub struct Contact {
    /// Full name.
    pub name: String,
    /// Email address for this entity.
    pub email: String,
}

/// Card metadata
#[derive(Clone, Debug)]
pub struct Card {
    /// Type of credit or debit card used to pay.
    pub type_: CardType,
    /// Last four digits of the card used to pay.
    pub last4: String,
    /// Month of the expiry date of the card used to pay.
    pub expiry_month: i64,
    /// Year of the expiry date of the card used to pay.
    pub expiry_year: i64,
    /// The name on the card used to pay.
    pub cardholder_name: String,
}

#[derive(Clone, Debug)]
pub struct CustomerBalance {
    /// Total amount of credit available to use.
    pub available: String,
    /// Total amount of credit temporarily reserved for `billed` transactions.
    pub reserved: String,
    /// Total amount of credit used.
    pub used: String,
}

/// Represents a credit balance for a customer.
#[derive(Clone, Debug)]
pub struct CreditBalance {
    /// Unique Paddle ID for this customer entity, prefixed with `ctm_`.
    pub customer_id: CustomerID,
    /// Supported three-letter ISO 4217 currency code.
    pub currency_code: CurrencyCode,
    pub balance: CustomerBalance,
}

/// PayPal metadata
#[derive(Clone, Debug)]
pub struct PayPal {
    /// Email address associated with the PayPal account.
    pub email: String,
    /// PayPal payment method identifier.
    pub reference: String,
}

/// Authenticated customer portal deep links that aren't associated with a specific entity.
#[derive(Clone, Debug)]
pub struct CustomerPortalSessionGeneralUrls {
    /// Link to the overview page in the customer portal.
    pub overview: String,
}

#[derive(Clone, Debug)]
pub struct CustomerPortalSessionSubscriptionUrls {
    /// Unique Paddle ID for this subscription entity, prefixed with `sub_`.
    pub id: SubscriptionID,
    /// Link to the page for this subscription in the customer portal with the subscription cancellation form pre-opened. Use as part of cancel subscription workflows.
    pub cancel_subscription: String,
    /// Link to the page for this subscription in the customer portal with the payment method update form pre-opened. Use as part of workflows to let customers update their payment details.
    ///
    /// If a manually-collected subscription, opens the overview page for this subscription.
    pub update_subscription_payment_method: String,
}

/// Authenticated customer portal deep links. For security, the `token` appended to each link is temporary. You shouldn't store these links.
#[derive(Clone, Debug)]
pub struct CustomerPortalSessionUrls {
    /// Authenticated customer portal deep links that aren't associated with a specific entity.
    pub general: CustomerPortalSessionGeneralUrls,
    /// List of generated authenticated customer portal deep links for the subscriptions passed in the `subscription_ids` array in the request.
    ///
    /// If subscriptions are paused or canceled, links open the overview page for a subscription.
    ///
    /// Empty if no subscriptions passed in the request.
    pub subscriptions: Vec<CustomerPortalSessionSubscriptionUrls>,
}

#[derive(Clone, Debug)]
pub struct Errors {
    /// Field where validation error occurred.
    pub field: String,
    /// Information about how the field failed validation.
    pub message: String,
}

/// Information about this response.
#[derive(Clone, Debug)]
pub struct Meta {
    /// Unique ID for the request relating to this response. Provide this when contacting Paddle support about a specific request.
    pub request_id: String,
}

/// Represents an event type.
#[derive(Clone, Debug)]
pub struct EventType {
    /// Type of event sent by Paddle, in the format `entity.event_type`.
    pub name: String, // EventTypeName,
    /// Short description of this event type.
    pub description: String,
    /// Group for this event type. Typically the entity that this event relates to.
    pub group: String,
    /// List of API versions that this event type supports.
    pub available_versions: Vec<u64>,
}

/// A base representation of monetary value unformatted in the lowest denomination with currency code.
#[derive(Clone, Debug)]
pub struct Money {
    /// Amount in the lowest denomination for the currency, e.g. 10 USD = 1000 (cents). Although represented as a string, this value must be a valid integer.
    pub amount: String,
    /// Supported three-letter ISO 4217 currency code.
    pub currency_code: CurrencyCode,
}

#[derive(Clone, Debug)]
pub struct UnitPriceOverride {
    /// Supported two-letter ISO 3166-1 alpha-2 country code. Customers located in the listed countries are charged the override price.
    pub country_codes: Vec<CountryCodeSupported>,
    /// A base representation of monetary value unformatted in the lowest denomination with currency code.
    pub unit_price: Money,
}

#[derive(Clone, Debug)]
pub struct PriceQuantity {
    /// Minimum quantity of the product related to this price that can be bought. Required if `maximum` set.
    pub minimum: u64,
    /// Maximum quantity of the product related to this price that can be bought. Required if `minimum` set. Must be greater than or equal to the `minimum` value.
    pub maximum: u64,
}

/// Keys used for working with paginated results.
#[derive(Clone, Debug)]
pub struct Pagination {
    /// Number of entities per page for this response. May differ from the number requested if the requested number is greater than the maximum.
    pub per_page: i64,
    /// URL containing the query parameters of the original request, along with the `after` parameter that marks the starting point of the next page. Always returned, even if `has_more` is `false`.
    pub next: String,
    /// Whether this response has another page.
    pub has_more: bool,
    /// Estimated number of entities for this response.
    pub estimated_total: i64,
}

/// Information about this response.
#[derive(Clone, Debug)]
pub struct MetaPaginated {
    /// Unique ID for the request relating to this response. Provide this when contacting Paddle support about a specific request.
    pub request_id: String,
    /// Keys used for working with paginated results.
    pub pagination: Pagination,
}

/// Information about the payment method used for a payment attempt.
#[derive(Clone, Debug)]
pub struct MethodDetails {
    /// Type of payment method used for this payment attempt.
    pub type_: PaymentMethodType,
    /// Information about the credit or debit card used to pay. `null` unless `type` is `card`.
    pub card: Option<Card>,
}

/// Notification payload. Includes the new or changed event.
#[derive(Clone, Debug)]
pub struct NotificationPayload {
    /// Unique Paddle ID for this notification, prefixed with `ntf_`.
    pub notification_id: NotificationID,
    /// Unique Paddle ID for this event, prefixed with `evt_`.
    pub event_id: EventID,
    /// Type of event sent by Paddle, in the format `entity.event_type`.
    pub event_type: EventTypeName,
    /// RFC 3339 datetime string.
    pub occurred_at: String,
    /// New or changed entity.
    pub data: HashMap<String, String>,
}

/// Represents a notification log entity.
#[derive(Clone, Debug)]
pub struct NotificationLog {
    /// Unique Paddle ID for this notification log, prefixed with `ntflog_`.
    pub id: NotificationLogID,
    /// HTTP code sent by the responding server.
    pub response_code: i64,
    /// Content-Type sent by the responding server.
    pub response_content_type: Option<String>,
    /// Response body sent by the responding server. Typically empty for success responses.
    pub response_body: String,
    /// RFC 3339 datetime string.
    pub attempted_at: String,
}

/// Represents a notification destination.
#[derive(Clone, Debug)]
pub struct NotificationSetting {
    /// Unique Paddle ID for this notification setting, prefixed with `ntfset_`.
    pub id: NotificationSettingID,
    /// Short description for this notification destination. Shown in the Paddle dashboard.
    pub description: String,
    /// Where notifications should be sent for this destination.
    pub type_: NotificationSettingType,
    /// Webhook endpoint URL or email address.
    pub destination: String,
    /// Whether Paddle should try to deliver events to this notification destination.
    pub active: bool,
    /// API version that returned objects for events should conform to. Must be a valid version of the Paddle API. Can't be a version older than your account default.
    pub api_version: i64,
    /// Whether potentially sensitive fields should be sent to this notification destination.
    pub include_sensitive_fields: bool,
    /// Subscribed events for this notification destination.
    pub subscribed_events: Vec<EventType>,
    /// Webhook destination secret key, prefixed with `pdl_ntfset_`. Used for signature verification.
    pub endpoint_secret_key: EndpointSecretKey,
    /// Whether Paddle should deliver real platform events, simulation events or both to this notification destination.
    pub traffic_source: TrafficSource,
}

/// Represents a notification destination when creating notification destinations.
#[derive(Clone, Debug)]
pub struct NotificationSettingCreate {
    /// Unique Paddle ID for this notification setting, prefixed with `ntfset_`.
    pub id: NotificationSettingID,
    /// Short description for this notification destination. Shown in the Paddle Dashboard.
    pub description: String,
    /// Where notifications should be sent for this destination.
    pub type_: NotificationSettingType,
    /// Webhook endpoint URL or email address.
    pub destination: String,
    /// Whether Paddle should try to deliver events to this notification destination.
    pub active: bool,
    /// API version that returned objects for events should conform to. Must be a valid version of the Paddle API. Can't be a version older than your account default. If omitted, defaults to your account default version.
    pub api_version: i64,
    /// Whether potentially sensitive fields should be sent to this notification destination. If omitted, defaults to `false`.
    pub include_sensitive_fields: bool,
    /// Subscribed events for this notification destination. When creating or updating a notification destination, pass an array of event type names only. Paddle returns the complete event type object.
    pub subscribed_events: Vec<String>,
    /// Webhook destination secret key, prefixed with `pdl_ntfset_`. Used for signature verification.
    pub endpoint_secret_key: EndpointSecretKey,
    /// Whether Paddle should deliver real platform events, simulation events or both to this notification destination. If omitted, defaults to `platform`.
    pub traffic_source: TrafficSource,
}

/// Represents a notification destination when updating notification destinations.
#[derive(Clone, Debug)]
pub struct NotificationSettingUpdate {
    /// Short description for this notification destination. Shown in the Paddle Dashboard.
    pub description: String,
    /// Webhook endpoint URL or email address.
    pub destination: String,
    /// Whether Paddle should try to deliver events to this notification destination.
    pub active: bool,
    /// API version that returned objects for events should conform to. Must be a valid version of the Paddle API. Can't be a version older than your account default. Defaults to your account default if omitted.
    pub api_version: i64,
    /// Whether potentially sensitive fields should be sent to this notification destination.
    pub include_sensitive_fields: bool,
    /// Subscribed events for this notification destination. When creating or updating a notification destination, pass an array of event type names only. Paddle returns the complete event type object.
    pub subscribed_events: Option<Vec<String>>,
    /// Whether Paddle should deliver real platform events, simulation events or both to this notification destination.
    pub traffic_source: TrafficSource,
}

#[derive(Clone, Debug)]
pub enum ReportFilterValue {
    String(String),
    Array(Vec<String>),
}

/// Information about the request. Sent by Paddle as part of the simulation.
#[derive(Clone, Debug)]
pub struct SimulationEventRequest {
    /// Request body sent by Paddle.
    pub body: String,
}

/// Information about the response. Sent by the responding server for the notification setting.
#[derive(Clone, Debug)]
pub struct SimulationEventResponse {
    /// Response body sent by the responding server. May be empty for success responses.
    pub body: String,
    /// HTTP status code sent by the responding server.
    pub status_code: i64,
}

/// Represents a simulation run entity for a scenario.
#[derive(Clone, Debug)]
pub struct SimulationRunScenario {
    /// Unique Paddle ID for this simulation run, prefixed with `ntfsimrun_`.
    pub id: SimulationRunID,
    /// Status of this simulation run.
    pub status: SimulationRunStatus,
    /// RFC 3339 datetime string of when this entity was created. Set automatically by Paddle.
    pub created_at: String,
    /// RFC 3339 datetime string of when this entity was updated. Set automatically by Paddle.
    pub updated_at: String,
    /// Scenario for a simulation.
    pub type_: SimulationScenarioType,
}

/// Represents a simulation run entity for a single event.
#[derive(Clone, Debug)]
pub struct SimulationRunSingleEvent {
    /// Unique Paddle ID for this simulation run, prefixed with `ntfsimrun_`.
    pub id: SimulationRunID,
    /// Status of this simulation run.
    pub status: SimulationRunStatus,
    /// RFC 3339 datetime string of when this entity was created. Set automatically by Paddle.
    pub created_at: String,
    /// RFC 3339 datetime string of when this entity was updated. Set automatically by Paddle.
    pub updated_at: String,
    /// Type of event sent by Paddle, in the format `entity.event_type`.
    pub type_: EventTypeName,
}

/// Represents a simulation entity for a scenario when creating.
#[derive(Clone, Debug)]
pub struct SimulationScenarioCreate {
    /// Unique Paddle ID for this notification setting, prefixed with `ntfset_`.
    pub notification_setting_id: NotificationSettingID,
    /// Name of this simulation.
    pub name: String,
    /// Scenario for a simulation.
    pub type_: SimulationScenarioType,
}

/// Represents a simulation entity for a scenario when updating.
#[derive(Clone, Debug)]
pub struct SimulationScenarioUpdate {
    /// Unique Paddle ID for this notification setting, prefixed with `ntfset_`.
    pub notification_setting_id: NotificationSettingID,
    /// Name of this simulation.
    pub name: Option<String>,
    /// Whether this entity can be used in Paddle.
    pub status: Status,
    /// Scenario for a simulation.
    pub type_: SimulationScenarioType,
}

/// Represents a simulation type.
#[derive(Clone, Debug)]
pub struct SimulationType {
    /// Type of simulation sent by Paddle. Single event simulations are in the format `entity.event_type`; scenario simulations are in `snake_case`.
    pub name: String,
    /// Descriptive label for this simulation type. Typically gives more context about a scenario. Single event simulations are in the format `entity.event_type`.
    pub label: String,
    /// Short description of this simulation type.
    pub description: String,
    /// Group for this simulation type. Typically the entity that this event relates to.
    pub group: String,
    /// Type of simulation.
    pub type_: SimulationKind,
    /// List of events that will be sent for this simulation type.
    pub events: Vec<EventTypeName>,
}

/// Authenticated customer portal deep links for this subscription. For security, the `token` appended to each link is temporary. You shouldn't store these links.
#[derive(Clone, Debug)]
pub struct SubscriptionManagementUrls {
    /// Link to the page for this subscription in the customer portal with the payment method update form pre-opened. Use as part of workflows to let customers update their payment details. `null` for manually-collected subscriptions.
    pub update_payment_method: Option<String>,
    /// Link to the page for this subscription in the customer portal with the subscription cancellation form pre-opened. Use as part of cancel subscription workflows.
    pub cancel: String,
}

/// Breakdown of a charge in the lowest denomination of a currency (e.g. cents for USD).
#[derive(Clone, Debug)]
pub struct Totals {
    /// Subtotal before discount, tax, and deductions. If an item, unit price multiplied by quantity.
    pub subtotal: String,
    /// Total discount as a result of any discounts applied.
    ///
    /// Except for percentage discounts, Paddle applies tax to discounts based on the line item `price.tax_mode`. If `price.tax_mode` for a line item is `internal`, Paddle removes tax from the discount applied.
    pub discount: String,
    /// Total tax on the subtotal.
    pub tax: String,
    /// Total after discount and tax.
    pub total: String,
}

#[derive(Clone, Debug)]
pub struct TaxRatesUsed {
    /// Rate used to calculate tax for this transaction preview.
    pub tax_rate: String,
    /// Breakdown of a charge in the lowest denomination of a currency (e.g. cents for USD).
    pub totals: Totals,
}

/// Breakdown of the total for a transaction. These numbers can be negative when dealing with subscription updates that result in credit.
#[derive(Clone, Debug)]
pub struct TransactionTotals {
    /// Subtotal before discount, tax, and deductions. If an item, unit price multiplied by quantity.
    pub subtotal: String,
    /// Total discount as a result of any discounts applied.
    ///
    /// Except for percentage discounts, Paddle applies tax to discounts based on the line item `price.tax_mode`. If `price.tax_mode` for a line item is `internal`, Paddle removes tax from the discount applied.
    pub discount: String,
    /// Total tax on the subtotal.
    pub tax: String,
    /// Total after discount and tax.
    pub total: String,
    /// Total credit applied to this transaction. This includes credits applied using a customer's credit balance and adjustments to a `billed` transaction.
    pub credit: String,
    /// Additional credit generated from negative `details.line_items`. This credit is added to the customer balance.
    pub credit_to_balance: String,
    /// Total due on a transaction after credits and any payments.
    pub balance: String,
    /// Total due on a transaction after credits but before any payments.
    pub grand_total: String,
    /// Total fee taken by Paddle for this transaction. `null` until the transaction is `completed` and the fee is processed.
    pub fee: Option<String>,
    /// Total earnings for this transaction. This is the total minus the Paddle fee. `null` until the transaction is `completed` and the fee is processed.
    pub earnings: Option<String>,
    /// Three-letter ISO 4217 currency code of the currency used for this transaction.
    pub currency_code: CurrencyCode,
}

/// Details of the result of credits and charges. Where the total of any credit adjustments is greater than the total charge, the result is a prorated credit; otherwise, the result is a prorated charge.
#[derive(Clone, Debug)]
pub struct UpdateSummaryResult {
    /// Whether the subscription change results in a prorated credit or a charge.
    pub action: UpdateSummaryResultAction,
    /// Amount representing the result of this update, either a charge or a credit.
    pub amount: String,
    /// Supported three-letter ISO 4217 currency code.
    pub currency_code: CurrencyCode,
}

/// Impact of this subscription change. Includes whether the change results in a charge or credit, and totals for prorated amounts.
#[derive(Clone, Debug)]
pub struct SubscriptionPreviewUpdateSummary {
    /// A base representation of monetary value unformatted in the lowest denomination with currency code.
    pub credit: Money,
    /// A base representation of monetary value unformatted in the lowest denomination with currency code.
    pub charge: Money,
    /// Details of the result of credits and charges. Where the total of any credit adjustments is greater than the total charge, the result is a prorated credit; otherwise, the result is a prorated charge.
    pub result: UpdateSummaryResult,
}

/// Details of the discount applied to this subscription. Include to add a discount to a subscription. `null` to remove a discount.
#[derive(Clone, Debug)]
pub struct SubscriptionDiscountEffectiveFrom {
    /// Unique Paddle ID for this discount, prefixed with `dsc_`.
    pub id: DiscountID,
    /// When this subscription change should take effect from. Defaults to `next_billing_period`, which creates a
    /// `scheduled_change` to apply the subscription change at the end of the billing period.
    pub effective_from: EffectiveFrom,
}

#[derive(Clone, Debug)]
pub struct SubscriptionItemCreateWithPriceId {
    /// Quantity to bill for.
    pub quantity: i64,
    /// Unique Paddle ID for this price, prefixed with `pri_`.
    pub price_id: PriceID,
}

#[derive(Clone, Debug)]
pub struct SubscriptionUpdateItem {
    /// Unique Paddle ID for this price, prefixed with `pri_`.
    pub price_id: PriceID,
    /// Quantity of this item to add to the subscription. If updating an existing item and not changing the quantity, you may omit `quantity`.
    pub quantity: i64,
}

/// Breakdown of a charge in the lowest denomination of a currency (e.g. cents for USD).
#[derive(Clone, Debug)]
pub struct TotalsWithoutDiscount {
    /// Subtotal before tax, and deductions. If an item, unit price multiplied by quantity.
    pub subtotal: String,
    /// Total tax on the subtotal.
    pub tax: String,
    /// Total after tax.
    pub total: String,
}

/// Breakdown of the totals for a transaction after adjustments.
#[derive(Clone, Debug)]
pub struct TransactionTotalsAdjusted {
    /// Subtotal before discount, tax, and deductions. If an item, unit price multiplied by quantity.
    pub subtotal: String,
    /// Total tax on the subtotal.
    pub tax: String,
    /// Total after tax.
    pub total: String,
    /// Total due after credits but before any payments.
    pub grand_total: String,
    /// Total fee taken by Paddle for this transaction. `null` until the transaction is `completed` and the fee is processed.
    pub fee: Option<String>,
    /// Total earnings for this transaction. This is the total minus the Paddle fee.
    /// `null` until the transaction is `completed` and the fee is processed.
    pub earnings: Option<String>,
    /// Supported three-letter ISO 4217 currency code.
    pub currency_code: CurrencyCode,
}

/// Breakdown of the payout total for a transaction after adjustments. `null` until the transaction is `completed`.
#[derive(Clone, Debug)]
pub struct TransactionPayoutTotalsAdjusted {
    /// Total before tax and fees.
    pub subtotal: String,
    /// Total tax on the subtotal.
    pub tax: String,
    /// Total after tax.
    pub total: String,
    /// Total fee taken by Paddle for this payout.
    pub fee: String,
    /// Details of any chargeback fees incurred for this transaction.
    pub chargeback_fee: ChargebackFee,
    /// Total earnings for this payout. This is the subtotal minus the Paddle fee, excluding chargeback fees.
    pub earnings: String,
    /// Supported three-letter ISO 4217 currency code for payouts from Paddle.
    pub currency_code: CurrencyCodePayouts,
}

/// Paddle Checkout details for this transaction. Returned for automatically-collected transactions and where `billing_details.enable_checkout` is `true` for manually-collected transactions; `null` otherwise.
#[derive(Clone, Debug)]
pub struct TransactionCheckout {
    /// Paddle Checkout URL for this transaction, composed of the URL passed in the request or your default payment URL + `?_ptxn=` and the Paddle ID for this transaction.
    pub url: Option<String>,
}

/// Contains an invoice PDF url for a transaction.
#[derive(Clone, Debug)]
pub struct TransactionInvoice {
    /// URL of the requested resource.
    pub url: Option<String>,
}

/// Breakdown of the payout total for a transaction. `null` until the transaction is `completed`. Returned in your payout currency.
#[derive(Clone, Debug)]
pub struct TransactionPayoutTotals {
    /// Total before tax and fees.
    pub subtotal: String,
    /// Total discount as a result of any discounts applied.
    /// Except for percentage discounts, Paddle applies tax to discounts based on the line item `price.tax_mode`. If `price.tax_mode` for a line item is `internal`, Paddle removes tax from the discount applied.
    pub discount: String,
    /// Total tax on the subtotal.
    pub tax: String,
    /// Total after tax.
    pub total: String,
    /// Total credit applied to this transaction. This includes credits applied using a customer's credit balance and adjustments to a `billed` transaction.
    pub credit: String,
    /// Additional credit generated from negative `details.line_items`. This credit is added to the customer balance.
    pub credit_to_balance: String,
    /// Total due on a transaction after credits and any payments.
    pub balance: String,
    /// Total due on a transaction after credits but before any payments.
    pub grand_total: String,
    /// Total fee taken by Paddle for this payout.
    pub fee: String,
    /// Total earnings for this payout. This is the subtotal minus the Paddle fee.
    pub earnings: String,
    /// Supported three-letter ISO 4217 currency code for payouts from Paddle.
    pub currency_code: CurrencyCodePayouts,
}

/// Payout entity received from a payout event
#[derive(Clone, Debug)]
pub struct Payout {
    /// ID for this payout.
    pub id: PayoutID,
    /// Status of this payout.
    pub status: PayoutStatus,
    /// Fee amount for this chargeback in the original currency.
    pub amount: String,
    /// Three-letter ISO 4217 currency code for chargeback fees.
    pub currency_code: CurrencyCodeChargebacks,
}

#[derive(Clone, Debug)]
pub struct PricePreviewItem {
    /// Unique Paddle ID for this price, prefixed with `pri_`.
    pub price_id: PriceID,
    /// Quantity of the item to preview.
    pub quantity: i64,
}

/// An instant in UTC: whole seconds since the Unix epoch and the
/// nanoseconds past them.
#[derive(Clone, Copy, Debug, PartialEq, Eq)]
pub struct UtcTime {
    pub seconds: i64,
    pub nanoseconds: u32,
}

/// Represents an event entity.
#[derive(Debug)]
pub struct Event {
    /// Unique Paddle ID for this event, prefixed with `evt_`.
    pub event_id: EventID,
    /// When this event occurred.
    pub occurred_at: UtcTime,
    /// New or changed entity.
    pub data: EventData,
}

} // verus!
