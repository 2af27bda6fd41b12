//! The processor's wire shapes and their conversions from and to the
//! canonical model.
#![allow(non_camel_case_types)]

use vstd::prelude::*;

use crate::amount::{amount_to_string, decimal_of, parse_amount, parse_decimal};
use crate::model::{
    auto_capture_of, AttemptStatus, CanonicalAmount, Card, ConnectorAuthType, ConnectorError,
    Currency, CurrencyUnit, PaymentMethodData, PaymentsAuthorizeRouterData, PaymentsResponseData,
    RefundsResponseData, RefundsRouterData, ResponseId, Secret,
};

verus! {

/// The processor's credentials: a single API key.
pub struct StripeAuthType {
    pub apikey: Secret,
}

impl StripeAuthType {
    /// Takes the API key out of the configured credentials; only a single
    /// key is accepted.
    pub fn try_from(auth_type: &ConnectorAuthType) -> (r: Result<StripeAuthType, ConnectorError>)
        ensures
            match auth_type {
                ConnectorAuthType::HeaderKey { api_key } => r matches Ok(a) && a.apikey@
                    == api_key@,
                _ => r == Err::<StripeAuthType, ConnectorError>(
                    ConnectorError::FailedToObtainAuthType,
                ),
            },
    {
        match auth_type {
            ConnectorAuthType::HeaderKey { api_key } => Ok(StripeAuthType { apikey: api_key.duplicate() }),
            _ => Err(ConnectorError::FailedToObtainAuthType),
        }
    }
}

/// Call data together with the amount in the unit that the processor uses.
pub struct stripeRouterData<T> {
    pub amount: i64,
    pub router_data: T,
}

impl<T> stripeRouterData<T> {
    /// The processor takes amounts in minor units, as they come.
    pub fn try_from(args: (&CurrencyUnit, Currency, i64, T)) -> (r: Result<
        stripeRouterData<T>,
        ConnectorError,
    >)
        ensures
            r == Ok::<stripeRouterData<T>, ConnectorError>(
                (stripeRouterData { amount: args.2, router_data: args.3 }),
            ),
    {
        let (_currency_unit, _currency, amount, item) = args;
        Ok(stripeRouterData { amount, router_data: item })
    }
}

/// The card of an authorization request.
pub struct stripeAuthorizeRequestCard {
    pub number: Secret,
    pub exp_month: Secret,
    pub exp_year: Secret,
    pub cvc: Secret,
    pub cardholder_name: Secret,
}

/// The body of an authorization request.
pub struct stripeAuthorizeRequest {
    /// The amount in minor units, in decimal.
    pub amount: String,
    pub currency: Currency,
    pub card: stripeAuthorizeRequestCard,
    /// `"true"` where the payment is captured at once, else `"false"`.
    pub captured: String,
}

pub open spec fn bool_text(b: bool) -> Seq<char> {
    if b {
        seq!['t', 'r', 'u', 'e']
    } else {
        seq!['f', 'a', 'l', 's', 'e']
    }
}

pub open spec fn payment_method_text() -> Seq<char> {
    seq!['p', 'a', 'y', 'm', 'e', 'n', 't', ' ', 'm', 'e', 't', 'h', 'o', 'd']
}

pub open spec fn card_matches(w: stripeAuthorizeRequestCard, c: Card) -> bool {
    &&& w.number@ == c.card_number@
    &&& w.exp_month@ == c.card_exp_month@
    &&& w.exp_year@ == c.card_exp_year@
    &&& w.cvc@ == c.card_cvc@
    &&& w.cardholder_name@ == c.card_holder_name@
}

/// The body that asks for `amount` in `currency` on card `c`.
pub open spec fn request_matches(
    w: stripeAuthorizeRequest,
    amount: i64,
    currency: Currency,
    c: Card,
    captured: bool,
) -> bool {
    &&& w.amount@ == decimal_of(amount as int)
    &&& w.currency == currency
    &&& card_matches(w.card, c)
    &&& w.captured@ == bool_text(captured)
}

/// What building the body of an authorization gives for the call `item`.
pub open spec fn authorize_request_spec(
    item: stripeRouterData<&PaymentsAuthorizeRouterData>,
    r: Result<stripeAuthorizeRequest, ConnectorError>,
) -> bool {
    match item.router_data.request.payment_method_data {
        PaymentMethodData::Card(c) => match auto_capture_of(item.router_data.request.capture_method) {
            Some(b) => r matches Ok(w) && request_matches(
                w,
                item.amount,
                item.router_data.request.currency,
                c,
                b,
            ),
            None => r == Err::<stripeAuthorizeRequest, ConnectorError>(
                ConnectorError::CaptureMethodNotSupported,
            ),
        },
        _ => r matches Err(ConnectorError::NotImplemented(m)) && m@ == payment_method_text(),
    }
}

fn bool_string(b: bool) -> (r: String)
    ensures
        r@ == bool_text(b),
{
    proof {
        reveal_strlit("true");
        reveal_strlit("false");
    }
    if b {
        String::from_str("true")
    } else {
        String::from_str("false")
    }
}

impl stripeAuthorizeRequest {
    /// The body for a card payment.
    pub fn try_from_card(value: (&stripeRouterData<&PaymentsAuthorizeRouterData>, &Card)) -> (r:
        Result<stripeAuthorizeRequest, ConnectorError>)
        ensures
            match auto_capture_of(value.0.router_data.request.capture_method) {
                Some(b) => r matches Ok(w) && request_matches(
                    w,
                    value.0.amount,
                    value.0.router_data.request.currency,
                    *value.1,
                    b,
                ),
                None => r == Err::<stripeAuthorizeRequest, ConnectorError>(
                    ConnectorError::CaptureMethodNotSupported,
                ),
            },
    {
        let (item, ccard) = value;
        let card = stripeAuthorizeRequestCard {
            number: ccard.card_number.duplicate(),
            exp_month: ccard.card_exp_month.duplicate(),
            exp_year: ccard.card_exp_year.duplicate(),
            cvc: ccard.card_cvc.duplicate(),
            cardholder_name: ccard.card_holder_name.duplicate(),
        };
        let captured = match item.router_data.request.is_auto_capture() {
            Ok(b) => b,
            Err(e) => {
                return Err(e);
            },
        };
        Ok(stripeAuthorizeRequest {
            amount: amount_to_string(item.amount),
            currency: item.router_data.request.currency,
            card,
            captured: bool_string(captured),
        })
    }

    /// The body for the call `item`; only card payments are offered.
    pub fn try_from(item: &stripeRouterData<&PaymentsAuthorizeRouterData>) -> (r: Result<
        stripeAuthorizeRequest,
        ConnectorError,
    >)
        ensures
            authorize_request_spec(*item, r),
    {
        match &item.router_data.request.payment_method_data {
            PaymentMethodData::Card(card) => stripeAuthorizeRequest::try_from_card((item, card)),
            _ => {
                let m = String::from_str("payment method");
                proof {
                    reveal_strlit("payment method");
                    assert(m@ =~= payment_method_text());
                }
                Err(ConnectorError::NotImplemented(m))
            },
        }
    }
}

/// The card of an authorization reply.
pub struct stripeAuthorizeResponseCard {
    pub id: String,
    pub created: i64,
    pub object_type: String,
    pub first6: String,
    pub last4: String,
    pub fingerprint: String,
    pub exp_month: Secret,
    pub exp_year: Secret,
    pub cardholder_name: Secret,
    pub brand: String,
    pub stripe_authorize_response_card_type: String,
    /// The two-letter code of the card's country.
    pub country: String,
    pub issuer: String,
}

/// The fraud checks of an authorization reply.
pub struct stripeAuthorizeResponseFraudDetails {
    pub status: String,
}

/// The address check of an authorization reply.
pub struct stripeAuthorizeResponseAvsCheck {
    pub result: String,
}

/// An authorization reply.
pub struct stripeAuthorizeResponse {
    pub id: String,
    pub created: i64,
    pub object_type: String,
    /// The amount in minor units, in decimal.
    pub amount: String,
    pub amount_refunded: i64,
    pub currency: Currency,
    pub card: stripeAuthorizeResponseCard,
    pub captured: String,
    pub refunded: bool,
    pub disputed: bool,
    pub fraud_details: stripeAuthorizeResponseFraudDetails,
    pub avs_check: stripeAuthorizeResponseAvsCheck,
    pub status: stripeAttemptStatus,
    pub client_object_id: String,
}

impl stripeAuthorizeResponse {
    /// The amount that the reply reports, where its text is the decimal
    /// text of an amount.
    pub fn canonical_amount(&self) -> (r: Option<CanonicalAmount>)
        ensures
            r == reply_amount(*self),
    {
        match parse_amount(self.amount.as_str()) {
            Some(v) => Some(CanonicalAmount { amount: v, currency: self.currency }),
            None => None,
        }
    }
}

/// The amount that a reply reports, as `canonical_amount` gives it.
pub open spec fn reply_amount(resp: stripeAuthorizeResponse) -> Option<CanonicalAmount> {
    match parse_decimal(resp.amount@) {
        Some(v) => Some(CanonicalAmount { amount: v, currency: resp.currency }),
        None => None::<CanonicalAmount>,
    }
}

/// An amount written into an authorization body and read back from a reply
/// that echoes the body's amount and currency is the amount asked for.
pub proof fn lemma_amount_round_trip(
    a: CanonicalAmount,
    w: stripeAuthorizeRequest,
    c: Card,
    captured: bool,
    resp: stripeAuthorizeResponse,
)
    requires
        request_matches(w, a.amount, a.currency, c, captured),
        resp.amount@ == w.amount@,
        resp.currency == w.currency,
    ensures
        reply_amount(resp) == Some(a),
{
    crate::amount::lemma_decimal_round_trip(a.amount);
}

/// A processor reply together with the call that it answers.
pub struct ResponseRouterData<R, D> {
    pub response: R,
    pub data: D,
    pub http_code: u16,
}

/// The state of a payment as the processor reports it.
#[derive(Clone, Copy, Debug, PartialEq, Eq, Structural)]
pub enum stripeAttemptStatus {
    Successful,
    Failed,
    Pending,
}

pub open spec fn attempt_status_of(s: stripeAttemptStatus) -> AttemptStatus {
    match s {
        stripeAttemptStatus::Successful => AttemptStatus::Charged,
        stripeAttemptStatus::Failed => AttemptStatus::Failure,
        stripeAttemptStatus::Pending => AttemptStatus::Pending,
    }
}

impl From<stripeAttemptStatus> for AttemptStatus {
    fn from(item: stripeAttemptStatus) -> AttemptStatus {
        match item {
            stripeAttemptStatus::Successful => AttemptStatus::Charged,
            stripeAttemptStatus::Failed => AttemptStatus::Failure,
            stripeAttemptStatus::Pending => AttemptStatus::Pending,
        }
    }
}

impl vstd::std_specs::convert::FromSpecImpl<stripeAttemptStatus> for AttemptStatus {
    open spec fn obeys_from_spec() -> bool {
        true
    }

    open spec fn from_spec(v: stripeAttemptStatus) -> AttemptStatus {
        attempt_status_of(v)
    }
}

/// Each processor payment state has a canonical state of its own: none is
/// left out and no two are merged.
pub proof fn lemma_attempt_status_total(a: stripeAttemptStatus, b: stripeAttemptStatus)
    ensures
        attempt_status_of(a) == AttemptStatus::Charged || attempt_status_of(a)
            == AttemptStatus::Failure || attempt_status_of(a) == AttemptStatus::Pending,
        attempt_status_of(a) == attempt_status_of(b) ==> a == b,
{
}

impl PaymentsAuthorizeRouterData {
    /// The call brought up to date with the processor's reply: its state
    /// and the transaction that the processor created.
    pub fn try_from(item: ResponseRouterData<stripeAuthorizeResponse, PaymentsAuthorizeRouterData>) -> (r:
        Result<PaymentsAuthorizeRouterData, ConnectorError>)
        ensures
            r matches Ok(d) && d == (PaymentsAuthorizeRouterData {
                status: attempt_status_of(item.response.status),
                response: Some(
                    Ok(
                        PaymentsResponseData {
                            resource_id: ResponseId::ConnectorTransactionId(item.response.id),
                        },
                    ),
                ),
                ..item.data
            }),
    {
        let ResponseRouterData { response, data, http_code: _ } = item;
        let PaymentsAuthorizeRouterData { connector_auth_type, status: _, request, response: _ } =
            data;
        Ok(PaymentsAuthorizeRouterData {
            connector_auth_type,
            status: AttemptStatus::from(response.status),
            request,
            response: Some(
                Ok(
                    PaymentsResponseData {
                        resource_id: ResponseId::ConnectorTransactionId(response.id),
                    },
                ),
            ),
        })
    }
}

/// The body of a refund request.
pub struct RefundRequest {
    pub amount: i64,
}

impl RefundRequest {
    /// The body that asks for the refund of the call `item`.
    pub fn try_from(item: &RefundsRouterData) -> (r: Result<RefundRequest, ConnectorError>)
        ensures
            r == Ok::<RefundRequest, ConnectorError>(
                (RefundRequest { amount: item.request.refund_amount }),
            ),
    {
        Ok(RefundRequest { amount: item.request.refund_amount })
    }
}

/// The state of a refund as the processor reports it.
#[derive(Clone, Copy, Debug, PartialEq, Eq, Structural)]
pub enum RefundStatus {
    Succeeded,
    Failed,
    Processing,
}

impl Default for RefundStatus {
    fn default() -> (r: RefundStatus)
        ensures
            r == RefundStatus::Processing,
    {
        RefundStatus::Processing
    }
}

pub open spec fn refund_status_of(s: RefundStatus) -> crate::model::RefundStatus {
    match s {
        RefundStatus::Succeeded => crate::model::RefundStatus::Success,
        RefundStatus::Failed => crate::model::RefundStatus::Failure,
        RefundStatus::Processing => crate::model::RefundStatus::Pending,
    }
}

impl From<RefundStatus> for crate::model::RefundStatus {
    fn from(item: RefundStatus) -> crate::model::RefundStatus {
        match item {
            RefundStatus::Succeeded => crate::model::RefundStatus::Success,
            RefundStatus::Failed => crate::model::RefundStatus::Failure,
            RefundStatus::Processing => crate::model::RefundStatus::Pending,
        }
    }
}

impl vstd::std_specs::convert::FromSpecImpl<RefundStatus> for crate::model::RefundStatus {
    open spec fn obeys_from_spec() -> bool {
        true
    }

    open spec fn from_spec(v: RefundStatus) -> crate::model::RefundStatus {
        refund_status_of(v)
    }
}

/// Each processor refund state has a canonical state of its own, and every
/// canonical refund state is reached.
pub proof fn lemma_refund_status_total(a: RefundStatus, b: RefundStatus, c: crate::model::RefundStatus)
    ensures
        refund_status_of(a) == refund_status_of(b) ==> a == b,
        exists|s: RefundStatus| refund_status_of(s) == c,
{
    match c {
        crate::model::RefundStatus::Success => assert(refund_status_of(RefundStatus::Succeeded) == c),
        crate::model::RefundStatus::Failure => assert(refund_status_of(RefundStatus::Failed) == c),
        crate::model::RefundStatus::Pending => assert(refund_status_of(RefundStatus::Processing) == c),
    }
}

/// A refund reply.
pub struct RefundResponse {
    pub id: String,
    pub status: RefundStatus,
}

impl RefundsRouterData {
    /// The refund call brought up to date with the processor's reply.
    pub fn try_from(item: ResponseRouterData<RefundResponse, RefundsRouterData>) -> (r: Result<
        RefundsRouterData,
        ConnectorError,
    >)
        ensures
            r matches Ok(d) && d == (RefundsRouterData {
                response: Some(
                    Ok(
                        RefundsResponseData {
                            connector_refund_id: item.response.id,
                            refund_status: refund_status_of(item.response.status),
                        },
                    ),
                ),
                ..item.data
            }),
    {
        let ResponseRouterData { response, data, http_code: _ } = item;
        let RefundsRouterData { connector_auth_type, request, response: _ } = data;
        Ok(RefundsRouterData {
            connector_auth_type,
            request,
            response: Some(
                Ok(
                    RefundsResponseData {
                        connector_refund_id: response.id,
                        refund_status: crate::model::RefundStatus::from(response.status),
                    },
                ),
            ),
        })
    }
}

/// The processor's error reply.
pub struct ErrorResponse {
    pub status_code: u16,
    pub code: String,
    pub message: String,
    pub reason: Option<String>,
}

} // verus!
