//! The canonical payment model shared by every processor adapter.
use vstd::prelude::*;

verus! {

/// A currency, by its ISO 4217 code.
#[allow(clippy::upper_case_acronyms)]
#[derive(Clone, Copy, Debug, PartialEq, Eq, Structural)]
pub enum Currency {
    AED,
    AUD,
    BRL,
    CAD,
    CHF,
    CNY,
    EUR,
    GBP,
    HKD,
    INR,
    JPY,
    SGD,
    USD,
}

/// An amount in minor units of its currency.
#[derive(Clone, Copy, Debug, PartialEq, Eq, Structural)]
pub struct CanonicalAmount {
    pub amount: i64,
    pub currency: Currency,
}

/// The unit in which a processor expects amounts.
#[derive(Clone, Copy, Debug, PartialEq, Eq, Structural)]
pub enum CurrencyUnit {
    Base,
    Minor,
}

/// When the funds of an authorized payment are captured.
#[derive(Clone, Copy, Debug, PartialEq, Eq, Structural)]
pub enum CaptureMethod {
    Automatic,
    Manual,
    ManualMultiple,
    Scheduled,
}

impl CaptureMethod {
    /// The capture method that applies where none is given.
    pub fn default_method() -> (r: CaptureMethod)
        ensures
            r == CaptureMethod::Automatic,
    {
        CaptureMethod::Automatic
    }

    /// The name of the capture method, as error messages give it.
    pub fn name(&self) -> (r: &'static str)
        ensures
            r@ == capture_method_name(*self),
    {
        proof {
            reveal_strlit("automatic");
            reveal_strlit("manual");
            reveal_strlit("manual_multiple");
            reveal_strlit("scheduled");
        }
        match self {
            CaptureMethod::Automatic => "automatic",
            CaptureMethod::Manual => "manual",
            CaptureMethod::ManualMultiple => "manual_multiple",
            CaptureMethod::Scheduled => "scheduled",
        }
    }
}

pub open spec fn capture_method_name(m: CaptureMethod) -> Seq<char> {
    match m {
        CaptureMethod::Automatic => seq!['a', 'u', 't', 'o', 'm', 'a', 't', 'i', 'c'],
        CaptureMethod::Manual => seq!['m', 'a', 'n', 'u', 'a', 'l'],
        CaptureMethod::ManualMultiple => seq![
            'm',
            'a',
            'n',
            'u',
            'a',
            'l',
            '_',
            'm',
            'u',
            'l',
            't',
            'i',
            'p',
            'l',
            'e',
        ],
        CaptureMethod::Scheduled => seq!['s', 'c', 'h', 'e', 'd', 'u', 'l', 'e', 'd'],
    }
}

/// The canonical state of a payment attempt.
#[derive(Clone, Copy, Debug, PartialEq, Eq, Structural)]
pub enum AttemptStatus {
    Started,
    Pending,
    Authorized,
    Charged,
    Voided,
    Failure,
}

/// The canonical state of a refund.
#[derive(Clone, Copy, Debug, PartialEq, Eq, Structural)]
pub enum RefundStatus {
    Pending,
    Success,
    Failure,
}

/// A secret value. It is only handed out on an explicit request and never
/// shows in debug output.
pub struct Secret {
    value: String,
}

impl View for Secret {
    type V = Seq<char>;

    closed spec fn view(&self) -> Seq<char> {
        self.value@
    }
}

impl Secret {
    pub fn new(value: String) -> (r: Secret)
        ensures
            r@ == value@,
    {
        Secret { value }
    }

    /// The secret value itself.
    pub fn expose(&self) -> (r: String)
        ensures
            r@ == self@,
    {
        self.value.clone()
    }

    /// A second secret holding the same value.
    pub fn duplicate(&self) -> (r: Secret)
        ensures
            r@ == self@,
    {
        Secret { value: self.value.clone() }
    }
}

/// A header value, marked as masked where it holds secret material.
pub enum Maskable {
    Masked(Secret),
    Normal(String),
}

impl View for Maskable {
    /// Whether the value is masked, and the value.
    type V = (bool, Seq<char>);

    open spec fn view(&self) -> (bool, Seq<char>) {
        match self {
            Maskable::Masked(s) => (true, s@),
            Maskable::Normal(s) => (false, s@),
        }
    }
}

/// A list of request headers, by name and value.
pub type Headers = Vec<(String, Maskable)>;

/// Headers as names, masking and values.
pub open spec fn headers_view(h: Seq<(String, Maskable)>) -> Seq<(Seq<char>, bool, Seq<char>)> {
    h.map_values(|p: (String, Maskable)| (p.0@, p.1@.0, p.1@.1))
}

/// The credentials configured for a processor.
pub enum ConnectorAuthType {
    /// A single API key.
    HeaderKey { api_key: Secret },
    /// An API key and a second key.
    BodyKey { api_key: Secret, key1: Secret },
    /// An API key, a second key and a secret.
    SignatureKey { api_key: Secret, key1: Secret, api_secret: Secret },
    /// No credentials.
    NoKey,
}

/// The card details of a payment.
pub struct Card {
    pub card_number: Secret,
    pub card_exp_month: Secret,
    pub card_exp_year: Secret,
    pub card_cvc: Secret,
    pub card_holder_name: Secret,
}

/// How a payment is paid.
pub enum PaymentMethodData {
    Card(Card),
    Wallet,
    BankRedirect,
    BankTransfer,
    Crypto,
    Voucher,
}

/// The errors of a processor call.
#[derive(Debug, PartialEq, Eq)]
pub enum ConnectorError {
    FailedToObtainAuthType,
    RequestEncodingFailed,
    /// A reply body could not be read as the named shape.
    ResponseDeserializationFailed { target: String },
    /// A feature that the adapter does not offer.
    NotImplemented(String),
    /// A configuration value that the adapter rejects, and the adapter.
    NotSupported { message: String, connector: String },
    CaptureMethodNotSupported,
    WebhooksNotImplemented,
}

/// A failure as the processor reported it.
#[derive(Debug, PartialEq, Eq)]
pub struct CanonicalErrorResponse {
    pub status_code: u16,
    pub code: String,
    pub message: String,
    pub reason: Option<String>,
}

/// The request of an authorization.
pub struct PaymentsAuthorizeData {
    pub amount: i64,
    pub currency: Currency,
    pub payment_method_data: PaymentMethodData,
    pub capture_method: Option<CaptureMethod>,
}

/// Whether a capture method asks for capture with the authorization:
/// `Some(true)` for automatic capture (also where none is given),
/// `Some(false)` for manual capture, `None` for the others.
pub open spec fn auto_capture_of(m: Option<CaptureMethod>) -> Option<bool> {
    match m {
        None => Some(true),
        Some(CaptureMethod::Automatic) => Some(true),
        Some(CaptureMethod::Manual) => Some(false),
        Some(_) => None,
    }
}

impl PaymentsAuthorizeData {
    /// Whether the payment is captured together with its authorization.
    pub fn is_auto_capture(&self) -> (r: Result<bool, ConnectorError>)
        ensures
            match auto_capture_of(self.capture_method) {
                Some(b) => r == Ok::<bool, ConnectorError>(b),
                None => r == Err::<bool, ConnectorError>(ConnectorError::CaptureMethodNotSupported),
            },
    {
        match self.capture_method {
            None => Ok(true),
            Some(CaptureMethod::Automatic) => Ok(true),
            Some(CaptureMethod::Manual) => Ok(false),
            Some(_) => Err(ConnectorError::CaptureMethodNotSupported),
        }
    }
}

/// How the processor names the resource it created.
#[derive(Debug, PartialEq, Eq)]
pub enum ResponseId {
    ConnectorTransactionId(String),
    NoResponseId,
}

/// What a processor returned for a payment.
#[derive(Debug, PartialEq, Eq)]
pub struct PaymentsResponseData {
    pub resource_id: ResponseId,
}

/// One authorization call: its credentials, request, state and result.
pub struct PaymentsAuthorizeRouterData {
    pub connector_auth_type: ConnectorAuthType,
    pub status: AttemptStatus,
    pub request: PaymentsAuthorizeData,
    /// `None` until the processor has answered.
    pub response: Option<Result<PaymentsResponseData, CanonicalErrorResponse>>,
}

/// The request of a refund.
pub struct RefundsData {
    pub refund_id: String,
    pub connector_transaction_id: String,
    pub currency: Currency,
    pub refund_amount: i64,
}

/// What a processor returned for a refund.
#[derive(Debug, PartialEq, Eq)]
pub struct RefundsResponseData {
    pub connector_refund_id: String,
    pub refund_status: RefundStatus,
}

/// One refund call: its credentials, request and result.
pub struct RefundsRouterData {
    pub connector_auth_type: ConnectorAuthType,
    pub request: RefundsData,
    /// `None` until the processor has answered.
    pub response: Option<Result<RefundsResponseData, CanonicalErrorResponse>>,
}

/// The settings of one processor.
pub struct ConnectorParams {
    pub base_url: String,
}

/// The settings of the processors.
pub struct Connectors {
    pub stripe: ConnectorParams,
}

/// What an incoming webhook names.
#[derive(Debug, PartialEq, Eq)]
pub enum ObjectReferenceId {
    PaymentId(String),
    RefundId(String),
}

/// The kind of an incoming webhook.
#[derive(Clone, Copy, Debug, PartialEq, Eq, Structural)]
pub enum IncomingWebhookEvent {
    PaymentIntentSuccess,
    PaymentIntentFailure,
    RefundSuccess,
    RefundFailure,
    EventNotSupported,
}

/// An incoming webhook as it arrived.
pub struct IncomingWebhookRequestDetails {
    pub headers: Vec<(String, String)>,
    pub body: Vec<u8>,
}

} // verus!
