//! The adapter: its identity, the request pipeline of an authorization, the
//! capture method gate, and the handling of the processor's replies.
use vstd::prelude::*;

use crate::model::{
    capture_method_name, headers_view, CanonicalErrorResponse, CaptureMethod, ConnectorAuthType,
    ConnectorError, Connectors, CurrencyUnit, Headers, IncomingWebhookEvent,
    IncomingWebhookRequestDetails, Maskable, ObjectReferenceId, PaymentsAuthorizeRouterData,
};
use crate::transformers::{
    attempt_status_of, authorize_request_spec, stripeAuthorizeRequest, stripeAuthorizeResponse,
    stripeRouterData, ErrorResponse, ResponseRouterData, StripeAuthType,
};

verus! {

/// Relies on serde_json::Value only as the type of a webhook's resource,
/// which this adapter never produces.
#[verifier::external_type_specification]
#[verifier::external_body]
pub struct ExValue(serde_json::Value);

pub open spec fn stripe_id() -> Seq<char> {
    "stripe"@
}

pub open spec fn json_content_type() -> Seq<char> {
    "application/json"@
}

pub open spec fn content_type_name() -> Seq<char> {
    "Content-Type"@
}

pub open spec fn authorization_name() -> Seq<char> {
    "Authorization"@
}

pub open spec fn charges_path() -> Seq<char> {
    "/charges"@
}

pub open spec fn response_type_name() -> Seq<char> {
    "StripeAuthorizeResponse"@
}

pub open spec fn error_type_name() -> Seq<char> {
    "ErrorResponse"@
}

/// The headers of every request made with the API key `key`.
pub open spec fn stripe_headers(key: Seq<char>) -> Seq<(Seq<char>, bool, Seq<char>)> {
    seq![(content_type_name(), false, json_content_type()), (authorization_name(), true, key)]
}

/// How many headers carry the name `n`.
pub open spec fn count_named(h: Seq<(Seq<char>, bool, Seq<char>)>, n: Seq<char>) -> nat
    decreases h.len(),
{
    if h.len() == 0 {
        0
    } else {
        count_named(h.drop_last(), n) + if h.last().0 == n {
            1nat
        } else {
            0nat
        }
    }
}

/// Every request made with a single API key carries exactly one content
/// type header and an authorization header.
pub proof fn lemma_header_completeness(key: Seq<char>)
    ensures
        count_named(stripe_headers(key), content_type_name()) == 1,
        count_named(stripe_headers(key), authorization_name()) >= 1,
{
    reveal_strlit("Content-Type");
    reveal_strlit("Authorization");
    let h = stripe_headers(key);
    assert(content_type_name().len() != authorization_name().len());
    assert(h.drop_last() =~= seq![h[0]]);
    assert(h.drop_last().drop_last() =~= Seq::<(Seq<char>, bool, Seq<char>)>::empty());
    assert(count_named(h.drop_last().drop_last(), content_type_name()) == 0);
    assert(count_named(h.drop_last(), content_type_name()) == 1);
    assert(h.last().0 == authorization_name());
}

/// The HTTP method of a request.
#[derive(Clone, Copy, Debug, PartialEq, Eq, Structural)]
pub enum Method {
    Get,
    Post,
    Put,
    Delete,
}

/// A request as it is handed to the transport.
pub struct Request {
    pub method: Method,
    pub url: String,
    pub headers: Headers,
    pub body: Option<stripeAuthorizeRequest>,
}

/// The operations of a payment processor.
#[derive(Clone, Copy, Debug, PartialEq, Eq, Structural)]
pub enum Flow {
    Authorize,
    Capture,
    Void,
    PSync,
    Session,
    Execute,
    RSync,
    AccessTokenAuth,
    SetupMandate,
    PaymentMethodToken,
}

/// Which reply shape a transport status calls for.
#[derive(Clone, Copy, Debug, PartialEq, Eq, Structural)]
pub enum ResponseShape {
    Success,
    Error,
}

pub open spec fn is_success_status(status_code: u16) -> bool {
    200 <= status_code < 300
}

/// The result of a call that the processor answered.
pub enum AuthorizeOutcome {
    /// The processor accepted the request: the call brought up to date.
    Completed(PaymentsAuthorizeRouterData),
    /// The processor reported a failure.
    Rejected(CanonicalErrorResponse),
}

/// What building the request of the call `req` gives.
pub open spec fn build_request_spec(
    req: &PaymentsAuthorizeRouterData,
    connectors: &Connectors,
    r: Result<Option<Request>, ConnectorError>,
) -> bool {
    let item = stripeRouterData { amount: req.request.amount, router_data: req };
    match req.connector_auth_type {
        ConnectorAuthType::HeaderKey { api_key } => match r {
            Ok(Some(q)) => {
                &&& q.method == Method::Post
                &&& q.url@ == connectors.stripe.base_url@ + charges_path()
                &&& headers_view(q.headers@) == stripe_headers(api_key@)
                &&& q.body matches Some(w) && authorize_request_spec(item, Ok(w))
            },
            Err(e) => authorize_request_spec(item, Err(e)),
            Ok(None) => false,
        },
        _ => r == Err::<Option<Request>, ConnectorError>(ConnectorError::FailedToObtainAuthType),
    }
}

/// The processor adapter. It holds no state: one value serves every call.
#[derive(Clone, Copy, Debug)]
pub struct Stripe;

impl Stripe {
    /// The adapter's identifier.
    pub fn id(&self) -> (r: &'static str)
        ensures
            r@ == stripe_id(),
    {
        "stripe"
    }

    pub fn common_get_content_type(&self) -> (r: &'static str)
        ensures
            r@ == json_content_type(),
    {
        "application/json"
    }

    pub fn get_content_type(&self) -> (r: &'static str)
        ensures
            r@ == json_content_type(),
    {
        self.common_get_content_type()
    }

    /// The processor takes amounts in minor units.
    pub fn get_currency_unit(&self) -> (r: CurrencyUnit)
        ensures
            r == CurrencyUnit::Minor,
    {
        CurrencyUnit::Minor
    }

    pub fn base_url<'a>(&self, connectors: &'a Connectors) -> (r: &'a str)
        ensures
            r@ == connectors.stripe.base_url@,
    {
        connectors.stripe.base_url.as_str()
    }

    /// The authorization header for the configured credentials; only a
    /// single API key is accepted.
    pub fn get_auth_header(&self, auth_type: &ConnectorAuthType) -> (r: Result<
        Headers,
        ConnectorError,
    >)
        ensures
            match auth_type {
                ConnectorAuthType::HeaderKey { api_key } => r matches Ok(h) && headers_view(h@)
                    == seq![(authorization_name(), true, api_key@)],
                _ => r == Err::<Headers, ConnectorError>(ConnectorError::FailedToObtainAuthType),
            },
    {
        let auth = match StripeAuthType::try_from(auth_type) {
            Ok(a) => a,
            Err(_) => {
                return Err(ConnectorError::FailedToObtainAuthType);
            },
        };
        let name = String::from_str("Authorization");
        let mut h: Headers = Vec::new();
        h.push((name, Maskable::Masked(auth.apikey)));
        assert(headers_view(h@) =~= seq![(authorization_name(), true, auth.apikey@)]);
        Ok(h)
    }

    /// The headers of a request: the content type, then the authorization.
    pub fn build_headers(&self, req: &PaymentsAuthorizeRouterData, _connectors: &Connectors) -> (r:
        Result<Headers, ConnectorError>)
        ensures
            match req.connector_auth_type {
                ConnectorAuthType::HeaderKey { api_key } => r matches Ok(h) && headers_view(h@)
                    == stripe_headers(api_key@),
                _ => r == Err::<Headers, ConnectorError>(ConnectorError::FailedToObtainAuthType),
            },
    {
        let mut headers: Headers = Vec::new();
        headers.push(
            (
                String::from_str("Content-Type"),
                Maskable::Normal(String::from_str(self.get_content_type())),
            ),
        );
        let mut auth_headers = match self.get_auth_header(&req.connector_auth_type) {
            Ok(h) => h,
            Err(e) => {
                return Err(e);
            },
        };
        let ghost added = auth_headers@;
        let ghost first = headers@;
        headers.append(&mut auth_headers);
        assert(headers@ == first + added);
        proof {
            match &req.connector_auth_type {
                ConnectorAuthType::HeaderKey { api_key } => {
                    assert(headers_view(headers@) =~= stripe_headers(api_key@)) by {
                        assert(headers_view(added).len() == 1);
                        assert(headers@.len() == 2);
                        assert(headers@[0] == first[0]);
                        assert(headers@[1] == added[0]);
                        assert(headers_view(added)[0] == (authorization_name(), true, api_key@));
                        assert(headers_view(headers@)[0] == (
                            headers@[0].0@,
                            headers@[0].1@.0,
                            headers@[0].1@.1,
                        ));
                        assert(headers_view(headers@)[1] == headers_view(added)[0]);
                    }
                },
                _ => {},
            }
        }
        Ok(headers)
    }

    pub fn get_headers(&self, req: &PaymentsAuthorizeRouterData, connectors: &Connectors) -> (r:
        Result<Headers, ConnectorError>)
        ensures
            match req.connector_auth_type {
                ConnectorAuthType::HeaderKey { api_key } => r matches Ok(h) && headers_view(h@)
                    == stripe_headers(api_key@),
                _ => r == Err::<Headers, ConnectorError>(ConnectorError::FailedToObtainAuthType),
            },
    {
        self.build_headers(req, connectors)
    }

    /// Accepts automatic capture (also where none is given) and manual
    /// capture; rejects the others, naming the method and the adapter.
    pub fn validate_capture_method(&self, capture_method: Option<CaptureMethod>) -> (r: Result<
        (),
        ConnectorError,
    >)
        ensures
            match capture_method {
                None => r == Ok::<(), ConnectorError>(()),
                Some(CaptureMethod::Automatic) => r == Ok::<(), ConnectorError>(()),
                Some(CaptureMethod::Manual) => r == Ok::<(), ConnectorError>(()),
                Some(m) => r matches Err(ConnectorError::NotSupported { message, connector })
                    && message@ == capture_method_name(m) && connector@ == stripe_id(),
            },
    {
        let capture_method = match capture_method {
            Some(m) => m,
            None => CaptureMethod::default_method(),
        };
        match capture_method {
            CaptureMethod::Automatic | CaptureMethod::Manual => Ok(()),
            CaptureMethod::ManualMultiple | CaptureMethod::Scheduled => Err(
                ConnectorError::NotSupported {
                    message: String::from_str(capture_method.name()),
                    connector: String::from_str(self.id()),
                },
            ),
        }
    }

    /// The address of an authorization: the base address, then `/charges`.
    pub fn get_url(&self, _req: &PaymentsAuthorizeRouterData, connectors: &Connectors) -> (r:
        Result<String, ConnectorError>)
        ensures
            r matches Ok(u) && u@ == connectors.stripe.base_url@ + charges_path(),
    {
        Ok(String::from_str(self.base_url(connectors)).concat("/charges"))
    }

    /// Whether the adapter offers an operation; only authorization is offered.
    pub fn supports(&self, flow: Flow) -> (r: bool)
        ensures
            r == (flow == Flow::Authorize),
    {
        match flow {
            Flow::Authorize => true,
            _ => false,
        }
    }

    /// The address of an operation; an operation that the adapter does not
    /// offer fails as not implemented.
    pub fn get_flow_url(&self, flow: Flow, req: &PaymentsAuthorizeRouterData, connectors: &Connectors) -> (r:
        Result<String, ConnectorError>)
        ensures
            flow == Flow::Authorize ==> (r matches Ok(u) && u@ == connectors.stripe.base_url@
                + charges_path()),
            flow != Flow::Authorize ==> (r matches Err(ConnectorError::NotImplemented(m)) && m@
                == "get_url method"@),
    {
        if self.supports(flow) {
            self.get_url(req, connectors)
        } else {
            Err(ConnectorError::NotImplemented(String::from_str("get_url method")))
        }
    }

    /// The body of an authorization.
    pub fn get_request_body(&self, req: &PaymentsAuthorizeRouterData) -> (r: Result<
        Option<stripeAuthorizeRequest>,
        ConnectorError,
    >)
        ensures
            ({
                let item = stripeRouterData { amount: req.request.amount, router_data: req };
                match r {
                    Ok(Some(w)) => authorize_request_spec(item, Ok(w)),
                    Ok(None) => false,
                    Err(e) => authorize_request_spec(item, Err(e)),
                }
            }),
    {
        let unit = self.get_currency_unit();
        let connector_router_data = match stripeRouterData::try_from(
            (&unit, req.request.currency, req.request.amount, req),
        ) {
            Ok(d) => d,
            Err(e) => {
                return Err(e);
            },
        };
        match stripeAuthorizeRequest::try_from(&connector_router_data) {
            Ok(w) => Ok(Some(w)),
            Err(e) => Err(e),
        }
    }

    /// The whole request of an authorization: a POST to the charges address
    /// with the headers and the body.
    pub fn build_request(&self, req: &PaymentsAuthorizeRouterData, connectors: &Connectors) -> (r:
        Result<Option<Request>, ConnectorError>)
        ensures
            build_request_spec(req, connectors, r),
    {
        let headers = match self.get_headers(req, connectors) {
            Ok(h) => h,
            Err(e) => {
                return Err(e);
            },
        };
        let url = match self.get_url(req, connectors) {
            Ok(u) => u,
            Err(e) => {
                return Err(e);
            },
        };
        let body = match self.get_request_body(req) {
            Ok(b) => b,
            Err(e) => {
                return Err(e);
            },
        };
        Ok(Some(Request { method: Method::Post, url, headers, body }))
    }

    /// Which reply shape to read for a transport status: the success shape
    /// for a 2xx status, the error shape for any other.
    pub fn response_shape(&self, status_code: u16) -> (r: ResponseShape)
        ensures
            r == (if is_success_status(status_code) {
                ResponseShape::Success
            } else {
                ResponseShape::Error
            }),
    {
        if 200 <= status_code && status_code < 300 {
            ResponseShape::Success
        } else {
            ResponseShape::Error
        }
    }

    /// The call brought up to date with a success reply, given what reading
    /// the reply body as the success shape gave (`None`: it could not be read).
    pub fn handle_response(
        &self,
        data: PaymentsAuthorizeRouterData,
        http_code: u16,
        response: Option<stripeAuthorizeResponse>,
    ) -> (r: Result<PaymentsAuthorizeRouterData, ConnectorError>)
        ensures
            match response {
                None => r matches Err(ConnectorError::ResponseDeserializationFailed { target })
                    && target@ == response_type_name(),
                Some(resp) => r matches Ok(d) && d == (PaymentsAuthorizeRouterData {
                    status: attempt_status_of(resp.status),
                    response: Some(
                        Ok(
                            crate::model::PaymentsResponseData {
                                resource_id: crate::model::ResponseId::ConnectorTransactionId(
                                    resp.id,
                                ),
                            },
                        ),
                    ),
                    ..data
                }),
            },
    {
        match response {
            None => Err(
                ConnectorError::ResponseDeserializationFailed {
                    target: String::from_str("StripeAuthorizeResponse"),
                },
            ),
            Some(response) => PaymentsAuthorizeRouterData::try_from(
                ResponseRouterData { response, data, http_code },
            ),
        }
    }

    /// The canonical error of an error reply, given what reading the reply
    /// body as the error shape gave (`None`: it could not be read). The status
    /// is the transport's.
    pub fn get_error_response(&self, status_code: u16, response: Option<ErrorResponse>) -> (r:
        Result<CanonicalErrorResponse, ConnectorError>)
        ensures
            match response {
                None => r matches Err(ConnectorError::ResponseDeserializationFailed { target })
                    && target@ == error_type_name(),
                Some(e) => r == Ok::<CanonicalErrorResponse, ConnectorError>(
                    (CanonicalErrorResponse {
                        status_code,
                        code: e.code,
                        message: e.message,
                        reason: e.reason,
                    }),
                ),
            },
    {
        match response {
            None => Err(
                ConnectorError::ResponseDeserializationFailed {
                    target: String::from_str("ErrorResponse"),
                },
            ),
            Some(e) => Ok(
                CanonicalErrorResponse {
                    status_code,
                    code: e.code,
                    message: e.message,
                    reason: e.reason,
                },
            ),
        }
    }

    /// The result of an authorization from the transport status and what
    /// reading the body as each shape gave. The status alone picks the
    /// shape: a success reply for a 2xx status, an error reply otherwise.
    pub fn handle_reply(
        &self,
        data: PaymentsAuthorizeRouterData,
        status_code: u16,
        as_success: Option<stripeAuthorizeResponse>,
        as_error: Option<ErrorResponse>,
    ) -> (r: Result<AuthorizeOutcome, ConnectorError>)
        ensures
            is_success_status(status_code) ==> match as_success {
                None => r matches Err(ConnectorError::ResponseDeserializationFailed { target })
                    && target@ == response_type_name(),
                Some(resp) => r matches Ok(AuthorizeOutcome::Completed(d)) && d == (
                PaymentsAuthorizeRouterData {
                    status: attempt_status_of(resp.status),
                    response: Some(
                        Ok(
                            crate::model::PaymentsResponseData {
                                resource_id: crate::model::ResponseId::ConnectorTransactionId(
                                    resp.id,
                                ),
                            },
                        ),
                    ),
                    ..data
                }),
            },
            !is_success_status(status_code) ==> match as_error {
                None => r matches Err(ConnectorError::ResponseDeserializationFailed { target })
                    && target@ == error_type_name(),
                Some(e) => r == Ok::<AuthorizeOutcome, ConnectorError>(
                    AuthorizeOutcome::Rejected(
                        CanonicalErrorResponse {
                            status_code,
                            code: e.code,
                            message: e.message,
                            reason: e.reason,
                        },
                    ),
                ),
            },
    {
        match self.response_shape(status_code) {
            ResponseShape::Success => match self.handle_response(data, status_code, as_success) {
                Ok(d) => Ok(AuthorizeOutcome::Completed(d)),
                Err(e) => Err(e),
            },
            ResponseShape::Error => match self.get_error_response(status_code, as_error) {
                Ok(e) => Ok(AuthorizeOutcome::Rejected(e)),
                Err(e) => Err(e),
            },
        }
    }

    pub fn get_webhook_object_reference_id(&self, _request: &IncomingWebhookRequestDetails) -> (r:
        Result<ObjectReferenceId, ConnectorError>)
        ensures
            r == Err::<ObjectReferenceId, ConnectorError>(ConnectorError::WebhooksNotImplemented),
    {
        Err(ConnectorError::WebhooksNotImplemented)
    }

    pub fn get_webhook_event_type(&self, _request: &IncomingWebhookRequestDetails) -> (r: Result<
        IncomingWebhookEvent,
        ConnectorError,
    >)
        ensures
            r == Err::<IncomingWebhookEvent, ConnectorError>(
                ConnectorError::WebhooksNotImplemented,
            ),
    {
        Err(ConnectorError::WebhooksNotImplemented)
    }

    pub fn get_webhook_resource_object(&self, _request: &IncomingWebhookRequestDetails) -> (r:
        Result<serde_json::Value, ConnectorError>)
        ensures
            r == Err::<serde_json::Value, ConnectorError>(ConnectorError::WebhooksNotImplemented),
    {
        Err(ConnectorError::WebhooksNotImplemented)
    }
}

} // verus!
