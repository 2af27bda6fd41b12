use stripe_connector::amount::{amount_to_string, parse_amount};
use stripe_connector::model::{
    AttemptStatus, CanonicalAmount, CanonicalErrorResponse, CaptureMethod, Card,
    ConnectorAuthType, ConnectorError, ConnectorParams, Connectors, Currency, CurrencyUnit,
    IncomingWebhookRequestDetails, Maskable, PaymentMethodData, PaymentsAuthorizeData,
    PaymentsAuthorizeRouterData, PaymentsResponseData, RefundsData, RefundsRouterData,
    ResponseId, Secret,
};
use stripe_connector::model::RefundStatus as Canonical;
use stripe_connector::stripe::{AuthorizeOutcome, Flow, Method, ResponseShape, Stripe};
use stripe_connector::transformers::{
    stripeAttemptStatus, stripeAuthorizeRequest, stripeAuthorizeResponse,
    stripeAuthorizeResponseAvsCheck, stripeAuthorizeResponseCard,
    stripeAuthorizeResponseFraudDetails, stripeRouterData, ErrorResponse, RefundRequest,
    RefundResponse, RefundStatus, ResponseRouterData, StripeAuthType,
};

fn secret(s: &str) -> Secret {
    Secret::new(s.to_string())
}

fn card() -> Card {
    Card {
        card_number: secret("4242424242424242"),
        card_exp_month: secret("10"),
        card_exp_year: secret("2030"),
        card_cvc: secret("123"),
        card_holder_name: secret("Jane Doe"),
    }
}

fn connectors() -> Connectors {
    Connectors { stripe: ConnectorParams { base_url: "https://api.example.com".to_string() } }
}

fn authorize_data(
    amount: i64,
    method: PaymentMethodData,
    capture: Option<CaptureMethod>,
    auth: ConnectorAuthType,
) -> PaymentsAuthorizeRouterData {
    PaymentsAuthorizeRouterData {
        connector_auth_type: auth,
        status: AttemptStatus::Started,
        request: PaymentsAuthorizeData {
            amount,
            currency: Currency::USD,
            payment_method_data: method,
            capture_method: capture,
        },
        response: None,
    }
}

fn key_auth() -> ConnectorAuthType {
    ConnectorAuthType::HeaderKey { api_key: secret("sk_test_key") }
}

fn reply(id: &str, amount: &str, status: stripeAttemptStatus) -> stripeAuthorizeResponse {
    stripeAuthorizeResponse {
        id: id.to_string(),
        created: 1_700_000_000,
        object_type: "charge".to_string(),
        amount: amount.to_string(),
        amount_refunded: 0,
        currency: Currency::USD,
        card: stripeAuthorizeResponseCard {
            id: "card_1".to_string(),
            created: 1_700_000_000,
            object_type: "card".to_string(),
            first6: "424242".to_string(),
            last4: "4242".to_string(),
            fingerprint: "fp".to_string(),
            exp_month: secret("10"),
            exp_year: secret("2030"),
            cardholder_name: secret("Jane Doe"),
            brand: "visa".to_string(),
            stripe_authorize_response_card_type: "credit".to_string(),
            country: "US".to_string(),
            issuer: "bank".to_string(),
        },
        captured: "true".to_string(),
        refunded: false,
        disputed: false,
        fraud_details: stripeAuthorizeResponseFraudDetails { status: "clear".to_string() },
        avs_check: stripeAuthorizeResponseAvsCheck { result: "pass".to_string() },
        status,
        client_object_id: "client_1".to_string(),
    }
}

fn header_view(h: &[(String, Maskable)]) -> Vec<(String, bool, String)> {
    h.iter()
        .map(|(n, v)| match v {
            Maskable::Masked(s) => (n.clone(), true, s.expose()),
            Maskable::Normal(s) => (n.clone(), false, s.clone()),
        })
        .collect()
}

#[test]
fn amount_text_exact_values() {
    assert_eq!(amount_to_string(500), "500");
    assert_eq!(amount_to_string(0), "0");
    assert_eq!(amount_to_string(-42), "-42");
    assert_eq!(amount_to_string(i64::MAX), "9223372036854775807");
    assert_eq!(amount_to_string(i64::MIN), "-9223372036854775808");
}

#[test]
fn amount_text_read_back() {
    assert_eq!(parse_amount("1000"), Some(1000));
    assert_eq!(parse_amount("0"), Some(0));
    assert_eq!(parse_amount("-7"), Some(-7));
    assert_eq!(parse_amount("9223372036854775807"), Some(i64::MAX));
    assert_eq!(parse_amount("-9223372036854775808"), Some(i64::MIN));
    assert_eq!(parse_amount("9223372036854775808"), None);
    assert_eq!(parse_amount("-9223372036854775809"), None);
    assert_eq!(parse_amount(""), None);
    assert_eq!(parse_amount("-"), None);
    assert_eq!(parse_amount("-0"), None);
    assert_eq!(parse_amount("007"), None);
    assert_eq!(parse_amount("12a"), None);
    assert_eq!(parse_amount("+5"), None);
}

#[test]
fn attempt_status_mapping_is_total() {
    assert_eq!(AttemptStatus::from(stripeAttemptStatus::Successful), AttemptStatus::Charged);
    assert_eq!(AttemptStatus::from(stripeAttemptStatus::Failed), AttemptStatus::Failure);
    assert_eq!(AttemptStatus::from(stripeAttemptStatus::Pending), AttemptStatus::Pending);
}

#[test]
fn refund_status_mapping_is_total() {
    assert_eq!(Canonical::from(RefundStatus::Succeeded), Canonical::Success);
    assert_eq!(Canonical::from(RefundStatus::Failed), Canonical::Failure);
    assert_eq!(Canonical::from(RefundStatus::Processing), Canonical::Pending);
    assert_eq!(RefundStatus::default(), RefundStatus::Processing);
}

#[test]
fn capture_method_gate() {
    let s = Stripe;
    assert_eq!(s.validate_capture_method(Some(CaptureMethod::Automatic)), Ok(()));
    assert_eq!(s.validate_capture_method(Some(CaptureMethod::Manual)), Ok(()));
    assert_eq!(s.validate_capture_method(None), Ok(()));
    assert_eq!(
        s.validate_capture_method(Some(CaptureMethod::ManualMultiple)),
        Err(ConnectorError::NotSupported {
            message: "manual_multiple".to_string(),
            connector: "stripe".to_string(),
        })
    );
    assert_eq!(
        s.validate_capture_method(Some(CaptureMethod::Scheduled)),
        Err(ConnectorError::NotSupported {
            message: "scheduled".to_string(),
            connector: "stripe".to_string(),
        })
    );
}

#[test]
fn headers_hold_content_type_and_authorization() {
    let s = Stripe;
    let data = authorize_data(500, PaymentMethodData::Card(card()), None, key_auth());
    let h = match s.get_headers(&data, &connectors()) {
        Ok(h) => h,
        Err(e) => panic!("unexpected error {:?}", e),
    };
    let v = header_view(&h);
    assert_eq!(
        v,
        vec![
            ("Content-Type".to_string(), false, "application/json".to_string()),
            ("Authorization".to_string(), true, "sk_test_key".to_string()),
        ]
    );
    assert_eq!(v.iter().filter(|e| e.0 == "Content-Type").count(), 1);
}

#[test]
fn headers_reject_other_credentials() {
    let s = Stripe;
    let auth = ConnectorAuthType::BodyKey { api_key: secret("a"), key1: secret("b") };
    let data = authorize_data(500, PaymentMethodData::Card(card()), None, auth);
    assert!(matches!(
        s.build_headers(&data, &connectors()),
        Err(ConnectorError::FailedToObtainAuthType)
    ));
    assert!(matches!(
        StripeAuthType::try_from(&ConnectorAuthType::NoKey),
        Err(ConnectorError::FailedToObtainAuthType)
    ));
    match StripeAuthType::try_from(&key_auth()) {
        Ok(a) => assert_eq!(a.apikey.expose(), "sk_test_key"),
        Err(e) => panic!("unexpected error {:?}", e),
    }
}

#[test]
fn url_appends_charges() {
    let s = Stripe;
    let data = authorize_data(500, PaymentMethodData::Card(card()), None, key_auth());
    assert_eq!(s.get_url(&data, &connectors()), Ok("https://api.example.com/charges".to_string()));
    assert_eq!(s.base_url(&connectors()), "https://api.example.com");
    assert_eq!(s.id(), "stripe");
    assert_eq!(s.get_content_type(), "application/json");
    assert_eq!(s.common_get_content_type(), "application/json");
    assert_eq!(s.get_currency_unit(), CurrencyUnit::Minor);
}

#[test]
fn unsupported_operations_are_not_implemented() {
    let s = Stripe;
    let data = authorize_data(500, PaymentMethodData::Card(card()), None, key_auth());
    assert!(s.supports(Flow::Authorize));
    assert!(!s.supports(Flow::Capture));
    assert_eq!(
        s.get_flow_url(Flow::Void, &data, &connectors()),
        Err(ConnectorError::NotImplemented("get_url method".to_string()))
    );
    assert_eq!(
        s.get_flow_url(Flow::Authorize, &data, &connectors()),
        Ok("https://api.example.com/charges".to_string())
    );
}

#[test]
fn body_for_card_payment() {
    let data = authorize_data(
        500,
        PaymentMethodData::Card(card()),
        Some(CaptureMethod::Manual),
        key_auth(),
    );
    let item = stripeRouterData::try_from((&CurrencyUnit::Minor, Currency::USD, 500, &data))
        .unwrap();
    assert_eq!(item.amount, 500);
    let w = stripeAuthorizeRequest::try_from(&item).unwrap();
    assert_eq!(w.amount, "500");
    assert_eq!(w.currency, Currency::USD);
    assert_eq!(w.captured, "false");
    assert_eq!(w.card.number.expose(), "4242424242424242");
    assert_eq!(w.card.exp_month.expose(), "10");
    assert_eq!(w.card.exp_year.expose(), "2030");
    assert_eq!(w.card.cvc.expose(), "123");
    assert_eq!(w.card.cardholder_name.expose(), "Jane Doe");
}

#[test]
fn body_rejects_other_payment_methods() {
    let s = Stripe;
    let data = authorize_data(500, PaymentMethodData::Wallet, None, key_auth());
    assert!(matches!(
        s.get_request_body(&data),
        Err(ConnectorError::NotImplemented(ref m)) if m == "payment method"
    ));
    assert!(matches!(
        s.build_request(&data, &connectors()),
        Err(ConnectorError::NotImplemented(ref m)) if m == "payment method"
    ));
}

#[test]
fn body_rejects_multiple_capture() {
    let s = Stripe;
    let data = authorize_data(
        500,
        PaymentMethodData::Card(card()),
        Some(CaptureMethod::ManualMultiple),
        key_auth(),
    );
    assert!(matches!(
        s.get_request_body(&data),
        Err(ConnectorError::CaptureMethodNotSupported)
    ));
}

#[test]
fn amount_round_trip_through_body_and_reply() {
    let s = Stripe;
    let data = authorize_data(1000, PaymentMethodData::Card(card()), None, key_auth());
    let body = match s.get_request_body(&data) {
        Ok(Some(w)) => w,
        _ => panic!("no body"),
    };
    assert_eq!(body.amount, "1000");
    let r = reply("ch_9", &body.amount, stripeAttemptStatus::Pending);
    assert_eq!(
        r.canonical_amount(),
        Some(CanonicalAmount { amount: 1000, currency: Currency::USD })
    );
    assert_eq!(reply("ch_9", "1e3", stripeAttemptStatus::Pending).canonical_amount(), None);
}

#[test]
fn error_reply_wins_on_failure_status() {
    let s = Stripe;
    assert_eq!(s.response_shape(402), ResponseShape::Error);
    assert_eq!(s.response_shape(200), ResponseShape::Success);
    assert_eq!(s.response_shape(299), ResponseShape::Success);
    assert_eq!(s.response_shape(300), ResponseShape::Error);
    let data = authorize_data(500, PaymentMethodData::Card(card()), None, key_auth());
    let err = ErrorResponse {
        status_code: 402,
        code: "card_declined".to_string(),
        message: "Your card was declined.".to_string(),
        reason: Some("insufficient_funds".to_string()),
    };
    let out = s.handle_reply(
        data,
        402,
        Some(reply("ch_1", "500", stripeAttemptStatus::Successful)),
        Some(err),
    );
    match out {
        Ok(AuthorizeOutcome::Rejected(e)) => assert_eq!(
            e,
            CanonicalErrorResponse {
                status_code: 402,
                code: "card_declined".to_string(),
                message: "Your card was declined.".to_string(),
                reason: Some("insufficient_funds".to_string()),
            }
        ),
        _ => panic!("expected a rejection"),
    }
}

#[test]
fn unreadable_replies_fail_deserialization() {
    let s = Stripe;
    let data = authorize_data(500, PaymentMethodData::Card(card()), None, key_auth());
    assert!(matches!(
        s.handle_reply(data, 500, None, None),
        Err(ConnectorError::ResponseDeserializationFailed { ref target }) if target == "ErrorResponse"
    ));
    let data = authorize_data(500, PaymentMethodData::Card(card()), None, key_auth());
    assert!(matches!(
        s.handle_response(data, 200, None),
        Err(ConnectorError::ResponseDeserializationFailed { ref target })
            if target == "StripeAuthorizeResponse"
    ));
    assert_eq!(
        s.get_error_response(500, None),
        Err(ConnectorError::ResponseDeserializationFailed { target: "ErrorResponse".to_string() })
    );
}

#[test]
fn authorization_end_to_end() {
    let s = Stripe;
    let data = authorize_data(
        500,
        PaymentMethodData::Card(card()),
        Some(CaptureMethod::Automatic),
        key_auth(),
    );
    assert_eq!(s.validate_capture_method(data.request.capture_method), Ok(()));
    let req = match s.build_request(&data, &connectors()) {
        Ok(Some(q)) => q,
        _ => panic!("no request"),
    };
    assert_eq!(req.method, Method::Post);
    assert_eq!(req.url, "https://api.example.com/charges");
    assert_eq!(header_view(&req.headers).len(), 2);
    let body = req.body.unwrap();
    assert_eq!(body.amount, "500");
    assert_eq!(body.currency, Currency::USD);
    assert_eq!(body.captured, "true");
    assert_eq!(body.card.number.expose(), "4242424242424242");
    let out = s.handle_reply(
        data,
        200,
        Some(reply("ch_1", "500", stripeAttemptStatus::Successful)),
        None,
    );
    match out {
        Ok(AuthorizeOutcome::Completed(d)) => {
            assert_eq!(d.status, AttemptStatus::Charged);
            assert_eq!(
                d.response,
                Some(Ok(PaymentsResponseData {
                    resource_id: ResponseId::ConnectorTransactionId("ch_1".to_string()),
                }))
            );
            assert_eq!(d.request.amount, 500);
        },
        _ => panic!("expected a completed call"),
    }
}

#[test]
fn failed_and_pending_replies_map_status() {
    let s = Stripe;
    let data = authorize_data(500, PaymentMethodData::Card(card()), None, key_auth());
    let d = s.handle_response(data, 200, Some(reply("ch_2", "500", stripeAttemptStatus::Failed)))
        .unwrap();
    assert_eq!(d.status, AttemptStatus::Failure);
    let data = authorize_data(500, PaymentMethodData::Card(card()), None, key_auth());
    let d = PaymentsAuthorizeRouterData::try_from(ResponseRouterData {
        response: reply("ch_3", "500", stripeAttemptStatus::Pending),
        data,
        http_code: 200,
    })
    .unwrap();
    assert_eq!(d.status, AttemptStatus::Pending);
}

#[test]
fn refund_request_and_reply() {
    let data = RefundsRouterData {
        connector_auth_type: key_auth(),
        request: RefundsData {
            refund_id: "ref_1".to_string(),
            connector_transaction_id: "ch_1".to_string(),
            currency: Currency::USD,
            refund_amount: 250,
        },
        response: None,
    };
    assert_eq!(RefundRequest::try_from(&data).unwrap().amount, 250);
    let d = RefundsRouterData::try_from(ResponseRouterData {
        response: RefundResponse { id: "re_1".to_string(), status: RefundStatus::Succeeded },
        data,
        http_code: 200,
    })
    .unwrap();
    let r = d.response.unwrap().unwrap();
    assert_eq!(r.connector_refund_id, "re_1");
    assert_eq!(r.refund_status, stripe_connector::model::RefundStatus::Success);
    assert_eq!(d.request.refund_amount, 250);
}

#[test]
fn webhooks_are_not_implemented() {
    let s = Stripe;
    let w = IncomingWebhookRequestDetails { headers: vec![], body: b"{}".to_vec() };
    assert_eq!(s.get_webhook_object_reference_id(&w), Err(ConnectorError::WebhooksNotImplemented));
    assert_eq!(s.get_webhook_event_type(&w), Err(ConnectorError::WebhooksNotImplemented));
    assert!(matches!(
        s.get_webhook_resource_object(&w),
        Err(ConnectorError::WebhooksNotImplemented)
    ));
}
