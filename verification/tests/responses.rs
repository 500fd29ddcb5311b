use mcd_client::json::Json;
use mcd_client::types::response::{
    decode_customer_point_response, decode_login_refresh_response, decode_login_response,
    decode_offer_dealstack_response, decode_offer_response, decode_token_response,
    AccessTokenResponse, Conditions, CustomerPointResponse, DealStack, LoginRefreshResponse,
    LoginResponse, Offer, OfferDealStack, OfferDealStackResponse, OfferList, OfferResponse,
    PointInformationResponse, PunchInfo, RecurringInfo, SaleAmountCondition, Status, Token,
    TokenResponse,
};
use mcd_client::ClientError;

fn ok_status() -> Status {
    Status {
        code: 0,
        type_field: "OK".to_string(),
        correlation_id: Some("abc-123".to_string()),
        message: "".to_string(),
    }
}

fn sample_offer() -> Offer {
    Offer {
        offer_id: 166870,
        offer_proposition_id: 1139347703,
        offer_type: 2,
        local_valid_from: "2023-01-01T00:00:00".to_string(),
        local_valid_to: "2023-01-31T23:59:59".to_string(),
        valid_from_utc: "2022-12-31T16:00:00Z".to_string(),
        valid_to_utc: "2023-01-31T15:59:59Z".to_string(),
        name: "Small Fries".to_string(),
        short_description: "Free small fries".to_string(),
        long_description: "A free small fries with any purchase.".to_string(),
        image_base_name: "fries.png".to_string(),
        image_base_language: None,
        redemption_mode: 1,
        is_archived: false,
        is_slpoffer: true,
        is_locked: false,
        is_redeemed: false,
        offer_bucket: "Loyalty".to_string(),
        punch_info: PunchInfo { total_punch: 5, current_punch: 2 },
        recurring_info: Some(RecurringInfo {
            total_redemption_quantity: Some(10),
            current_day_redemption_quantity: None,
            current_week_redemption_quantity: Some(1),
            current_month_redemption_quantity: None,
            max_redemption_quantity: Some(10),
            max_redemption_quantity_per_day: Some(1),
            max_redemption_quantity_per_week: None,
            max_redemption_quantity_per_month: None,
        }),
        conditions: Conditions {
            day_of_week_conditions: vec!["1".to_string(), "7".to_string()],
            date_conditions: vec![Json::Str("2023-01-26".to_string())],
            sale_amount_conditions: vec![SaleAmountCondition {
                include_eligible: true,
                minimum: 1,
                pre_tax_validation: true,
                include_non_product: false,
                exclude_codes: None,
                include_gift_coupons: true,
            }],
        },
        color_coding_info: 0,
        isvalid_total_order: false,
        creation_date_utc: "2022-12-01T00:00:00Z".to_string(),
        extend_to_eod: false,
        is_dynamic_expiration: false,
        daypart_filters: vec![],
    }
}

#[test]
fn offers_reply_with_null_payload_is_a_success() {
    let body = "{\"status\":{\"code\":0,\"type\":\"OK\",\"message\":\"\"},\"response\":null}";
    let reply = decode_offer_response(200, vec![], body).expect("valid envelope");
    assert_eq!(reply.status, 200);
    assert_eq!(reply.body.status.code, 0);
    assert_eq!(reply.body.status.type_field, "OK");
    assert_eq!(reply.body.status.correlation_id, None);
    assert!(reply.body.response.is_none(), "absent payload is not an error");
}

#[test]
fn offers_reply_with_absent_payload_field_is_a_success() {
    let body = "{\"status\":{\"code\":0,\"type\":\"OK\",\"message\":\"\"}}";
    let reply = decode_offer_response(200, vec![], body).expect("valid envelope");
    assert!(reply.body.response.is_none());
}

#[test]
fn http_error_status_is_not_interpreted() {
    let body =
        "{\"status\":{\"code\":40056,\"type\":\"Error\",\"message\":\"token expired\"},\"response\":null}";
    let reply = decode_offer_response(401, vec![], body).expect("shape matches, status is the caller's business");
    assert_eq!(reply.status, 401);
    assert_eq!(reply.body.status.code, 40056);
    assert_eq!(reply.body.status.message, "token expired");
}

#[test]
fn non_json_body_is_a_deserialization_error() {
    let err = decode_offer_response(200, vec![], "<html>gateway timeout</html>").unwrap_err();
    assert!(matches!(err, ClientError::Deserialization));
    assert_eq!(err.status(), None);
    // kept apart from transport failure
    let transport = ClientError::Transport { status: Some(502), message: "bad gateway".to_string() };
    assert_ne!(err, transport);
    assert_eq!(transport.status(), Some(502));
}

#[test]
fn mismatched_schema_is_a_deserialization_error() {
    let body = "{\"status\":{\"code\":\"zero\",\"type\":\"OK\",\"message\":\"\"}}";
    let err = decode_offer_response(200, vec![], body).unwrap_err();
    assert!(matches!(err, ClientError::Deserialization));
}

#[test]
fn headers_pass_through_untouched() {
    let body = "{\"status\":{\"code\":0,\"type\":\"OK\",\"message\":\"\"},\"response\":null}";
    let headers = vec![("content-type".to_string(), "application/json".to_string())];
    let reply = decode_offer_response(200, headers.clone(), body).unwrap();
    assert_eq!(reply.headers, headers);
}

#[test]
fn token_response_round_trips() {
    let value = TokenResponse {
        status: ok_status(),
        response: Token { token: "bearer-token-value".to_string(), expires: 3600 },
    };
    let text = value.to_json().to_text();
    let reply = decode_token_response(200, vec![], &text).expect("own text decodes");
    assert_eq!(reply.body, value);
}

#[test]
fn login_response_round_trips() {
    let value = LoginResponse {
        status: ok_status(),
        response: AccessTokenResponse {
            access_token: "access-token-value".to_string(),
            refresh_token: "refresh-token-value".to_string(),
        },
    };
    let text = value.to_json().to_text();
    let reply = decode_login_response(200, vec![], &text).expect("own text decodes");
    assert_eq!(reply.body, value);
}

#[test]
fn offer_response_round_trips_populated() {
    let value = OfferResponse {
        status: ok_status(),
        response: Some(OfferList { offers: vec![sample_offer()] }),
    };
    let text = value.to_json().to_text();
    let reply = decode_offer_response(200, vec![], &text).expect("own text decodes");
    assert_eq!(reply.body, value);
}

#[test]
fn offer_response_round_trips_with_absent_options() {
    let mut offer = sample_offer();
    offer.image_base_language = Some("en".to_string());
    offer.recurring_info = None;
    let value = OfferResponse {
        status: Status {
            code: 0,
            type_field: "OK".to_string(),
            correlation_id: None,
            message: "".to_string(),
        },
        response: Some(OfferList { offers: vec![offer] }),
    };
    let text = value.to_json().to_text();
    let reply = decode_offer_response(200, vec![], &text).expect("own text decodes");
    assert_eq!(reply.body, value);
}

#[test]
fn dealstack_response_round_trips() {
    let value = OfferDealStackResponse {
        status: ok_status(),
        response: Some(OfferDealStack {
            random_code: "ABC123".to_string(),
            bar_code_content: "code-content".to_string(),
            expiration_time: "2023-01-26T12:00:00".to_string(),
            deal_stack: Some(vec![DealStack {
                offer_id: 166870,
                offer_proposition_id: "1139347703".to_string(),
                state: Some("applied".to_string()),
            }]),
        }),
    };
    let text = value.to_json().to_text();
    let reply = decode_offer_dealstack_response(200, vec![], &text).expect("own text decodes");
    assert_eq!(reply.body, value);
}

#[test]
fn dealstack_response_round_trips_with_empty_stack() {
    let value = OfferDealStackResponse {
        status: ok_status(),
        response: Some(OfferDealStack {
            random_code: "ABC123".to_string(),
            bar_code_content: "code-content".to_string(),
            expiration_time: "2023-01-26T12:00:00".to_string(),
            deal_stack: None,
        }),
    };
    let text = value.to_json().to_text();
    let reply = decode_offer_dealstack_response(200, vec![], &text).expect("own text decodes");
    assert_eq!(reply.body, value);
}

#[test]
fn login_refresh_response_round_trips() {
    let value = LoginRefreshResponse {
        response: None,
        status: ok_status(),
    };
    let text = value.to_json().to_text();
    let reply = decode_login_refresh_response(200, vec![], &text).expect("own text decodes");
    assert_eq!(reply.body, value);
}

#[test]
fn customer_point_response_round_trips() {
    let value = CustomerPointResponse {
        status: ok_status(),
        response: PointInformationResponse { total_points: 1500, life_time_points: 9800 },
    };
    let text = value.to_json().to_text();
    let reply = decode_customer_point_response(200, vec![], &text).expect("own text decodes");
    assert_eq!(reply.body, value);
}

#[test]
fn token_decode_rejects_out_of_range_expiry() {
    let body =
        "{\"status\":{\"code\":0,\"type\":\"OK\",\"message\":\"\"},\"response\":{\"token\":\"t\",\"expires\":-1}}";
    let err = decode_token_response(200, vec![], body).unwrap_err();
    assert!(matches!(err, ClientError::Deserialization));
}

#[test]
fn point_decode_reads_exact_vendor_text() {
    let body = "{\"status\":{\"code\":0,\"type\":\"OK\",\"correlationID\":\"x-1\",\"message\":\"ok\"},\"response\":{\"totalPoints\":1500,\"lifeTimePoints\":9800}}";
    let reply = decode_customer_point_response(200, vec![], body).unwrap();
    assert_eq!(reply.body.response.total_points, 1500);
    assert_eq!(reply.body.response.life_time_points, 9800);
    assert_eq!(reply.body.status.correlation_id, Some("x-1".to_string()));
}
