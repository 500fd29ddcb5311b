use mcd_client::envelope::{Method, RequestEnvelope};
use mcd_client::json::Json;
use mcd_client::ApiClient;
use mcd_client::ClientError;

fn client() -> ApiClient {
    ApiClient::new(
        "https://ap-prod.api.mcd.com".to_string(),
        "CLIENT-ID".to_string(),
    )
}

fn authed_client() -> ApiClient {
    let mut c = client();
    c.set_auth_token("AUTH-TOKEN");
    c
}

fn header<'a>(env: &'a RequestEnvelope, name: &str) -> &'a str {
    env.header_value(name)
        .expect("header should be present")
        .as_str()
}

#[test]
fn token_exchange_uses_basic_auth_and_duplicated_secret_header() {
    let c = client();
    let env = c.security_auth_token("SECRET-S").expect("no precondition");
    assert_eq!(env.method, Method::Post);
    assert_eq!(env.path, "v1/security/auth/token");
    assert_eq!(
        env.query,
        vec![("grantType".to_string(), "client_credentials".to_string())]
    );
    // both credentials derive from the same input value
    assert_eq!(
        env.basic_auth,
        Some(("CLIENT-ID".to_string(), "SECRET-S".to_string()))
    );
    assert_eq!(header(&env, "mcd-clientsecret"), "SECRET-S");
    assert_eq!(
        header(&env, "content-type"),
        "application/x-www-form-urlencoded; charset=UTF-8"
    );
    assert!(env.body.is_none());
}

#[test]
fn every_request_carries_the_fixed_fingerprint() {
    let c = authed_client();
    let env = c.get_customer_points().expect("token is set");
    assert_eq!(header(&env, "accept-encoding"), "gzip");
    assert_eq!(header(&env, "accept-charset"), "UTF-8");
    assert_eq!(header(&env, "accept-language"), "en-AU");
    assert_eq!(
        header(&env, "content-type"),
        "application/json; charset=UTF-8"
    );
    assert_eq!(header(&env, "mcd-clientid"), "CLIENT-ID");
    assert_eq!(
        header(&env, "user-agent"),
        "MCDSDK/20.0.14 (Android; 31; en-AU) GMA/6.2"
    );
    assert_eq!(header(&env, "mcd-sourceapp"), "GMA");
    assert_eq!(header(&env, "mcd-marketid"), "AU");
    assert_eq!(header(&env, "authorization"), "Bearer AUTH-TOKEN");
}

#[test]
fn request_uuid_has_hyphenated_shape_and_changes_per_request() {
    let c = authed_client();
    let a = c.get_customer_points().expect("token is set");
    let b = c.get_customer_points().expect("token is set");
    let ua = header(&a, "mcd-uuid").to_string();
    let ub = header(&b, "mcd-uuid").to_string();
    assert_eq!(ua.len(), 36);
    for (i, ch) in ua.chars().enumerate() {
        if i == 8 || i == 13 || i == 18 || i == 23 {
            assert_eq!(ch, '-');
        } else {
            assert!(ch.is_ascii_hexdigit() && !ch.is_ascii_uppercase());
        }
    }
    assert_ne!(ua, ub, "two requests should carry different identifiers");
}

#[test]
fn gated_calls_fail_fast_without_the_session_token() {
    let c = client();
    assert_eq!(
        c.get_offers("10000", "-32.0117", "115.8845", "", "480").unwrap_err(),
        ClientError::MissingAuthToken
    );
    assert_eq!(
        c.restaurant_location("20", "-32.0117", "115.8845", "summary")
            .unwrap_err(),
        ClientError::MissingAuthToken
    );
    assert_eq!(
        c.offer_details("166870").unwrap_err(),
        ClientError::MissingAuthToken
    );
    assert_eq!(
        c.get_offers_dealstack("480", "951488").unwrap_err(),
        ClientError::MissingAuthToken
    );
    assert_eq!(
        c.add_to_offers_dealstack("166870", "480", "951488").unwrap_err(),
        ClientError::MissingAuthToken
    );
    assert_eq!(
        c.remove_from_offers_dealstack("1139347703", "166870", "480", "951488")
            .unwrap_err(),
        ClientError::MissingAuthToken
    );
    assert_eq!(
        c.customer_login_refresh("REFRESH").unwrap_err(),
        ClientError::MissingAuthToken
    );
    assert_eq!(
        c.get_customer_points().unwrap_err(),
        ClientError::MissingAuthToken
    );
}

#[test]
fn login_fails_fast_without_the_login_token() {
    let c = client();
    assert_eq!(
        c.customer_login("user@example.com", "hunter2", "SENSOR")
            .unwrap_err(),
        ClientError::MissingLoginToken
    );
}

#[test]
fn login_builds_nested_body_with_fresh_device_id() {
    let mut c = client();
    c.set_login_token("LOGIN-TOKEN");
    let env = c
        .customer_login("user@example.com", "hunter2", "SENSOR-BLOB")
        .expect("login token is set");
    assert_eq!(env.method, Method::Post);
    assert_eq!(env.path, "exp/v1/customer/login");
    assert_eq!(header(&env, "authorization"), "Bearer LOGIN-TOKEN");
    assert_eq!(header(&env, "x-acf-sensor-data"), "SENSOR-BLOB");
    let body = env.body.as_ref().expect("login sends a body");
    let creds = body.get("credentials").expect("credentials present");
    match creds.get("loginUsername").expect("username present") {
        Json::Str(s) => assert_eq!(s, "user@example.com"),
        other => panic!("unexpected value: {:?}", other),
    }
    match creds.get("type").expect("type present") {
        Json::Str(s) => assert_eq!(s, "email"),
        other => panic!("unexpected value: {:?}", other),
    }
    let device_id = match body.get("deviceId").expect("device id present") {
        Json::Str(s) => s.clone(),
        other => panic!("unexpected value: {:?}", other),
    };
    assert_eq!(device_id.len(), 16);
    assert!(device_id.chars().all(|ch| ch.is_ascii_alphanumeric()));
}

#[test]
fn two_logins_draw_different_device_ids() {
    let mut c = client();
    c.set_login_token("LOGIN-TOKEN");
    let device_of = |env: &RequestEnvelope| match env
        .body
        .as_ref()
        .unwrap()
        .get("deviceId")
        .unwrap()
    {
        Json::Str(s) => s.clone(),
        other => panic!("unexpected value: {:?}", other),
    };
    let a = c.customer_login("u", "p", "s").unwrap();
    let b = c.customer_login("u", "p", "s").unwrap();
    assert_ne!(device_of(&a), device_of(&b));
}

#[test]
fn offers_query_carries_all_inputs() {
    let c = authed_client();
    let env = c
        .get_offers("10000", "-32.0117", "115.8845", "", "480")
        .expect("token is set");
    assert_eq!(env.method, Method::Get);
    assert_eq!(env.path, "exp/v1/offers");
    assert_eq!(
        env.query,
        vec![
            ("distance".to_string(), "10000".to_string()),
            ("latitude".to_string(), "-32.0117".to_string()),
            ("longitude".to_string(), "115.8845".to_string()),
            ("optOuts".to_string(), "".to_string()),
            ("timezoneOffsetInMinutes".to_string(), "480".to_string()),
        ]
    );
    assert!(env.body.is_none());
}

#[test]
fn restaurant_location_query_carries_all_inputs() {
    let c = authed_client();
    let env = c
        .restaurant_location("20", "-32.0117", "115.8845", "summary")
        .expect("token is set");
    assert_eq!(env.path, "exp/v1/restaurant/location");
    assert_eq!(
        env.query,
        vec![
            ("distance".to_string(), "20".to_string()),
            ("latitude".to_string(), "-32.0117".to_string()),
            ("longitude".to_string(), "115.8845".to_string()),
            ("filter".to_string(), "summary".to_string()),
        ]
    );
}

#[test]
fn offer_details_puts_the_id_in_the_path() {
    let c = authed_client();
    let env = c.offer_details("166870").expect("token is set");
    assert_eq!(env.method, Method::Get);
    assert_eq!(env.path, "exp/v1/offers/details/166870");
    assert!(env.query.is_empty());
}

#[test]
fn dealstack_listing_and_addition() {
    let c = authed_client();
    let listing = c.get_offers_dealstack("480", "951488").unwrap();
    assert_eq!(listing.method, Method::Get);
    assert_eq!(listing.path, "exp/v1/offers/dealstack");
    assert_eq!(
        listing.query,
        vec![
            ("offset".to_string(), "480".to_string()),
            ("storeId".to_string(), "951488".to_string()),
        ]
    );
    let addition = c.add_to_offers_dealstack("166870", "480", "951488").unwrap();
    assert_eq!(addition.method, Method::Post);
    assert_eq!(addition.path, "exp/v1/offers/dealstack/166870");
    assert!(addition.body.is_none(), "no body despite the mutating path");
}

#[test]
fn dealstack_removal_sends_query_and_numeric_body() {
    let c = authed_client();
    let env = c
        .remove_from_offers_dealstack("1139347703", "166870", "480", "951488")
        .expect("inputs are numeric and token is set");
    assert_eq!(env.method, Method::Delete);
    assert_eq!(env.path, "exp/v1/offers/dealstack/offer/166870");
    assert_eq!(
        env.query,
        vec![
            ("offerId".to_string(), "1139347703".to_string()),
            ("offset".to_string(), "480".to_string()),
            ("storeId".to_string(), "951488".to_string()),
        ]
    );
    let body = env.body.as_ref().expect("removal sends a body");
    assert_eq!(
        body.to_text(),
        "{\"storeId\":\"951488\",\"offerId\":1139347703,\"offset\":480}"
    );
}

#[test]
fn dealstack_removal_rejects_non_numeric_ids_before_anything_else() {
    let c = authed_client();
    assert_eq!(
        c.remove_from_offers_dealstack("not-a-number", "166870", "480", "951488")
            .unwrap_err(),
        ClientError::InputParse
    );
    assert_eq!(
        c.remove_from_offers_dealstack("1139347703", "166870", "4x80", "951488")
            .unwrap_err(),
        ClientError::InputParse
    );
    // the parse check comes first, as in the mobile app: even without a
    // token the numeric failure wins
    let bare = ApiClient::new("https://x".to_string(), "id".to_string());
    assert_eq!(
        bare.remove_from_offers_dealstack("abc", "1", "2", "3").unwrap_err(),
        ClientError::InputParse
    );
}

#[test]
fn refresh_sends_a_single_field_body() {
    let c = authed_client();
    let env = c.customer_login_refresh("REFRESH-TOKEN").unwrap();
    assert_eq!(env.method, Method::Post);
    assert_eq!(env.path, "exp/v1/customer/login/refresh");
    let body = env.body.as_ref().unwrap();
    assert_eq!(body.to_text(), "{\"refreshToken\":\"REFRESH-TOKEN\"}");
}

#[test]
fn tokens_are_plain_overwrites() {
    let mut c = client();
    c.set_auth_token("FIRST");
    let a = c.get_customer_points().unwrap();
    c.set_auth_token("SECOND");
    let b = c.get_customer_points().unwrap();
    assert_eq!(header(&a, "authorization"), "Bearer FIRST");
    assert_eq!(header(&b, "authorization"), "Bearer SECOND");
    assert_eq!(c.base_url(), "https://ap-prod.api.mcd.com");
}
