//! The API client: one method per endpoint. Each method checks its token
//! precondition, then builds the complete request as a `RequestEnvelope` —
//! method, path, query, the fixed header fingerprint, and the JSON body where
//! the endpoint sends one. The surrounding application sends the envelope and
//! hands the response text to the decoders in `types`.
//!
//! Every request carries a freshly drawn identifier in the `mcd-uuid` header,
//! and the login call a freshly drawn device id; the `*_with_uuid` and
//! `*_with_ids` variants take those as arguments and carry exact contracts,
//! while the plain methods draw them and promise the same shape for some
//! fresh identifier.
use vstd::prelude::*;

use crate::envelope::{pairs_view, push_pair, Method, RequestEnvelope};
use crate::error::ClientError;
use crate::json::{Json, JsonV};
use crate::numbers::spec_parse_i64;

use rand::distributions::DistString;
use rand::SeedableRng;

verus! {

/// What a client holds: its base URL, its client id, and the two token
/// slots, both empty until their setters are called.
pub struct ClientV {
    pub base_url: Seq<char>,
    pub client_id: Seq<char>,
    pub login_token: Option<Seq<char>>,
    pub auth_token: Option<Seq<char>>,
}

/// The API client: a base URL, the client id, and the two bearer-token
/// slots. Tokens are set by explicit overwrites and never refreshed from
/// inside; each call reads whatever values the slots hold when the request
/// is built, and no call depends on any other. The transport lives in the
/// surrounding application, which sends the envelopes this client builds.
pub struct ApiClient {
    base_url: String,
    client_id: String,
    login_token: Option<String>,
    auth_token: Option<String>,
}

impl View for ApiClient {
    type V = ClientV;

    closed spec fn view(&self) -> ClientV {
        ClientV {
            base_url: self.base_url@,
            client_id: self.client_id@,
            login_token: match self.login_token {
                Some(t) => Some(t@),
                None => None,
            },
            auth_token: match self.auth_token {
                Some(t) => Some(t@),
                None => None,
            },
        }
    }
}

// ---------------------------------------------------------------------------
// Fresh identifiers
// ---------------------------------------------------------------------------
/// Lowercase hexadecimal digit.
pub open spec fn is_hex_lower(c: char) -> bool {
    ('0' <= c && c <= '9') || ('a' <= c && c <= 'f')
}

/// The shape of a hyphenated UUID: 36 characters, lowercase hex except for
/// hyphens at positions 8, 13, 18 and 23.
pub open spec fn is_uuid_text(s: Seq<char>) -> bool {
    s.len() == 36 && forall|i: int|
        0 <= i < 36 ==> if i == 8 || i == 13 || i == 18 || i == 23 {
            s[i] == '-'
        } else {
            is_hex_lower(#[trigger] s[i])
        }
}

/// ASCII letter or digit.
pub open spec fn is_ascii_alnum(c: char) -> bool {
    ('0' <= c && c <= '9') || ('a' <= c && c <= 'z') || ('A' <= c && c <= 'Z')
}

/// A 16-character device id as the login endpoint expects it.
pub open spec fn is_device_id_text(s: Seq<char>) -> bool {
    s.len() == 16 && forall|i: int| 0 <= i < 16 ==> is_ascii_alnum(#[trigger] s[i])
}

/// Relies on `uuid::Uuid::new_v4` and its hyphenated formatter: a fresh
/// random UUID printed as 36 characters, lowercase hex with hyphens at
/// positions 8, 13, 18 and 23. Nothing is assumed about which UUID comes
/// back, only about the shape of its text.
#[verifier::external_body]
fn gen_uuid() -> (r: String)
    ensures
        is_uuid_text(r@),
{
    uuid::Uuid::new_v4().as_hyphenated().to_string()
}

/// Relies on rand's `Alphanumeric` distribution, sampled through a `StdRng`
/// seeded from the operating system: 16 characters, each an ASCII letter or
/// digit. Nothing is assumed about which characters come back.
#[verifier::external_body]
fn gen_device_id() -> (r: String)
    ensures
        is_device_id_text(r@),
{
    let mut rng = rand::rngs::StdRng::from_entropy();
    rand::distributions::Alphanumeric.sample_string(&mut rng, 16)
}

// ---------------------------------------------------------------------------
// The fixed header fingerprint
// ---------------------------------------------------------------------------
/// The fixed headers every request carries: content negotiation, the client
/// id, the per-request UUID, and the mobile-app fingerprint the backend
/// expects.
pub open spec fn default_header_seq(client_id: Seq<char>, uuid: Seq<char>) -> Seq<
    (Seq<char>, Seq<char>),
> {
    seq![
        ("accept-encoding"@, "gzip"@),
        ("accept-charset"@, "UTF-8"@),
        ("accept-language"@, "en-AU"@),
        ("content-type"@, "application/json; charset=UTF-8"@),
        ("mcd-clientid"@, client_id),
        ("mcd-uuid"@, uuid),
        ("user-agent"@, "MCDSDK/20.0.14 (Android; 31; en-AU) GMA/6.2"@),
        ("mcd-sourceapp"@, "GMA"@),
        ("mcd-marketid"@, "AU"@),
    ]
}

/// The default headers followed by a bearer `authorization` header.
pub open spec fn auth_header_seq(client_id: Seq<char>, uuid: Seq<char>, token: Seq<char>) -> Seq<
    (Seq<char>, Seq<char>),
> {
    default_header_seq(client_id, uuid).push(("authorization"@, "Bearer "@ + token))
}

/// The headers of the token-exchange call: the fixed set with the content
/// type overridden to form-urlencoded, and the client secret duplicated into
/// its own header.
pub open spec fn token_header_seq(client_id: Seq<char>, uuid: Seq<char>, secret: Seq<char>) -> Seq<
    (Seq<char>, Seq<char>),
> {
    seq![
        ("accept-encoding"@, "gzip"@),
        ("accept-charset"@, "UTF-8"@),
        ("accept-language"@, "en-AU"@),
        ("content-type"@, "application/x-www-form-urlencoded; charset=UTF-8"@),
        ("mcd-clientid"@, client_id),
        ("mcd-uuid"@, uuid),
        ("user-agent"@, "MCDSDK/20.0.14 (Android; 31; en-AU) GMA/6.2"@),
        ("mcd-sourceapp"@, "GMA"@),
        ("mcd-marketid"@, "AU"@),
        ("mcd-clientsecret"@, secret),
    ]
}

/// The headers of the login call: bearer auth with the login token, then the
/// opaque anti-bot sensor data.
pub open spec fn login_header_seq(
    client_id: Seq<char>,
    uuid: Seq<char>,
    login_token: Seq<char>,
    sensor_data: Seq<char>,
) -> Seq<(Seq<char>, Seq<char>)> {
    auth_header_seq(client_id, uuid, login_token).push(("x-acf-sensor-data"@, sensor_data))
}

/// A bearer `authorization` value.
fn bearer_value(token: &str) -> (r: String)
    ensures
        r@ == "Bearer "@ + token@,
{
    let mut s = "Bearer ".to_owned();
    s.append(token);
    s
}

// ---------------------------------------------------------------------------
// Request bodies
// ---------------------------------------------------------------------------
/// The login body: nested credentials of type `email`, and the device id.
pub open spec fn login_body_view(
    username: Seq<char>,
    password: Seq<char>,
    device_id: Seq<char>,
) -> JsonV {
    JsonV::Obj(
        seq![
            (
                "credentials"@,
                JsonV::Obj(
                    seq![
                        ("loginUsername"@, JsonV::Str(username)),
                        ("password"@, JsonV::Str(password)),
                        ("type"@, JsonV::Str("email"@)),
                    ],
                ),
            ),
            ("deviceId"@, JsonV::Str(device_id)),
        ],
    )
}

fn login_body(username: &str, password: &str, device_id: &str) -> (r: Json)
    ensures
        r@ == login_body_view(username@, password@, device_id@),
{
    let mut creds: Vec<(String, Json)> = Vec::new();
    creds.push(("loginUsername".to_owned(), Json::Str(username.to_owned())));
    creds.push(("password".to_owned(), Json::Str(password.to_owned())));
    creds.push(("type".to_owned(), Json::Str("email".to_owned())));
    let mut top: Vec<(String, Json)> = Vec::new();
    top.push(("credentials".to_owned(), Json::Obj(creds)));
    top.push(("deviceId".to_owned(), Json::Str(device_id.to_owned())));
    let r = Json::Obj(top);
    proof {
        reveal_with_fuel(crate::json::json_view, 3);
        let inner = Json::Obj(creds);
        assert(inner@ matches JsonV::Obj(cf));
        assert(inner@->Obj_0[0] == ("loginUsername"@, JsonV::Str(username@)));
        assert(inner@->Obj_0[1] == ("password"@, JsonV::Str(password@)));
        assert(inner@->Obj_0[2] == ("type"@, JsonV::Str("email"@)));
        assert(inner@->Obj_0 =~= seq![
            ("loginUsername"@, JsonV::Str(username@)),
            ("password"@, JsonV::Str(password@)),
            ("type"@, JsonV::Str("email"@)),
        ]);
        assert(r@ matches JsonV::Obj(fs));
        assert(r@->Obj_0[0].0 == "credentials"@);
        assert(r@->Obj_0[0].1 == inner@);
        assert(r@->Obj_0[1] == ("deviceId"@, JsonV::Str(device_id@)));
        assert(r@->Obj_0 =~= seq![
            ("credentials"@, JsonV::Obj(seq![
                ("loginUsername"@, JsonV::Str(username@)),
                ("password"@, JsonV::Str(password@)),
                ("type"@, JsonV::Str("email"@)),
            ])),
            ("deviceId"@, JsonV::Str(device_id@)),
        ]);
        assert(r@ == login_body_view(username@, password@, device_id@));
    }
    r
}

/// The deal-stack removal body: the store id as a string, the offer id and
/// offset as numbers.
pub open spec fn remove_body_view(store_id: Seq<char>, offer_id: int, offset: int) -> JsonV {
    JsonV::Obj(
        seq![
            ("storeId"@, JsonV::Str(store_id)),
            ("offerId"@, JsonV::Int(offer_id)),
            ("offset"@, JsonV::Int(offset)),
        ],
    )
}

/// The refresh body: one field.
pub open spec fn refresh_body_view(refresh_token: Seq<char>) -> JsonV {
    JsonV::Obj(seq![("refreshToken"@, JsonV::Str(refresh_token))])
}

// ---------------------------------------------------------------------------
// Request shapes, one per endpoint
// ---------------------------------------------------------------------------
/// Token exchange: basic auth from client id and secret, the secret again in
/// its own header, form-urlencoded content type, fixed grant type.
pub open spec fn token_request_shape(
    c: ClientV,
    secret: Seq<char>,
    uuid: Seq<char>,
    env: RequestEnvelope,
) -> bool {
    &&& env.method is Post
    &&& env.path@ == "v1/security/auth/token"@
    &&& pairs_view(env.query) == seq![("grantType"@, "client_credentials"@)]
    &&& pairs_view(env.headers) == token_header_seq(c.client_id, uuid, secret)
    &&& env.body is None
    &&& env.basic_auth matches Some(auth) && auth.0@ == c.client_id && auth.1@ == secret
}

/// Customer login: bearer auth with the login token, sensor data header,
/// nested JSON body with a fresh device id.
pub open spec fn login_request_shape(
    c: ClientV,
    username: Seq<char>,
    password: Seq<char>,
    sensor_data: Seq<char>,
    device_id: Seq<char>,
    uuid: Seq<char>,
    env: RequestEnvelope,
) -> bool {
    &&& env.method is Post
    &&& env.path@ == "exp/v1/customer/login"@
    &&& pairs_view(env.query) == Seq::<(Seq<char>, Seq<char>)>::empty()
    &&& c.login_token matches Some(tok) && pairs_view(env.headers) == login_header_seq(
        c.client_id,
        uuid,
        tok,
        sensor_data,
    )
    &&& env.body matches Some(b) && b@ == login_body_view(username, password, device_id)
    &&& env.basic_auth is None
}

/// A GET under the session token: fixed path, given query, no body.
pub open spec fn auth_get_shape(
    c: ClientV,
    path: Seq<char>,
    query: Seq<(Seq<char>, Seq<char>)>,
    uuid: Seq<char>,
    env: RequestEnvelope,
) -> bool {
    &&& env.method is Get
    &&& env.path@ == path
    &&& pairs_view(env.query) == query
    &&& c.auth_token matches Some(tok) && pairs_view(env.headers) == auth_header_seq(
        c.client_id,
        uuid,
        tok,
    )
    &&& env.body is None
    &&& env.basic_auth is None
}

/// Adding to the deal stack: a POST with query parameters and no body.
pub open spec fn add_dealstack_shape(
    c: ClientV,
    offer_id: Seq<char>,
    offset: Seq<char>,
    store_id: Seq<char>,
    uuid: Seq<char>,
    env: RequestEnvelope,
) -> bool {
    &&& env.method is Post
    &&& env.path@ == "exp/v1/offers/dealstack/"@ + offer_id
    &&& pairs_view(env.query) == seq![("offset"@, offset), ("storeId"@, store_id)]
    &&& c.auth_token matches Some(tok) && pairs_view(env.headers) == auth_header_seq(
        c.client_id,
        uuid,
        tok,
    )
    &&& env.body is None
    &&& env.basic_auth is None
}

/// Removing from the deal stack: a DELETE with both a query string and a
/// JSON body, kept for fidelity with the mobile app's behaviour.
pub open spec fn remove_dealstack_shape(
    c: ClientV,
    offer_id: Seq<char>,
    offer_proposition_id: Seq<char>,
    offset: Seq<char>,
    store_id: Seq<char>,
    uuid: Seq<char>,
    env: RequestEnvelope,
) -> bool {
    &&& env.method is Delete
    &&& env.path@ == "exp/v1/offers/dealstack/offer/"@ + offer_proposition_id
    &&& pairs_view(env.query) == seq![
        ("offerId"@, offer_id),
        ("offset"@, offset),
        ("storeId"@, store_id),
    ]
    &&& c.auth_token matches Some(tok) && pairs_view(env.headers) == auth_header_seq(
        c.client_id,
        uuid,
        tok,
    )
    &&& spec_parse_i64(offer_id) matches Some(oid) && spec_parse_i64(offset) matches Some(off)
        && env.body matches Some(b) && b@ == remove_body_view(store_id, oid, off)
    &&& env.basic_auth is None
}

/// Login refresh: a POST with a one-field JSON body.
pub open spec fn refresh_request_shape(
    c: ClientV,
    refresh_token: Seq<char>,
    uuid: Seq<char>,
    env: RequestEnvelope,
) -> bool {
    &&& env.method is Post
    &&& env.path@ == "exp/v1/customer/login/refresh"@
    &&& pairs_view(env.query) == Seq::<(Seq<char>, Seq<char>)>::empty()
    &&& c.auth_token matches Some(tok) && pairs_view(env.headers) == auth_header_seq(
        c.client_id,
        uuid,
        tok,
    )
    &&& env.body matches Some(b) && b@ == refresh_body_view(refresh_token)
    &&& env.basic_auth is None
}

impl ApiClient {
    /// A client for the given backend, with both token slots empty.
    pub fn new(base_url: String, client_id: String) -> (r: ApiClient)
        ensures
            r@ == (ClientV {
                base_url: base_url@,
                client_id: client_id@,
                login_token: None,
                auth_token: None,
            }),
    {
        ApiClient { base_url, client_id, login_token: None, auth_token: None }
    }

    /// The base URL requests are sent under.
    pub fn base_url(&self) -> (r: &String)
        ensures
            r@ == self@.base_url,
    {
        &self.base_url
    }

    /// Stores the pre-authentication token the login call uses. A plain
    /// overwrite: no validation, no expiry tracking.
    pub fn set_login_token(&mut self, login_token: &str)
        ensures
            final(self)@ == (ClientV { login_token: Some(login_token@), ..old(self)@ }),
    {
        self.login_token = Some(login_token.to_owned());
    }

    /// Stores the session token all post-login calls use. A plain overwrite:
    /// no validation, no expiry tracking.
    pub fn set_auth_token(&mut self, auth_token: &str)
        ensures
            final(self)@ == (ClientV { auth_token: Some(auth_token@), ..old(self)@ }),
    {
        self.auth_token = Some(auth_token.to_owned());
    }

    /// The fixed header fingerprint with the given per-request UUID.
    fn default_headers(&self, request_uuid: &str) -> (r: Vec<(String, String)>)
        ensures
            pairs_view(r) == default_header_seq(self@.client_id, request_uuid@),
    {
        let mut h: Vec<(String, String)> = Vec::new();
        push_pair(&mut h, "accept-encoding", "gzip");
        push_pair(&mut h, "accept-charset", "UTF-8");
        push_pair(&mut h, "accept-language", "en-AU");
        push_pair(&mut h, "content-type", "application/json; charset=UTF-8");
        push_pair(&mut h, "mcd-clientid", self.client_id.as_str());
        push_pair(&mut h, "mcd-uuid", request_uuid);
        push_pair(&mut h, "user-agent", "MCDSDK/20.0.14 (Android; 31; en-AU) GMA/6.2");
        push_pair(&mut h, "mcd-sourceapp", "GMA");
        push_pair(&mut h, "mcd-marketid", "AU");
        proof {
            assert(pairs_view(h) =~= default_header_seq(self@.client_id, request_uuid@));
        }
        h
    }

    /// The fixed headers followed by a bearer `authorization` header, for
    /// the given token.
    fn auth_headers(&self, token: &str, request_uuid: &str) -> (r: Vec<(String, String)>)
        ensures
            pairs_view(r) == auth_header_seq(self@.client_id, request_uuid@, token@),
    {
        let mut h = self.default_headers(request_uuid);
        let bearer = bearer_value(token);
        push_pair(&mut h, "authorization", bearer.as_str());
        h
    }

    /// The session token, or the error every token-gated call returns when
    /// it is unset.
    fn require_auth_token(&self) -> (r: Result<&String, ClientError>)
        ensures
            match r {
                Ok(t) => self@.auth_token == Some(t@),
                Err(e) => self@.auth_token is None && e == ClientError::MissingAuthToken,
            },
    {
        match &self.auth_token {
            Some(t) => Ok(t),
            None => Err(ClientError::MissingAuthToken),
        }
    }

    /// The shared shape of the four GET endpoints under the session token.
    fn auth_get(&self, path: String, query: Vec<(String, String)>, request_uuid: &str) -> (r:
        Result<RequestEnvelope, ClientError>)
        ensures
            match r {
                Ok(env) => self@.auth_token is Some && auth_get_shape(
                    self@,
                    path@,
                    pairs_view(query),
                    request_uuid@,
                    env,
                ),
                Err(e) => self@.auth_token is None && e == ClientError::MissingAuthToken,
            },
    {
        let token = match self.require_auth_token() {
            Ok(t) => t,
            Err(e) => {
                return Err(e);
            },
        };
        let headers = self.auth_headers(token.as_str(), request_uuid);
        Ok(
            RequestEnvelope {
                method: Method::Get,
                path,
                query,
                headers,
                body: None,
                basic_auth: None,
            },
        )
    }

    /// Token exchange, with the per-request UUID given by the caller.
    pub fn security_auth_token_with_uuid(&self, client_secret: &str, request_uuid: &str) -> (r:
        Result<RequestEnvelope, ClientError>)
        ensures
            r matches Ok(env) && token_request_shape(self@, client_secret@, request_uuid@, env),
    {
        // the token exchange is sent as a form post, not JSON: the fixed
        // fingerprint is rebuilt here with the overridden content type
        let mut h: Vec<(String, String)> = Vec::new();
        push_pair(&mut h, "accept-encoding", "gzip");
        push_pair(&mut h, "accept-charset", "UTF-8");
        push_pair(&mut h, "accept-language", "en-AU");
        push_pair(&mut h, "content-type", "application/x-www-form-urlencoded; charset=UTF-8");
        push_pair(&mut h, "mcd-clientid", self.client_id.as_str());
        push_pair(&mut h, "mcd-uuid", request_uuid);
        push_pair(&mut h, "user-agent", "MCDSDK/20.0.14 (Android; 31; en-AU) GMA/6.2");
        push_pair(&mut h, "mcd-sourceapp", "GMA");
        push_pair(&mut h, "mcd-marketid", "AU");
        push_pair(&mut h, "mcd-clientsecret", client_secret);
        proof {
            assert(pairs_view(h) =~= token_header_seq(
                self@.client_id,
                request_uuid@,
                client_secret@,
            ));
        }
        let mut query: Vec<(String, String)> = Vec::new();
        push_pair(&mut query, "grantType", "client_credentials");
        proof {
            assert(pairs_view(query) =~= seq![("grantType"@, "client_credentials"@)]);
        }
        Ok(
            RequestEnvelope {
                method: Method::Post,
                path: "v1/security/auth/token".to_owned(),
                query,
                headers: h,
                body: None,
                basic_auth: Some((self.client_id.clone(), client_secret.to_owned())),
            },
        )
    }

    /// Token exchange: HTTP basic auth from the client id and secret, the
    /// secret duplicated into its own header, a fixed grant type, and no
    /// token precondition.
    pub fn security_auth_token(&self, client_secret: &str) -> (r: Result<
        RequestEnvelope,
        ClientError,
    >)
        ensures
            r matches Ok(env) && (exists|u: Seq<char>| #![trigger is_uuid_text(u)]
                is_uuid_text(u) && token_request_shape(self@, client_secret@, u, env)),
    {
        let u = gen_uuid();
        let r = self.security_auth_token_with_uuid(client_secret, u.as_str());
        proof {
            assert(r matches Ok(env) ==> token_request_shape(self@, client_secret@, u@, env));
        }
        r
    }

    /// Customer login, with the device id and per-request UUID given by the
    /// caller.
    pub fn customer_login_with_ids(
        &self,
        login_username: &str,
        login_password: &str,
        sensor_data: &str,
        device_id: &str,
        request_uuid: &str,
    ) -> (r: Result<RequestEnvelope, ClientError>)
        ensures
            match r {
                Ok(env) => self@.login_token is Some && login_request_shape(
                    self@,
                    login_username@,
                    login_password@,
                    sensor_data@,
                    device_id@,
                    request_uuid@,
                    env,
                ),
                Err(e) => self@.login_token is None && e == ClientError::MissingLoginToken,
            },
    {
        let token = match &self.login_token {
            Some(t) => t,
            None => {
                return Err(ClientError::MissingLoginToken);
            },
        };
        let mut headers = self.auth_headers(token.as_str(), request_uuid);
        push_pair(&mut headers, "x-acf-sensor-data", sensor_data);
        let body = login_body(login_username, login_password, device_id);
        let query: Vec<(String, String)> = Vec::new();
        proof {
            assert(pairs_view(query) =~= Seq::<(Seq<char>, Seq<char>)>::empty());
        }
        Ok(
            RequestEnvelope {
                method: Method::Post,
                path: "exp/v1/customer/login".to_owned(),
                query,
                headers,
                body: Some(body),
                basic_auth: None,
            },
        )
    }

    /// Customer login: bearer auth with the login token, the opaque sensor
    /// data as a header, and a nested JSON body carrying the credentials and
    /// a freshly drawn 16-character alphanumeric device id.
    pub fn customer_login(
        &self,
        login_username: &str,
        login_password: &str,
        sensor_data: &str,
    ) -> (r: Result<RequestEnvelope, ClientError>)
        ensures
            match r {
                Ok(env) => self@.login_token is Some && (exists|d: Seq<char>, u: Seq<char>| #![trigger is_device_id_text(d), is_uuid_text(u)]
                    is_device_id_text(d) && is_uuid_text(u) && login_request_shape(
                        self@,
                        login_username@,
                        login_password@,
                        sensor_data@,
                        d,
                        u,
                        env,
                    )),
                Err(e) => self@.login_token is None && e == ClientError::MissingLoginToken,
            },
    {
        let d = gen_device_id();
        let u = gen_uuid();
        let r = self.customer_login_with_ids(
            login_username,
            login_password,
            sensor_data,
            d.as_str(),
            u.as_str(),
        );
        proof {
            assert(r matches Ok(env) ==> login_request_shape(
                    self@,
                    login_username@,
                    login_password@,
                    sensor_data@,
                    d@,
                    u@,
                    env,
                ));
        }
        r
    }

    /// Offer listing, with the per-request UUID given by the caller.
    pub fn get_offers_with_uuid(
        &self,
        distance: &str,
        latitude: &str,
        longitude: &str,
        opt_outs: &str,
        timezone_offset_in_minutes: &str,
        request_uuid: &str,
    ) -> (r: Result<RequestEnvelope, ClientError>)
        ensures
            match r {
                Ok(env) => self@.auth_token is Some && auth_get_shape(
                    self@,
                    "exp/v1/offers"@,
                    seq![
                        ("distance"@, distance@),
                        ("latitude"@, latitude@),
                        ("longitude"@, longitude@),
                        ("optOuts"@, opt_outs@),
                        ("timezoneOffsetInMinutes"@, timezone_offset_in_minutes@),
                    ],
                    request_uuid@,
                    env,
                ),
                Err(e) => self@.auth_token is None && e == ClientError::MissingAuthToken,
            },
    {
        let mut query: Vec<(String, String)> = Vec::new();
        push_pair(&mut query, "distance", distance);
        push_pair(&mut query, "latitude", latitude);
        push_pair(&mut query, "longitude", longitude);
        push_pair(&mut query, "optOuts", opt_outs);
        push_pair(&mut query, "timezoneOffsetInMinutes", timezone_offset_in_minutes);
        proof {
            assert(pairs_view(query) =~= seq![
                ("distance"@, distance@),
                ("latitude"@, latitude@),
                ("longitude"@, longitude@),
                ("optOuts"@, opt_outs@),
                ("timezoneOffsetInMinutes"@, timezone_offset_in_minutes@),
            ]);
        }
        self.auth_get("exp/v1/offers".to_owned(), query, request_uuid)
    }

    /// Offer listing: all inputs go to the query string; needs the session
    /// token.
    pub fn get_offers(
        &self,
        distance: &str,
        latitude: &str,
        longitude: &str,
        opt_outs: &str,
        timezone_offset_in_minutes: &str,
    ) -> (r: Result<RequestEnvelope, ClientError>)
        ensures
            match r {
                Ok(env) => self@.auth_token is Some && (exists|u: Seq<char>| #![trigger is_uuid_text(u)]
                    is_uuid_text(u) && auth_get_shape(
                        self@,
                        "exp/v1/offers"@,
                        seq![
                            ("distance"@, distance@),
                            ("latitude"@, latitude@),
                            ("longitude"@, longitude@),
                            ("optOuts"@, opt_outs@),
                            ("timezoneOffsetInMinutes"@, timezone_offset_in_minutes@),
                        ],
                        u,
                        env,
                    )),
                Err(e) => self@.auth_token is None && e == ClientError::MissingAuthToken,
            },
    {
        let u = gen_uuid();
        let r = self.get_offers_with_uuid(
            distance,
            latitude,
            longitude,
            opt_outs,
            timezone_offset_in_minutes,
            u.as_str(),
        );
        proof {
            assert(r matches Ok(env) ==> auth_get_shape(
                    self@,
                    "exp/v1/offers"@,
                    seq![
                        ("distance"@, distance@),
                        ("latitude"@, latitude@),
                        ("longitude"@, longitude@),
                        ("optOuts"@, opt_outs@),
                        ("timezoneOffsetInMinutes"@, timezone_offset_in_minutes@),
                    ],
                    u@,
                    env,
                ));
        }
        r
    }

    /// Restaurant search, with the per-request UUID given by the caller.
    pub fn restaurant_location_with_uuid(
        &self,
        distance: &str,
        latitude: &str,
        longitude: &str,
        filter: &str,
        request_uuid: &str,
    ) -> (r: Result<RequestEnvelope, ClientError>)
        ensures
            match r {
                Ok(env) => self@.auth_token is Some && auth_get_shape(
                    self@,
                    "exp/v1/restaurant/location"@,
                    seq![
                        ("distance"@, distance@),
                        ("latitude"@, latitude@),
                        ("longitude"@, longitude@),
                        ("filter"@, filter@),
                    ],
                    request_uuid@,
                    env,
                ),
                Err(e) => self@.auth_token is None && e == ClientError::MissingAuthToken,
            },
    {
        let mut query: Vec<(String, String)> = Vec::new();
        push_pair(&mut query, "distance", distance);
        push_pair(&mut query, "latitude", latitude);
        push_pair(&mut query, "longitude", longitude);
        push_pair(&mut query, "filter", filter);
        proof {
            assert(pairs_view(query) =~= seq![
                ("distance"@, distance@),
                ("latitude"@, latitude@),
                ("longitude"@, longitude@),
                ("filter"@, filter@),
            ]);
        }
        self.auth_get("exp/v1/restaurant/location".to_owned(), query, request_uuid)
    }

    /// Restaurant search near a point; needs the session token.
    pub fn restaurant_location(
        &self,
        distance: &str,
        latitude: &str,
        longitude: &str,
        filter: &str,
    ) -> (r: Result<RequestEnvelope, ClientError>)
        ensures
            match r {
                Ok(env) => self@.auth_token is Some && (exists|u: Seq<char>| #![trigger is_uuid_text(u)]
                    is_uuid_text(u) && auth_get_shape(
                        self@,
                        "exp/v1/restaurant/location"@,
                        seq![
                            ("distance"@, distance@),
                            ("latitude"@, latitude@),
                            ("longitude"@, longitude@),
                            ("filter"@, filter@),
                        ],
                        u,
                        env,
                    )),
                Err(e) => self@.auth_token is None && e == ClientError::MissingAuthToken,
            },
    {
        let u = gen_uuid();
        let r = self.restaurant_location_with_uuid(
            distance,
            latitude,
            longitude,
            filter,
            u.as_str(),
        );
        proof {
            assert(r matches Ok(env) ==> auth_get_shape(
                    self@,
                    "exp/v1/restaurant/location"@,
                    seq![
                        ("distance"@, distance@),
                        ("latitude"@, latitude@),
                        ("longitude"@, longitude@),
                        ("filter"@, filter@),
                    ],
                    u@,
                    env,
                ));
        }
        r
    }

    /// Offer details, with the per-request UUID given by the caller.
    pub fn offer_details_with_uuid(&self, offer_id: &str, request_uuid: &str) -> (r: Result<
        RequestEnvelope,
        ClientError,
    >)
        ensures
            match r {
                Ok(env) => self@.auth_token is Some && auth_get_shape(
                    self@,
                    "exp/v1/offers/details/"@ + offer_id@,
                    Seq::empty(),
                    request_uuid@,
                    env,
                ),
                Err(e) => self@.auth_token is None && e == ClientError::MissingAuthToken,
            },
    {
        let mut path = "exp/v1/offers/details/".to_owned();
        path.append(offer_id);
        let query: Vec<(String, String)> = Vec::new();
        proof {
            assert(pairs_view(query) =~= Seq::<(Seq<char>, Seq<char>)>::empty());
        }
        self.auth_get(path, query, request_uuid)
    }

    /// Offer details: the offer id goes into the path; needs the session
    /// token.
    pub fn offer_details(&self, offer_id: &str) -> (r: Result<RequestEnvelope, ClientError>)
        ensures
            match r {
                Ok(env) => self@.auth_token is Some && (exists|u: Seq<char>| #![trigger is_uuid_text(u)]
                    is_uuid_text(u) && auth_get_shape(
                        self@,
                        "exp/v1/offers/details/"@ + offer_id@,
                        Seq::empty(),
                        u,
                        env,
                    )),
                Err(e) => self@.auth_token is None && e == ClientError::MissingAuthToken,
            },
    {
        let u = gen_uuid();
        let r = self.offer_details_with_uuid(offer_id, u.as_str());
        proof {
            assert(r matches Ok(env) ==> auth_get_shape(
                    self@,
                    "exp/v1/offers/details/"@ + offer_id@,
                    Seq::empty(),
                    u@,
                    env,
                ));
        }
        r
    }

    /// Deal stack listing, with the per-request UUID given by the caller.
    pub fn get_offers_dealstack_with_uuid(&self, offset: &str, store_id: &str, request_uuid: &str)
        -> (r: Result<RequestEnvelope, ClientError>)
        ensures
            match r {
                Ok(env) => self@.auth_token is Some && auth_get_shape(
                    self@,
                    "exp/v1/offers/dealstack"@,
                    seq![("offset"@, offset@), ("storeId"@, store_id@)],
                    request_uuid@,
                    env,
                ),
                Err(e) => self@.auth_token is None && e == ClientError::MissingAuthToken,
            },
    {
        let mut query: Vec<(String, String)> = Vec::new();
        push_pair(&mut query, "offset", offset);
        push_pair(&mut query, "storeId", store_id);
        proof {
            assert(pairs_view(query) =~= seq![("offset"@, offset@), ("storeId"@, store_id@)]);
        }
        self.auth_get("exp/v1/offers/dealstack".to_owned(), query, request_uuid)
    }

    /// The deal stack at a store; needs the session token.
    pub fn get_offers_dealstack(&self, offset: &str, store_id: &str) -> (r: Result<
        RequestEnvelope,
        ClientError,
    >)
        ensures
            match r {
                Ok(env) => self@.auth_token is Some && (exists|u: Seq<char>| #![trigger is_uuid_text(u)]
                    is_uuid_text(u) && auth_get_shape(
                        self@,
                        "exp/v1/offers/dealstack"@,
                        seq![("offset"@, offset@), ("storeId"@, store_id@)],
                        u,
                        env,
                    )),
                Err(e) => self@.auth_token is None && e == ClientError::MissingAuthToken,
            },
    {
        let u = gen_uuid();
        let r = self.get_offers_dealstack_with_uuid(offset, store_id, u.as_str());
        proof {
            assert(r matches Ok(env) ==> auth_get_shape(
                    self@,
                    "exp/v1/offers/dealstack"@,
                    seq![("offset"@, offset@), ("storeId"@, store_id@)],
                    u@,
                    env,
                ));
        }
        r
    }

    /// Deal stack addition, with the per-request UUID given by the caller.
    pub fn add_to_offers_dealstack_with_uuid(
        &self,
        offer_id: &str,
        offset: &str,
        store_id: &str,
        request_uuid: &str,
    ) -> (r: Result<RequestEnvelope, ClientError>)
        ensures
            match r {
                Ok(env) => self@.auth_token is Some && add_dealstack_shape(
                    self@,
                    offer_id@,
                    offset@,
                    store_id@,
                    request_uuid@,
                    env,
                ),
                Err(e) => self@.auth_token is None && e == ClientError::MissingAuthToken,
            },
    {
        let token = match self.require_auth_token() {
            Ok(t) => t,
            Err(e) => {
                return Err(e);
            },
        };
        let headers = self.auth_headers(token.as_str(), request_uuid);
        let mut query: Vec<(String, String)> = Vec::new();
        push_pair(&mut query, "offset", offset);
        push_pair(&mut query, "storeId", store_id);
        proof {
            assert(pairs_view(query) =~= seq![("offset"@, offset@), ("storeId"@, store_id@)]);
        }
        let mut path = "exp/v1/offers/dealstack/".to_owned();
        path.append(offer_id);
        Ok(
            RequestEnvelope {
                method: Method::Post,
                path,
                query,
                headers,
                body: None,
                basic_auth: None,
            },
        )
    }

    /// Applies an offer to the deal stack. No body is sent despite the
    /// mutating path; needs the session token.
    pub fn add_to_offers_dealstack(&self, offer_id: &str, offset: &str, store_id: &str) -> (r:
        Result<RequestEnvelope, ClientError>)
        ensures
            match r {
                Ok(env) => self@.auth_token is Some && (exists|u: Seq<char>| #![trigger is_uuid_text(u)]
                    is_uuid_text(u) && add_dealstack_shape(
                        self@,
                        offer_id@,
                        offset@,
                        store_id@,
                        u,
                        env,
                    )),
                Err(e) => self@.auth_token is None && e == ClientError::MissingAuthToken,
            },
    {
        let u = gen_uuid();
        let r = self.add_to_offers_dealstack_with_uuid(offer_id, offset, store_id, u.as_str());
        proof {
            assert(r matches Ok(env) ==> add_dealstack_shape(self@, offer_id@, offset@, store_id@, u@, env));
        }
        r
    }

    /// Deal stack removal, with the per-request UUID given by the caller.
    pub fn remove_from_offers_dealstack_with_uuid(
        &self,
        offer_id: &str,
        offer_proposition_id: &str,
        offset: &str,
        store_id: &str,
        request_uuid: &str,
    ) -> (r: Result<RequestEnvelope, ClientError>)
        ensures
            match r {
                Ok(env) => self@.auth_token is Some && spec_parse_i64(offer_id@) is Some
                    && spec_parse_i64(offset@) is Some && remove_dealstack_shape(
                    self@,
                    offer_id@,
                    offer_proposition_id@,
                    offset@,
                    store_id@,
                    request_uuid@,
                    env,
                ),
                Err(e) => if spec_parse_i64(offer_id@) is None || spec_parse_i64(offset@)
                    is None {
                    e == ClientError::InputParse
                } else {
                    self@.auth_token is None && e == ClientError::MissingAuthToken
                },
            },
    {
        // the body is built first, as the mobile app does; a value that is
        // not numeric fails here, before any token check or transport work
        let offer_id_num = match crate::numbers::parse_i64(offer_id) {
            Some(v) => v,
            None => {
                return Err(ClientError::InputParse);
            },
        };
        let offset_num = match crate::numbers::parse_i64(offset) {
            Some(v) => v,
            None => {
                return Err(ClientError::InputParse);
            },
        };
        let mut body_fields: Vec<(String, Json)> = Vec::new();
        body_fields.push(("storeId".to_owned(), Json::Str(store_id.to_owned())));
        body_fields.push(("offerId".to_owned(), Json::Int(offer_id_num)));
        body_fields.push(("offset".to_owned(), Json::Int(offset_num)));
        let body = Json::Obj(body_fields);
        proof {
            reveal_with_fuel(crate::json::json_view, 2);
            assert(body@ matches JsonV::Obj(fs));
            assert(body@->Obj_0[0] == ("storeId"@, JsonV::Str(store_id@)));
            assert(body@->Obj_0[1] == ("offerId"@, JsonV::Int(offer_id_num as int)));
            assert(body@->Obj_0[2] == ("offset"@, JsonV::Int(offset_num as int)));
            assert(body@->Obj_0 =~= seq![
                ("storeId"@, JsonV::Str(store_id@)),
                ("offerId"@, JsonV::Int(offer_id_num as int)),
                ("offset"@, JsonV::Int(offset_num as int)),
            ]);
            assert(body@ == remove_body_view(store_id@, offer_id_num as int, offset_num as int));
        }
        let token = match self.require_auth_token() {
            Ok(t) => t,
            Err(e) => {
                return Err(e);
            },
        };
        let headers = self.auth_headers(token.as_str(), request_uuid);
        let mut query: Vec<(String, String)> = Vec::new();
        push_pair(&mut query, "offerId", offer_id);
        push_pair(&mut query, "offset", offset);
        push_pair(&mut query, "storeId", store_id);
        proof {
            assert(pairs_view(query) =~= seq![
                ("offerId"@, offer_id@),
                ("offset"@, offset@),
                ("storeId"@, store_id@),
            ]);
        }
        let mut path = "exp/v1/offers/dealstack/offer/".to_owned();
        path.append(offer_proposition_id);
        Ok(
            RequestEnvelope {
                method: Method::Delete,
                path,
                query,
                headers,
                body: Some(body),
                basic_auth: None,
            },
        )
    }

    /// Removes an offer from the deal stack: both a query string and a JSON
    /// body are sent, as the mobile app does. The offer id and offset must
    /// parse as numbers; needs the session token.
    pub fn remove_from_offers_dealstack(
        &self,
        offer_id: &str,
        offer_proposition_id: &str,
        offset: &str,
        store_id: &str,
    ) -> (r: Result<RequestEnvelope, ClientError>)
        ensures
            match r {
                Ok(env) => self@.auth_token is Some && spec_parse_i64(offer_id@) is Some
                    && spec_parse_i64(offset@) is Some && (exists|u: Seq<char>| #![trigger is_uuid_text(u)]
                    is_uuid_text(u) && remove_dealstack_shape(
                        self@,
                        offer_id@,
                        offer_proposition_id@,
                        offset@,
                        store_id@,
                        u,
                        env,
                    )),
                Err(e) => if spec_parse_i64(offer_id@) is None || spec_parse_i64(offset@)
                    is None {
                    e == ClientError::InputParse
                } else {
                    self@.auth_token is None && e == ClientError::MissingAuthToken
                },
            },
    {
        let u = gen_uuid();
        let r = self.remove_from_offers_dealstack_with_uuid(
            offer_id,
            offer_proposition_id,
            offset,
            store_id,
            u.as_str(),
        );
        proof {
            assert(r matches Ok(env) ==> remove_dealstack_shape(
                    self@,
                    offer_id@,
                    offer_proposition_id@,
                    offset@,
                    store_id@,
                    u@,
                    env,
                ));
        }
        r
    }

    /// Login refresh, with the per-request UUID given by the caller.
    pub fn customer_login_refresh_with_uuid(&self, refresh_token: &str, request_uuid: &str) -> (r:
        Result<RequestEnvelope, ClientError>)
        ensures
            match r {
                Ok(env) => self@.auth_token is Some && refresh_request_shape(
                    self@,
                    refresh_token@,
                    request_uuid@,
                    env,
                ),
                Err(e) => self@.auth_token is None && e == ClientError::MissingAuthToken,
            },
    {
        let token = match self.require_auth_token() {
            Ok(t) => t,
            Err(e) => {
                return Err(e);
            },
        };
        let headers = self.auth_headers(token.as_str(), request_uuid);
        let mut body_fields: Vec<(String, Json)> = Vec::new();
        body_fields.push(("refreshToken".to_owned(), Json::Str(refresh_token.to_owned())));
        let body = Json::Obj(body_fields);
        proof {
            reveal_with_fuel(crate::json::json_view, 2);
            assert(body@ matches JsonV::Obj(fs));
            assert(body@->Obj_0[0] == ("refreshToken"@, JsonV::Str(refresh_token@)));
            assert(body@->Obj_0 =~= seq![("refreshToken"@, JsonV::Str(refresh_token@))]);
            assert(body@ == refresh_body_view(refresh_token@));
        }
        let query: Vec<(String, String)> = Vec::new();
        proof {
            assert(pairs_view(query) =~= Seq::<(Seq<char>, Seq<char>)>::empty());
        }
        Ok(
            RequestEnvelope {
                method: Method::Post,
                path: "exp/v1/customer/login/refresh".to_owned(),
                query,
                headers,
                body: Some(body),
                basic_auth: None,
            },
        )
    }

    /// Exchanges a refresh token for fresh session tokens; needs the session
    /// token.
    pub fn customer_login_refresh(&self, refresh_token: &str) -> (r: Result<
        RequestEnvelope,
        ClientError,
    >)
        ensures
            match r {
                Ok(env) => self@.auth_token is Some && (exists|u: Seq<char>| #![trigger is_uuid_text(u)]
                    is_uuid_text(u) && refresh_request_shape(
                        self@,
                        refresh_token@,
                        u,
                        env,
                    )),
                Err(e) => self@.auth_token is None && e == ClientError::MissingAuthToken,
            },
    {
        let u = gen_uuid();
        let r = self.customer_login_refresh_with_uuid(refresh_token, u.as_str());
        proof {
            assert(r matches Ok(env) ==> refresh_request_shape(self@, refresh_token@, u@, env));
        }
        r
    }

    /// Loyalty points, with the per-request UUID given by the caller.
    pub fn get_customer_points_with_uuid(&self, request_uuid: &str) -> (r: Result<
        RequestEnvelope,
        ClientError,
    >)
        ensures
            match r {
                Ok(env) => self@.auth_token is Some && auth_get_shape(
                    self@,
                    "exp/v1/loyalty/customer/points"@,
                    Seq::empty(),
                    request_uuid@,
                    env,
                ),
                Err(e) => self@.auth_token is None && e == ClientError::MissingAuthToken,
            },
    {
        let query: Vec<(String, String)> = Vec::new();
        proof {
            assert(pairs_view(query) =~= Seq::<(Seq<char>, Seq<char>)>::empty());
        }
        self.auth_get("exp/v1/loyalty/customer/points".to_owned(), query, request_uuid)
    }

    /// The customer's loyalty points; no parameters, needs the session
    /// token.
    pub fn get_customer_points(&self) -> (r: Result<RequestEnvelope, ClientError>)
        ensures
            match r {
                Ok(env) => self@.auth_token is Some && (exists|u: Seq<char>| #![trigger is_uuid_text(u)]
                    is_uuid_text(u) && auth_get_shape(
                        self@,
                        "exp/v1/loyalty/customer/points"@,
                        Seq::empty(),
                        u,
                        env,
                    )),
                Err(e) => self@.auth_token is None && e == ClientError::MissingAuthToken,
            },
    {
        let u = gen_uuid();
        let r = self.get_customer_points_with_uuid(u.as_str());
        proof {
            assert(r matches Ok(env) ==> auth_get_shape(
                    self@,
                    "exp/v1/loyalty/customer/points"@,
                    Seq::empty(),
                    u@,
                    env,
                ));
        }
        r
    }
}

} // verus!
