//! Customer authorization: credentials, challenges and the outcome of an
//! authorization.

use crate::json;
use crate::json::{JsonObject, JsonValue, JsonView};
use crate::text;
use crate::text::join;
use vstd::prelude::*;
use vstd::string::*;
use vstd::utf8::*;

verus! {

/// The credential that an authorization gave.
#[derive(Debug, PartialEq)]
pub struct AuthenticationContextPayload {
    pub credential_type: Option<String>,
    pub access_token: Option<String>,
    pub credential: Option<String>,
    pub refresh_token: Option<String>,
    /// The lifetime of the credential in seconds.
    pub expires_in: Option<i64>,
    pub customer_id: Option<String>,
}

pub struct AuthenticationContextPayloadView {
    pub credential_type: Option<Seq<char>>,
    pub access_token: Option<Seq<char>>,
    pub credential: Option<Seq<char>>,
    pub refresh_token: Option<Seq<char>>,
    pub expires_in: Option<i64>,
    pub customer_id: Option<Seq<char>>,
}

impl DeepView for AuthenticationContextPayload {
    type V = AuthenticationContextPayloadView;

    open spec fn deep_view(&self) -> AuthenticationContextPayloadView {
        AuthenticationContextPayloadView {
            credential_type: self.credential_type.deep_view(),
            access_token: self.access_token.deep_view(),
            credential: self.credential.deep_view(),
            refresh_token: self.refresh_token.deep_view(),
            expires_in: self.expires_in,
            customer_id: self.customer_id.deep_view(),
        }
    }
}

impl Clone for AuthenticationContextPayload {
    fn clone(&self) -> (r: Self)
        ensures
            r.deep_view() == self.deep_view(),
    {
        AuthenticationContextPayload {
            credential_type: self.credential_type.clone(),
            access_token: self.access_token.clone(),
            credential: self.credential.clone(),
            refresh_token: self.refresh_token.clone(),
            expires_in: self.expires_in,
            customer_id: self.customer_id.clone(),
        }
    }
}

/// What a customer is asked to do to prove who they are.
#[derive(Debug, PartialEq)]
pub struct ChallengePayload {
    pub challenge_type: String,
    pub message: String,
    pub destination_hint: Option<String>,
    pub login_url: Option<String>,
}

pub struct ChallengePayloadView {
    pub challenge_type: Seq<char>,
    pub message: Seq<char>,
    pub destination_hint: Option<Seq<char>>,
    pub login_url: Option<Seq<char>>,
}

impl DeepView for ChallengePayload {
    type V = ChallengePayloadView;

    open spec fn deep_view(&self) -> ChallengePayloadView {
        ChallengePayloadView {
            challenge_type: self.challenge_type@,
            message: self.message@,
            destination_hint: self.destination_hint.deep_view(),
            login_url: self.login_url.deep_view(),
        }
    }
}

impl Clone for ChallengePayload {
    fn clone(&self) -> (r: Self)
        ensures
            r.deep_view() == self.deep_view(),
    {
        ChallengePayload {
            challenge_type: self.challenge_type.clone(),
            message: self.message.clone(),
            destination_hint: self.destination_hint.clone(),
            login_url: self.login_url.clone(),
        }
    }
}

/// A challenge that a tool handler raises.
#[derive(Debug, PartialEq)]
pub struct ChallengeSignal {
    pub challenge: ChallengePayload,
}

pub struct ChallengeSignalView {
    pub challenge: ChallengePayloadView,
}

impl DeepView for ChallengeSignal {
    type V = ChallengeSignalView;

    open spec fn deep_view(&self) -> ChallengeSignalView {
        ChallengeSignalView {
            challenge: self.challenge.deep_view(),
        }
    }
}

impl Clone for ChallengeSignal {
    fn clone(&self) -> (r: Self)
        ensures
            r.deep_view() == self.deep_view(),
    {
        ChallengeSignal {
            challenge: self.challenge.clone(),
        }
    }
}

impl ChallengeSignal {
    /// The text of the signal: the message of its challenge.
    pub fn message(&self) -> (r: &str)
        ensures
            r@ == self.deep_view().challenge.message,
    {
        self.challenge.message.as_str()
    }
}

/// Why a tool, a hook or an authorization failed: a challenge for the customer,
/// or an error with a message.
#[derive(Debug, PartialEq)]
pub enum ToolError {
    Challenge(ChallengeSignal),
    Message(String),
}

pub enum ToolErrorView {
    Challenge(ChallengeSignalView),
    Message(Seq<char>),
}

impl DeepView for ToolError {
    type V = ToolErrorView;

    open spec fn deep_view(&self) -> ToolErrorView {
        match self {
            ToolError::Challenge(c) => ToolErrorView::Challenge(c.deep_view()),
            ToolError::Message(m) => ToolErrorView::Message(m@),
        }
    }
}

/// What a result is.
pub open spec fn result_view<T: DeepView>(r: Result<T, ToolError>) -> Result<T::V, ToolErrorView> {
    match r {
        Ok(v) => Ok(v.deep_view()),
        Err(e) => Err(e.deep_view()),
    }
}

impl ToolError {
    /// An error with a message.
    pub fn new(message: &str) -> (r: Self)
        ensures
            r.deep_view() == ToolErrorView::Message(message@),
    {
        ToolError::Message(message.to_owned())
    }
}

/// The result of asking a customer provider to authorize a customer.
#[derive(Debug, PartialEq)]
pub enum AuthOutcome {
    Success { customer: JsonValue, auth: AuthenticationContextPayload },
    Challenge(ChallengePayload),
    Denied,
    NotFound,
}

pub enum AuthOutcomeView {
    Success { customer: JsonView, auth: AuthenticationContextPayloadView },
    Challenge(ChallengePayloadView),
    Denied,
    NotFound,
}

impl DeepView for AuthOutcome {
    type V = AuthOutcomeView;

    open spec fn deep_view(&self) -> AuthOutcomeView {
        match self {
            AuthOutcome::Success { customer, auth } => AuthOutcomeView::Success {
                customer: customer.deep_view(),
                auth: auth.deep_view(),
            },
            AuthOutcome::Challenge(c) => AuthOutcomeView::Challenge(c.deep_view()),
            AuthOutcome::Denied => AuthOutcomeView::Denied,
            AuthOutcome::NotFound => AuthOutcomeView::NotFound,
        }
    }
}

impl AuthenticationContextPayloadView {
    /// The credential as JSON; what is absent is left out.
    pub open spec fn json(self) -> JsonView {
        let object = Map::<Seq<char>, JsonView>::empty();
        let object = json::with_opt(object, "type"@, json::opt_str(self.credential_type));
        let object = json::with_opt(object, "access_token"@, json::opt_str(self.access_token));
        let object = json::with_opt(object, "credential"@, json::opt_str(self.credential));
        let object = json::with_opt(object, "refresh_token"@, json::opt_str(self.refresh_token));
        let object = json::with_opt(
            object,
            "expires_in"@,
            match self.expires_in {
                Some(n) => Some(JsonView::Number(text::decimal_int_spec(n as int))),
                None => None,
            },
        );
        JsonView::Object(json::with_opt(object, "customer_id"@, json::opt_str(self.customer_id)))
    }
}

impl AuthenticationContextPayload {
    /// The credential as JSON.
    pub fn to_json(&self) -> (r: JsonValue)
        ensures
            r.deep_view() == self.deep_view().json(),
    {
        let mut object = JsonObject::new();
        object.insert_opt_str("type", &self.credential_type);
        object.insert_opt_str("access_token", &self.access_token);
        object.insert_opt_str("credential", &self.credential);
        object.insert_opt_str("refresh_token", &self.refresh_token);
        if let Some(n) = self.expires_in {
            object.insert("expires_in", JsonValue::number(n));
        }
        object.insert_opt_str("customer_id", &self.customer_id);
        JsonValue::Object(object)
    }
}

impl ChallengePayloadView {
    /// The challenge as JSON; what is absent is left out.
    pub open spec fn json(self) -> JsonView {
        let object = Map::<Seq<char>, JsonView>::empty().insert(
            "type"@,
            JsonView::Str(self.challenge_type),
        ).insert("message"@, JsonView::Str(self.message));
        let object = json::with_opt(
            object,
            "destination_hint"@,
            json::opt_str(self.destination_hint),
        );
        JsonView::Object(json::with_opt(object, "login_url"@, json::opt_str(self.login_url)))
    }
}

impl ChallengePayload {
    /// The challenge as JSON.
    pub fn to_json(&self) -> (r: JsonValue)
        ensures
            r.deep_view() == self.deep_view().json(),
    {
        let mut object = JsonObject::new();
        object.insert_str("type", self.challenge_type.as_str());
        object.insert_str("message", self.message.as_str());
        object.insert_opt_str("destination_hint", &self.destination_hint);
        object.insert_opt_str("login_url", &self.login_url);
        JsonValue::Object(object)
    }
}

/// Text that can be masked: short, or with whole characters in its first two
/// and its last two bytes.
pub open spec fn can_mask(value: Seq<char>) -> bool {
    let bytes = encode_utf8(value);
    bytes.len() > 4 ==> is_char_boundary(bytes, 2) && is_char_boundary(bytes, bytes.len() - 2)
}

/// A text with all but its first two and its last two bytes hidden; text of up
/// to four bytes is shown as it is.
pub open spec fn masked(value: Seq<char>) -> Seq<char> {
    let bytes = encode_utf8(value);
    if bytes.len() <= 4 {
        value
    } else {
        decode_utf8(bytes.take(2)) + "***"@ + decode_utf8(bytes.skip(bytes.len() - 2))
    }
}

/// Masks an address or a number.
pub fn mask(value: &str) -> (r: String)
    requires
        can_mask(value@),
    ensures
        r@ == masked(value@),
{
    let ghost bytes = encode_utf8(value@);
    let n: usize = value.as_bytes().len();
    if n <= 4 {
        return value.to_owned();
    }
    let (head, _) = value.split_at(2);
    let (_, tail) = value.split_at(n - 2);
    proof {
        encode_utf8_decode_utf8(head@);
        encode_utf8_decode_utf8(tail@);
        assert(bytes.take(2) =~= bytes.subrange(0, 2));
        assert(bytes.skip(n - 2) =~= bytes.subrange(n - 2, n as int));
    }
    join(join(head, "***").as_str(), tail)
}

/// Helpers for a provider that authorizes customers.
#[derive(Debug)]
pub struct AuthBuilder {
    /// The answer to an earlier challenge.
    pub response: Option<String>,
}

/// A challenge with a message of its own or the usual one.
pub open spec fn challenge_with(
    kind: Seq<char>,
    message: Option<Seq<char>>,
    usual: Seq<char>,
    hint: Option<Seq<char>>,
    url: Option<Seq<char>>,
) -> AuthOutcomeView {
    AuthOutcomeView::Challenge(
        ChallengePayloadView {
            challenge_type: kind,
            message: match message {
                Some(m) => m,
                None => usual,
            },
            destination_hint: hint,
            login_url: url,
        },
    )
}

impl Clone for AuthBuilder {
    fn clone(&self) -> (r: Self)
        ensures
            r.response.deep_view() == self.response.deep_view(),
    {
        AuthBuilder { response: self.response.clone() }
    }
}

impl AuthBuilder {
    pub fn new(response: Option<String>) -> (r: Self)
        ensures
            r.response == response,
    {
        AuthBuilder { response }
    }

    /// The customer is authorized. Where the credential names no customer it
    /// gets the customer's `id`.
    pub fn success(&self, customer: JsonValue, auth: AuthenticationContextPayload) -> (r:
        AuthOutcome)
        ensures
            r.deep_view() == (AuthOutcomeView::Success {
                customer: customer.deep_view(),
                auth: AuthenticationContextPayloadView {
                    customer_id: json::or_else(
                        auth.deep_view().customer_id,
                        customer.deep_view().text("id"@),
                    ),
                    ..auth.deep_view()
                },
            }),
            r is Success,
            r->Success_customer.deep_view() == customer.deep_view(),
            r->Success_auth.credential_type.deep_view() == auth.credential_type.deep_view(),
            r->Success_auth.access_token.deep_view() == auth.access_token.deep_view(),
            r->Success_auth.credential.deep_view() == auth.credential.deep_view(),
            r->Success_auth.refresh_token.deep_view() == auth.refresh_token.deep_view(),
            r->Success_auth.expires_in == auth.expires_in,
            auth.customer_id is Some ==> r->Success_auth.customer_id.deep_view()
                == auth.customer_id.deep_view(),
            auth.customer_id is None ==> r->Success_auth.customer_id.deep_view()
                == customer.deep_view().text("id"@),
    {
        let mut auth = auth;
        if auth.customer_id.is_none() {
            auth.customer_id =
            match customer.text("id") {
                Some(id) => Some(id.to_owned()),
                None => None,
            };
        }
        AuthOutcome::Success { customer, auth }
    }

    pub fn denied(&self) -> (r: AuthOutcome)
        ensures
            r.deep_view() == AuthOutcomeView::Denied,
    {
        AuthOutcome::Denied
    }

    pub fn not_found(&self) -> (r: AuthOutcome)
        ensures
            r.deep_view() == AuthOutcomeView::NotFound,
    {
        AuthOutcome::NotFound
    }

    /// A one-time code was sent by email.
    pub fn email_otp(&self, email: &str, message: Option<&str>) -> (r: AuthOutcome)
        requires
            can_mask(email@),
        ensures
            r.deep_view() == challenge_with(
                "email_otp"@,
                message.deep_view(),
                "Enter the OTP sent to your email."@,
                Some(masked(email@)),
                None,
            ),
            r is Challenge,
            r->Challenge_0.challenge_type@ == "email_otp"@,
            message is Some ==> r->Challenge_0.message@ == message->0@,
            message is None ==> r->Challenge_0.message@ == "Enter the OTP sent to your email."@,
            r->Challenge_0.destination_hint is Some,
            r->Challenge_0.destination_hint->0@ == masked(email@),
            r->Challenge_0.login_url is None,
    {
        AuthOutcome::Challenge(
            ChallengePayload {
                challenge_type: "email_otp".to_owned(),
                message: message.unwrap_or("Enter the OTP sent to your email.").to_owned(),
                destination_hint: Some(mask(email)),
                login_url: None,
            },
        )
    }

    /// A one-time code was sent by text message.
    pub fn sms_otp(&self, phone: &str, message: Option<&str>) -> (r: AuthOutcome)
        requires
            can_mask(phone@),
        ensures
            r.deep_view() == challenge_with(
                "sms_otp"@,
                message.deep_view(),
                "Enter the OTP sent to your phone."@,
                Some(masked(phone@)),
                None,
            ),
            r is Challenge,
            r->Challenge_0.challenge_type@ == "sms_otp"@,
            message is Some ==> r->Challenge_0.message@ == message->0@,
            message is None ==> r->Challenge_0.message@ == "Enter the OTP sent to your phone."@,
            r->Challenge_0.destination_hint is Some,
            r->Challenge_0.destination_hint->0@ == masked(phone@),
            r->Challenge_0.login_url is None,
    {
        AuthOutcome::Challenge(
            ChallengePayload {
                challenge_type: "sms_otp".to_owned(),
                message: message.unwrap_or("Enter the OTP sent to your phone.").to_owned(),
                destination_hint: Some(mask(phone)),
                login_url: None,
            },
        )
    }

    /// The customer continues on a login page.
    pub fn login(&self, url: &str, message: Option<&str>) -> (r: AuthOutcome)
        ensures
            r.deep_view() == challenge_with(
                "login"@,
                message.deep_view(),
                "Please continue in your login page."@,
                None,
                Some(url@),
            ),
            r is Challenge,
            r->Challenge_0.challenge_type@ == "login"@,
            message is Some ==> r->Challenge_0.message@ == message->0@,
            message is None ==> r->Challenge_0.message@ == "Please continue in your login page."@,
            r->Challenge_0.destination_hint is None,
            r->Challenge_0.login_url is Some,
            r->Challenge_0.login_url->0@ == url@,
    {
        AuthOutcome::Challenge(
            ChallengePayload {
                challenge_type: "login".to_owned(),
                message: message.unwrap_or("Please continue in your login page.").to_owned(),
                destination_hint: None,
                login_url: Some(url.to_owned()),
            },
        )
    }

    /// A challenge of the provider's own.
    pub fn custom(&self, challenge: ChallengePayload) -> (r: AuthOutcome)
        ensures
            r.deep_view() == AuthOutcomeView::Challenge(challenge.deep_view()),
    {
        AuthOutcome::Challenge(challenge)
    }
}

/// Plain ASCII text can always be masked, and of more than four characters only
/// the first two and the last two are shown.
pub proof fn law_mask_ascii(value: Seq<char>)
    requires
        is_ascii_chars(value),
    ensures
        can_mask(value),
        value.len() <= 4 ==> masked(value) == value,
        value.len() > 4 ==> masked(value) == value.take(2) + "***"@ + value.skip(
            value.len() - 2,
        ),
{
    let bytes = encode_utf8(value);
    is_ascii_chars_encode_utf8(value);
    let n = value.len() as int;
    if n > 4 {
        encode_utf8_valid_utf8(value);
        is_char_boundary_iff_not_is_continuation_byte(bytes, 2);
        is_char_boundary_iff_not_is_continuation_byte(bytes, n - 2);
        assert(is_ascii_chars(value.take(2)));
        assert(is_ascii_chars(value.skip(n - 2)));
        is_ascii_chars_encode_utf8(value.take(2));
        is_ascii_chars_encode_utf8(value.skip(n - 2));
        assert(encode_utf8(value.take(2)) =~= bytes.take(2));
        assert(encode_utf8(value.skip(n - 2)) =~= bytes.skip(n - 2));
        encode_utf8_decode_utf8(value.take(2));
        encode_utf8_decode_utf8(value.skip(n - 2));
    }
}

} // verus!
