use vstd::prelude::*;

pub mod attachment;
pub mod email;
pub mod error;
pub mod json;
pub mod jsonvalue;
pub mod outbound_email_body;
pub mod text;
pub mod urls;
pub mod wire;

use crate::jsonvalue::{
    int_fields_of, json_as_array, json_i64_field, json_ok_of, json_render_ok_of, json_str_field,
    json_text_of, parse_json, parsed_array_len_of, parsed_elem_int_fields_of,
    parsed_elem_str_fields_of, parsed_int_fields_of, parsed_str_fields_of, str_fields_of,
};
use crate::outbound_email_body::lemma_message_view;
use crate::urls::{join_ok_of, join_url};
use crate::wire::{
    batch_json, map_request, messages_view, metadata_texts_of, recipient_field, wire_request_json,
};

verus! {

pub use crate::attachment::Attachment;
pub use crate::attachment::AttachmentBuilder;
pub use crate::email::Email;
pub use crate::error::ClientError;
pub use crate::error::ParseError;
pub use crate::outbound_email_body::MessageData;
pub use crate::outbound_email_body::OutboundEmailBody;
pub use crate::outbound_email_body::OutboundEmailBodyBuilder;
pub use crate::outbound_email_body::TrackLink;

/// The timeout applied when the builder is given none, in seconds.
pub const DEFAULT_TIMEOUT_SECS: u64 = 10;

/// The largest number of messages one batch call may submit.
pub const MAX_BATCH_SIZE: usize = 500;

/// A credential that resists accidental printing: the wrapped string can
/// only be read back through `expose_secret`, at the point where the
/// request header is attached.
pub struct SecretString {
    secret: String,
}

impl View for SecretString {
    type V = Seq<char>;

    closed spec fn view(&self) -> Seq<char> {
        self.secret@
    }
}

impl SecretString {
    /// Wraps a credential.
    pub fn from(secret: String) -> (r: SecretString)
        ensures
            r@ == secret@,
    {
        SecretString { secret }
    }

    /// Reveals the credential; to be called only where it is handed to
    /// the transport.
    pub fn expose_secret(&self) -> (r: &str)
        ensures
            r@ == self@,
    {
        self.secret.as_str()
    }
}

/// The read-only configuration a client holds, seen abstractly; the base
/// endpoint URL is carried as the opaque URL value itself.
pub struct ClientConfig {
    pub base_url: reqwest::Url,
    pub sender: Seq<char>,
    pub auth_token: Seq<char>,
    pub timeout_secs: u64,
}

/// The delivery client: base endpoint, sender identity, credential and
/// timeout. Immutable after `build`, and safe to share across concurrent
/// send calls.
pub struct Client {
    base_url: reqwest::Url,
    sender: Email,
    auth_token: SecretString,
    timeout_secs: u64,
}

impl View for Client {
    type V = ClientConfig;

    closed spec fn view(&self) -> ClientConfig {
        ClientConfig {
            base_url: self.base_url,
            sender: self.sender@,
            auth_token: self.auth_token@,
            timeout_secs: self.timeout_secs,
        }
    }
}

/// What the builder has staged so far; the base URL is carried as the
/// opaque URL value itself.
pub struct ClientStaging {
    pub base_url: Option<reqwest::Url>,
    pub sender: Option<Seq<char>>,
    pub auth_token: Option<Seq<char>>,
    pub timeout_secs: Option<u64>,
}

/// Accumulates the client's configuration; `build` checks the required
/// fields.
pub struct ClientBuilder {
    base_url: Option<reqwest::Url>,
    sender: Option<Email>,
    auth_token: Option<SecretString>,
    timeout_secs: Option<u64>,
}

impl View for ClientBuilder {
    type V = ClientStaging;

    closed spec fn view(&self) -> ClientStaging {
        ClientStaging {
            base_url: self.base_url,
            sender: match self.sender {
                Some(e) => Some(e@),
                None => None,
            },
            auth_token: match self.auth_token {
                Some(t) => Some(t@),
                None => None,
            },
            timeout_secs: self.timeout_secs,
        }
    }
}

impl ClientBuilder {
    /// A fresh builder: no base URL, sender or credential yet, and the
    /// default timeout staged.
    pub fn new() -> (r: Self)
        ensures
            r@ == (ClientStaging {
                base_url: None,
                sender: None,
                auth_token: None,
                timeout_secs: Some(DEFAULT_TIMEOUT_SECS),
            }),
    {
        ClientBuilder {
            base_url: None,
            sender: None,
            auth_token: None,
            timeout_secs: Some(DEFAULT_TIMEOUT_SECS),
        }
    }

    /// Sets the base endpoint URL, replacing any earlier value.
    pub fn base_url(self, url: reqwest::Url) -> (r: Self)
        ensures
            r@ == (ClientStaging { base_url: Some(url), ..self@ }),
    {
        ClientBuilder { base_url: Some(url), ..self }
    }

    /// Sets the sender identity, replacing any earlier value.
    pub fn sender(self, sender: Email) -> (r: Self)
        ensures
            r@ == (ClientStaging { sender: Some(sender@), ..self@ }),
    {
        ClientBuilder { sender: Some(sender), ..self }
    }

    /// Sets the provider credential, replacing any earlier value.
    pub fn auth_token(self, token: SecretString) -> (r: Self)
        ensures
            r@ == (ClientStaging { auth_token: Some(token@), ..self@ }),
    {
        ClientBuilder { auth_token: Some(token), ..self }
    }

    /// Sets the per-call timeout in seconds, replacing any earlier value.
    pub fn timeout(self, timeout_secs: u64) -> (r: Self)
        ensures
            r@ == (ClientStaging { timeout_secs: Some(timeout_secs), ..self@ }),
    {
        ClientBuilder { timeout_secs: Some(timeout_secs), ..self }
    }

    /// Checks that base URL, sender and credential were given and builds
    /// the immutable client; a missing timeout falls back to the default.
    pub fn build(self) -> (r: Result<Client, ClientError>)
        ensures
            r is Ok <==> (self@.base_url is Some && self@.sender is Some && self@.auth_token
                is Some),
            r matches Ok(c) ==> c@.base_url == self@.base_url.unwrap() && c@.sender
                == self@.sender.unwrap() && c@.auth_token == self@.auth_token.unwrap()
                && c@.timeout_secs == (match self@.timeout_secs {
                Some(t) => t,
                None => DEFAULT_TIMEOUT_SECS,
            }),
            self@.base_url is None ==> (r matches Err(e) && e matches ClientError::Configuration(m)
                && m@ == "Postmark base URL is required"@),
            self@.base_url is Some && self@.sender is None ==> (r matches Err(e) && e matches
                ClientError::Configuration(m) && m@ == "Postmark sender email is required"@),
            self@.base_url is Some && self@.sender is Some && self@.auth_token is None ==> (
            r matches Err(e) && e matches ClientError::Configuration(m) && m@
                == "Postmark auth token is required"@),
    {
        let base_url = match self.base_url {
            Some(u) => u,
            None => {
                return Err(ClientError::Configuration("Postmark base URL is required".to_owned()));
            },
        };
        let sender = match self.sender {
            Some(e) => e,
            None => {
                return Err(
                    ClientError::Configuration("Postmark sender email is required".to_owned()),
                );
            },
        };
        let auth_token = match self.auth_token {
            Some(t) => t,
            None => {
                return Err(
                    ClientError::Configuration("Postmark auth token is required".to_owned()),
                );
            },
        };
        let timeout_secs = match self.timeout_secs {
            Some(t) => t,
            None => DEFAULT_TIMEOUT_SECS,
        };
        Ok(Client { base_url, sender, auth_token, timeout_secs })
    }
}

/// Everything the transport needs for one HTTP call: the resolved
/// endpoint, the exposed credential for the auth header, and the JSON
/// body.
pub struct PreparedRequest {
    pub url: reqwest::Url,
    pub token: String,
    pub body: String,
}

/// What a batch call should do: nothing at all for an empty input, or one
/// dispatch of the prepared request.
pub enum BatchPlan {
    Empty,
    Dispatch(PreparedRequest),
}

/// One per-message result of a successful submission, as the provider
/// reports it.
#[derive(Debug, Clone, PartialEq, Eq, Default)]
pub struct SendEmailResponse {
    pub error_code: i16,
    pub message: String,
    pub message_id: String,
    pub submitted_at: String,
    pub to: String,
}

/// The result-object shape a success body must carry: an integer
/// `ErrorCode` within the provider's 16-bit range, and the four string
/// fields.
pub open spec fn response_shape_ok(sf: Map<Seq<char>, Seq<char>>, nf: Map<Seq<char>, int>) -> bool {
    &&& nf.contains_key("ErrorCode"@)
    &&& -32768 <= nf["ErrorCode"@] <= 32767
    &&& sf.contains_key("Message"@)
    &&& sf.contains_key("MessageID"@)
    &&& sf.contains_key("SubmittedAt"@)
    &&& sf.contains_key("To"@)
}

/// Whether a single-send success body is well-formed: JSON text whose
/// value carries the result-object shape.
pub open spec fn response_body_well_formed(s: Seq<char>) -> bool {
    json_ok_of(s) && response_shape_ok(parsed_str_fields_of(s), parsed_int_fields_of(s))
}

/// Field-by-field agreement between a parsed result and the named fields
/// of the value it was read from.
pub open spec fn response_matches_fields(
    resp: SendEmailResponse,
    sf: Map<Seq<char>, Seq<char>>,
    nf: Map<Seq<char>, int>,
) -> bool {
    &&& resp.error_code as int == nf["ErrorCode"@]
    &&& resp.message@ == sf["Message"@]
    &&& resp.message_id@ == sf["MessageID"@]
    &&& resp.submitted_at@ == sf["SubmittedAt"@]
    &&& resp.to@ == sf["To"@]
}

/// Whether a batch success body is well-formed: JSON text whose value is
/// an array each of whose elements carries the result-object shape.
pub open spec fn batch_body_well_formed(s: Seq<char>) -> bool {
    &&& json_ok_of(s)
    &&& parsed_array_len_of(s) is Some
    &&& forall|i: int|
        0 <= i < parsed_array_len_of(s).unwrap() ==> response_shape_ok(
            #[trigger] parsed_elem_str_fields_of(s, i),
            parsed_elem_int_fields_of(s, i),
        )
}

fn text_field(v: &serde_json::Value, key: &str) -> (r: Result<String, ClientError>)
    ensures
        r is Ok <==> str_fields_of(*v).contains_key(key@),
        r matches Ok(s) ==> s@ == str_fields_of(*v)[key@],
        r matches Err(e) ==> e matches ClientError::Serialization(_),
{
    match json_str_field(v, key) {
        Some(s) => Ok(s.to_owned()),
        None => {
            let mut m = "response field is missing or not a string: ".to_owned();
            m.append(key);
            Err(ClientError::Serialization(m))
        },
    }
}

impl SendEmailResponse {
    /// Reads one result object out of a parsed JSON value, succeeding
    /// exactly when the value carries the result-object shape and then
    /// returning its fields verbatim; anything else is a serialization
    /// failure.
    pub fn from_json_value(v: &serde_json::Value) -> (r: Result<SendEmailResponse, ClientError>)
        ensures
            r is Ok <==> response_shape_ok(str_fields_of(*v), int_fields_of(*v)),
            r matches Ok(resp) ==> response_matches_fields(
                resp,
                str_fields_of(*v),
                int_fields_of(*v),
            ),
            r matches Err(e) ==> e matches ClientError::Serialization(_),
    {
        let code = match json_i64_field(v, "ErrorCode") {
            Some(n) => n,
            None => {
                return Err(
                    ClientError::Serialization(
                        "response field is missing or not an integer: ErrorCode".to_owned(),
                    ),
                );
            },
        };
        if code < -32768 || code > 32767 {
            return Err(
                ClientError::Serialization("response field is out of range: ErrorCode".to_owned()),
            );
        }
        let message = match text_field(v, "Message") {
            Ok(s) => s,
            Err(e) => {
                return Err(e);
            },
        };
        let message_id = match text_field(v, "MessageID") {
            Ok(s) => s,
            Err(e) => {
                return Err(e);
            },
        };
        let submitted_at = match text_field(v, "SubmittedAt") {
            Ok(s) => s,
            Err(e) => {
                return Err(e);
            },
        };
        let to = match text_field(v, "To") {
            Ok(s) => s,
            Err(e) => {
                return Err(e);
            },
        };
        Ok(SendEmailResponse { error_code: code as i16, message, message_id, submitted_at, to })
    }
}

impl Client {
    /// A fresh client builder.
    pub fn builder() -> (r: ClientBuilder)
        ensures
            r@ == (ClientStaging {
                base_url: None,
                sender: None,
                auth_token: None,
                timeout_secs: Some(DEFAULT_TIMEOUT_SECS),
            }),
    {
        ClientBuilder::new()
    }

    /// The configured per-call timeout in seconds.
    pub fn timeout_secs(&self) -> (r: u64)
        ensures
            r == self@.timeout_secs,
    {
        self.timeout_secs
    }

    fn endpoint(&self, path: &str) -> (r: Result<reqwest::Url, ClientError>)
        ensures
            r is Ok <==> join_ok_of(self@.base_url, path@),
            r matches Err(e) ==> (e matches ClientError::Configuration(m) && exists|t: Seq<char>|
                m@ == "Postmark invalid URL: "@ + t),
    {
        match join_url(&self.base_url, path) {
            Ok(u) => Ok(u),
            Err(e) => {
                let mut m = "Postmark invalid URL: ".to_owned();
                m.append(e.as_str());
                Err(ClientError::Configuration(m))
            },
        }
    }

    /// Resolves the single-send endpoint, maps the message to its wire
    /// body, and attaches the credential: everything the transport needs,
    /// before any network traffic.
    pub fn prepare_send(&self, message: &OutboundEmailBody) -> (r: Result<
        PreparedRequest,
        ClientError,
    >)
        ensures
            r is Ok <==> (join_ok_of(self@.base_url, "/email"@) && (match message@.metadata {
                Some(mv) => json_render_ok_of(mv),
                None => true,
            })),
            r matches Ok(p) ==> p.token@ == self@.auth_token,
            message@.metadata is None ==> (r matches Ok(p) ==> p.body@ == wire_request_json(
                self@.sender,
                message@,
                Option::None,
            )),
            message@.metadata matches Some(mv) ==> (r matches Ok(p) ==> p.body@
                == wire_request_json(self@.sender, message@, Some(json_text_of(mv)))),
            r matches Err(e) ==> (e matches ClientError::Configuration(_) || e matches
                ClientError::Serialization(_)),
            (r matches Err(e) && e matches ClientError::Serialization(_)) ==> message@.metadata
                is Some,
            r matches Err(e) ==> (e matches ClientError::Configuration(m)
                ==> exists|t: Seq<char>| m@ == "Postmark invalid URL: "@ + t),
    {
        let url = match self.endpoint("/email") {
            Ok(u) => u,
            Err(e) => {
                return Err(e);
            },
        };
        let body = match map_request(&self.sender, message) {
            Ok(b) => b,
            Err(e) => {
                return Err(e);
            },
        };
        proof {
            assert(self@.sender == self.sender@);
            assert(self@.base_url == self.base_url);
        }
        Ok(PreparedRequest { url, token: self.auth_token.expose_secret().to_owned(), body })
    }

    /// The convenience overload over positional fields: builds a message
    /// with subject and both bodies — the wire recipient carrying the
    /// display name, when one is given — and prepares it like
    /// `prepare_send`.
    pub fn prepare_send_simple(
        &self,
        recipient: &Email,
        subject: &str,
        html_content: &str,
        text_content: &str,
        name: Option<&str>,
        attachments: Option<Vec<Attachment>>,
    ) -> (r: Result<PreparedRequest, ClientError>)
        ensures
            r is Ok <==> join_ok_of(self@.base_url, "/email"@),
            r matches Ok(p) ==> p.token@ == self@.auth_token && p.body@ == wire_request_json(
                self@.sender,
                (MessageData {
                    to: (match name {
                        Some(n) => n@ + " <"@ + recipient@ + ">"@,
                        None => recipient@,
                    }),
                    subject: Some(subject@),
                    cc: None,
                    bcc: None,
                    tag: None,
                    html_body: Some(html_content@),
                    text_body: Some(text_content@),
                    reply_to: None,
                    metadata: None,
                    track_opens: true,
                    track_links: TrackLink::HtmlAndText,
                    attachments: match attachments {
                        Some(l) => Some(crate::outbound_email_body::attachments_view(l@)),
                        None => None,
                    },
                }),
                Option::None,
            ),
            r matches Err(e) ==> (e matches ClientError::Configuration(m) && exists|t: Seq<char>|
                m@ == "Postmark invalid URL: "@ + t),
    {
        let to_field = recipient_field(name, recipient);
        let staged = OutboundEmailBody::builder(Email::parse_unsafe(to_field)).subject(
            subject,
        ).html_body(html_content).text_body(text_content);
        let staged = match attachments {
            Some(l) => staged.attachments(l),
            None => staged,
        };
        let message = staged.build();
        self.prepare_send(&message)
    }

    /// Plans a batch call: an empty input needs no dispatch at all, an
    /// oversized one is rejected before any network traffic, and anything
    /// else becomes one prepared request whose body is the JSON array of
    /// the mapped messages, in submission order.
    pub fn prepare_batch(&self, messages: &Vec<OutboundEmailBody>) -> (r: Result<
        BatchPlan,
        ClientError,
    >)
        ensures
            r is Ok <==> (messages@.len() == 0 || (messages@.len() <= MAX_BATCH_SIZE
                && join_ok_of(self@.base_url, "/email/batch"@) && (forall|i: int|
                0 <= i < messages@.len() ==> (match (#[trigger] messages@[i])@.metadata {
                    Some(mv) => json_render_ok_of(mv),
                    None => true,
                })))),
            messages@.len() == 0 ==> r matches Ok(BatchPlan::Empty),
            messages@.len() > MAX_BATCH_SIZE ==> (r matches Err(e) && e matches
                ClientError::Configuration(m) && m@ == "a batch cannot exceed 500 messages"@),
            r matches Ok(BatchPlan::Empty) ==> messages@.len() == 0,
            r matches Ok(BatchPlan::Dispatch(_)) ==> 1 <= messages@.len() <= MAX_BATCH_SIZE,
            r matches Ok(BatchPlan::Dispatch(q)) ==> q.token@ == self@.auth_token && q.body@
                == batch_json(self@.sender, messages_view(messages@), metadata_texts_of(messages@)),
            r matches Err(e) ==> (e matches ClientError::Configuration(_) || e matches
                ClientError::Serialization(_)),
            r matches Err(e) ==> (e matches ClientError::Configuration(m) ==> (m@
                == "a batch cannot exceed 500 messages"@ || exists|t: Seq<char>|
                m@ == "Postmark invalid URL: "@ + t)),
            (r matches Err(e) && e matches ClientError::Serialization(_)) ==> exists|i: int|
                0 <= i < messages@.len() && (#[trigger] messages@[i])@.metadata is Some,
    {
        if messages.len() == 0 {
            return Ok(BatchPlan::Empty);
        }
        if messages.len() > MAX_BATCH_SIZE {
            return Err(
                ClientError::Configuration("a batch cannot exceed 500 messages".to_owned()),
            );
        }
        let url = match self.endpoint("/email/batch") {
            Ok(u) => u,
            Err(e) => {
                return Err(e);
            },
        };
        let n = messages.len();
        let mut metadata_texts: Vec<Option<String>> = Vec::new();
        let mut i: usize = 0;
        while i < n
            invariant
                0 <= i <= n,
                n == messages@.len(),
                0 < n <= MAX_BATCH_SIZE,
                metadata_texts@.len() == i,
                forall|j: int|
                    0 <= j < i ==> crate::wire::opt_text(#[trigger] metadata_texts@[j])
                        == metadata_texts_of(messages@)[j],
                forall|j: int|
                    0 <= j < i ==> (match (#[trigger] messages@[j])@.metadata {
                        Some(mv) => json_render_ok_of(mv),
                        None => true,
                    }),
            decreases n - i,
        {
            proof {
                lemma_message_view(messages@[i as int]);
            }
            match &messages[i].metadata {
                Some(v) => {
                    match crate::jsonvalue::value_to_text(v) {
                        Ok(t) => {
                            metadata_texts.push(Some(t));
                        },
                        Err(e) => {
                            return Err(ClientError::Serialization(e));
                        },
                    }
                },
                None => {
                    metadata_texts.push(None);
                },
            }
            i = i + 1;
        }
        let body = crate::wire::batch_body(&self.sender, messages, &metadata_texts);
        proof {
            assert(self@.sender == self.sender@);
            assert(self@.base_url == self.base_url);
            assert(crate::wire::texts_view(metadata_texts@) =~= metadata_texts_of(messages@));
            assert(body@ == batch_json(
                self@.sender,
                messages_view(messages@),
                metadata_texts_of(messages@),
            ));
        }
        Ok(
            BatchPlan::Dispatch(
                PreparedRequest {
                    url,
                    token: self.auth_token.expose_secret().to_owned(),
                    body,
                },
            ),
        )
    }

    /// Decides what a transport-level failure means: expiry of the
    /// configured timeout is its own error kind, anything else a plain
    /// transport failure with its description.
    pub fn classify_transport_failure(&self, is_timeout: bool, detail: String) -> (r: ClientError)
        ensures
            is_timeout ==> r == ClientError::Timeout(self@.timeout_secs),
            !is_timeout ==> r == ClientError::Transport(detail),
    {
        if is_timeout {
            ClientError::Timeout(self.timeout_secs)
        } else {
            ClientError::Transport(detail)
        }
    }

    /// Classifies a single-send response by status: a 2xx body is parsed
    /// as one result, succeeding exactly on a well-formed body and
    /// returning its fields verbatim; 401 is an authentication failure
    /// carrying the body; and any other status a server-response failure
    /// carrying status and body.
    pub fn classify_response(status: u16, body: String) -> (r: Result<
        SendEmailResponse,
        ClientError,
    >)
        ensures
            200 <= status < 300 && response_body_well_formed(body@) ==> (r matches Ok(resp)
                && response_matches_fields(
                resp,
                parsed_str_fields_of(body@),
                parsed_int_fields_of(body@),
            )),
            200 <= status < 300 && !response_body_well_formed(body@) ==> (r matches Err(e)
                && e matches ClientError::Serialization(_)),
            status == 401 ==> (r matches Err(e) && e matches ClientError::Authentication(m) && m@
                == body@),
            !(200 <= status < 300) && status != 401 ==> (r matches Err(e) && e matches
                ClientError::ServerResponse { status_code, message } && status_code == status
                && message@ == body@),
    {
        if 200 <= status && status < 300 {
            let v = match parse_json(body.as_str()) {
                Ok(v) => v,
                Err(e) => {
                    return Err(ClientError::Serialization(e));
                },
            };
            SendEmailResponse::from_json_value(&v)
        } else if status == 401 {
            Err(ClientError::Authentication(body))
        } else {
            Err(ClientError::ServerResponse { status_code: status, message: body })
        }
    }

    /// Classifies a batch response by status exactly as `classify_response`
    /// does, except that a 2xx body is parsed as a JSON array of results:
    /// it succeeds exactly on a well-formed array body and returns one
    /// result per element, in the array's order, fields verbatim.
    pub fn classify_batch_response(status: u16, body: String) -> (r: Result<
        Vec<SendEmailResponse>,
        ClientError,
    >)
        ensures
            200 <= status < 300 && batch_body_well_formed(body@) ==> (r matches Ok(results)
                && parsed_array_len_of(body@) == Some(results@.len() as int) && forall|i: int|
                0 <= i < results@.len() ==> response_matches_fields(
                    #[trigger] results@[i],
                    parsed_elem_str_fields_of(body@, i),
                    parsed_elem_int_fields_of(body@, i),
                )),
            200 <= status < 300 && !batch_body_well_formed(body@) ==> (r matches Err(e)
                && e matches ClientError::Serialization(_)),
            status == 401 ==> (r matches Err(e) && e matches ClientError::Authentication(m) && m@
                == body@),
            !(200 <= status < 300) && status != 401 ==> (r matches Err(e) && e matches
                ClientError::ServerResponse { status_code, message } && status_code == status
                && message@ == body@),
    {
        if 200 <= status && status < 300 {
            let v = match parse_json(body.as_str()) {
                Ok(v) => v,
                Err(e) => {
                    return Err(ClientError::Serialization(e));
                },
            };
            let items = match json_as_array(&v) {
                Some(a) => a,
                None => {
                    return Err(
                        ClientError::Serialization("response is not a JSON array".to_owned()),
                    );
                },
            };
            let n = items.len();
            let mut results: Vec<SendEmailResponse> = Vec::new();
            let mut i: usize = 0;
            while i < n
                invariant
                    0 <= i <= n,
                    n == items@.len(),
                    200 <= status < 300,
                    json_ok_of(body@),
                    parsed_array_len_of(body@) == Some(n as int),
                    forall|k: int|
                        0 <= k < n ==> str_fields_of(#[trigger] items@[k])
                            == parsed_elem_str_fields_of(body@, k) && int_fields_of(items@[k])
                            == parsed_elem_int_fields_of(body@, k),
                    results@.len() == i,
                    forall|j: int|
                        0 <= j < i ==> response_shape_ok(
                            #[trigger] parsed_elem_str_fields_of(body@, j),
                            parsed_elem_int_fields_of(body@, j),
                        ),
                    forall|j: int|
                        0 <= j < i ==> response_matches_fields(
                            #[trigger] results@[j],
                            parsed_elem_str_fields_of(body@, j),
                            parsed_elem_int_fields_of(body@, j),
                        ),
                decreases n - i,
            {
                match SendEmailResponse::from_json_value(&items[i]) {
                    Ok(one) => {
                        results.push(one);
                    },
                    Err(e) => {
                        return Err(e);
                    },
                }
                i = i + 1;
            }
            Ok(results)
        } else if status == 401 {
            Err(ClientError::Authentication(body))
        } else {
            Err(ClientError::ServerResponse { status_code: status, message: body })
        }
    }
}

} // verus!
