//! Text correction by a language model: requests, replies and what they come to.

pub mod prompt;
pub mod redact;

use crate::error::AppError;
use crate::llm::prompt::build_correction_prompt;
use crate::llm::redact::redact_error_detail;
use crate::text;
use vstd::prelude::*;

verus! {

/// Trait for text correction, with a blocking interface.
pub trait TextCorrector {
    fn correct_sync(&self, text: &str) -> Result<String, AppError>;

    fn matches_config(&self, api_url: &str, api_key: &str, model: &str) -> bool;

    fn test_connection_sync(&self) -> Result<(), AppError>;
}

/// One message of a chat request.
pub struct ChatMessage {
    pub role: String,
    pub content: String,
}

/// A chat request. The temperature is given in tenths.
pub struct ChatRequest {
    pub model: String,
    pub messages: Vec<ChatMessage>,
    pub temperature_tenths: u32,
}

/// What came of posting a chat request.
pub enum ChatReply {
    /// The request could not be sent or answered; the rendered cause.
    Unsent(String),
    /// The endpoint refused: the rendered status and the body.
    Refused(String, String),
    /// The body of a successful response could not be parsed; the rendered cause.
    Unreadable(String),
    /// The contents of the offered choices, in order.
    Choices(Vec<String>),
}

/// What came of a connection test.
pub enum PingReply {
    /// The request could not be sent or answered; the rendered cause.
    Unsent(String),
    /// The endpoint answered with a success status.
    Accepted,
    /// The endpoint answered with another status, here rendered.
    Refused(String),
}

/// The text that a reply to a correction request stands for: the first choice, or the text as it
/// was where there is none. Otherwise the message of the error.
pub open spec fn corrected(reply: ChatReply, text: Seq<char>) -> Result<Seq<char>, Seq<char>> {
    match reply {
        ChatReply::Unsent(e) => Err("request failed: "@ + e@),
        ChatReply::Refused(status, body) => Err("API error "@ + status@ + ": "@ + body@),
        ChatReply::Unreadable(e) => Err("parse response failed: "@ + e@),
        ChatReply::Choices(choices) => if choices@.len() > 0 {
            Ok(choices@[0]@)
        } else {
            Ok(text)
        },
    }
}

/// Client for post-transcription text correction.
pub struct LLMClient {
    pub api_url: String,
    pub api_key: String,
    pub model: String,
}

impl LLMClient {
    /// Create a client for an OpenAI-compatible endpoint.
    pub fn new(api_url: String, api_key: String, model: String) -> (c: Self)
        ensures
            c == (LLMClient { api_url, api_key, model }),
    {
        LLMClient { api_url, api_key, model }
    }

    /// Whether the client is for this endpoint, key and model.
    pub open spec fn is_for(self, api_url: Seq<char>, api_key: Seq<char>, model: Seq<char>) -> bool {
        self.api_url@ == api_url && self.api_key@ == api_key && self.model@ == model
    }

    /// Check whether this client's endpoint, key and model match the given values.
    pub fn matches_config(&self, api_url: &str, api_key: &str, model: &str) -> (r: bool)
        ensures
            r == self.is_for(api_url@, api_key@, model@),
    {
        text::same_text(self.api_url.as_str(), api_url) && text::same_text(
            self.api_key.as_str(),
            api_key,
        ) && text::same_text(self.model.as_str(), model)
    }

    /// The value of the authorization header.
    pub fn authorization(&self) -> (s: String)
        ensures
            s@ == "Bearer "@ + self.api_key@,
    {
        "Bearer ".to_owned().concat(self.api_key.as_str())
    }

    /// The request that asks for a correction: the fixed instruction, then the text.
    pub fn correction_request(&self, text: &str) -> (r: ChatRequest)
        ensures
            r.model@ == self.model@,
            r.temperature_tenths == 1,
            r.messages@.len() == 2,
            r.messages@[0].role@ == "system"@,
            r.messages@[0].content@ == prompt::CORRECTION_PROMPT@,
            r.messages@[1].role@ == "user"@,
            r.messages@[1].content@ == text@,
    {
        let system = ChatMessage { role: "system".to_owned(), content: build_correction_prompt() };
        let user = ChatMessage { role: "user".to_owned(), content: text.to_owned() };
        ChatRequest { model: self.model.clone(), messages: vec![system, user], temperature_tenths: 1 }
    }

    /// What a reply to a correction request comes to.
    pub fn correct(&self, text: &str, reply: ChatReply) -> (r: Result<String, AppError>)
        ensures
            match r {
                Ok(s) => corrected(reply, text@) == Ok::<Seq<char>, Seq<char>>(s@),
                Err(e) => e is Llm && corrected(reply, text@) == Err::<Seq<char>, Seq<char>>(
                    e.detail(),
                ),
            },
    {
        match reply {
            ChatReply::Unsent(e) => Err(
                AppError::Llm("request failed: ".to_owned().concat(e.as_str())),
            ),
            ChatReply::Refused(status, body) => Err(
                AppError::Llm(
                    "API error ".to_owned().concat(status.as_str()).concat(": ").concat(
                        body.as_str(),
                    ),
                ),
            ),
            ChatReply::Unreadable(e) => Err(
                AppError::Llm("parse response failed: ".to_owned().concat(e.as_str())),
            ),
            ChatReply::Choices(choices) => {
                if choices.len() > 0 {
                    Ok(choices[0].clone())
                } else {
                    Ok(text.to_owned())
                }
            },
        }
    }

    /// The request of a connection test.
    pub fn ping_request(&self) -> (r: ChatRequest)
        ensures
            r.model@ == self.model@,
            r.temperature_tenths == 0,
            r.messages@.len() == 1,
            r.messages@[0].role@ == "user"@,
            r.messages@[0].content@ == "Hi"@,
    {
        let user = ChatMessage { role: "user".to_owned(), content: "Hi".to_owned() };
        ChatRequest { model: self.model.clone(), messages: vec![user], temperature_tenths: 0 }
    }

    /// What a reply to a connection test comes to. The cause of a failed request is redacted
    /// before it is reported, since it shows the request's address.
    pub fn test_connection(&self, reply: PingReply) -> (r: Result<(), AppError>)
        ensures
            match reply {
                PingReply::Accepted => r is Ok,
                PingReply::Unsent(e) => r matches Err(x) && x is Llm && x.detail()
                    == "connection test failed: "@ + redact::redacted_detail(e@, self.api_key@),
                PingReply::Refused(status) => r matches Err(x) && x is Llm && x.detail()
                    == "connection test failed: HTTP "@ + status@,
            },
    {
        match reply {
            PingReply::Accepted => Ok(()),
            PingReply::Unsent(e) => {
                let detail = redact_error_detail(e.as_str(), self.api_key.as_str());
                Err(AppError::Llm("connection test failed: ".to_owned().concat(detail.as_str())))
            },
            PingReply::Refused(status) => Err(
                AppError::Llm("connection test failed: HTTP ".to_owned().concat(status.as_str())),
            ),
        }
    }
}

/// Corrector with a canned answer.
pub struct MockCorrector {
    pub response: String,
    pub config: (String, String, String),
    pub fail: bool,
}

impl MockCorrector {
    /// A corrector that answers every text with `response`.
    pub fn new(response: &str) -> (m: Self)
        ensures
            m.response@ == response@,
            m.config.0@.len() == 0,
            m.config.1@.len() == 0,
            m.config.2@.len() == 0,
            !m.fail,
    {
        MockCorrector {
            response: response.to_owned(),
            config: (String::new(), String::new(), String::new()),
            fail: false,
        }
    }

    /// A corrector that always fails.
    pub fn failing() -> (m: Self)
        ensures
            m.response@.len() == 0,
            m.config.0@.len() == 0,
            m.config.1@.len() == 0,
            m.config.2@.len() == 0,
            m.fail,
    {
        MockCorrector {
            response: String::new(),
            config: (String::new(), String::new(), String::new()),
            fail: true,
        }
    }

    /// The same corrector, made out to a configuration.
    pub fn with_config(self, api_url: &str, api_key: &str, model: &str) -> (m: Self)
        ensures
            m.response == self.response,
            m.fail == self.fail,
            m.config.0@ == api_url@,
            m.config.1@ == api_key@,
            m.config.2@ == model@,
    {
        MockCorrector {
            response: self.response,
            config: (api_url.to_owned(), api_key.to_owned(), model.to_owned()),
            fail: self.fail,
        }
    }
}

/// What a failing mock corrector reports: shaped like a real transport error, with the address
/// and a query credential in it.
pub const MOCK_FAILURE: &'static str =
    "request failed: error sending request for url (http://localhost:9/v1/chat/completions?key=SECRET123)";

impl TextCorrector for MockCorrector {
    fn correct_sync(&self, _text: &str) -> (r: Result<String, AppError>)
        ensures
            match r {
                Ok(s) => !self.fail && s@ == self.response@,
                Err(e) => self.fail && e is Llm && e.detail() == MOCK_FAILURE@,
            },
    {
        if self.fail {
            return Err(AppError::Llm(MOCK_FAILURE.to_owned()));
        }
        Ok(self.response.clone())
    }

    fn matches_config(&self, api_url: &str, api_key: &str, model: &str) -> (r: bool)
        ensures
            r == (self.config.0@ == api_url@ && self.config.1@ == api_key@ && self.config.2@
                == model@),
    {
        text::same_text(self.config.0.as_str(), api_url) && text::same_text(
            self.config.1.as_str(),
            api_key,
        ) && text::same_text(self.config.2.as_str(), model)
    }

    fn test_connection_sync(&self) -> (r: Result<(), AppError>)
        ensures
            r is Ok,
    {
        Ok(())
    }
}

/// A correction is the first choice that is offered; where none is, the text stays as it was, and a
/// failure is told.
pub proof fn a_correction_is_the_first_choice(
    c: LLMClient,
    text: &str,
    reply: ChatReply,
    r: Result<String, AppError>,
)
    requires
        call_ensures(LLMClient::correct, (&c, text, reply), r),
    ensures
        r is Ok <==> reply is Choices,
        reply matches ChatReply::Choices(v) ==> r->Ok_0@ == (if v@.len() > 0 {
            v@[0]@
        } else {
            text@
        }),
        r is Err ==> r->Err_0 is Llm,
        reply matches ChatReply::Unsent(e) ==> r->Err_0.detail() == "request failed: "@ + e@,
        reply matches ChatReply::Refused(status, body) ==> r->Err_0.detail() == "API error "@
            + status@ + ": "@ + body@,
        reply matches ChatReply::Unreadable(e) ==> r->Err_0.detail() == "parse response failed: "@
            + e@,
{
}

/// A request asks the configured model, with the instruction first and the text as it is behind it,
/// at the lowest temperature but one.
pub proof fn a_request_carries_the_text(c: LLMClient, text: &str, r: ChatRequest)
    requires
        call_ensures(LLMClient::correction_request, (&c, text), r),
    ensures
        r.model@ == c.model@,
        r.temperature_tenths == 1,
        r.messages@.len() == 2,
        r.messages@[0].role@ == "system"@ && r.messages@[0].content@ == prompt::CORRECTION_PROMPT@,
        r.messages@[1].role@ == "user"@ && r.messages@[1].content@ == text@,
{
}

/// A client is used again for the same endpoint, key and model only.
pub proof fn a_client_is_for_one_endpoint(
    a: LLMClient,
    api_url: &str,
    api_key: &str,
    model: &str,
    same: bool,
)
    requires
        call_ensures(LLMClient::matches_config, (&a, api_url, api_key, model), same),
    ensures
        same <==> a.api_url@ == api_url@ && a.api_key@ == api_key@ && a.model@ == model@,
{
}

/// The key goes into the header of a request behind the word for its kind.
pub proof fn requests_are_authorized(c: LLMClient, s: String, ping: ChatRequest)
    requires
        call_ensures(LLMClient::authorization, (&c,), s),
        call_ensures(LLMClient::ping_request, (&c,), ping),
    ensures
        s@ == "Bearer "@ + c.api_key@,
        ping.model@ == c.model@,
        ping.messages@.len() == 1 && ping.messages@[0].role@ == "user"@,
{
}

/// A connection works if the endpoint accepts the request. What is told of a failure holds the key
/// no more than a log would.
pub proof fn a_connection_works_if_accepted(
    c: LLMClient,
    reply: PingReply,
    r: Result<(), AppError>,
    cause: &str,
    key: &str,
    shown: String,
)
    requires
        call_ensures(LLMClient::test_connection, (&c, reply), r),
        key@ == c.api_key@,
        reply matches PingReply::Unsent(e) ==> cause@ == e@,
        call_ensures(redact_error_detail, (cause, key), shown),
    ensures
        r is Ok <==> reply is Accepted,
        r is Err ==> r->Err_0 is Llm,
        reply is Unsent ==> r->Err_0.detail() == "connection test failed: "@ + shown@,
        reply matches PingReply::Refused(status) ==> r->Err_0.detail()
            == "connection test failed: HTTP "@ + status@,
{
}

} // verus!
