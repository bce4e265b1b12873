//! A scripted stand-in for the OpenRouter transport, for tests: it records
//! every request it is sent and answers with the outcomes it was given, in
//! order; the two model configurations the tests run with.
use vstd::prelude::*;

use vstd::string::StringSliceAdditionalSpecFns;

use crate::error::{CoreError, CoreResult, STATUS_UPSTREAM};

verus! {

/// A chat-completion request as the transport sends it: the endpoint and
/// the JSON body.
#[derive(Debug)]
pub struct OpenRouterTransportRequest {
    pub endpoint: String,
    pub body: Vec<u8>,
}

/// A transport's answer: the HTTP status and the body.
#[derive(Debug)]
pub struct OpenRouterTransportResponse {
    pub status: u16,
    pub body: Vec<u8>,
}

/// A request the test transport recorded.
#[derive(Debug)]
pub struct TestOpenRouterRequest {
    pub endpoint: String,
    pub body: Vec<u8>,
}

/// A recorded request as the contracts see it.
pub struct RecordedRequest {
    pub endpoint: Seq<char>,
    pub body: Seq<u8>,
}

impl View for TestOpenRouterRequest {
    type V = RecordedRequest;

    open spec fn view(&self) -> RecordedRequest {
        RecordedRequest { endpoint: self.endpoint@, body: self.body@ }
    }
}

impl Clone for TestOpenRouterRequest {
    fn clone(&self) -> (r: Self)
        ensures
            r@ == self@,
    {
        TestOpenRouterRequest {
            endpoint: self.endpoint.clone(),
            body: vstd::slice::slice_to_vec(self.body.as_slice()),
        }
    }
}

/// An answer the test transport is to give: a status and a body.
#[derive(Debug)]
pub struct TestOpenRouterResponse {
    pub status: u16,
    pub body: Vec<u8>,
}

impl TestOpenRouterResponse {
    /// An answer with this status whose body is the given JSON text.
    pub fn json(status: u16, body: &str) -> (r: Self)
        ensures
            r.status == status,
            r.body@ == body.spec_bytes(),
    {
        TestOpenRouterResponse {
            status,
            body: vstd::slice::slice_to_vec(body.as_bytes()),
        }
    }
}

/// What the test transport does for one request: answer, or fail with a
/// message.
#[derive(Debug)]
pub enum TestOpenRouterOutcome {
    Response(TestOpenRouterResponse),
    Error(String),
}

/// The status code an answer carries: a code outside 100..=999 is no HTTP
/// status (`http::StatusCode::from_u16` refuses it), and 200 stands in.
pub open spec fn effective_status(code: u16) -> u16 {
    if 100 <= code && code < 1000 {
        code
    } else {
        200
    }
}

/// The message of the error given when no outcome is left.
pub open spec fn exhausted_message() -> Seq<char> {
    "no queued OpenRouter response (default status 500 Internal Server Error)"@
}

/// A transport that records requests and plays back scripted outcomes.
#[derive(Debug)]
pub struct TestOpenRouterTransport {
    pub requests: Vec<TestOpenRouterRequest>,
    pub responses: Vec<TestOpenRouterOutcome>,
}

/// The views of recorded requests.
pub open spec fn requests_view(s: Seq<TestOpenRouterRequest>) -> Seq<RecordedRequest> {
    s.map_values(|r: TestOpenRouterRequest| r@)
}

impl TestOpenRouterTransport {
    /// A transport that will give `responses`, first to last, and has
    /// recorded nothing.
    pub fn new(responses: Vec<TestOpenRouterOutcome>) -> (t: Self)
        ensures
            t.requests@.len() == 0,
            t.responses@ == responses@,
    {
        TestOpenRouterTransport { requests: Vec::new(), responses }
    }

    /// The requests sent so far, oldest first.
    pub fn recorded_requests(&self) -> (r: Vec<TestOpenRouterRequest>)
        ensures
            requests_view(r@) == requests_view(self.requests@),
    {
        let mut out: Vec<TestOpenRouterRequest> = Vec::new();
        let mut i: usize = 0;
        while i < self.requests.len()
            invariant
                i <= self.requests.len(),
                requests_view(out@) == requests_view(self.requests@.take(i as int)),
            decreases self.requests.len() - i,
        {
            let copy = self.requests[i].clone();
            let ghost prev = out@;
            let ghost item = copy;
            out.push(copy);
            proof {
                let src = self.requests@.take(i as int);
                assert(self.requests@.take(i + 1) =~= src.push(self.requests@[i as int]));
                assert(requests_view(prev.push(item)) =~= requests_view(prev).push(item@));
                assert(requests_view(src.push(self.requests@[i as int])) =~= requests_view(src).push(
                    self.requests@[i as int]@,
                ));
            }
            i = i + 1;
        }
        proof {
            assert(self.requests@.take(self.requests.len() as int) =~= self.requests@);
        }
        out
    }

    /// Records the request and plays the next scripted outcome: an answer
    /// (its status made a valid HTTP status), or an upstream error; with no
    /// outcome left, an upstream error saying so.
    pub fn send_chat_completion(&mut self, request: OpenRouterTransportRequest) -> (r: CoreResult<
        OpenRouterTransportResponse,
    >)
        ensures
            requests_view(final(self).requests@) == requests_view(old(self).requests@).push(
                RecordedRequest { endpoint: request.endpoint@, body: request.body@ },
            ),
            old(self).responses@.len() == 0 ==> {
                &&& final(self).responses@ == old(self).responses@
                &&& r matches Err(e)
                &&& e.status == STATUS_UPSTREAM
                &&& e.message@ == exhausted_message()
            },
            old(self).responses@.len() > 0 ==> {
                &&& final(self).responses@ == old(self).responses@.drop_first()
                &&& match old(self).responses@[0] {
                    TestOpenRouterOutcome::Response(a) => r matches Ok(resp) && resp.status
                        == effective_status(a.status) && resp.body@ == a.body@,
                    TestOpenRouterOutcome::Error(m) => r matches Err(e) && e.status
                        == STATUS_UPSTREAM && e.message@ == m@,
                }
            },
    {
        let ghost before = self.requests@;
        self.requests.push(
            TestOpenRouterRequest { endpoint: request.endpoint, body: request.body },
        );
        proof {
            assert(requests_view(self.requests@) =~= requests_view(before).push(
                RecordedRequest { endpoint: request.endpoint@, body: request.body@ },
            ));
        }
        if self.responses.len() == 0 {
            return Err(
                CoreError::upstream(
                    String::from_str(
                        "no queued OpenRouter response (default status 500 Internal Server Error)",
                    ),
                ),
            );
        }
        let ghost queued = self.responses@;
        let next = self.responses.remove(0);
        proof {
            assert(self.responses@ =~= queued.drop_first());
        }
        match next {
            TestOpenRouterOutcome::Response(answer) => {
                let status = if 100 <= answer.status && answer.status < 1000 {
                    answer.status
                } else {
                    200
                };
                Ok(OpenRouterTransportResponse { status, body: answer.body })
            },
            TestOpenRouterOutcome::Error(message) => Err(CoreError::upstream(message)),
        }
    }
}

/// A configuration with two providers: OpenRouter, which needs the
/// `OPENROUTER_API_KEY` variable, and OpenAI, which needs none.
pub fn multi_provider_config_toml() -> (r: &'static str)
    ensures
        r@ == multi_provider_config(),
{
    "
[[providers]]
provider_type = \"openRouter\"
display_name = \"OpenRouter\"
base_url = \"https://openrouter.ai/api/v1\"
api_key_env = \"OPENROUTER_API_KEY\"
default_model = \"nvidia/nemotron-3-super-120b-a12b:free\"

[[providers.models]]
name = \"nvidia/nemotron-3-super-120b-a12b:free\"
context_window = 131072
supports_tools = false
supports_embeddings = false
capabilities = [\"chat\"]

[[providers]]
provider_type = \"openAi\"
display_name = \"OpenAI\"
base_url = \"https://api.openai.com/v1\"
default_model = \"gpt-4.1\"

[[providers.models]]
name = \"gpt-4.1\"
context_window = 128000
supports_tools = true
supports_embeddings = false
capabilities = [\"chat\", \"tools\"]
"
}

/// The text of the two-provider configuration.
pub open spec fn multi_provider_config() -> Seq<char> {
    "
[[providers]]
provider_type = \"openRouter\"
display_name = \"OpenRouter\"
base_url = \"https://openrouter.ai/api/v1\"
api_key_env = \"OPENROUTER_API_KEY\"
default_model = \"nvidia/nemotron-3-super-120b-a12b:free\"

[[providers.models]]
name = \"nvidia/nemotron-3-super-120b-a12b:free\"
context_window = 131072
supports_tools = false
supports_embeddings = false
capabilities = [\"chat\"]

[[providers]]
provider_type = \"openAi\"
display_name = \"OpenAI\"
base_url = \"https://api.openai.com/v1\"
default_model = \"gpt-4.1\"

[[providers.models]]
name = \"gpt-4.1\"
context_window = 128000
supports_tools = true
supports_embeddings = false
capabilities = [\"chat\", \"tools\"]
"@
}

/// A configuration with the Moonshot provider alone, which needs the
/// `MOONSHOT_API_KEY` variable.
pub fn moonshot_provider_config_toml() -> (r: &'static str)
    ensures
        r@ == moonshot_provider_config(),
{
    "
[[providers]]
provider_type = \"moonshot\"
display_name = \"Moonshot\"
base_url = \"https://api.moonshot.ai/v1\"
api_key_env = \"MOONSHOT_API_KEY\"
default_model = \"kimi-k2.5\"

[[providers.models]]
name = \"kimi-k2.5\"
context_window = 131072
supports_tools = false
supports_embeddings = false
capabilities = [\"chat\", \"reasoning\"]
"
}

/// The text of the Moonshot configuration.
pub open spec fn moonshot_provider_config() -> Seq<char> {
    "
[[providers]]
provider_type = \"moonshot\"
display_name = \"Moonshot\"
base_url = \"https://api.moonshot.ai/v1\"
api_key_env = \"MOONSHOT_API_KEY\"
default_model = \"kimi-k2.5\"

[[providers.models]]
name = \"kimi-k2.5\"
context_window = 131072
supports_tools = false
supports_embeddings = false
capabilities = [\"chat\", \"reasoning\"]
"@
}

/// What a test changed in one environment variable: its name, and the value
/// it had before (none when it was unset), which is put back when the test
/// is done with it.
#[derive(Debug)]
pub struct EnvVarGuard {
    pub key: String,
    pub previous: Option<String>,
}

impl EnvVarGuard {
    /// The guard of the variable `key`, which held `previous`.
    pub fn new(key: String, previous: Option<String>) -> (g: Self)
        ensures
            g.key == key,
            g.previous == previous,
    {
        EnvVarGuard { key, previous }
    }

    /// What putting the variable back means: set it to the earlier value,
    /// or, when it had none, remove it.
    pub fn restore_value(&self) -> (r: Option<String>)
        ensures
            r == self.previous,
    {
        match &self.previous {
            Some(v) => Some(v.clone()),
            None => None,
        }
    }
}

} // verus!
