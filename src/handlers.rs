//! The request orchestrator's decisions: which texts of a request are assessed
//! before the backend is called, how each verdict ends or continues a request,
//! which status each failure is reported with, and how the model-management
//! endpoints are forwarded.
use vstd::prelude::*;
use vstd::string::StringExecFns;
use crate::ollama::OllamaError;
use crate::security::{outcome_allows, Assessment, SecurityError};
use crate::text::{error_document, error_json};
use crate::types::{ChatRequest, EmbeddingsRequest, GenerateRequest};
use vstd::utf8::encode_utf8;

verus! {

/// How a request fails.
#[derive(Debug)]
pub enum ApiError {
    /// The backend failed: a gateway error.
    OllamaError(OllamaError),
    /// No verdict could be obtained: the request fails closed.
    SecurityError(SecurityError),
    /// A text was ruled unsafe: a policy violation, with what the verdict said.
    SecurityIssue(String),
    /// Anything else that went wrong inside the proxy.
    InternalError(String),
}

/// The HTTP status a failure is reported with. A policy violation has a
/// status of its own, distinct from server and backend failures.
pub open spec fn status_for(e: ApiError) -> u16 {
    match e {
        ApiError::OllamaError(_) => 502,
        ApiError::SecurityError(_) => 500,
        ApiError::SecurityIssue(_) => 403,
        ApiError::InternalError(_) => 500,
    }
}

impl ApiError {
    /// The HTTP status this failure is reported with.
    pub fn status_code(&self) -> (r: u16)
        ensures
            r == status_for(*self),
    {
        match self {
            ApiError::OllamaError(_) => 502,
            ApiError::SecurityError(_) => 500,
            ApiError::SecurityIssue(_) => 403,
            ApiError::InternalError(_) => 500,
        }
    }
}

impl ApiError {
    /// Whether `d` describes this failure.
    pub open spec fn describes(&self, d: Seq<char>) -> bool {
        match self {
            ApiError::OllamaError(e) => exists|s: Seq<char>| e.describes(s) && d == "Ollama error: "@ + s,
            ApiError::SecurityError(e) => exists|s: Seq<char>|
                e.describes(s) && d == "Security error: "@ + s,
            ApiError::SecurityIssue(m) => d == "Security issue: "@ + m@,
            ApiError::InternalError(m) => d == "Internal error: "@ + m@,
        }
    }

    /// The description of the failure.
    pub fn describe(&self) -> (r: String)
        ensures
            self.describes(r@),
    {
        match self {
            ApiError::OllamaError(e) => {
                let s = e.describe();
                let mut r = "Ollama error: ".to_owned();
                r.append(s.as_str());
                r
            },
            ApiError::SecurityError(e) => {
                let s = e.describe();
                let mut r = "Security error: ".to_owned();
                r.append(s.as_str());
                r
            },
            ApiError::SecurityIssue(m) => {
                let mut r = "Security issue: ".to_owned();
                r.append(m.as_str());
                r
            },
            ApiError::InternalError(m) => {
                let mut r = "Internal error: ".to_owned();
                r.append(m.as_str());
                r
            },
        }
    }

    /// The body of the error response: a JSON error document holding the
    /// description.
    pub fn error_body(&self) -> (r: Vec<u8>)
        ensures
            exists|d: Seq<char>| self.describes(d) && r@ == encode_utf8(error_document(d)),
    {
        let d = self.describe();
        error_json(d.as_str())
    }
}

impl From<OllamaError> for ApiError {
    fn from(err: OllamaError) -> (r: ApiError) {
        ApiError::OllamaError(err)
    }
}

impl vstd::std_specs::convert::FromSpecImpl<OllamaError> for ApiError {
    open spec fn obeys_from_spec() -> bool {
        true
    }

    open spec fn from_spec(v: OllamaError) -> ApiError {
        ApiError::OllamaError(v)
    }
}

impl From<SecurityError> for ApiError {
    fn from(err: SecurityError) -> (r: ApiError) {
        ApiError::SecurityError(err)
    }
}

impl vstd::std_specs::convert::FromSpecImpl<SecurityError> for ApiError {
    open spec fn obeys_from_spec() -> bool {
        true
    }

    open spec fn from_spec(v: SecurityError) -> ApiError {
        ApiError::SecurityError(v)
    }
}

/// Which text a verdict was obtained on; it names the text in a violation.
#[derive(Debug, Clone, Copy, PartialEq, Eq)]
pub enum Checkpoint {
    /// The prompt of a generation request.
    Prompt,
    /// One message of a conversation.
    ChatMessage,
    /// The text of an embeddings request.
    EmbeddingPrompt,
    /// The backend's complete, non-streamed output.
    Response,
}

pub open spec fn checkpoint_subject(c: Checkpoint) -> Seq<char> {
    match c {
        Checkpoint::Prompt => "Content"@,
        Checkpoint::ChatMessage => "Message content"@,
        Checkpoint::EmbeddingPrompt => "Embedding prompt"@,
        Checkpoint::Response => "Response content"@,
    }
}

/// The description of a violation: what was ruled unsafe, and the verdict's
/// category and action.
pub open spec fn violation_message(c: Checkpoint, category: Seq<char>, action: Seq<char>) -> Seq<char> {
    checkpoint_subject(c) + " violates security policy. Category: "@ + category + ", Action: "@ + action
}

fn checkpoint_subject_text(c: Checkpoint) -> (r: String)
    ensures
        r@ == checkpoint_subject(c),
{
    match c {
        Checkpoint::Prompt => "Content".to_owned(),
        Checkpoint::ChatMessage => "Message content".to_owned(),
        Checkpoint::EmbeddingPrompt => "Embedding prompt".to_owned(),
        Checkpoint::Response => "Response content".to_owned(),
    }
}

/// Ends or continues a request on the outcome of one assessment. A verdict
/// that the shared rule allows continues it. A verdict it rejects ends the
/// request as a policy violation that names the category and the action. A
/// failure to obtain a verdict ends it too: the request fails closed.
pub fn screen(checkpoint: Checkpoint, outcome: Result<Assessment, SecurityError>) -> (r: Result<(), ApiError>)
    ensures
        r is Ok <==> outcome_allows(outcome),
        outcome matches Err(x) ==> r == Err::<(), ApiError>(ApiError::SecurityError(x)),
        outcome matches Ok(a) ==> (!outcome_allows(outcome) ==> (r matches Err(
            ApiError::SecurityIssue(m),
        ) && m@ == violation_message(checkpoint, a.category@, a.action@))),
{
    match outcome {
        Err(e) => Err(ApiError::SecurityError(e)),
        Ok(a) => {
            if a.allows() {
                Ok(())
            } else {
                let mut m = checkpoint_subject_text(checkpoint);
                m.append(" violates security policy. Category: ");
                m.append(a.category.as_str());
                m.append(", Action: ");
                m.append(a.action.as_str());
                Err(ApiError::SecurityIssue(m))
            }
        },
    }
}

/// The model of a prompt gate: the texts to assess, in order, how many of them
/// a verdict has cleared so far, and whether one was turned down.
pub struct GateView {
    pub texts: Seq<Seq<char>>,
    pub checkpoint: Checkpoint,
    pub cleared: nat,
    pub rejected: bool,
}

/// What the orchestrator is to do next with a request's input.
#[derive(Debug)]
pub enum GateStep {
    /// Obtain a verdict on this text, as a prompt, and hand it to `record`.
    Assess(String),
    /// Every text has been cleared: the backend may be called.
    Proceed,
}

/// Holds a request back from the backend until every text of its input has
/// been assessed and cleared, one at a time, in order. The first text turned
/// down, or left without a verdict, ends the request.
pub struct PromptGate {
    texts: Vec<String>,
    checkpoint: Checkpoint,
    cleared: usize,
    rejected: bool,
}

impl View for PromptGate {
    type V = GateView;

    closed spec fn view(&self) -> GateView {
        GateView {
            texts: self.texts@.map_values(|t: String| t@),
            checkpoint: self.checkpoint,
            cleared: self.cleared as nat,
            rejected: self.rejected,
        }
    }
}

impl GateView {
    /// Where a gate stands after a verdict on the text it named. An allowing verdict
    /// clears it; any other turns the request down.
    pub open spec fn record(self, allowed: bool) -> GateView {
        if allowed {
            GateView { cleared: self.cleared + 1, ..self }
        } else {
            GateView { rejected: true, ..self }
        }
    }

    /// Every text is cleared, and none was turned down.
    pub open spec fn may_proceed(self) -> bool {
        !self.rejected && self.cleared == self.texts.len()
    }

    /// Where a gate stands after taking `verdicts` one at a time, for as long as it asks
    /// for them.
    pub open spec fn run(self, verdicts: Seq<bool>) -> GateView
        decreases verdicts.len(),
    {
        if verdicts.len() == 0 || self.rejected || self.cleared >= self.texts.len() {
            self
        } else {
            self.record(verdicts[0]).run(verdicts.drop_first())
        }
    }
}

impl PromptGate {
    pub closed spec fn wf(&self) -> bool {
        self.cleared <= self.texts.len()
    }

    fn over(texts: Vec<String>, checkpoint: Checkpoint) -> (r: Self)
        ensures
            r.wf(),
            r@.texts == texts@.map_values(|t: String| t@),
            r@.checkpoint == checkpoint,
            r@.cleared == 0,
            !r@.rejected,
    {
        PromptGate { texts, checkpoint, cleared: 0, rejected: false }
    }

    /// A gate over the prompt of a generation request.
    pub fn for_generate(request: &GenerateRequest) -> (r: Self)
        ensures
            r.wf(),
            r@.texts == seq![request.prompt@],
            r@.checkpoint == Checkpoint::Prompt,
            r@.cleared == 0,
            !r@.rejected,
    {
        let texts = vec![request.prompt.clone()];
        let r = Self::over(texts, Checkpoint::Prompt);
        assert(r@.texts =~= seq![request.prompt@]);
        r
    }

    /// A gate over the text of an embeddings request.
    pub fn for_embeddings(request: &EmbeddingsRequest) -> (r: Self)
        ensures
            r.wf(),
            r@.texts == seq![request.prompt@],
            r@.checkpoint == Checkpoint::EmbeddingPrompt,
            r@.cleared == 0,
            !r@.rejected,
    {
        let texts = vec![request.prompt.clone()];
        let r = Self::over(texts, Checkpoint::EmbeddingPrompt);
        assert(r@.texts =~= seq![request.prompt@]);
        r
    }

    /// A gate over every message of a conversation, one text per turn, in order.
    pub fn for_chat(request: &ChatRequest) -> (r: Self)
        ensures
            r.wf(),
            r@.texts.len() == request.messages@.len(),
            forall|i: int| 0 <= i < request.messages@.len() ==> #[trigger] r@.texts[i]
                == request.messages@[i].content@,
            r@.checkpoint == Checkpoint::ChatMessage,
            r@.cleared == 0,
            !r@.rejected,
    {
        let mut texts: Vec<String> = Vec::new();
        let n = request.messages.len();
        for i in 0..n
            invariant
                n == request.messages@.len(),
                texts@.len() == i,
                forall|j: int| 0 <= j < i ==> #[trigger] texts@[j]@ == request.messages@[j].content@,
        {
            texts.push(request.messages[i].content.clone());
        }
        Self::over(texts, Checkpoint::ChatMessage)
    }

    /// What to do next: assess the first text not yet cleared, or proceed when
    /// all are.
    pub fn next_step(&self) -> (r: GateStep)
        requires
            self.wf(),
            !self@.rejected,
        ensures
            self@.cleared < self@.texts.len() ==> (r matches GateStep::Assess(t)
                && t@ == self@.texts[self@.cleared as int]),
            self@.cleared == self@.texts.len() ==> r is Proceed,
    {
        if self.cleared < self.texts.len() {
            GateStep::Assess(self.texts[self.cleared].clone())
        } else {
            GateStep::Proceed
        }
    }

    /// Takes the outcome of assessing the text that `next_step` named. If it
    /// clears the text, this gate moves to the next; otherwise the request ends
    /// with the error `screen` gives.
    pub fn record(&mut self, outcome: Result<Assessment, SecurityError>) -> (r: Result<(), ApiError>)
        requires
            old(self).wf(),
            !old(self)@.rejected,
            old(self)@.cleared < old(self)@.texts.len(),
        ensures
            final(self).wf(),
            final(self)@.texts == old(self)@.texts,
            final(self)@.checkpoint == old(self)@.checkpoint,
            r is Ok <==> outcome_allows(outcome),
            final(self)@ == old(self)@.record(outcome_allows(outcome)),
            outcome matches Err(x) ==> r == Err::<(), ApiError>(ApiError::SecurityError(x)),
            outcome matches Ok(a) ==> (!outcome_allows(outcome) ==> (r matches Err(
                ApiError::SecurityIssue(m),
            ) && m@ == violation_message(old(self)@.checkpoint, a.category@, a.action@))),
    {
        let r = screen(self.checkpoint, outcome);
        match r {
            Ok(()) => {
                self.cleared = self.cleared + 1;
            },
            Err(_) => {
                self.rejected = true;
            },
        }
        r
    }
}

/// Fail fast: a fresh gate over `n` texts, given verdicts one after another,
/// lets the request proceed to the backend exactly when the first `n` verdicts
/// all allow. One that does not ends the request before any backend call.
pub proof fn lemma_gate_proceeds_only_when_cleared(g: GateView, verdicts: Seq<bool>)
    requires
        g.cleared == 0,
        !g.rejected,
    ensures
        g.run(verdicts).may_proceed() <==> (verdicts.len() >= g.texts.len() && forall|i: int|
            0 <= i < g.texts.len() ==> #[trigger] verdicts[i]),
{
    lemma_gate_run(g, verdicts);
}

/// A gate that has cleared some texts proceeds exactly when the verdicts that
/// follow allow the rest.
proof fn lemma_gate_run(g: GateView, verdicts: Seq<bool>)
    requires
        g.cleared <= g.texts.len(),
        !g.rejected,
    ensures
        g.run(verdicts).may_proceed() <==> (verdicts.len() >= g.texts.len() - g.cleared && forall|
            i: int,
        | 0 <= i < g.texts.len() - g.cleared ==> #[trigger] verdicts[i]),
    decreases verdicts.len(),
{
    if verdicts.len() > 0 && g.cleared < g.texts.len() {
        let next = g.record(verdicts[0]);
        if verdicts[0] {
            lemma_gate_run(next, verdicts.drop_first());
            if g.run(verdicts).may_proceed() {
                assert forall|i: int| 0 <= i < g.texts.len() - g.cleared implies #[trigger] verdicts[i] by {
                    if i > 0 {
                        assert(verdicts.drop_first()[i - 1]);
                    }
                }
            }
            if verdicts.len() >= g.texts.len() - g.cleared && forall|i: int|
                0 <= i < g.texts.len() - g.cleared ==> #[trigger] verdicts[i] {
                assert forall|i: int| 0 <= i < next.texts.len() - next.cleared implies #[trigger] verdicts.drop_first()[i] by {
                    assert(verdicts[i + 1]);
                }
            }
        } else {
            assert(next.rejected);
            assert(next.run(verdicts.drop_first()) == next);
        }
    }
}

/// A request naming one model, for the model-management endpoints.
#[derive(Debug, Clone)]
pub struct ModelRequest {
    pub name: String,
    pub path: Option<String>,
    pub stream: Option<bool>,
}

/// The HTTP methods the backend's endpoints are called with.
#[derive(Debug, Clone, Copy, PartialEq, Eq)]
pub enum HttpMethod {
    Get,
    Post,
}

/// The backend endpoints that are forwarded without assessment.
#[derive(Debug, Clone, Copy, PartialEq, Eq)]
pub enum OllamaEndpoint {
    Tags,
    Show,
    Create,
    Copy,
    Delete,
    Pull,
    Push,
}

impl OllamaEndpoint {
    pub open spec fn path_spec(self) -> Seq<char> {
        match self {
            OllamaEndpoint::Tags => "/api/tags"@,
            OllamaEndpoint::Show => "/api/show"@,
            OllamaEndpoint::Create => "/api/create"@,
            OllamaEndpoint::Copy => "/api/copy"@,
            OllamaEndpoint::Delete => "/api/delete"@,
            OllamaEndpoint::Pull => "/api/pull"@,
            OllamaEndpoint::Push => "/api/push"@,
        }
    }

    pub open spec fn log_prefix_spec(self) -> Seq<char> {
        match self {
            OllamaEndpoint::Tags => "Forwarding list models request"@,
            OllamaEndpoint::Show => "Forwarding show model request for"@,
            OllamaEndpoint::Create => "Forwarding create model request"@,
            OllamaEndpoint::Copy => "Forwarding copy model request"@,
            OllamaEndpoint::Delete => "Forwarding delete model request for"@,
            OllamaEndpoint::Pull => "Forwarding pull model request for"@,
            OllamaEndpoint::Push => "Forwarding push model request for"@,
        }
    }

    /// Only listing the models is a `GET`; the rest are `POST`s.
    pub open spec fn method_spec(self) -> HttpMethod {
        match self {
            OllamaEndpoint::Tags => HttpMethod::Get,
            _ => HttpMethod::Post,
        }
    }

    pub open spec fn names_model(self) -> bool {
        match self {
            OllamaEndpoint::Show | OllamaEndpoint::Delete | OllamaEndpoint::Pull
            | OllamaEndpoint::Push => true,
            _ => false,
        }
    }

    /// The backend path of the endpoint.
    pub fn path(&self) -> (r: &'static str)
        ensures
            r@ == self.path_spec(),
    {
        match self {
            OllamaEndpoint::Tags => "/api/tags",
            OllamaEndpoint::Show => "/api/show",
            OllamaEndpoint::Create => "/api/create",
            OllamaEndpoint::Copy => "/api/copy",
            OllamaEndpoint::Delete => "/api/delete",
            OllamaEndpoint::Pull => "/api/pull",
            OllamaEndpoint::Push => "/api/push",
        }
    }

    /// The HTTP method the endpoint is called with.
    pub fn method(&self) -> (r: HttpMethod)
        ensures
            r == self.method_spec(),
    {
        match self {
            OllamaEndpoint::Tags => HttpMethod::Get,
            _ => HttpMethod::Post,
        }
    }

    /// How the log line for a forwarded request begins.
    pub fn log_prefix(&self) -> (r: &'static str)
        ensures
            r@ == self.log_prefix_spec(),
    {
        match self {
            OllamaEndpoint::Tags => "Forwarding list models request",
            OllamaEndpoint::Show => "Forwarding show model request for",
            OllamaEndpoint::Create => "Forwarding create model request",
            OllamaEndpoint::Copy => "Forwarding copy model request",
            OllamaEndpoint::Delete => "Forwarding delete model request for",
            OllamaEndpoint::Pull => "Forwarding pull model request for",
            OllamaEndpoint::Push => "Forwarding push model request for",
        }
    }

    /// Whether the log line names the model the request is about.
    pub fn includes_model_name_in_logs(&self) -> (r: bool)
        ensures
            r == self.names_model(),
    {
        match self {
            OllamaEndpoint::Show | OllamaEndpoint::Delete | OllamaEndpoint::Pull
            | OllamaEndpoint::Push => true,
            _ => false,
        }
    }

    /// The log line for a forwarded request: the prefix, followed by the
    /// model's name where the endpoint names one and it is known.
    pub fn log_message(&self, model_name: Option<&str>) -> (r: String)
        ensures
            (self.names_model() && model_name is Some) ==> r@ == self.log_prefix_spec() + ": "@
                + model_name->Some_0@,
            !(self.names_model() && model_name is Some) ==> r@ == self.log_prefix_spec(),
    {
        let mut line = self.log_prefix().to_owned();
        if self.includes_model_name_in_logs() {
            if let Some(name) = model_name {
                line.append(": ");
                line.append(name);
            }
        }
        line
    }

    /// How a request to this endpoint is sent: a `GET` needs no body; a `POST`
    /// carries the request's body and cannot be sent without one.
    pub fn forward_method(&self, has_body: bool) -> (r: Result<HttpMethod, ApiError>)
        ensures
            r is Ok <==> (self.method_spec() == HttpMethod::Get || has_body),
            r matches Ok(m) ==> m == self.method_spec(),
            r matches Err(e) ==> (e matches ApiError::InternalError(m) && m@
                == "Body required for POST request"@),
    {
        match self.method() {
            HttpMethod::Get => Ok(HttpMethod::Get),
            HttpMethod::Post => {
                if has_body {
                    Ok(HttpMethod::Post)
                } else {
                    Err(ApiError::InternalError("Body required for POST request".to_owned()))
                }
            },
        }
    }
}

} // verus!
