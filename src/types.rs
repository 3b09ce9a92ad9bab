//! The records exchanged with the generation backend and the policy service.
//!
//! Timestamps are carried as their RFC 3339 text and identifiers as plain
//! numbers; nothing here reads them.
use vstd::prelude::*;

verus! {

/// A single-prompt generation request.
#[derive(Debug, Clone)]
pub struct GenerateRequest {
    pub model: String,
    pub prompt: String,
    pub system: Option<String>,
    pub template: Option<String>,
    pub context: Option<Vec<u32>>,
    pub stream: Option<bool>,
    pub raw: Option<bool>,
    pub format: Option<String>,
    pub options: Option<serde_json::Value>,
}

/// One unit of generated output (the whole output when not streaming).
#[derive(Debug, Clone)]
pub struct GenerateResponse {
    pub model: String,
    pub created_at: String,
    pub response: String,
    pub context: Option<Vec<u32>>,
    pub done: bool,
}

/// A multi-turn conversation request.
#[derive(Debug, Clone)]
pub struct ChatRequest {
    pub model: String,
    pub messages: Vec<Message>,
    pub stream: Option<bool>,
    pub format: Option<String>,
    pub options: Option<serde_json::Value>,
}

/// One turn of a conversation.
#[derive(Debug, Clone)]
pub struct Message {
    pub role: String,
    pub content: String,
}

/// One unit of a conversational reply.
#[derive(Debug, Clone)]
pub struct ChatResponse {
    pub model: String,
    pub created_at: String,
    pub message: Message,
    pub done: bool,
}

/// A request for the embedding of a text.
#[derive(Debug, Clone)]
pub struct EmbeddingsRequest {
    pub model: String,
    pub prompt: String,
    pub options: Option<serde_json::Value>,
}

#[derive(Debug, Clone)]
pub struct ListModelsResponse {
    pub models: Vec<ModelInfo>,
}

#[derive(Debug, Clone)]
pub struct ModelInfo {
    pub name: String,
    pub modified_at: String,
    pub size: u64,
    pub digest: String,
    pub details: ModelDetails,
}

#[derive(Debug, Clone)]
pub struct ModelDetails {
    pub format: String,
    pub family: String,
    pub families: Vec<String>,
    pub parameter_size: String,
    pub quantization_level: String,
}

#[derive(Debug, Clone)]
pub struct VersionResponse {
    pub version: String,
}

/// What is sent to the policy service: one content object per call.
#[derive(Debug, Clone)]
pub struct ScanRequest {
    pub tr_id: String,
    pub ai_profile: AiProfile,
    pub metadata: Metadata,
    pub contents: Vec<Content>,
}

/// The named security profile that the policy service applies.
#[derive(Debug, Clone)]
pub struct AiProfile {
    pub profile_name: String,
}

/// Who is asking, and about which model.
#[derive(Debug, Clone)]
pub struct Metadata {
    pub app_name: String,
    pub app_user: String,
    pub ai_model: String,
}

/// The text under assessment: a prompt, a response, or both.
#[derive(Debug, Clone)]
pub struct Content {
    pub prompt: Option<String>,
    pub response: Option<String>,
}

/// The policy service's decision on one scan request. The scan identifier is
/// the 128-bit value of its UUID.
#[derive(Debug, Clone)]
pub struct ScanResponse {
    pub report_id: String,
    pub scan_id: u128,
    pub tr_id: Option<String>,
    pub profile_id: Option<String>,
    pub profile_name: Option<String>,
    pub category: String,
    pub action: String,
    pub prompt_detected: PromptDetected,
    pub response_detected: ResponseDetected,
    pub created_at: Option<String>,
    pub completed_at: Option<String>,
}

/// Findings on a prompt.
#[derive(Debug, Clone, Copy)]
pub struct PromptDetected {
    pub url_cats: bool,
    pub dlp: bool,
    pub injection: bool,
    pub toxic_content: bool,
    pub malicious_code: bool,
}

/// Findings on a response.
#[derive(Debug, Clone, Copy)]
pub struct ResponseDetected {
    pub url_cats: bool,
    pub dlp: bool,
    pub db_security: bool,
    pub toxic_content: bool,
    pub malicious_code: bool,
}

impl GenerateRequest {
    /// Whether the caller asked for the output to be streamed; unsaid means no.
    pub fn wants_stream(&self) -> (r: bool)
        ensures
            r == (self.stream == Some(true)),
    {
        match self.stream {
            Some(b) => b,
            None => false,
        }
    }
}

impl ChatRequest {
    /// Whether the caller asked for the reply to be streamed; unsaid means no.
    pub fn wants_stream(&self) -> (r: bool)
        ensures
            r == (self.stream == Some(true)),
    {
        match self.stream {
            Some(b) => b,
            None => false,
        }
    }
}

impl PromptDetected {
    /// No finding is raised.
    pub open spec fn is_clear(&self) -> bool {
        !self.url_cats && !self.dlp && !self.injection && !self.toxic_content
            && !self.malicious_code
    }
}

impl ResponseDetected {
    /// No finding is raised.
    pub open spec fn is_clear(&self) -> bool {
        !self.url_cats && !self.dlp && !self.db_security && !self.toxic_content
            && !self.malicious_code
    }
}

impl Default for PromptDetected {
    /// No finding.
    fn default() -> (r: Self)
        ensures
            r.is_clear(),
    {
        PromptDetected {
            url_cats: false,
            dlp: false,
            injection: false,
            toxic_content: false,
            malicious_code: false,
        }
    }
}

impl Default for ResponseDetected {
    /// No finding.
    fn default() -> (r: Self)
        ensures
            r.is_clear(),
    {
        ResponseDetected {
            url_cats: false,
            dlp: false,
            db_security: false,
            toxic_content: false,
            malicious_code: false,
        }
    }
}

impl ScanResponse {
    /// The response that stands for a scan that was not needed: benign, allowed,
    /// with no finding, no identifiers and no timestamps.
    pub open spec fn is_default_safe(self) -> bool {
        &&& self.category@ == "benign"@
        &&& self.action@ == "allow"@
        &&& self.report_id@.len() == 0
        &&& self.scan_id == 0
        &&& self.tr_id is None && self.profile_id is None && self.profile_name is None
        &&& self.created_at is None && self.completed_at is None
        &&& self.prompt_detected.is_clear()
        &&& self.response_detected.is_clear()
    }

    /// The response that stands for a scan that was not needed.
    pub fn default_safe_response() -> (r: Self)
        ensures
            r.is_default_safe(),
    {
        ScanResponse {
            report_id: String::new(),
            scan_id: 0,
            tr_id: None,
            profile_id: None,
            profile_name: None,
            category: "benign".to_owned(),
            action: "allow".to_owned(),
            prompt_detected: PromptDetected::default(),
            response_detected: ResponseDetected::default(),
            created_at: None,
            completed_at: None,
        }
    }
}

} // verus!
