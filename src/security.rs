//! The policy client: how content is prepared for the policy service, how its
//! answer is read, and the single rule that turns a verdict into allow or reject.
use vstd::prelude::*;
use vstd::string::StringExecFns;
use vstd::string::to_string_from_display_ensures;
use crate::text::{blank, is_blank, same_text};
use crate::types::{AiProfile, Content, Metadata, ScanRequest, ScanResponse};

verus! {

/// Why an assessment could not be obtained.
#[derive(Debug)]
pub enum SecurityError {
    /// The policy service could not be reached, or its reply could not be read.
    RequestError(reqwest::Error),
    /// The policy service answered with a non-success status; the text holds
    /// the status and the body it sent.
    AssessmentError(String),
    /// The policy service's reply was not a well-formed verdict.
    JsonError(serde_json::Error),
}

impl SecurityError {
    /// Whether `d` describes this failure. What an outside error says of
    /// itself is its own `Display` text.
    pub open spec fn describes(&self, d: Seq<char>) -> bool {
        match self {
            SecurityError::RequestError(e) => exists|s: String|
                to_string_from_display_ensures(e, s) && d == "HTTP request failed: "@ + s@,
            SecurityError::AssessmentError(m) => d == "PANW security assessment error: "@ + m@,
            SecurityError::JsonError(e) => exists|s: String|
                to_string_from_display_ensures(e, s) && d == "JSON parsing error: "@ + s@,
        }
    }

    /// The description of the failure.
    pub fn describe(&self) -> (r: String)
        ensures
            self.describes(r@),
    {
        match self {
            SecurityError::RequestError(e) => {
                let s = e.to_string();
                let mut r = "HTTP request failed: ".to_owned();
                r.append(s.as_str());
                r
            },
            SecurityError::AssessmentError(m) => {
                let mut r = "PANW security assessment error: ".to_owned();
                r.append(m.as_str());
                r
            },
            SecurityError::JsonError(e) => {
                let s = e.to_string();
                let mut r = "JSON parsing error: ".to_owned();
                r.append(s.as_str());
                r
            },
        }
    }
}

/// The outcome of assessing one fragment.
#[derive(Debug, Clone)]
pub struct Assessment {
    pub is_safe: bool,
    pub category: String,
    pub action: String,
    pub details: ScanResponse,
}

/// How a verdict is ruled on.
#[derive(Debug, Clone, Copy, PartialEq, Eq)]
pub enum Ruling {
    /// Safe to forward.
    Allow,
    /// The policy service itself said `block`: an authoritative veto.
    Veto,
    /// Not vetoed, but the category is not `benign`: rejected all the same.
    NotBenign,
}

/// The two-stage reading of a verdict. A `block` action vetoes whatever the
/// category; otherwise only the `benign` category may pass.
pub open spec fn ruling_of(category: Seq<char>, action: Seq<char>) -> Ruling {
    if action == "block"@ {
        Ruling::Veto
    } else if category != "benign"@ {
        Ruling::NotBenign
    } else {
        Ruling::Allow
    }
}

/// Whether a verdict lets content through.
pub open spec fn verdict_allows(category: Seq<char>, action: Seq<char>) -> bool {
    ruling_of(category, action) == Ruling::Allow
}

/// Rules on a verdict. Every place that reads a verdict goes through here.
pub fn rule(category: &str, action: &str) -> (r: Ruling)
    ensures
        r == ruling_of(category@, action@),
{
    if same_text(action, "block") {
        Ruling::Veto
    } else if !same_text(category, "benign") {
        Ruling::NotBenign
    } else {
        Ruling::Allow
    }
}

impl Assessment {
    /// Whether this assessment lets its content through, by the shared rule.
    pub fn allows(&self) -> (r: bool)
        ensures
            r == verdict_allows(self.category@, self.action@),
    {
        match rule(self.category.as_str(), self.action.as_str()) {
            Ruling::Allow => true,
            _ => false,
        }
    }
}

/// The outcome of assessing one fragment, whether obtained or not, lets its
/// content through. A failure to obtain a verdict never does.
pub open spec fn outcome_allows(outcome: Result<Assessment, SecurityError>) -> bool {
    match outcome {
        Ok(a) => verdict_allows(a.category@, a.action@),
        Err(_) => false,
    }
}

/// Veto precedence: a `block` action rejects whatever the category says,
/// `benign` included.
pub proof fn lemma_veto_precedence(category: Seq<char>)
    ensures
        ruling_of(category, "block"@) == Ruling::Veto,
        !verdict_allows(category, "block"@),
{
}

/// Defense in depth: a category other than `benign` is rejected whatever the
/// action says, `allow` included.
pub proof fn lemma_defense_in_depth(category: Seq<char>, action: Seq<char>)
    requires
        category != "benign"@,
    ensures
        !verdict_allows(category, action),
{
}

/// Fail closed: an assessment that could not be obtained never lets content
/// through.
pub proof fn lemma_fail_closed(e: SecurityError)
    ensures
        !outcome_allows(Err(e)),
{
}

impl Content {
    /// Builds a content object, which holds a prompt or a response: exactly
    /// one of the two texts must be given.
    pub fn new(prompt: Option<String>, response: Option<String>) -> (r: Result<Self, &'static str>)
        ensures
            (prompt is Some <==> response is None) <==> r is Ok,
            r matches Ok(c) ==> c.prompt == prompt && c.response == response,
            (prompt is None && response is None) ==> (r matches Err(e)
                && e@ == "Content must have at least a prompt or a response"@),
            (prompt is Some && response is Some) ==> (r matches Err(e)
                && e@ == "Content must not have both a prompt and a response"@),
    {
        if prompt.is_none() && response.is_none() {
            return Err("Content must have at least a prompt or a response");
        }
        if prompt.is_some() && response.is_some() {
            return Err("Content must not have both a prompt and a response");
        }
        Ok(Content { prompt, response })
    }
}

/// Relies on `uuid::Uuid::new_v4` and the UUID's `Display`: a fresh random
/// identifier, written in the 36-character hyphenated lower-case form.
#[verifier::external_body]
fn new_transaction_id() -> (r: String)
    ensures
        r@.len() == 36,
{
    uuid::Uuid::new_v4().to_string()
}

/// The path of the synchronous scan endpoint, below the service's base URL.
pub open spec fn scan_path() -> Seq<char> {
    "/v1/scan/sync/request"@
}

/// The settings under which content is submitted to the policy service: where
/// it is, the credential it expects, and the profile and application identity
/// that every scan request is tagged with. The connection itself is made by the
/// caller, with `scan_url` and `api_key`.
#[derive(Debug, Clone)]
pub struct SecurityClient {
    base_url: String,
    api_key: String,
    profile_name: String,
    app_name: String,
    app_user: String,
}

/// What to do about one fragment: either its assessment is already known, or
/// the scan request is to be sent and its answer read with `check_api_status`
/// and `process_scan_result`.
#[derive(Debug, Clone)]
pub enum AssessmentPlan {
    Settled(Assessment),
    Scan(ScanRequest),
}

/// The assessment that stands for content that needs none: safe, benign, allowed.
pub open spec fn is_default_safe(a: Assessment) -> bool {
    &&& a.is_safe
    &&& a.category@ == "benign"@
    &&& a.action@ == "allow"@
    &&& a.details.is_default_safe()
}

impl SecurityClient {
    pub closed spec fn base_url_view(&self) -> Seq<char> {
        self.base_url@
    }

    pub closed spec fn api_key_view(&self) -> Seq<char> {
        self.api_key@
    }

    pub closed spec fn profile_name_view(&self) -> Seq<char> {
        self.profile_name@
    }

    pub closed spec fn app_name_view(&self) -> Seq<char> {
        self.app_name@
    }

    pub closed spec fn app_user_view(&self) -> Seq<char> {
        self.app_user@
    }

    /// A scan request for `text` as the one content object: a prompt or a response.
    pub open spec fn is_scan_for(&self, req: ScanRequest, text: Seq<char>, model: Seq<char>, is_prompt: bool) -> bool {
        &&& req.tr_id@.len() == 36
        &&& req.ai_profile.profile_name@ == self.profile_name_view()
        &&& req.metadata.app_name@ == self.app_name_view()
        &&& req.metadata.app_user@ == self.app_user_view()
        &&& req.metadata.ai_model@ == model
        &&& req.contents@.len() == 1
        &&& if is_prompt {
            req.contents@[0].prompt matches Some(p) && p@ == text && req.contents@[0].response is None
        } else {
            req.contents@[0].response matches Some(p) && p@ == text && req.contents@[0].prompt is None
        }
    }

    pub fn new(base_url: &str, api_key: &str, profile_name: &str, app_name: &str, app_user: &str) -> (r: Self)
        ensures
            r.base_url_view() == base_url@,
            r.api_key_view() == api_key@,
            r.profile_name_view() == profile_name@,
            r.app_name_view() == app_name@,
            r.app_user_view() == app_user@,
    {
        SecurityClient {
            base_url: base_url.to_owned(),
            api_key: api_key.to_owned(),
            profile_name: profile_name.to_owned(),
            app_name: app_name.to_owned(),
            app_user: app_user.to_owned(),
        }
    }

    /// Where scan requests are posted.
    pub fn scan_url(&self) -> (r: String)
        ensures
            r@ == self.base_url_view() + scan_path(),
    {
        let mut url = self.base_url.clone();
        url.append("/v1/scan/sync/request");
        url
    }

    /// The credential sent with every scan request.
    pub fn api_key(&self) -> (r: &str)
        ensures
            r@ == self.api_key_view(),
    {
        self.api_key.as_str()
    }

    fn create_safe_assessment(&self) -> (r: Assessment)
        ensures
            is_default_safe(r),
    {
        Assessment {
            is_safe: true,
            category: "benign".to_owned(),
            action: "allow".to_owned(),
            details: ScanResponse::default_safe_response(),
        }
    }

    fn prepare_content(&self, content: &str, is_prompt: bool) -> (r: Result<Content, SecurityError>)
        ensures
            r matches Ok(c) && if is_prompt {
                c.prompt matches Some(p) && p@ == content@ && c.response is None
            } else {
                c.response matches Some(p) && p@ == content@ && c.prompt is None
            },
    {
        let made = if is_prompt {
            Content::new(Some(content.to_owned()), None)
        } else {
            Content::new(None, Some(content.to_owned()))
        };
        match made {
            Ok(c) => Ok(c),
            Err(e) => Err(SecurityError::AssessmentError(e.to_owned())),
        }
    }

    fn create_scan_request(&self, content_obj: Content, model_name: &str) -> (r: ScanRequest)
        ensures
            r.tr_id@.len() == 36,
            r.ai_profile.profile_name@ == self.profile_name@,
            r.metadata.app_name@ == self.app_name@,
            r.metadata.app_user@ == self.app_user@,
            r.metadata.ai_model@ == model_name@,
            r.contents@ == seq![content_obj],
    {
        ScanRequest {
            tr_id: new_transaction_id(),
            ai_profile: AiProfile { profile_name: self.profile_name.clone() },
            metadata: Metadata {
                app_name: self.app_name.clone(),
                app_user: self.app_user.clone(),
                ai_model: model_name.to_owned(),
            },
            contents: vec![content_obj],
        }
    }

    /// Decides how `content` is to be assessed. Empty or all-white-space content
    /// is never sent: it is settled as safe at once. Anything else becomes one
    /// scan request, tagged with this client's profile and identity, with a
    /// fresh transaction id.
    pub fn plan_assessment(&self, content: &str, model_name: &str, is_prompt: bool) -> (r: AssessmentPlan)
        ensures
            blank(content@) <==> r is Settled,
            r matches AssessmentPlan::Settled(a) ==> is_default_safe(a),
            r matches AssessmentPlan::Scan(req) ==> self.is_scan_for(req, content@, model_name@, is_prompt),
    {
        if is_blank(content) {
            return AssessmentPlan::Settled(self.create_safe_assessment());
        }
        match self.prepare_content(content, is_prompt) {
            Ok(content_obj) => AssessmentPlan::Scan(self.create_scan_request(content_obj, model_name)),
            Err(e) => {
                proof { assert(false); }
                AssessmentPlan::Settled(self.create_safe_assessment())
            }
        }
    }

    /// Reads the status of the policy service's reply. On success the body is
    /// handed back to be decoded; otherwise the reply is an error that carries
    /// the status line and the body, for diagnosis.
    pub fn check_api_status(&self, status: u16, status_line: &str, body_text: String) -> (r: Result<String, SecurityError>)
        ensures
            (200 <= status < 300) <==> r is Ok,
            r matches Ok(b) ==> b@ == body_text@,
            r matches Err(e) ==> (e matches SecurityError::AssessmentError(m)
                && m@ == status_line@ + ": "@ + body_text@),
    {
        if 200 <= status && status < 300 {
            Ok(body_text)
        } else {
            let mut message = status_line.to_owned();
            message.append(": ");
            message.append(body_text.as_str());
            Err(SecurityError::AssessmentError(message))
        }
    }

    /// Turns the policy service's decoded reply into an assessment. Whether it
    /// is safe is decided by the shared rule alone.
    pub fn process_scan_result(&self, scan_result: ScanResponse) -> (r: Assessment)
        ensures
            r.is_safe == verdict_allows(scan_result.category@, scan_result.action@),
            r.category@ == scan_result.category@,
            r.action@ == scan_result.action@,
            r.details == scan_result,
    {
        let category = scan_result.category.clone();
        let action = scan_result.action.clone();
        let is_safe = match rule(category.as_str(), action.as_str()) {
            Ruling::Allow => true,
            _ => false,
        };
        Assessment { is_safe, category, action, details: scan_result }
    }
}

} // verus!
