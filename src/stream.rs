//! The moderated relay: it turns the backend's stream of output units into a
//! stream of units that have cleared assessment, in arrival order, with no unit
//! released before its own verdict is known and allows it.
//!
//! The relay decides; its driver does the work. The driver reads one unit from
//! the backend, decodes it, and hands it to `accept`. The step that comes back
//! says what to do: release bytes, obtain a verdict (then hand it to `resolve`),
//! fail the stream, or finish it. Nothing is read from the backend while a
//! verdict is awaited.
use vstd::prelude::*;
use vstd::string::StringExecFns;
use vstd::string::to_string_from_display_ensures;
use vstd::utf8::encode_utf8;
use crate::security::{verdict_allows, Assessment, SecurityError};
use crate::text::{blank, error_document, error_json, is_blank};
use crate::types::{ChatResponse, GenerateResponse};

verus! {

/// Why a moderated stream stopped early.
#[derive(Debug)]
pub enum StreamError {
    /// A backend unit could not be decoded: a broken protocol, not unsafe content.
    JsonError(serde_json::Error),
    /// No verdict could be obtained for a unit; the stream fails closed.
    SecurityError(SecurityError),
    /// A unit was ruled unsafe.
    SecurityIssue,
    /// The backend stream itself failed.
    Unknown,
}

impl StreamError {
    /// Whether `d` describes this failure.
    pub open spec fn describes(&self, d: Seq<char>) -> bool {
        match self {
            StreamError::JsonError(e) => exists|s: String|
                to_string_from_display_ensures(e, s) && d == "Failed to parse JSON: "@ + s@,
            StreamError::SecurityError(e) => exists|s: Seq<char>|
                e.describes(s) && d == "Security assessment failed: "@ + s,
            StreamError::SecurityIssue => d == "Security issue detected"@,
            StreamError::Unknown => d == "Unknown error"@,
        }
    }

    /// The description of the failure.
    pub fn describe(&self) -> (r: String)
        ensures
            self.describes(r@),
    {
        match self {
            StreamError::JsonError(e) => {
                let s = e.to_string();
                let mut r = "Failed to parse JSON: ".to_owned();
                r.append(s.as_str());
                r
            },
            StreamError::SecurityError(e) => {
                let s = e.describe();
                let mut r = "Security assessment failed: ".to_owned();
                r.append(s.as_str());
                r
            },
            StreamError::SecurityIssue => "Security issue detected".to_owned(),
            StreamError::Unknown => "Unknown error".to_owned(),
        }
    }

    /// The item that ends a stream cut short by this failure: a JSON error
    /// document whose message is `Stream processing error: ` and the description.
    pub fn error_chunk(&self) -> (r: Vec<u8>)
        ensures
            exists|d: Seq<char>| self.describes(d) && r@ == encode_utf8(
                error_document("Stream processing error: "@ + d),
            ),
    {
        let d = self.describe();
        let mut m = "Stream processing error: ".to_owned();
        m.append(d.as_str());
        error_json(m.as_str())
    }
}

/// A backend record that can say which of its text, if any, is to be assessed.
pub trait SecurityAssessable {
    /// The text to assess, if the record carries any.
    spec fn assessable_text(&self) -> Option<Seq<char>>;

    /// The text to assess, with a label naming what kind of record it came from.
    fn get_content_for_assessment(&self) -> (r: Option<(&str, &str)>)
        ensures
            r matches Some(p) ==> self.assessable_text() == Some(p.0@),
            r is None ==> self.assessable_text() is None;
}

impl SecurityAssessable for GenerateResponse {
    open spec fn assessable_text(&self) -> Option<Seq<char>> {
        Some(self.response@)
    }

    fn get_content_for_assessment(&self) -> (r: Option<(&str, &str)>) {
        Some((self.response.as_str(), "generate_response"))
    }
}

impl SecurityAssessable for ChatResponse {
    open spec fn assessable_text(&self) -> Option<Seq<char>> {
        Some(self.message.content@)
    }

    fn get_content_for_assessment(&self) -> (r: Option<(&str, &str)>) {
        Some((self.message.content.as_str(), "chat_response"))
    }
}

/// A unit needs a verdict only when it carries text that is not blank.
pub open spec fn needs_assessment(text: Option<Seq<char>>) -> bool {
    text matches Some(t) && !blank(t)
}

/// Where a relay stands. `Blocked` and `Closed` are terminal.
#[derive(Debug, Clone, Copy, PartialEq, Eq)]
pub enum RelayState {
    /// Serving.
    Active,
    /// A unit was ruled unsafe; nothing more is released.
    Blocked,
    /// The backend is exhausted or failed, a verdict could not be had, or the
    /// client went away; nothing more is released.
    Closed,
}

/// What the driver is to do next.
#[derive(Debug)]
pub enum RelayStep {
    /// Forward these bytes, unmodified, then read the next backend unit.
    Release(Vec<u8>),
    /// Obtain a verdict on this text (as generated output) and hand it to `resolve`.
    Assess(String),
    /// Emit this terminal error and cancel the backend stream.
    Fail(StreamError),
    /// End the output sequence; the backend is exhausted.
    Finish,
}

/// The model of a relay: its state, the unit held while its verdict is awaited,
/// every unit accepted from the backend, and every unit released, in order.
pub struct RelayView {
    pub state: RelayState,
    pub pending: Option<Seq<u8>>,
    pub received: Seq<Seq<u8>>,
    pub released: Seq<Seq<u8>>,
}

impl RelayView {
    /// A fresh relay: active, holding nothing, having seen nothing.
    pub open spec fn initial() -> RelayView {
        RelayView { state: RelayState::Active, pending: None, received: seq![], released: seq![] }
    }

    /// Serving and not awaiting a verdict, so ready for the next backend unit.
    pub open spec fn is_idle(self) -> bool {
        self.state == RelayState::Active && self.pending is None
    }

    /// What released units must be. They are the received units from the
    /// first on, in order, none skipped. A unit held for its verdict is the
    /// last received and the only one not released. An idle relay has
    /// released all it received.
    pub open spec fn is_consistent(self) -> bool {
        &&& self.released.len() <= self.received.len()
        &&& forall|i: int| 0 <= i < self.released.len() ==> #[trigger] self.released[i] == self.received[i]
        &&& self.pending matches Some(b) ==> {
            &&& self.state == RelayState::Active
            &&& self.released.len() + 1 == self.received.len()
            &&& b == self.received.last()
        }
        &&& self.is_idle() ==> self.released.len() == self.received.len()
    }

    /// An idle relay takes a unit: it is released at once when it needs no
    /// verdict, and held otherwise.
    pub open spec fn accept(self, bytes: Seq<u8>, needs_verdict: bool) -> RelayView {
        if needs_verdict {
            RelayView { pending: Some(bytes), received: self.received.push(bytes), ..self }
        } else {
            RelayView { received: self.received.push(bytes), released: self.released.push(bytes), ..self }
        }
    }

    /// The held unit's verdict arrives: `Some(true)` allows it, `Some(false)`
    /// rejects it, `None` means none could be obtained.
    pub open spec fn resolve(self, verdict: Option<bool>) -> RelayView {
        match verdict {
            Some(true) => RelayView {
                pending: None,
                released: self.released.push(self.pending->Some_0),
                ..self
            },
            Some(false) => RelayView { state: RelayState::Blocked, pending: None, ..self },
            None => RelayView { state: RelayState::Closed, pending: None, ..self },
        }
    }

    /// The stream ends, fails, or is cancelled: closed, and whatever was held
    /// is dropped unreleased.
    pub open spec fn close(self) -> RelayView {
        RelayView { state: RelayState::Closed, pending: None, ..self }
    }
}

/// The verdict that an assessment outcome carries, in the form `resolve` takes.
pub open spec fn verdict_of(outcome: Result<Assessment, SecurityError>) -> Option<bool> {
    match outcome {
        Ok(a) => Some(verdict_allows(a.category@, a.action@)),
        Err(_) => None,
    }
}

/// No premature release: a unit that needs a verdict is not released when it
/// is taken; if its verdict then rejects it, or none can be obtained, it is
/// never released, and the relay stops serving, so nothing after it is either.
pub proof fn lemma_no_release_before_verdict(v: RelayView, bytes: Seq<u8>, verdict: Option<bool>)
    requires
        v.is_consistent(),
        v.is_idle(),
    ensures
        v.accept(bytes, true).released == v.released,
        v.accept(bytes, true).pending == Some(bytes),
        verdict != Some(true) ==> v.accept(bytes, true).resolve(verdict).released == v.released,
        verdict != Some(true) ==> v.accept(bytes, true).resolve(verdict).state != RelayState::Active,
        verdict == Some(false) ==> v.accept(bytes, true).resolve(verdict).state == RelayState::Blocked,
{
}

/// Whether a unit clears: it needs no verdict, or its verdict allows it.
pub open spec fn clears(needs_verdict: bool, verdict: Option<bool>) -> bool {
    !needs_verdict || verdict == Some(true)
}

/// The relay after it takes `units` in turn for as long as it serves, where
/// `needs_verdict[i]` says whether unit `i` carries text to assess and
/// `verdicts[i]` is the verdict it then gets (`None` when none can be had).
pub open spec fn run(
    v: RelayView,
    units: Seq<Seq<u8>>,
    needs_verdict: Seq<bool>,
    verdicts: Seq<Option<bool>>,
) -> RelayView
    decreases units.len(),
{
    if units.len() == 0 || !v.is_idle() {
        v
    } else {
        let taken = v.accept(units[0], needs_verdict[0]);
        let settled = if needs_verdict[0] {
            taken.resolve(verdicts[0])
        } else {
            taken
        };
        run(settled, units.drop_first(), needs_verdict.drop_first(), verdicts.drop_first())
    }
}

/// Release stops at the first unit that does not clear: whatever the verdicts,
/// the relay releases exactly the units before it, in order, and then serves
/// no more, so neither that unit nor any after it is ever released. When every
/// unit clears, it releases them all and is ready for more.
pub proof fn lemma_release_stops_at_first_rejection(
    units: Seq<Seq<u8>>,
    needs_verdict: Seq<bool>,
    verdicts: Seq<Option<bool>>,
    k: int,
)
    requires
        units.len() == needs_verdict.len(),
        units.len() == verdicts.len(),
        0 <= k <= units.len(),
        forall|i: int| 0 <= i < k ==> #[trigger] clears(needs_verdict[i], verdicts[i]),
        k < units.len() ==> !clears(needs_verdict[k], verdicts[k]),
    ensures
        run(RelayView::initial(), units, needs_verdict, verdicts).released == units.take(k),
        k < units.len() ==> run(RelayView::initial(), units, needs_verdict, verdicts).state
            != RelayState::Active,
        k == units.len() ==> run(RelayView::initial(), units, needs_verdict, verdicts).is_idle(),
{
    lemma_run_from(RelayView::initial(), units, needs_verdict, verdicts, k);
    assert(Seq::<Seq<u8>>::empty() + units.take(k) =~= units.take(k));
}

/// The same, from any idle relay: what it releases is appended to what it had.
proof fn lemma_run_from(
    v: RelayView,
    units: Seq<Seq<u8>>,
    needs_verdict: Seq<bool>,
    verdicts: Seq<Option<bool>>,
    k: int,
)
    requires
        v.is_idle(),
        units.len() == needs_verdict.len(),
        units.len() == verdicts.len(),
        0 <= k <= units.len(),
        forall|i: int| 0 <= i < k ==> #[trigger] clears(needs_verdict[i], verdicts[i]),
        k < units.len() ==> !clears(needs_verdict[k], verdicts[k]),
    ensures
        run(v, units, needs_verdict, verdicts).released == v.released + units.take(k),
        k < units.len() ==> run(v, units, needs_verdict, verdicts).state != RelayState::Active,
        k == units.len() ==> run(v, units, needs_verdict, verdicts).is_idle(),
    decreases units.len(),
{
    if units.len() > 0 {
        let taken = v.accept(units[0], needs_verdict[0]);
        let settled = if needs_verdict[0] {
            taken.resolve(verdicts[0])
        } else {
            taken
        };
        if k == 0 {
            assert(!clears(needs_verdict[0], verdicts[0]));
            assert(settled.released == v.released);
            assert(settled.state != RelayState::Active);
            assert(run(v, units, needs_verdict, verdicts) == run(
                settled,
                units.drop_first(),
                needs_verdict.drop_first(),
                verdicts.drop_first(),
            ));
            assert(run(settled, units.drop_first(), needs_verdict.drop_first(), verdicts.drop_first())
                == settled);
            assert(units.take(0) =~= Seq::<Seq<u8>>::empty());
            assert(v.released + units.take(0) =~= v.released);
        } else {
            assert(clears(needs_verdict[0], verdicts[0]));
            assert(settled.released == v.released.push(units[0]));
            assert(settled.is_idle());
            let rest_u = units.drop_first();
            let rest_n = needs_verdict.drop_first();
            let rest_v = verdicts.drop_first();
            assert forall|i: int| 0 <= i < k - 1 implies #[trigger] clears(rest_n[i], rest_v[i]) by {
                assert(clears(needs_verdict[i + 1], verdicts[i + 1]));
            }
            lemma_run_from(settled, rest_u, rest_n, rest_v, k - 1);
            assert(v.released.push(units[0]) + rest_u.take(k - 1) =~= v.released + units.take(k));
        }
    } else {
        assert(units.take(k) =~= Seq::<Seq<u8>>::empty());
        assert(v.released + units.take(k) =~= v.released);
    }
}

/// Order preservation: whatever units arrive, and whichever of them need a
/// verdict, when every unit clears, the relay releases exactly the units it
/// received, in the order they arrived, and is ready for more.
pub proof fn lemma_order_preserved(units: Seq<Seq<u8>>, needs_verdict: Seq<bool>, verdicts: Seq<Option<bool>>)
    requires
        units.len() == needs_verdict.len(),
        units.len() == verdicts.len(),
        forall|i: int| 0 <= i < units.len() ==> #[trigger] clears(needs_verdict[i], verdicts[i]),
    ensures
        run(RelayView::initial(), units, needs_verdict, verdicts).released == units,
        run(RelayView::initial(), units, needs_verdict, verdicts).is_idle(),
{
    lemma_release_stops_at_first_rejection(units, needs_verdict, verdicts, units.len() as int);
    assert(units.take(units.len() as int) =~= units);
}

/// Cancellation: a relay that is cancelled, whether or not it awaits a
/// verdict, releases nothing more, drops what it holds, and serves no more.
pub proof fn lemma_cancel_releases_nothing(v: RelayView)
    requires
        v.is_consistent(),
    ensures
        v.close().released == v.released,
        v.close().pending is None,
        v.close().state == RelayState::Closed,
        v.close().is_consistent(),
{
}

/// The relay for one backend stream and one client.
pub struct ModeratedRelay {
    state: RelayState,
    pending: Option<Vec<u8>>,
    received: Ghost<Seq<Seq<u8>>>,
    released: Ghost<Seq<Seq<u8>>>,
}

impl View for ModeratedRelay {
    type V = RelayView;

    closed spec fn view(&self) -> RelayView {
        RelayView {
            state: self.state,
            pending: match self.pending {
                Some(b) => Some(b@),
                None => None,
            },
            received: self.received@,
            released: self.released@,
        }
    }
}

impl ModeratedRelay {
    pub fn new() -> (r: Self)
        ensures
            r@ == RelayView::initial(),
            r@.is_consistent(),
    {
        ModeratedRelay { state: RelayState::Active, pending: None, received: Ghost(Seq::empty()), released: Ghost(Seq::empty()) }
    }

    pub fn state(&self) -> (r: RelayState)
        ensures
            r == self@.state,
    {
        self.state
    }

    /// Whether the relay can take the next backend unit.
    pub fn is_idle(&self) -> (r: bool)
        ensures
            r == self@.is_idle(),
    {
        match (self.state, &self.pending) {
            (RelayState::Active, None) => true,
            _ => false,
        }
    }

    /// Whether a unit is held for its verdict.
    pub fn is_awaiting_verdict(&self) -> (r: bool)
        ensures
            r == self@.pending is Some,
    {
        self.pending.is_some()
    }

    /// Takes one decoded backend unit. A unit with no text to assess, or only
    /// blank text, is released at once; any other is held and its text is to be
    /// assessed.
    pub fn accept<T: SecurityAssessable>(&mut self, bytes: Vec<u8>, record: &T) -> (step: RelayStep)
        requires
            old(self)@.is_consistent(),
            old(self)@.is_idle(),
        ensures
            final(self)@.is_consistent(),
            final(self)@ == old(self)@.accept(bytes@, needs_assessment(record.assessable_text())),
            needs_assessment(record.assessable_text()) ==> (step matches RelayStep::Assess(t)
                && record.assessable_text() == Some(t@)),
            !needs_assessment(record.assessable_text()) ==> (step matches RelayStep::Release(b)
                && b@ == bytes@),
    {
        let fragment = record.get_content_for_assessment();
        let text = match fragment {
            Some((t, _)) => if is_blank(t) { None } else { Some(t) },
            None => None,
        };
        match text {
            Some(t) => {
                self.received = Ghost(self.received@.push(bytes@));
                self.pending = Some(bytes);
                RelayStep::Assess(t.to_owned())
            },
            None => {
                self.received = Ghost(self.received@.push(bytes@));
                self.released = Ghost(self.released@.push(bytes@));
                RelayStep::Release(bytes)
            },
        }
    }

    /// Takes the verdict for the held unit. An allowing verdict releases the
    /// unit; a rejecting one blocks the stream; a failure to obtain one closes
    /// it with that failure. The shared rule alone decides.
    pub fn resolve(&mut self, outcome: Result<Assessment, SecurityError>) -> (step: RelayStep)
        requires
            old(self)@.is_consistent(),
            old(self)@.pending is Some,
        ensures
            final(self)@.is_consistent(),
            final(self)@ == old(self)@.resolve(verdict_of(outcome)),
            verdict_of(outcome) == Some(true) ==> (step matches RelayStep::Release(b)
                && b@ == old(self)@.pending->Some_0),
            verdict_of(outcome) == Some(false) ==> (step matches RelayStep::Fail(e)
                && e is SecurityIssue),
            outcome matches Err(x) ==> step == RelayStep::Fail(StreamError::SecurityError(x)),
    {
        let held = self.pending.take();
        let bytes = match held {
            Some(b) => b,
            None => {
                proof { assert(false); }
                Vec::new()
            },
        };
        match outcome {
            Ok(a) => {
                if a.allows() {
                    self.released = Ghost(self.released@.push(bytes@));
                    RelayStep::Release(bytes)
                } else {
                    self.state = RelayState::Blocked;
                    RelayStep::Fail(StreamError::SecurityIssue)
                }
            },
            Err(e) => {
                self.state = RelayState::Closed;
                RelayStep::Fail(StreamError::SecurityError(e))
            },
        }
    }

    /// A backend unit could not be decoded: the stream fails with that error.
    pub fn reject_unit(&mut self, error: serde_json::Error) -> (step: RelayStep)
        requires
            old(self)@.is_consistent(),
            old(self)@.is_idle(),
        ensures
            final(self)@.is_consistent(),
            final(self)@ == old(self)@.close(),
            step matches RelayStep::Fail(e) && e is JsonError,
    {
        self.state = RelayState::Closed;
        RelayStep::Fail(StreamError::JsonError(error))
    }

    /// The backend stream failed: the stream fails.
    pub fn backend_failed(&mut self) -> (step: RelayStep)
        requires
            old(self)@.is_consistent(),
            old(self)@.is_idle(),
        ensures
            final(self)@.is_consistent(),
            final(self)@ == old(self)@.close(),
            step matches RelayStep::Fail(e) && e is Unknown,
    {
        self.state = RelayState::Closed;
        RelayStep::Fail(StreamError::Unknown)
    }

    /// The backend stream is exhausted: the output ends, with no error.
    pub fn backend_ended(&mut self) -> (step: RelayStep)
        requires
            old(self)@.is_consistent(),
            old(self)@.is_idle(),
        ensures
            final(self)@.is_consistent(),
            final(self)@ == old(self)@.close(),
            step is Finish,
    {
        self.state = RelayState::Closed;
        RelayStep::Finish
    }

    /// The client went away: the relay closes and drops the unit it holds, if
    /// any, unreleased.
    pub fn cancel(&mut self)
        requires
            old(self)@.is_consistent(),
        ensures
            final(self)@.is_consistent(),
            final(self)@ == old(self)@.close(),
    {
        self.state = RelayState::Closed;
        self.pending = None;
    }
}

} // verus!
