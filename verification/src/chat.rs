//! Session poller: metadata resolution and the polling-loop lifecycle.
//!
//! A `StreamChat` owns one polling session. Connecting resolves the session's
//! page text into durable metadata (access key, client version, continuation
//! cursor) and marks a loop as started; the loop itself is driven from outside
//! by repeatedly asking `loop_step` what to do next, so that every decision —
//! the idempotence guard, the resolution outcome, cancellation winning a race
//! tie against a pending tick — is made and specified here on plain values.

use vstd::prelude::*;
use crate::bus::{BusView, EventEmitter, emit_spec};
use crate::scan::{contains_sub, extract_token, find_sub, lemma_find_first_contains, token_after};

verus! {

/// Caller-supplied configuration: the session id and the polling interval in
/// seconds. Created once, never mutated.
#[derive(Debug, Clone)]
pub struct StreamChatOptions {
    pub video_id: String,
    pub fetch_interval: u64,
}

/// Durable session metadata, produced once per successful connection attempt
/// by resolving the session's page. All three fields are non-empty.
#[derive(Debug, Clone)]
pub struct StreamChatMetadata {
    pub api_key: String,
    pub client_version: String,
    pub continuation: String,
}

/// Mathematical view of `StreamChatMetadata`.
#[verifier::ext_equal]
pub struct MetaView {
    pub api_key: Seq<char>,
    pub client_version: Seq<char>,
    pub continuation: Seq<char>,
}

impl View for StreamChatMetadata {
    type V = MetaView;

    open spec fn view(&self) -> MetaView {
        MetaView {
            api_key: self.api_key@,
            client_version: self.client_version@,
            continuation: self.continuation@,
        }
    }
}

/// Why a resolution attempt failed: each required page marker has its own
/// named failure, and resolution fails fast on the first missing one.
#[derive(Debug, Clone, Copy, PartialEq, Eq, Structural)]
pub enum ResolveError {
    /// The canonical-link marker for the requested session id is missing:
    /// the session was not found.
    SessionNotFound,
    /// The chat-capability marker is missing: no live chat is available.
    ChatUnavailable,
    /// The access-key token is missing or empty.
    AccessKeyNotFound,
    /// The client-version token is missing or empty.
    ClientVersionNotFound,
    /// The continuation-cursor token is missing or empty.
    ContinuationNotFound,
}

impl ResolveError {
    /// A human-readable description of the failure.
    pub fn message(&self) -> (r: &'static str)
        ensures
            r@ == match *self {
                ResolveError::SessionNotFound => "Video or Stream not found"@,
                ResolveError::ChatUnavailable => "Chat box not found"@,
                ResolveError::AccessKeyNotFound => "API Key not found"@,
                ResolveError::ClientVersionNotFound => "Client Version not found"@,
                ResolveError::ContinuationNotFound => "Continuation not found"@,
            },
    {
        match self {
            ResolveError::SessionNotFound => "Video or Stream not found",
            ResolveError::ChatUnavailable => "Chat box not found",
            ResolveError::AccessKeyNotFound => "API Key not found",
            ResolveError::ClientVersionNotFound => "Client Version not found",
            ResolveError::ContinuationNotFound => "Continuation not found",
        }
    }
}

/// The canonical-link marker that confirms the page is the one for `vid`.
pub open spec fn canonical_marker(vid: Seq<char>) -> Seq<char> {
    "<link rel=\"canonical\" href=\"https://www.youtube.com/watch?v="@ + vid + "\">"@
}

/// The chat-capability marker.
pub open spec fn chat_marker() -> Seq<char> {
    "liveChatRenderer"@
}

/// The marker that precedes the access-key token in the page script state.
pub open spec fn api_key_marker() -> Seq<char> {
    "INNERTUBE_API_KEY\":\""@
}

/// The marker that precedes the client-version token.
pub open spec fn client_version_marker() -> Seq<char> {
    "clientVersion\":\""@
}

/// The marker that precedes the continuation-cursor token.
pub open spec fn continuation_marker() -> Seq<char> {
    "continuation\":\""@
}

/// What resolving `page` for session `vid` yields: the metadata when every
/// marker is present with a non-empty token, else the first missing marker's
/// error, in the fixed checking order.
pub open spec fn resolve_spec(page: Seq<char>, vid: Seq<char>) -> Result<MetaView, ResolveError> {
    if !contains_sub(page, canonical_marker(vid)) {
        Err(ResolveError::SessionNotFound)
    } else if !contains_sub(page, chat_marker()) {
        Err(ResolveError::ChatUnavailable)
    } else {
        match token_after(page, api_key_marker()) {
            None => Err(ResolveError::AccessKeyNotFound),
            Some(key) => if key.len() == 0 {
                Err(ResolveError::AccessKeyNotFound)
            } else {
                match token_after(page, client_version_marker()) {
                    None => Err(ResolveError::ClientVersionNotFound),
                    Some(ver) => if ver.len() == 0 {
                        Err(ResolveError::ClientVersionNotFound)
                    } else {
                        match token_after(page, continuation_marker()) {
                            None => Err(ResolveError::ContinuationNotFound),
                            Some(cont) => if cont.len() == 0 {
                                Err(ResolveError::ContinuationNotFound)
                            } else {
                                Ok(MetaView { api_key: key, client_version: ver, continuation: cont })
                            },
                        }
                    },
                }
            },
        }
    }
}

/// Resolves the fetched page text for `video_id` into session metadata, or
/// the named error of the first missing marker. Pure: feed it any text.
pub fn resolve_metadata(page: &str, video_id: &str) -> (r: Result<
    StreamChatMetadata,
    ResolveError,
>)
    ensures
        match r {
            Ok(m) => resolve_spec(page@, video_id@) == Ok::<MetaView, ResolveError>(m@),
            Err(e) => resolve_spec(page@, video_id@) == Err::<MetaView, ResolveError>(e),
        },
{
    let mut canonical = "<link rel=\"canonical\" href=\"https://www.youtube.com/watch?v=".to_owned();
    canonical.append(video_id);
    canonical.append("\">");
    let canonical_found = find_sub(page, canonical.as_str());
    proof {
        lemma_find_first_contains(page@, canonical_marker(video_id@));
    }
    if canonical_found.is_none() {
        return Err(ResolveError::SessionNotFound);
    }
    let chat_found = find_sub(page, "liveChatRenderer");
    proof {
        lemma_find_first_contains(page@, chat_marker());
    }
    if chat_found.is_none() {
        return Err(ResolveError::ChatUnavailable);
    }
    let api_key = match extract_token(page, "INNERTUBE_API_KEY\":\"") {
        None => {
            return Err(ResolveError::AccessKeyNotFound);
        },
        Some(t) => t,
    };
    if api_key.as_str().unicode_len() == 0 {
        return Err(ResolveError::AccessKeyNotFound);
    }
    let client_version = match extract_token(page, "clientVersion\":\"") {
        None => {
            return Err(ResolveError::ClientVersionNotFound);
        },
        Some(t) => t,
    };
    if client_version.as_str().unicode_len() == 0 {
        return Err(ResolveError::ClientVersionNotFound);
    }
    let continuation = match extract_token(page, "continuation\":\"") {
        None => {
            return Err(ResolveError::ContinuationNotFound);
        },
        Some(t) => t,
    };
    if continuation.as_str().unicode_len() == 0 {
        return Err(ResolveError::ContinuationNotFound);
    }
    let m = StreamChatMetadata { api_key, client_version, continuation };
    proof {
        assert(resolve_spec(page@, video_id@) == Ok::<MetaView, ResolveError>(m@));
    }
    Ok(m)
}

/// View of the poller's mutable state.
#[verifier::ext_equal]
pub struct PollerView {
    /// A connect attempt has succeeded.
    pub initialized: bool,
    /// The metadata captured by the successful connect, if any.
    pub metadata: Option<MetaView>,
    /// The cancellation signal has been raised.
    pub stop_requested: bool,
    /// A loop task is currently running.
    pub loop_running: bool,
}

/// The state a poller is constructed in.
pub open spec fn initial_poller() -> PollerView {
    PollerView { initialized: false, metadata: None, stop_requested: false, loop_running: false }
}

/// The poller state after a connect attempt against `page`: already
/// initialized means no change (idempotence); successful resolution captures
/// the metadata and starts the loop; failed resolution changes nothing.
pub open spec fn connect_step(s: PollerView, page: Seq<char>, vid: Seq<char>) -> PollerView {
    if s.initialized {
        s
    } else {
        match resolve_spec(page, vid) {
            Ok(m) => PollerView {
                initialized: true,
                metadata: Some(m),
                stop_requested: s.stop_requested,
                loop_running: true,
            },
            Err(_) => s,
        }
    }
}

/// What a connect attempt reports: success when already initialized or when
/// resolution succeeds, else the resolution error.
pub open spec fn connect_result(s: PollerView, page: Seq<char>, vid: Seq<char>) -> Result<
    (),
    ResolveError,
> {
    if s.initialized {
        Ok(())
    } else {
        match resolve_spec(page, vid) {
            Ok(_) => Ok(()),
            Err(e) => Err(e),
        }
    }
}

/// The poller state after `stop`: the cancellation signal is raised; the loop
/// itself exits on its next scheduling turn.
pub open spec fn stop_step(s: PollerView) -> PollerView {
    PollerView {
        initialized: s.initialized,
        metadata: s.metadata,
        stop_requested: true,
        loop_running: s.loop_running,
    }
}

/// What the loop does on one scheduling turn.
#[derive(Debug, Clone, Copy, PartialEq, Eq, Structural)]
pub enum LoopAction {
    /// Perform one fetch-and-emit cycle.
    Fetch,
    /// Nothing due; keep waiting.
    Idle,
    /// Exit the loop.
    Exit,
}

/// The action of one scheduling turn: an observed stop wins — even against a
/// simultaneously pending tick — else a due tick fetches.
pub open spec fn loop_action_spec(s: PollerView, tick_due: bool) -> LoopAction {
    if s.stop_requested {
        LoopAction::Exit
    } else if tick_due {
        LoopAction::Fetch
    } else {
        LoopAction::Idle
    }
}

/// The poller state after one scheduling turn: an exiting turn stops the
/// loop; any other turn leaves the state as it was.
pub open spec fn loop_step_state(s: PollerView, tick_due: bool) -> PollerView {
    if s.stop_requested {
        PollerView {
            initialized: s.initialized,
            metadata: s.metadata,
            stop_requested: s.stop_requested,
            loop_running: false,
        }
    } else {
        s
    }
}

/// The fixed event name that fetched updates are emitted under.
pub open spec fn chat_event_name() -> Seq<char> {
    "chat"@
}

/// One polling session: configuration, the event bus its updates are
/// published on, and the lifecycle state of its polling loop.
pub struct StreamChat {
    opts: StreamChatOptions,
    /// The bus that fetched updates are emitted on.
    pub event_emitter: EventEmitter,
    initialized: bool,
    meta: Option<StreamChatMetadata>,
    stop_requested: bool,
    loop_running: bool,
}

impl StreamChat {
    /// The session id this poller was configured with.
    pub closed spec fn video_id_spec(self) -> Seq<char> {
        self.opts.video_id@
    }

    /// The polling interval, in seconds, this poller was configured with.
    pub closed spec fn fetch_interval_spec(self) -> u64 {
        self.opts.fetch_interval
    }

    /// View of the poller's mutable state.
    pub closed spec fn poller_view(self) -> PollerView {
        PollerView {
            initialized: self.initialized,
            metadata: match self.meta {
                Some(m) => Some(m@),
                None => None,
            },
            stop_requested: self.stop_requested,
            loop_running: self.loop_running,
        }
    }

    /// View of the poller's event bus.
    pub closed spec fn bus_view(self) -> BusView {
        self.event_emitter@
    }

    /// Creates a poller for `opts`, not yet connected, with a fresh event bus
    /// buffering up to 16 events per subscriber.
    pub fn new(opts: StreamChatOptions) -> (r: StreamChat)
        requires
            opts.fetch_interval >= 1,
        ensures
            r.poller_view() == initial_poller(),
            r.video_id_spec() == opts.video_id@,
            r.fetch_interval_spec() == opts.fetch_interval,
            r.bus_view().capacity == 16,
            r.bus_view().subs.len() == 0,
    {
        let event_emitter = EventEmitter::new(16);
        let r = StreamChat {
            opts,
            event_emitter,
            initialized: false,
            meta: None,
            stop_requested: false,
            loop_running: false,
        };
        proof {
            assert(r.poller_view() =~~= initial_poller());
        }
        r
    }

    /// Whether a connect attempt has succeeded.
    pub fn is_initialized(&self) -> (r: bool)
        ensures
            r == self.poller_view().initialized,
    {
        self.initialized
    }

    /// The session id this poller was configured with.
    pub fn video_id(&self) -> (r: &str)
        ensures
            r@ == self.video_id_spec(),
    {
        self.opts.video_id.as_str()
    }

    /// The polling interval, in seconds, this poller was configured with.
    pub fn fetch_interval(&self) -> (r: u64)
        ensures
            r == self.fetch_interval_spec(),
    {
        self.opts.fetch_interval
    }

    /// The metadata captured by a successful connect, if any.
    pub fn metadata(&self) -> (r: Option<&StreamChatMetadata>)
        ensures
            match r {
                Some(m) => self.poller_view().metadata == Some(m@),
                None => self.poller_view().metadata is None,
            },
    {
        match &self.meta {
            Some(m) => Some(m),
            None => None,
        }
    }

    /// One connect attempt against the session page's text. Already
    /// initialized: returns at once, changing nothing, so a second connect
    /// never starts a second loop. Otherwise resolves the page: on success
    /// the metadata is captured immutably and the loop is marked running; on
    /// failure the error is reported and the poller stays uninitialized.
    pub fn connect(&mut self, page: &str) -> (r: Result<(), ResolveError>)
        ensures
            final(self).poller_view() == connect_step(
                old(self).poller_view(),
                page@,
                old(self).video_id_spec(),
            ),
            r == connect_result(old(self).poller_view(), page@, old(self).video_id_spec()),
            final(self).video_id_spec() == old(self).video_id_spec(),
            final(self).fetch_interval_spec() == old(self).fetch_interval_spec(),
            final(self).bus_view() == old(self).bus_view(),
    {
        if self.initialized {
            return Ok(());
        }
        match resolve_metadata(page, self.opts.video_id.as_str()) {
            Ok(m) => {
                self.meta = Some(m);
                self.initialized = true;
                self.loop_running = true;
                proof {
                    assert(self.poller_view() =~~= connect_step(
                        old(self).poller_view(),
                        page@,
                        old(self).video_id_spec(),
                    ));
                }
                Ok(())
            },
            Err(e) => Err(e),
        }
    }

    /// Raises the cancellation signal. Safe to call even if never connected.
    /// The loop itself observes the signal and exits on its next turn.
    pub fn stop(&mut self)
        ensures
            final(self).poller_view() == stop_step(old(self).poller_view()),
            final(self).video_id_spec() == old(self).video_id_spec(),
            final(self).fetch_interval_spec() == old(self).fetch_interval_spec(),
            final(self).bus_view() == old(self).bus_view(),
    {
        self.stop_requested = true;
        proof {
            assert(self.poller_view() =~~= stop_step(old(self).poller_view()));
        }
    }

    /// One scheduling turn of the polling loop: reports what the loop must do
    /// now. An observed stop exits — cancellation wins a race tie against a
    /// pending tick — else a due tick asks for one fetch-and-emit cycle.
    pub fn loop_step(&mut self, tick_due: bool) -> (a: LoopAction)
        ensures
            a == loop_action_spec(old(self).poller_view(), tick_due),
            final(self).poller_view() == loop_step_state(old(self).poller_view(), tick_due),
            final(self).video_id_spec() == old(self).video_id_spec(),
            final(self).fetch_interval_spec() == old(self).fetch_interval_spec(),
            final(self).bus_view() == old(self).bus_view(),
    {
        let a = if self.stop_requested {
            self.loop_running = false;
            LoopAction::Exit
        } else if tick_due {
            LoopAction::Fetch
        } else {
            LoopAction::Idle
        };
        proof {
            assert(self.poller_view() =~~= loop_step_state(old(self).poller_view(), tick_due));
        }
        a
    }

    /// Finishes one fetch cycle: a successful fetch's raw response body is
    /// emitted on the event bus under the fixed chat event name; a failed
    /// fetch (`None`) is skipped without touching any state, and the loop
    /// simply proceeds to its next tick.
    ///
    /// The continuation cursor is deliberately not advanced here, so every
    /// fetch repeats the stored cursor; if the backend returns a fresh
    /// continuation per response, the stored one would have to be replaced
    /// before the next tick.
    pub fn handle_fetch_result(&mut self, response: Option<&str>)
        ensures
            final(self).poller_view() == old(self).poller_view(),
            final(self).video_id_spec() == old(self).video_id_spec(),
            final(self).fetch_interval_spec() == old(self).fetch_interval_spec(),
            match response {
                Some(body) => final(self).bus_view() == emit_spec(
                    old(self).bus_view(),
                    chat_event_name(),
                    body@,
                ),
                None => final(self).bus_view() == old(self).bus_view(),
            },
    {
        match response {
            Some(body) => self.event_emitter.emit("chat", body),
            None => (),
        }
    }
}

/// Connecting is idempotent: once a connect has left the poller initialized,
/// a further connect — with any page, and without an intervening stop —
/// changes nothing, so at most one loop is ever started.
pub proof fn lemma_connect_idempotent(s: PollerView, p1: Seq<char>, p2: Seq<char>, vid: Seq<char>)
    ensures
        connect_step(s, p1, vid).initialized ==> connect_step(
            connect_step(s, p1, vid),
            p2,
            vid,
        ) == connect_step(s, p1, vid),
{
}

/// Resolution against a page that lacks the canonical-link marker for the
/// requested session id fails with the session-not-found error.
pub proof fn lemma_session_not_found(page: Seq<char>, vid: Seq<char>)
    requires
        !contains_sub(page, canonical_marker(vid)),
    ensures
        resolve_spec(page, vid) == Err::<MetaView, ResolveError>(ResolveError::SessionNotFound),
{
}

/// Resolution against a page that lacks the chat-capability marker fails with
/// the chat-unavailable error, and a connect against such a page leaves the
/// poller unchanged — in particular not initialized.
pub proof fn lemma_chat_unavailable(page: Seq<char>, vid: Seq<char>, s: PollerView)
    requires
        contains_sub(page, canonical_marker(vid)),
        !contains_sub(page, chat_marker()),
        !s.initialized,
    ensures
        resolve_spec(page, vid) == Err::<MetaView, ResolveError>(ResolveError::ChatUnavailable),
        connect_step(s, page, vid) == s,
        !connect_step(s, page, vid).initialized,
{
}

/// A failed resolution leaves the poller exactly as it was — in particular
/// uninitialized, with no loop started — so a later connect retries
/// resolution from scratch.
pub proof fn lemma_failed_connect_unchanged(s: PollerView, page: Seq<char>, vid: Seq<char>)
    requires
        !s.initialized,
        resolve_spec(page, vid) is Err,
    ensures
        connect_step(s, page, vid) == s,
{
}

/// Once stop has been requested, the loop's very next scheduling turn exits —
/// cancellation wins a race tie against a pending tick — so the loop
/// terminates within one polling interval and performs no further fetch, and
/// hence no further emission, afterwards.
pub proof fn lemma_stop_halts_loop(s: PollerView, tick_due: bool)
    ensures
        loop_action_spec(stop_step(s), tick_due) == LoopAction::Exit,
        !loop_step_state(stop_step(s), tick_due).loop_running,
{
}

/// The poller's state invariant: a loop runs only once initialized, and
/// metadata exists exactly from initialization on.
pub open spec fn poller_wf(s: PollerView) -> bool {
    (s.loop_running ==> s.initialized) && (s.initialized <==> s.metadata is Some)
}

/// Every transition preserves the state invariant, and initialization is
/// permanent: no transition returns the poller to uninitialized.
pub proof fn lemma_transitions_preserve_wf(
    s: PollerView,
    page: Seq<char>,
    vid: Seq<char>,
    tick_due: bool,
)
    requires
        poller_wf(s),
    ensures
        poller_wf(initial_poller()),
        poller_wf(connect_step(s, page, vid)),
        poller_wf(stop_step(s)),
        poller_wf(loop_step_state(s, tick_due)),
        s.initialized ==> connect_step(s, page, vid).initialized && stop_step(s).initialized
            && loop_step_state(s, tick_due).initialized,
{
}

} // verus!
