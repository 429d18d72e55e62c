//! Decisions of the stream relay: which origin url to fetch for a requested
//! format, whether to follow a redirect, and when to stream or give up.
//! The caller performs each action and reports what happened as an event.

use vstd::prelude::*;

verus! {

/// What a stream rendition carries.
#[derive(Clone, Copy, Debug, PartialEq, Eq, Structural)]
pub enum MediaKind {
    VideoAudio,
    VideoOnly,
    AudioOnly,
}

/// One rendition of a video, as the source reports it.
#[derive(Clone, Debug, PartialEq, Eq)]
pub struct StreamCandidate {
    pub itag: u32,
    /// Absent where the source could not resolve a playable url.
    pub url: Option<String>,
    pub bitrate: u32,
    pub resolution: Option<String>,
    pub kind: MediaKind,
}

/// Why the relay gives up.
#[derive(Clone, Copy, Debug, PartialEq, Eq, Structural)]
pub enum RelayError {
    /// No candidate of the requested format, no url for it, or the video
    /// could not be resolved.
    NotFound,
    /// The origin could not be reached, at either hop.
    UpstreamUnreachable,
}

/// Where one relay request stands.
#[derive(Clone, Copy, Debug, PartialEq, Eq, Structural)]
pub enum RelayState {
    /// Waiting for the candidates of the video; `itag` is the requested format.
    Resolving { itag: u32 },
    /// Waiting for the response to the fetch of the candidate's url.
    AwaitingOrigin,
    /// Waiting for the response to the fetch of the redirect location.
    AwaitingRedirect,
    /// Terminal.
    Finished,
}

/// What the caller observed after the last action.
#[derive(Clone, Debug, PartialEq, Eq)]
pub enum RelayEvent {
    /// The video's video-only and audio-only candidates.
    Resolved { video_only: Vec<StreamCandidate>, audio_only: Vec<StreamCandidate> },
    /// The video could not be resolved.
    ResolveFailed,
    /// The origin answered; `location` is its redirect location header, if any.
    Responded { location: Option<String> },
    /// The fetch failed in transport.
    Unreachable,
}

/// What the caller is to do next.
#[derive(Clone, Debug, PartialEq, Eq)]
pub enum RelayAction {
    /// Issue a GET, without custom headers, to `url`.
    Fetch { url: String },
    /// Relay the last response (status, headers, body) to the client.
    Stream,
    /// Answer the client with this failure.
    Reject(RelayError),
}

/// The url of the first candidate of format `itag`; not found where there is
/// none, or where the first one has no url.
pub open spec fn select_spec(cands: Seq<StreamCandidate>, itag: u32) -> Result<String, RelayError>
    decreases cands.len(),
{
    if cands.len() == 0 {
        Err(RelayError::NotFound)
    } else if cands[0].itag == itag {
        match cands[0].url {
            Some(u) => Ok(u),
            None => Err(RelayError::NotFound),
        }
    } else {
        select_spec(cands.drop_first(), itag)
    }
}

/// Which events a state waits for.
pub open spec fn accepts(state: RelayState, event: RelayEvent) -> bool {
    match state {
        RelayState::Resolving { .. } => event is Resolved || event is ResolveFailed,
        RelayState::AwaitingOrigin | RelayState::AwaitingRedirect => event is Responded
            || event is Unreachable,
        RelayState::Finished => false,
    }
}

/// The next state and action. Combined audio-and-video candidates are not
/// searched; a second response is streamed whatever it says. An event that
/// the state does not wait for ends the request as not found.
pub open spec fn step_spec(state: RelayState, event: RelayEvent) -> (RelayState, RelayAction) {
    match (state, event) {
        (RelayState::Resolving { itag }, RelayEvent::Resolved { video_only, audio_only }) => {
            match select_spec(video_only@ + audio_only@, itag) {
                Ok(url) => (RelayState::AwaitingOrigin, RelayAction::Fetch { url }),
                Err(e) => (RelayState::Finished, RelayAction::Reject(e)),
            }
        },
        (RelayState::AwaitingOrigin, RelayEvent::Responded { location: Some(b) }) => (
            RelayState::AwaitingRedirect,
            RelayAction::Fetch { url: b },
        ),
        (RelayState::AwaitingOrigin, RelayEvent::Responded { location: None }) => (
            RelayState::Finished,
            RelayAction::Stream,
        ),
        (RelayState::AwaitingRedirect, RelayEvent::Responded { .. }) => (
            RelayState::Finished,
            RelayAction::Stream,
        ),
        (RelayState::AwaitingOrigin, RelayEvent::Unreachable)
        | (RelayState::AwaitingRedirect, RelayEvent::Unreachable) => (
            RelayState::Finished,
            RelayAction::Reject(RelayError::UpstreamUnreachable),
        ),
        _ => (RelayState::Finished, RelayAction::Reject(RelayError::NotFound)),
    }
}

/// How many origin fetches a state may still issue.
pub open spec fn hops_left(state: RelayState) -> nat {
    match state {
        RelayState::Resolving { .. } => 2,
        RelayState::AwaitingOrigin => 1,
        _ => 0,
    }
}

/// The actions of a run of events from `state`.
pub open spec fn run(state: RelayState, events: Seq<RelayEvent>) -> Seq<RelayAction>
    decreases events.len(),
{
    if events.len() == 0 {
        Seq::empty()
    } else {
        let (next, action) = step_spec(state, events[0]);
        seq![action] + run(next, events.drop_first())
    }
}

pub open spec fn fetch_count(actions: Seq<RelayAction>) -> nat
    decreases actions.len(),
{
    if actions.len() == 0 {
        0
    } else {
        (if actions[0] is Fetch { 1nat } else { 0nat }) + fetch_count(actions.drop_first())
    }
}

/// A redirect from the origin is followed by exactly one fetch of its
/// location, and the response to that fetch is streamed whether or not it
/// redirects again; after that the request waits for no event, and any
/// event that still comes fetches nothing.
pub proof fn lemma_single_redirect(location: String, second: Option<String>)
    ensures
        step_spec(RelayState::AwaitingOrigin, RelayEvent::Responded { location: Some(location) })
            == (RelayState::AwaitingRedirect, RelayAction::Fetch { url: location }),
        step_spec(RelayState::AwaitingRedirect, RelayEvent::Responded { location: second })
            == (RelayState::Finished, RelayAction::Stream),
        forall|e: RelayEvent| !accepts(RelayState::Finished, e),
        forall|e: RelayEvent|
            #[trigger] step_spec(RelayState::Finished, e) == (
                RelayState::Finished,
                RelayAction::Reject(RelayError::NotFound),
            ),
{
}

/// A transport failure at either hop ends the request with
/// `UpstreamUnreachable`, and nothing is fetched again.
pub proof fn lemma_unreachable_is_final(state: RelayState)
    requires
        state == RelayState::AwaitingOrigin || state == RelayState::AwaitingRedirect,
    ensures
        step_spec(state, RelayEvent::Unreachable)
            == (RelayState::Finished, RelayAction::Reject(RelayError::UpstreamUnreachable)),
        forall|e: RelayEvent| !accepts(RelayState::Finished, e),
        forall|e: RelayEvent| !((#[trigger] step_spec(RelayState::Finished, e)).1 is Fetch),
{
}

/// Whatever the events, a request issues at most as many fetches as its
/// state allows: two from the start, the stream's url and one redirect.
pub proof fn lemma_fetches_bounded(state: RelayState, events: Seq<RelayEvent>)
    ensures
        fetch_count(run(state, events)) <= hops_left(state),
    decreases events.len(),
{
    if events.len() > 0 {
        let (next, action) = step_spec(state, events[0]);
        lemma_fetches_bounded(next, events.drop_first());
        let rest = run(next, events.drop_first());
        let actions = seq![action] + rest;
        assert(actions.drop_first() =~= rest);
        assert(actions[0] == action);
    }
}

/// The first candidate of format `itag` in `cands`, as `select_spec` says.
pub fn select_stream(cands: &Vec<StreamCandidate>, itag: u32) -> (r: Result<String, RelayError>)
    ensures
        r == select_spec(cands@, itag),
{
    let mut i: usize = 0;
    assert(cands@.skip(0) =~= cands@);
    while i < cands.len()
        invariant
            i <= cands@.len(),
            select_spec(cands@, itag) == select_spec(cands@.skip(i as int), itag),
        decreases cands@.len() - i,
    {
        assert(cands@.skip(i as int)[0] == cands@[i as int]);
        if cands[i].itag == itag {
            return match &cands[i].url {
                Some(u) => Ok(u.clone()),
                None => Err(RelayError::NotFound),
            };
        }
        assert(cands@.skip(i as int).drop_first() =~= cands@.skip(i + 1));
        i = i + 1;
    }
    Err(RelayError::NotFound)
}

impl RelayState {
    /// A fresh request for format `itag`.
    pub fn new(itag: u32) -> (r: RelayState)
        ensures
            r == (RelayState::Resolving { itag }),
    {
        RelayState::Resolving { itag }
    }

    /// Whether this state waits for `event`.
    pub fn accepts(&self, event: &RelayEvent) -> (r: bool)
        ensures
            r == accepts(*self, *event),
    {
        match self {
            RelayState::Resolving { .. } => match event {
                RelayEvent::Resolved { .. } | RelayEvent::ResolveFailed => true,
                _ => false,
            },
            RelayState::AwaitingOrigin | RelayState::AwaitingRedirect => match event {
                RelayEvent::Responded { .. } | RelayEvent::Unreachable => true,
                _ => false,
            },
            RelayState::Finished => false,
        }
    }

    /// Takes one event: moves to the next state and says what to do.
    pub fn on_event(&mut self, event: RelayEvent) -> (r: RelayAction)
        ensures
            (*final(self), r) == step_spec(*old(self), event),
            hops_left(*final(self)) <= hops_left(*old(self)),
            r is Fetch ==> hops_left(*final(self)) + 1 == hops_left(*old(self)),
    {
        let state = *self;
        match (state, event) {
            (RelayState::Resolving { itag }, RelayEvent::Resolved { video_only, audio_only }) => {
                let mut search = video_only;
                let mut audio = audio_only;
                search.append(&mut audio);
                match select_stream(&search, itag) {
                    Ok(url) => {
                        *self = RelayState::AwaitingOrigin;
                        RelayAction::Fetch { url }
                    },
                    Err(e) => {
                        *self = RelayState::Finished;
                        RelayAction::Reject(e)
                    },
                }
            },
            (RelayState::AwaitingOrigin, RelayEvent::Responded { location: Some(b) }) => {
                *self = RelayState::AwaitingRedirect;
                RelayAction::Fetch { url: b }
            },
            (RelayState::AwaitingOrigin, RelayEvent::Responded { location: None })
            | (RelayState::AwaitingRedirect, RelayEvent::Responded { .. }) => {
                *self = RelayState::Finished;
                RelayAction::Stream
            },
            (RelayState::AwaitingOrigin, RelayEvent::Unreachable)
            | (RelayState::AwaitingRedirect, RelayEvent::Unreachable) => {
                *self = RelayState::Finished;
                RelayAction::Reject(RelayError::UpstreamUnreachable)
            },
            _ => {
                *self = RelayState::Finished;
                RelayAction::Reject(RelayError::NotFound)
            },
        }
    }
}

} // verus!
