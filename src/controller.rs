//! The playback state machine: which engine transition a `play` request
//! asks for, given what is loaded and whether it is stopped, paused or
//! playing.
use vstd::prelude::*;

verus! {

/// Where the engine stands; exactly one at any instant.
#[derive(Clone, Copy, Debug, PartialEq, Eq, Structural)]
pub enum PlaybackState {
    Stopped,
    Paused,
    Playing,
}

/// What a `play` request asks of the engine.
#[derive(Clone, Copy, Debug, PartialEq, Eq, Structural)]
pub enum Transition {
    /// Continue the paused stream; no new session.
    Resume,
    /// Load the requested URI and start a new run-loop session for it.
    FreshStart,
    /// Nothing to do: the requested URI is already playing.
    NoOp,
}

/// The lifecycle signals that the engine delivers asynchronously.
#[derive(Clone, Copy, Debug, PartialEq, Eq, Structural)]
pub enum Signal {
    EndOfStream,
    Error,
}

/// A request handed to the dispatcher.
#[derive(Debug)]
pub enum Command {
    Play(String),
}

impl Command {
    pub open spec fn uri(self) -> Seq<char> {
        match self {
            Command::Play(u) => u@,
        }
    }
}

/// The scheme prefix of a local file's URI.
pub open spec fn file_scheme() -> Seq<char> {
    seq!['f', 'i', 'l', 'e', ':', '/', '/']
}

/// The URI under which the engine finds the file at the absolute path
/// `path`: the path after the `file://` scheme, as it is.
pub fn file_uri(path: &str) -> (r: String)
    ensures
        r@ == file_scheme() + path@,
{
    let mut r = "file://".to_owned();
    proof {
        reveal_strlit("file://");
        assert(r@ =~= file_scheme());
    }
    r.append(path);
    r
}

/// The abstract state of a controller: its playback state and the URI
/// that the engine currently has loaded (empty before the first load).
pub struct ControllerView {
    pub state: PlaybackState,
    pub uri: Seq<char>,
}

/// The decision table of `play`.
pub open spec fn decide(m: ControllerView, uri: Seq<char>) -> Transition {
    if m.state == PlaybackState::Paused && uri == m.uri {
        Transition::Resume
    } else if m.state == PlaybackState::Stopped || uri != m.uri {
        Transition::FreshStart
    } else {
        Transition::NoOp
    }
}

/// The controller's state after `play(uri)`.
pub open spec fn after_play(m: ControllerView, uri: Seq<char>) -> ControllerView {
    match decide(m, uri) {
        Transition::Resume => ControllerView { state: PlaybackState::Playing, uri: m.uri },
        Transition::FreshStart => ControllerView { state: PlaybackState::Playing, uri: uri },
        Transition::NoOp => m,
    }
}

/// The controller's state after the engine reported `s`: playback has
/// stopped, whichever signal it was, and the loaded URI is kept.
pub open spec fn after_signal(m: ControllerView, s: Signal) -> ControllerView {
    ControllerView { state: PlaybackState::Stopped, uri: m.uri }
}

/// The state after applying `cs` in order.
pub open spec fn run(m: ControllerView, cs: Seq<Command>) -> ControllerView
    decreases cs.len(),
{
    if cs.len() == 0 {
        m
    } else {
        after_play(run(m, cs.drop_last()), cs.last().uri())
    }
}

/// The transitions decided while applying `cs` in order, one per command.
pub open spec fn trace(m: ControllerView, cs: Seq<Command>) -> Seq<Transition>
    decreases cs.len(),
{
    if cs.len() == 0 {
        Seq::empty()
    } else {
        trace(m, cs.drop_last()).push(decide(run(m, cs.drop_last()), cs.last().uri()))
    }
}

/// Owns the playback flags and the record of the loaded URI. The engine's
/// URI changes only through the fresh starts that this controller decides.
pub struct PlayerController {
    state: PlaybackState,
    current_uri: String,
}

impl View for PlayerController {
    type V = ControllerView;

    closed spec fn view(&self) -> ControllerView {
        ControllerView { state: self.state, uri: self.current_uri@ }
    }
}

impl PlayerController {
    /// A controller with nothing loaded, stopped.
    pub fn new() -> (r: Self)
        ensures
            r@.state == PlaybackState::Stopped,
            r@.uri == Seq::<char>::empty(),
    {
        PlayerController { state: PlaybackState::Stopped, current_uri: String::new() }
    }

    pub fn state(&self) -> (r: PlaybackState)
        ensures
            r == self@.state,
    {
        self.state
    }

    pub fn is_paused(&self) -> (r: bool)
        ensures
            r == (self@.state == PlaybackState::Paused),
    {
        self.state == PlaybackState::Paused
    }

    pub fn is_stopped(&self) -> (r: bool)
        ensures
            r == (self@.state == PlaybackState::Stopped),
    {
        self.state == PlaybackState::Stopped
    }

    /// The URI that the engine has loaded; empty before the first load.
    pub fn current_uri(&self) -> (r: &str)
        ensures
            r@ == self@.uri,
    {
        self.current_uri.as_str()
    }

    /// Decides what `play(uri)` does and records it. On `FreshStart` the
    /// caller loads `uri` into the engine and starts a session; on `Resume`
    /// it tells the engine to continue; on `NoOp` it does nothing.
    pub fn play(&mut self, uri: &str) -> (r: Transition)
        ensures
            r == decide(old(self)@, uri@),
            final(self)@ == after_play(old(self)@, uri@),
    {
        let requested: String = uri.to_owned();
        let same = requested == self.current_uri;
        if self.state == PlaybackState::Paused && same {
            self.resume();
            Transition::Resume
        } else if self.state == PlaybackState::Stopped || !same {
            self.state = PlaybackState::Playing;
            self.current_uri = requested;
            Transition::FreshStart
        } else {
            Transition::NoOp
        }
    }

    /// Leaves the paused state; returns whether the engine must be told to
    /// continue. Anywhere but paused it changes nothing.
    ///
    /// No dispatcher command reaches this directly: callers resume by asking
    /// to `play` the paused URI. A resume command of its own is left open
    /// for a later extension of `Command`.
    pub fn resume(&mut self) -> (r: bool)
        ensures
            r == (old(self)@.state == PlaybackState::Paused),
            final(self)@.uri == old(self)@.uri,
            final(self)@.state == (if r { PlaybackState::Playing } else { old(self)@.state }),
    {
        if self.state == PlaybackState::Paused {
            self.state = PlaybackState::Playing;
            true
        } else {
            false
        }
    }

    /// Enters the paused state from playing; returns whether the engine
    /// must be told to pause. Anywhere but playing it changes nothing.
    pub fn pause(&mut self) -> (r: bool)
        ensures
            r == (old(self)@.state == PlaybackState::Playing),
            final(self)@.uri == old(self)@.uri,
            final(self)@.state == (if r { PlaybackState::Paused } else { old(self)@.state }),
    {
        if self.state == PlaybackState::Playing {
            self.state = PlaybackState::Paused;
            true
        } else {
            false
        }
    }

    /// Records an engine signal: after end-of-stream or an error the
    /// playback is stopped.
    pub fn on_signal(&mut self, s: Signal)
        ensures
            final(self)@ == after_signal(old(self)@, s),
    {
        self.state = PlaybackState::Stopped;
    }

    /// Applies one dispatched command.
    pub fn handle(&mut self, c: &Command) -> (r: Transition)
        ensures
            r == decide(old(self)@, c.uri()),
            final(self)@ == after_play(old(self)@, c.uri()),
    {
        match c {
            Command::Play(u) => self.play(u.as_str()),
        }
    }

    /// Applies `cs` one at a time, in order; the i-th transition is the one
    /// decided for the i-th command on the state left by those before it.
    pub fn handle_all(&mut self, cs: &Vec<Command>) -> (r: Vec<Transition>)
        ensures
            r@ == trace(old(self)@, cs@),
            final(self)@ == run(old(self)@, cs@),
    {
        let mut out: Vec<Transition> = Vec::new();
        let mut i: usize = 0;
        while i < cs.len()
            invariant
                i <= cs@.len(),
                self@ == run(old(self)@, cs@.take(i as int)),
                out@ == trace(old(self)@, cs@.take(i as int)),
            decreases cs@.len() - i,
        {
            proof {
                assert(cs@.take(i as int + 1).drop_last() == cs@.take(i as int));
            }
            let t = self.handle(&cs[i]);
            out.push(t);
            i = i + 1;
        }
        proof {
            assert(cs@.take(cs@.len() as int) == cs@);
        }
        out
    }
}

/// Every transition decided for a run of commands is recorded: one per
/// command.
pub proof fn lemma_trace_len(m: ControllerView, cs: Seq<Command>)
    ensures
        trace(m, cs).len() == cs.len(),
    decreases cs.len(),
{
    if cs.len() > 0 {
        lemma_trace_len(m, cs.drop_last());
    }
}

/// Commands applied in two consecutive batches have the same effect, and
/// get the same transitions in the same order, as the whole sequence
/// applied at once in submission order.
pub proof fn lemma_batches_keep_order(m: ControllerView, a: Seq<Command>, b: Seq<Command>)
    ensures
        run(m, a + b) == run(run(m, a), b),
        trace(m, a + b) == trace(m, a) + trace(run(m, a), b),
    decreases b.len(),
{
    if b.len() == 0 {
        assert(a + b == a);
        assert(trace(m, a) + trace(run(m, a), b) == trace(m, a));
    } else {
        assert((a + b).drop_last() == a + b.drop_last());
        assert((a + b).last() == b.last());
        lemma_batches_keep_order(m, a, b.drop_last());
        assert(trace(m, a + b) == trace(m, a) + trace(run(m, a), b));
    }
}

/// Repeating `play(uri)` on a controller paused at `uri` resumes once and
/// then does nothing: none of the requests loads the engine again, and the
/// controller ends up playing `uri`.
pub proof fn lemma_repeat_while_paused(m: ControllerView, uri: Seq<char>, cs: Seq<Command>)
    requires
        m.state == PlaybackState::Paused,
        m.uri == uri,
        cs.len() > 0,
        forall|i: int| 0 <= i < cs.len() ==> (#[trigger] cs[i]).uri() == uri,
    ensures
        trace(m, cs).len() == cs.len(),
        trace(m, cs)[0] == Transition::Resume,
        forall|i: int| 0 < i < cs.len() ==> trace(m, cs)[i] == Transition::NoOp,
        forall|i: int| 0 <= i < cs.len() ==> trace(m, cs)[i] != Transition::FreshStart,
        run(m, cs) == (ControllerView { state: PlaybackState::Playing, uri: uri }),
    decreases cs.len(),
{
    lemma_trace_len(m, cs);
    let init = cs.drop_last();
    if init.len() == 0 {
        assert(trace(m, cs) == seq![Transition::Resume]);
    } else {
        assert forall|i: int| 0 <= i < init.len() implies (#[trigger] init[i]).uri() == uri by {
            assert(init[i] == cs[i]);
        }
        lemma_repeat_while_paused(m, uri, init);
        assert(cs.last() == cs[cs.len() - 1]);
    }
}

/// Asking for another URI right after `play(a)` is always a fresh start
/// that loads the new URI.
pub proof fn lemma_switch_is_fresh_start(m: ControllerView, a: Seq<char>, b: Seq<char>)
    requires
        a != b,
    ensures
        after_play(m, a).state == PlaybackState::Playing,
        after_play(m, a).uri == a,
        decide(after_play(m, a), b) == Transition::FreshStart,
        after_play(after_play(m, a), b) == (ControllerView { state: PlaybackState::Playing, uri: b }),
{
}

/// Asking for the URI that is already playing changes nothing.
pub proof fn lemma_same_uri_while_playing(m: ControllerView, uri: Seq<char>)
    requires
        m.state == PlaybackState::Playing,
        m.uri == uri,
    ensures
        decide(m, uri) == Transition::NoOp,
        after_play(m, uri) == m,
{
}

/// After end-of-stream the next `play` is a fresh start, never a resume,
/// whatever URI it asks for.
pub proof fn lemma_play_after_end_of_stream(m: ControllerView, uri: Seq<char>)
    ensures
        after_signal(m, Signal::EndOfStream).state == PlaybackState::Stopped,
        decide(after_signal(m, Signal::EndOfStream), uri) == Transition::FreshStart,
{
}

/// After an engine error the controller still takes requests: the next
/// `play` starts a new session, whatever URI it asks for.
pub proof fn lemma_play_after_error(m: ControllerView, uri: Seq<char>)
    ensures
        after_signal(m, Signal::Error).state == PlaybackState::Stopped,
        decide(after_signal(m, Signal::Error), uri) == Transition::FreshStart,
        after_play(after_signal(m, Signal::Error), uri) == (ControllerView {
            state: PlaybackState::Playing,
            uri: uri,
        }),
{
}

} // verus!
