//! Log-tailing decisions.
//!
//! One tailing session follows one running container: a child process is
//! spawned in follow mode and its two output streams are raced line by line.
//! The surrounding application owns the child process and the suspend points;
//! before each read it checks the session's liveness flag in the registry and
//! hands this module one observation: the flag it saw and what the race
//! produced.  This module decides what follows — deliver a tagged line,
//! forcibly terminate the child, or finish because a stream ended — and
//! builds the event exactly as it must be delivered.

use vstd::prelude::*;
use vstd::string::*;
use crate::registry::StreamRegistry;

verus! {

/// One line of child-process output, tagged with the stream it arrived on
/// ("stdout" or "stderr") and the wall-clock instant it was observed, as
/// RFC 3339 text.  Ownership passes to the subscriber on delivery; no history
/// is kept here.
#[derive(Debug, Clone)]
pub struct LogLine {
    pub timestamp: String,
    pub line: String,
    pub stream: String,
}

/// What the race between the two stream reads produced: a line from one of
/// the streams, or the end of the session's input — either stream reached
/// end-of-file or failed to read.  Once either side ends, tailing stops; the
/// other stream is not drained.
#[derive(Debug)]
pub enum TailEvent {
    StdoutLine(String),
    StderrLine(String),
    Closed,
}

/// A delivered event: the subscriber key it is published under, named for
/// the container, and the tagged line itself.
#[derive(Debug, Clone)]
pub struct Emission {
    pub key: String,
    pub log: LogLine,
}

/// What the tail loop does next after one observation.
#[derive(Debug)]
pub enum TailDecision {
    /// Deliver this event and keep tailing.
    Deliver(Emission),
    /// The stop flag was observed clear: forcibly terminate the child and
    /// exit the loop (terminal state: stopped by request).
    Kill,
    /// A stream ended or failed: exit the loop (terminal state: stream
    /// closed).
    Finish,
}

/// The stream identifier of the tailing session for a container, derived
/// deterministically from the container's name.  Two requests for the same
/// name collide by design: the second start adopts the registry entry.
pub open spec fn spec_stream_id(container: Seq<char>) -> Seq<char> {
    "logs_"@ + container
}

/// The subscriber key a session's events are published under.
pub open spec fn spec_event_key(container: Seq<char>) -> Seq<char> {
    "container-log-"@ + container
}

/// Derives the stream identifier for a container's tailing session.
pub fn stream_id_for(container: &str) -> (r: String)
    ensures
        r@ == spec_stream_id(container@),
{
    let s = String::from_str("logs_");
    s.concat(container)
}

/// Derives the subscriber key a container's events are published under.
pub fn event_key_for(container: &str) -> (r: String)
    ensures
        r@ == spec_event_key(container@),
{
    let s = String::from_str("container-log-");
    s.concat(container)
}

/// The synchronous part of starting a tailing session: derives the
/// session's stream identifier from the container's name, marks it live in
/// the registry, and hands the identifier back at once — the tailing itself
/// proceeds in the background and the caller does not wait for it.  No
/// other session is affected; an earlier session under the same name is
/// silently adopted.
pub fn begin_session(registry: &mut StreamRegistry, container: &str) -> (id: String)
    requires
        old(registry).wf(),
    ensures
        final(registry).wf(),
        id@ == spec_stream_id(container@),
        final(registry).live(id@),
        forall|k: Seq<char>| k != id@ ==> final(registry).known(k) == old(registry).known(k),
        forall|k: Seq<char>| k != id@ ==> final(registry).live(k) == old(registry).live(k),
{
    let id = stream_id_for(container);
    registry.start(id.clone());
    id
}

/// Relies on chrono::Utc::now and chrono::DateTime::to_rfc3339: the current
/// instant rendered as RFC 3339 text.  The result depends on the clock, so
/// nothing is stated of it.
#[verifier::external_body]
fn now_rfc3339() -> String {
    chrono::Utc::now().to_rfc3339()
}

/// The command arguments a tailing session spawns the tool with: the logs
/// subcommand, the follow flag when the stream should stay open, then the
/// container name.
pub fn logs_args(container: &str, follow: bool) -> (r: Vec<String>)
    ensures
        follow ==> r@.len() == 3 && r@[0]@ == "logs"@ && r@[1]@ == "--follow"@ && r@[2]@
            == container@,
        !follow ==> r@.len() == 2 && r@[0]@ == "logs"@ && r@[1]@ == container@,
{
    let mut args: Vec<String> = Vec::new();
    args.push(String::from_str("logs"));
    if follow {
        args.push(String::from_str("--follow"));
    }
    args.push(String::from_str(container));
    args
}

/// Decides one iteration of the tail loop from the liveness flag read in the
/// registry and the outcome of the racing reads.  A cleared flag wins over
/// any event: the child is killed without delivering anything.  A line is
/// wrapped with its stream tag and the container's event key; the timestamp
/// is whatever the clock gave.  A closed or failed stream finishes the
/// session.
pub fn tail_step(container: &str, live: bool, event: TailEvent) -> (d: TailDecision)
    ensures
        !live ==> d is Kill,
        live ==> match event {
            TailEvent::StdoutLine(t) => (d matches TailDecision::Deliver(e) && e.key@
                == spec_event_key(container@) && e.log.line@ == t@ && e.log.stream@ == "stdout"@),
            TailEvent::StderrLine(t) => (d matches TailDecision::Deliver(e) && e.key@
                == spec_event_key(container@) && e.log.line@ == t@ && e.log.stream@ == "stderr"@),
            TailEvent::Closed => d is Finish,
        },
{
    if !live {
        return TailDecision::Kill;
    }
    match event {
        TailEvent::StdoutLine(text) => TailDecision::Deliver(
            Emission {
                key: event_key_for(container),
                log: LogLine {
                    timestamp: now_rfc3339(),
                    line: text,
                    stream: String::from_str("stdout"),
                },
            },
        ),
        TailEvent::StderrLine(text) => TailDecision::Deliver(
            Emission {
                key: event_key_for(container),
                log: LogLine {
                    timestamp: now_rfc3339(),
                    line: text,
                    stream: String::from_str("stderr"),
                },
            },
        ),
        TailEvent::Closed => TailDecision::Finish,
    }
}

/// The lines a whole session delivers, each as a stream tag paired with the
/// line's text, given the observations its loop makes in order: the liveness
/// flag read before each iteration and what the race produced.  Delivery
/// stops at the first cleared flag or closed stream; within each stream the
/// order of lines is the order they were observed in.
pub open spec fn emitted_lines(obs: Seq<(bool, TailEvent)>) -> Seq<(Seq<char>, Seq<char>)>
    decreases obs.len(),
{
    if obs.len() == 0 {
        Seq::empty()
    } else if !obs[0].0 {
        Seq::empty()
    } else {
        match obs[0].1 {
            TailEvent::StdoutLine(t) => seq![("stdout"@, t@)] + emitted_lines(obs.drop_first()),
            TailEvent::StderrLine(t) => seq![("stderr"@, t@)] + emitted_lines(obs.drop_first()),
            TailEvent::Closed => Seq::empty(),
        }
    }
}

/// The stream-tag-and-text pairs of a sequence of delivered events.
pub open spec fn delivered_pairs(r: Seq<Emission>) -> Seq<(Seq<char>, Seq<char>)> {
    r.map_values(|e: Emission| (e.log.stream@, e.log.line@))
}

/// Runs one whole tailing session over a recorded sequence of observations:
/// the loop of the tail task, with the suspend points already resolved.  The
/// delivered events are exactly the session's emitted lines, in order, each
/// published under the container's own event key.
pub fn run_session(container: &str, obs: Vec<(bool, TailEvent)>) -> (r: Vec<Emission>)
    ensures
        delivered_pairs(r@) == emitted_lines(obs@),
        r@.len() == emitted_lines(obs@).len(),
        forall|j: int|
            0 <= j < r@.len() ==> (#[trigger] r@[j]).key@ == spec_event_key(container@)
                && r@[j].log.stream@ == emitted_lines(obs@)[j].0 && r@[j].log.line@
                == emitted_lines(obs@)[j].1,
{
    let ghost orig = obs@;
    let mut rest = obs;
    let mut out: Vec<Emission> = Vec::new();
    let mut done = false;
    while !done && rest.len() > 0
        invariant
            forall|j: int|
                0 <= j < out@.len() ==> (#[trigger] out@[j]).key@ == spec_event_key(container@),
            !done ==> emitted_lines(orig) == delivered_pairs(out@) + emitted_lines(rest@),
            done ==> emitted_lines(orig) == delivered_pairs(out@),
        decreases rest@.len(),
    {
        let ghost prev = rest@;
        let pair = rest.remove(0);
        proof {
            assert(rest@ =~= prev.drop_first());
        }
        match tail_step(container, pair.0, pair.1) {
            TailDecision::Deliver(e) => {
                let ghost before = out@;
                out.push(e);
                proof {
                    assert(delivered_pairs(out@) =~= delivered_pairs(before) + seq![
                        (e.log.stream@, e.log.line@),
                    ]);
                    assert(emitted_lines(orig) =~= delivered_pairs(out@) + emitted_lines(rest@));
                }
            },
            TailDecision::Kill => {
                done = true;
                proof {
                    assert(emitted_lines(prev) =~= Seq::empty());
                    assert(emitted_lines(orig) =~= delivered_pairs(out@));
                }
            },
            TailDecision::Finish => {
                done = true;
                proof {
                    assert(emitted_lines(prev) =~= Seq::empty());
                    assert(emitted_lines(orig) =~= delivered_pairs(out@));
                }
            },
        }
    }
    proof {
        if !done {
            assert(emitted_lines(rest@) =~= Seq::empty());
        }
        assert(delivered_pairs(out@) =~= emitted_lines(orig));
    }
    out
}

/// The lines a session delivers are decided no later than the first cleared
/// liveness flag: once a stop request is observed, the rest of the
/// observations contribute nothing.  Whatever follows position `k` — lines,
/// closures, anything — the session delivers exactly what it would have
/// delivered from the observations before `k` alone.
pub proof fn lemma_stop_halts_session(obs: Seq<(bool, TailEvent)>, k: int)
    requires
        0 <= k < obs.len(),
        !obs[k].0,
    ensures
        emitted_lines(obs) == emitted_lines(obs.take(k)),
    decreases k,
{
    if k == 0 {
        assert(obs.take(0) =~= Seq::<(bool, TailEvent)>::empty());
    } else if !obs[0].0 {
        assert(obs.take(k)[0] == obs[0]);
    } else {
        assert(obs.take(k)[0] == obs[0]);
        match obs[0].1 {
            TailEvent::Closed => {},
            TailEvent::StdoutLine(_) => {
                assert(obs.drop_first()[k - 1] == obs[k]);
                lemma_stop_halts_session(obs.drop_first(), k - 1);
                assert(obs.take(k).drop_first() =~= obs.drop_first().take(k - 1));
            },
            TailEvent::StderrLine(_) => {
                assert(obs.drop_first()[k - 1] == obs[k]);
                lemma_stop_halts_session(obs.drop_first(), k - 1);
                assert(obs.take(k).drop_first() =~= obs.drop_first().take(k - 1));
            },
        }
    }
}

/// A session whose very first liveness check already finds the flag cleared
/// delivers nothing at all: stopping a stream before any line has been read
/// guarantees that no event is ever published for it.
pub proof fn lemma_stop_before_first_line(obs: Seq<(bool, TailEvent)>)
    requires
        obs.len() > 0,
        !obs[0].0,
    ensures
        emitted_lines(obs) == Seq::<(Seq<char>, Seq<char>)>::empty(),
{
}

/// The pair `e` — a stream tag and a line of text — was produced by the
/// observation `o`: the session was live and the race handed it exactly that
/// line on that stream.
pub open spec fn observed_line(o: (bool, TailEvent), e: (Seq<char>, Seq<char>)) -> bool {
    o.0 && match o.1 {
        TailEvent::StdoutLine(t) => e == ("stdout"@, t@),
        TailEvent::StderrLine(t) => e == ("stderr"@, t@),
        TailEvent::Closed => false,
    }
}

/// Every line a session delivers was produced by one of that session's own
/// observations: nothing a session publishes can have come from another
/// session's process.
pub proof fn lemma_emissions_from_own_observations(obs: Seq<(bool, TailEvent)>, j: int)
    requires
        0 <= j < emitted_lines(obs).len(),
    ensures
        exists|i: int| 0 <= i < obs.len() && observed_line(obs[i], emitted_lines(obs)[j]),
    decreases obs.len(),
{
    if j == 0 {
        assert(observed_line(obs[0], emitted_lines(obs)[0]));
    } else {
        lemma_emissions_from_own_observations(obs.drop_first(), j - 1);
        let i = choose|i: int|
            0 <= i < obs.drop_first().len() && observed_line(
                obs.drop_first()[i],
                emitted_lines(obs.drop_first())[j - 1],
            );
        assert(obs.drop_first()[i] == obs[i + 1]);
        assert(observed_line(obs[i + 1], emitted_lines(obs)[j]));
    }
}

/// Two sessions on different container names publish under different event
/// keys: an event tagged for one container can never be routed to the
/// subscriber of another.
pub proof fn lemma_distinct_containers_distinct_keys(a: Seq<char>, b: Seq<char>)
    requires
        a != b,
    ensures
        spec_event_key(a) != spec_event_key(b),
{
    if spec_event_key(a) == spec_event_key(b) {
        let p = "container-log-"@;
        assert((p + a).len() == p.len() + a.len());
        assert((p + b).len() == p.len() + b.len());
        assert(a.len() == b.len());
        assert forall|i: int| 0 <= i < a.len() implies a[i] == b[i] by {
            assert((p + a)[p.len() + i] == a[i]);
            assert((p + b)[p.len() + i] == b[i]);
        }
        assert(a =~= b);
    }
}

/// Sessions on different container names hold different registry entries: a
/// stop or removal aimed at one container's stream identifier can never
/// touch another container's session.
pub proof fn lemma_distinct_containers_distinct_ids(a: Seq<char>, b: Seq<char>)
    requires
        a != b,
    ensures
        spec_stream_id(a) != spec_stream_id(b),
{
    if spec_stream_id(a) == spec_stream_id(b) {
        let p = "logs_"@;
        assert((p + a).len() == p.len() + a.len());
        assert((p + b).len() == p.len() + b.len());
        assert(a.len() == b.len());
        assert forall|i: int| 0 <= i < a.len() implies a[i] == b[i] by {
            assert((p + a)[p.len() + i] == a[i]);
            assert((p + b)[p.len() + i] == b[i]);
        }
        assert(a =~= b);
    }
}

} // verus!
