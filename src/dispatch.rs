//! The front-end contract and the loop step that hands messages to it.

use vstd::prelude::*;

use crate::message::UIMessage;
use crate::tracker::CompilationTracker;

verus! {

/// What every front-end implements.
pub trait UI: Send {
    /// The messages handed to the front-end so far, in order. A front-end
    /// that Verus checks defines it, as `on_message` must add to it.
    open spec fn received(&self) -> Seq<UIMessage> {
        Seq::empty()
    }

    /// How many times the front-end has been asked to finish. A front-end
    /// that Verus checks defines it, as `finish` must raise it.
    open spec fn finish_count(&self) -> nat {
        0
    }

    /// Process a new message.
    fn on_message(&mut self, message: UIMessage)
        ensures
            final(self).received() == old(self).received().push(message),
            final(self).finish_count() == old(self).finish_count(),
    ;

    /// Print the final results; called once, at the end.
    fn finish(&mut self)
        ensures
            final(self).received() == old(self).received(),
            final(self).finish_count() == old(self).finish_count() + 1,
    ;
}

/// A front-end that shows nothing and keeps the status of each compilation.
impl UI for CompilationTracker {
    closed spec fn received(&self) -> Seq<UIMessage> {
        self.handed()
    }

    closed spec fn finish_count(&self) -> nat {
        self.finishes()
    }

    fn on_message(&mut self, message: UIMessage) {
        let ghost m = message;
        self.apply_message(message);
        self.record_handed(Ghost(m));
    }

    fn finish(&mut self) {
        self.record_finish();
    }
}

/// What a dispatcher has done so far: the messages it handed to the
/// front-end, whether it has stopped, and how many times it asked the
/// front-end to finish.
pub struct DispatchLog {
    pub delivered: Seq<UIMessage>,
    pub stopped: bool,
    pub finish_calls: nat,
}

/// The log after one more message: once stopped nothing happens; a stop
/// message stops and finishes the front-end; any other message is handed to
/// the front-end.
pub open spec fn dispatch_step(log: DispatchLog, message: UIMessage) -> DispatchLog {
    if log.stopped {
        log
    } else if message is StopUI {
        DispatchLog { stopped: true, finish_calls: log.finish_calls + 1, ..log }
    } else {
        DispatchLog { delivered: log.delivered.push(message), ..log }
    }
}

/// The log after closing the channel: the front-end finishes, unless it was
/// stopped already.
pub open spec fn dispatch_close(log: DispatchLog) -> DispatchLog {
    if log.stopped {
        log
    } else {
        DispatchLog { stopped: true, finish_calls: log.finish_calls + 1, ..log }
    }
}

/// The log after each of `messages`, in order.
pub open spec fn dispatch_all(log: DispatchLog, messages: Seq<UIMessage>) -> DispatchLog
    decreases messages.len(),
{
    if messages.len() == 0 {
        log
    } else {
        dispatch_all(dispatch_step(log, messages[0]), messages.drop_first())
    }
}

/// The log of a dispatcher that has done nothing yet.
pub open spec fn empty_log() -> DispatchLog {
    DispatchLog { delivered: Seq::empty(), stopped: false, finish_calls: 0 }
}

/// Whether a dispatcher has stopped, and what it has done so far.
struct DispatchState {
    stopped: bool,
    log: Ghost<DispatchLog>,
}

impl DispatchState {
    /// The state knows whether the front-end was stopped, and the front-end
    /// has been asked to finish once if so and never otherwise.
    #[verifier::type_invariant]
    closed spec fn inv(&self) -> bool {
        &&& self.stopped == self.log@.stopped
        &&& self.log@.finish_calls == if self.stopped { 1nat } else { 0nat }
    }
}

/// Hands the messages received from the channel to a front-end, until a stop
/// message or the end of the channel.
pub struct Dispatcher<U: UI> {
    ui: U,
    state: DispatchState,
}

impl<U: UI> Dispatcher<U> {
    /// What the dispatcher has done so far.
    pub closed spec fn log(&self) -> DispatchLog {
        self.state.log@
    }

    /// The front-end.
    pub closed spec fn front_end(&self) -> U {
        self.ui
    }

    /// A dispatcher to `ui` that has done nothing yet.
    pub fn new(ui: U) -> (r: Dispatcher<U>)
        ensures
            r.log() == empty_log(),
            r.front_end() == ui,
    {
        Dispatcher { ui, state: DispatchState { stopped: false, log: Ghost(empty_log()) } }
    }

    /// Whether a stop message came or the channel was closed.
    pub fn is_stopped(&self) -> (r: bool)
        ensures
            r == self.log().stopped,
    {
        proof {
            use_type_invariant(&self.state);
        }
        self.state.stopped
    }

    /// The front-end.
    pub fn ui(&self) -> (r: &U)
        ensures
            *r == self.front_end(),
    {
        &self.ui
    }

    /// The front-end, taken out of the dispatcher.
    pub fn into_ui(self) -> (r: U)
        ensures
            r == self.front_end(),
    {
        self.ui
    }

    /// Handle one message received from the channel. Returns whether the loop
    /// is to go on receiving. The front-end has been asked to finish once if
    /// the dispatcher has stopped, and never otherwise.
    pub fn dispatch(&mut self, message: UIMessage) -> (r: bool)
        ensures
            final(self).log() == dispatch_step(old(self).log(), message),
            final(self).log().finish_calls == if final(self).log().stopped { 1nat } else { 0nat },
            r == !final(self).log().stopped,
            old(self).log().stopped ==> final(self).front_end() == old(self).front_end(),
            !old(self).log().stopped && message is StopUI ==> {
                &&& final(self).front_end().finish_count() == old(self).front_end().finish_count() + 1
                &&& final(self).front_end().received() == old(self).front_end().received()
            },
            !old(self).log().stopped && !(message is StopUI) ==> {
                &&& final(self).front_end().finish_count() == old(self).front_end().finish_count()
                &&& final(self).front_end().received() == old(self).front_end().received().push(message)
            },
            final(self).front_end().received() == old(self).front_end().received()
                + final(self).log().delivered.skip(old(self).log().delivered.len() as int),
            final(self).front_end().finish_count() == old(self).front_end().finish_count()
                + final(self).log().finish_calls - old(self).log().finish_calls,
    {
        proof {
            use_type_invariant(&self.state);
        }
        if self.state.stopped {
            assert(self.state.log@.delivered.skip(self.state.log@.delivered.len() as int) =~= Seq::empty());
            assert(self.ui.received() =~= self.ui.received() + Seq::empty());
            return false;
        }
        let ghost m = message;
        match message {
            UIMessage::StopUI => {
                self.ui.finish();
                self.state = DispatchState { stopped: true, log: Ghost(dispatch_step(self.state.log@, m)) };
                assert(self.state.log@.delivered.skip(old(self).state.log@.delivered.len() as int) =~= Seq::empty());
                false
            },
            _ => {
                self.ui.on_message(message);
                self.state = DispatchState { stopped: false, log: Ghost(dispatch_step(self.state.log@, m)) };
                assert(self.state.log@.delivered.skip(old(self).state.log@.delivered.len() as int) =~= seq![m]);
                assert(self.ui.received() =~= old(self).ui.received() + seq![m]);
                true
            },
        }
    }

    /// Handle `messages` in order, up to and including the first stop
    /// message; the ones after it are dropped. Returns whether the loop is
    /// to go on receiving. Where a stop message comes and the dispatcher had
    /// not stopped, the front-end has received every message before the first
    /// stop, in order, and has been asked to finish exactly once.
    pub fn dispatch_each(&mut self, messages: Vec<UIMessage>) -> (r: bool)
        ensures
            final(self).log() == dispatch_all(old(self).log(), messages@),
            r == !final(self).log().stopped,
            final(self).front_end().received() == old(self).front_end().received()
                + final(self).log().delivered.skip(old(self).log().delivered.len() as int),
            final(self).front_end().finish_count() == old(self).front_end().finish_count()
                + final(self).log().finish_calls - old(self).log().finish_calls,
            forall|k: int|
                #![trigger messages@[k]]
                0 <= k < messages@.len() && !old(self).log().stopped && messages@[k] is StopUI && (
                forall|i: int| 0 <= i < k ==> !(#[trigger] messages@[i] is StopUI)) ==> {
                    &&& final(self).front_end().finish_count() == old(self).front_end().finish_count() + 1
                    &&& final(self).front_end().received() == old(self).front_end().received()
                        + messages@.take(k)
                },
    {
        let ghost l0 = self.log();
        let ghost r0 = self.ui.received();
        let ghost f0 = self.ui.finish_count();
        let ghost all = messages@;
        let ghost mut extra: Seq<UIMessage> = Seq::empty();
        let mut messages = messages;
        let mut going = true;
        proof {
            assert(l0.delivered + extra =~= l0.delivered);
            assert(r0 + extra =~= r0);
        }
        while going && messages.len() > 0
            invariant
                dispatch_all(self.log(), messages@) == dispatch_all(l0, all),
                !going ==> self.log().stopped,
                self.log().delivered == l0.delivered + extra,
                self.ui.received() == r0 + extra,
                self.ui.finish_count() == f0 + self.log().finish_calls - l0.finish_calls,
                self.log().finish_calls >= l0.finish_calls,
            decreases messages.len(),
        {
            let ghost before = messages@;
            let ghost log_before = self.log();
            let m = messages.remove(0);
            let ghost gm = m;
            assert(before.drop_first() =~= messages@);
            let go = self.dispatch(m);
            proof {
                let d = self.log().delivered;
                if d.len() == log_before.delivered.len() {
                    assert(d.skip(log_before.delivered.len() as int) =~= Seq::empty());
                    assert(self.ui.received() =~= r0 + extra);
                } else {
                    assert(d.skip(log_before.delivered.len() as int) =~= seq![gm]);
                    extra = extra.push(gm);
                    assert(d =~= l0.delivered + extra);
                    assert(self.ui.received() =~= r0 + extra);
                }
            }
            going = go;
        }
        proof {
            if going {
                assert(messages@.len() == 0);
                assert(dispatch_all(self.log(), messages@) == self.log());
            } else {
                lemma_stopped_stays(self.log(), messages@);
            }
            assert(self.log() == dispatch_all(l0, all));
            assert(self.log().delivered.skip(l0.delivered.len() as int) =~= extra);
            assert forall|k: int|
                #![trigger all[k]]
                0 <= k < all.len() && !l0.stopped && all[k] is StopUI && (forall|i: int|
                    0 <= i < k ==> !(#[trigger] all[i] is StopUI)) implies {
                    &&& self.ui.finish_count() == f0 + 1
                    &&& self.ui.received() == r0 + all.take(k)
                } by {
                lemma_dispatch_prefix(l0, all, k);
                assert((l0.delivered + all.take(k)).skip(l0.delivered.len() as int) =~= all.take(k));
            }
        }
        !self.is_stopped()
    }

    /// The channel has closed: finish the front-end unless it was stopped
    /// already. Either way it has then been asked to finish exactly once.
    pub fn close(&mut self)
        ensures
            final(self).log() == dispatch_close(old(self).log()),
            final(self).log().finish_calls == 1,
            old(self).log().stopped ==> final(self).front_end() == old(self).front_end(),
            !old(self).log().stopped ==> {
                &&& final(self).front_end().finish_count() == old(self).front_end().finish_count() + 1
                &&& final(self).front_end().received() == old(self).front_end().received()
            },
    {
        proof {
            use_type_invariant(&self.state);
        }
        if !self.state.stopped {
            self.ui.finish();
            self.state = DispatchState { stopped: true, log: Ghost(dispatch_close(self.state.log@)) };
        }
    }
}

/// Once a stop message is dispatched, the front-end has been asked to finish
/// exactly once and has received every message before the first stop and
/// none after it, however many messages came before; closing the channel
/// after that asks nothing more. `dispatch`, `dispatch_each` and `close`
/// state that the front-end receives what the log delivers and finishes as
/// often as the log counts.
pub proof fn lemma_stop_finishes_once(messages: Seq<UIMessage>, k: int)
    requires
        0 <= k < messages.len(),
        messages[k] is StopUI,
        forall|i: int| 0 <= i < k ==> !(#[trigger] messages[i] is StopUI),
    ensures
        dispatch_all(empty_log(), messages).stopped,
        dispatch_all(empty_log(), messages).finish_calls == 1,
        dispatch_all(empty_log(), messages).delivered == messages.take(k),
        dispatch_close(dispatch_all(empty_log(), messages)) == dispatch_all(empty_log(), messages),
{
    lemma_dispatch_prefix(empty_log(), messages, k);
}

proof fn lemma_dispatch_prefix(log: DispatchLog, messages: Seq<UIMessage>, k: int)
    requires
        !log.stopped,
        0 <= k < messages.len(),
        messages[k] is StopUI,
        forall|i: int| 0 <= i < k ==> !(#[trigger] messages[i] is StopUI),
    ensures
        dispatch_all(log, messages) == (DispatchLog {
            delivered: log.delivered + messages.take(k),
            stopped: true,
            finish_calls: log.finish_calls + 1,
        }),
    decreases messages.len(),
{
    let next = dispatch_step(log, messages[0]);
    let rest = messages.drop_first();
    if k == 0 {
        lemma_stopped_stays(next, rest);
        assert(log.delivered + messages.take(0) =~= log.delivered);
    } else {
        assert forall|i: int| 0 <= i < k - 1 implies !(#[trigger] rest[i] is StopUI) by {
            assert(rest[i] == messages[i + 1]);
        }
        lemma_dispatch_prefix(next, rest, k - 1);
        assert(next.delivered + rest.take(k - 1) =~= log.delivered + messages.take(k));
    }
}

proof fn lemma_stopped_stays(log: DispatchLog, messages: Seq<UIMessage>)
    requires
        log.stopped,
    ensures
        dispatch_all(log, messages) == log,
    decreases messages.len(),
{
    if messages.len() > 0 {
        lemma_stopped_stays(dispatch_step(log, messages[0]), messages.drop_first());
    }
}

} // verus!
