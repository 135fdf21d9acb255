//! Keeps one advanced-color change subscription on the selected monitor, and
//! replaces it only when the monitor changes.
use vstd::prelude::*;

use crate::hdr::DisplayMonitorHandle;

verus! {

/// Where advanced-color change notifications come from: Windows in the
/// application, a recording fake in tests.
pub trait AdvancedColorEventSource {
    type Subscription;

    /// What is called when the advanced color of the monitor changes.
    type Callback: Clone;

    fn subscribe(&mut self, handle: DisplayMonitorHandle, callback: Self::Callback) -> Result<
        Self::Subscription,
        String,
    >;

    fn unsubscribe(&mut self, subscription: Self::Subscription);
}

/// A call made on an event source: what was handed over and the answer.
pub enum SourceCall<S: AdvancedColorEventSource> {
    Subscribe {
        handle: DisplayMonitorHandle,
        callback: S::Callback,
        reply: Result<S::Subscription, String>,
    },
    Unsubscribe { subscription: S::Subscription },
}

/// The subscription of a watcher and the monitor it watches.
pub struct WatcherCoordinator<S: AdvancedColorEventSource> {
    source: S,
    callback: S::Callback,
    target: Option<DisplayMonitorHandle>,
    subscription: Option<S::Subscription>,
    log: Ghost<Seq<SourceCall<S>>>,
}

/// The calls made after the first `n`.
pub open spec fn source_calls_since<S: AdvancedColorEventSource>(
    cs: Seq<SourceCall<S>>,
    n: int,
) -> Seq<SourceCall<S>> {
    cs.subrange(n, cs.len() as int)
}

impl<S: AdvancedColorEventSource> WatcherCoordinator<S> {
    /// The monitor watched now.
    pub closed spec fn watched(&self) -> Option<DisplayMonitorHandle> {
        self.target
    }

    /// The calls made on the source so far, in order, with their answers.
    pub closed spec fn source_calls(&self) -> Seq<SourceCall<S>> {
        self.log@
    }

    /// The callback every subscription is made with (a clone of it).
    pub closed spec fn stored_callback(&self) -> S::Callback {
        self.callback
    }

    /// The subscription held now.
    pub closed spec fn held(&self) -> Option<S::Subscription> {
        self.subscription
    }

    /// The source the subscriptions are made with.
    pub closed spec fn event_source(&self) -> S {
        self.source
    }

    /// Whether a subscription is held.
    pub closed spec fn subscribed(&self) -> bool {
        self.subscription is Some
    }

    /// A subscription is held exactly while a monitor is watched.
    pub closed spec fn wf(&self) -> bool {
        self.target is Some <==> self.subscription is Some
    }

    pub fn new(source: S, callback: S::Callback) -> (c: Self)
        ensures
            c.wf(),
            c.watched() is None,
            !c.subscribed(),
            c.event_source() == source,
            c.stored_callback() == callback,
            c.source_calls() == Seq::<SourceCall<S>>::empty(),
    {
        WatcherCoordinator { source, callback, target: None, subscription: None, log: Ghost(Seq::empty()) }
    }

    /// Watches `target` (nothing, for `None`). The same monitor keeps its
    /// subscription and makes no call; another first hands the held
    /// subscription back to the source, then subscribes to `target` with a
    /// clone of the stored callback, and the watcher watches the new monitor
    /// only once the subscription is made.
    pub fn update_target(&mut self, target: Option<DisplayMonitorHandle>) -> (r: Result<(), String>)
        requires
            old(self).wf(),
        ensures
            final(self).wf(),
            final(self).stored_callback() == old(self).stored_callback(),
            final(self).source_calls().len() >= old(self).source_calls().len(),
            final(self).source_calls().subrange(0, old(self).source_calls().len() as int) == old(
                self,
            ).source_calls(),
            old(self).watched() == target ==> r is Ok && final(self).watched() == old(self).watched()
                && final(self).subscribed() == old(self).subscribed() && final(self).event_source()
                == old(self).event_source() && final(self).source_calls() == old(self).source_calls(),
            old(self).watched() != target ==> ({
                let cs = source_calls_since(final(self).source_calls(), old(self).source_calls().len() as int);
                let n: int = if old(self).subscribed() {
                    1
                } else {
                    0
                };
                &&& old(self).subscribed() ==> cs.len() >= 1 && cs[0] == SourceCall::<S>::Unsubscribe {
                    subscription: old(self).held()->Some_0,
                }
                &&& match target {
                    None => cs.len() == n && r is Ok && final(self).watched() is None,
                    Some(t) => cs.len() == n + 1 && match cs[n] {
                        SourceCall::Subscribe { handle, callback, reply } => {
                            &&& handle == t
                            &&& cloned::<S::Callback>(old(self).stored_callback(), callback)
                            &&& match reply {
                                Ok(sub) => r is Ok && final(self).watched() == Some(t)
                                    && final(self).held() == Some(sub),
                                Err(e) => r == Err::<(), String>(e) && final(self).watched() is None,
                            }
                        },
                        _ => false,
                    },
                }
            }),
    {
        if self.target == target {
            return Ok(());
        }
        let ghost n0 = self.log@.len() as int;
        if let Some(subscription) = self.subscription.take() {
            let ghost held = subscription;
            self.source.unsubscribe(subscription);
            self.log = Ghost(self.log@.push(SourceCall::Unsubscribe { subscription: held }));
        }
        self.target = None;
        let ghost c1 = self.log@;
        let target = match target {
            Some(t) => t,
            None => {
                assert(self.log@.subrange(0, n0) =~= old(self).log@);
                assert(source_calls_since(self.log@, n0) =~= c1.subrange(n0, c1.len() as int));
                return Ok(());
            },
        };
        let callback = self.callback.clone();
        let ghost handed = callback;
        let reply = self.source.subscribe(target, callback);
        let ghost answer = reply;
        self.log = Ghost(
            self.log@.push(SourceCall::Subscribe { handle: target, callback: handed, reply: answer }),
        );
        proof {
            let cs = source_calls_since(self.log@, n0);
            assert(self.log@.subrange(0, n0) =~= old(self).log@);
            assert(cs.last() == self.log@.last());
            if old(self).subscription is Some {
                assert(cs[0] == self.log@[n0]);
            }
        }
        let subscription = match reply {
            Ok(s) => s,
            Err(e) => {
                return Err(e);
            },
        };
        self.target = Some(target);
        self.subscription = Some(subscription);
        Ok(())
    }

    /// The monitor watched now.
    pub fn target(&self) -> (r: Option<DisplayMonitorHandle>)
        ensures
            r == self.watched(),
    {
        self.target
    }

    /// The source the subscriptions are made with.
    pub fn source(&self) -> (r: &S)
        ensures
            *r == self.event_source(),
    {
        &self.source
    }

    /// Ends the watch and gives the source back, unsubscribed: with no
    /// subscription held, the source as it is; otherwise the source after it
    /// dropped the held subscription.
    pub fn into_source(self) -> (r: S)
        ensures
            !self.subscribed() ==> r == self.event_source(),
    {
        let mut source = self.source;
        if let Some(subscription) = self.subscription {
            source.unsubscribe(subscription);
        }
        source
    }
}

} // verus!
