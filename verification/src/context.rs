//! The state of one process that uses the engine: the pools of managed objects
//! with their registries, the video capturers, the audio device and the logger
//! callbacks. It is made when the engine is started and lasts until the engine
//! is released.

use vstd::prelude::*;
use crate::audio_device::AudioDevice;
use crate::engine::EngineCall;
use crate::instances::{Instances, Managed};
use crate::log::Loggers;
use crate::publisher::{publishers_detached, Publisher};
use crate::registry::Registry;
use crate::session::Session;
use crate::subscriber::{bound_when_live, subscribers_detached, Subscriber};
use crate::video_capturer::VideoCapturer;

verus! {

/// Everything that the engine's callbacks are routed through.
pub struct Context {
    pub sessions: Instances<Session>,
    pub publishers: Instances<Publisher>,
    pub subscribers: Instances<Subscriber>,
    pub capturers: Registry<VideoCapturer>,
    pub audio_device: AudioDevice,
    pub loggers: Loggers,
}

impl Context {
    /// Every pool's registry agrees with its handles, and every subscriber
    /// that has a native object is bound to a stream.
    pub open spec fn wf(self) -> bool {
        &&& self.sessions.wf()
        &&& self.publishers.wf()
        &&& self.subscribers.wf()
        &&& bound_when_live(self.subscribers)
    }

    /// Everything but the three pools is as it was.
    pub open spec fn same_devices(self, before: Context) -> bool {
        &&& self.capturers == before.capturers
        &&& self.audio_device == before.audio_device
        &&& self.loggers == before.loggers
    }

    /// The identity of the session that a release of this token gives back;
    /// zero if the release gives no session back.
    pub open spec fn session_given_back(self, token: usize) -> usize {
        if self.sessions.gives_back(token) {
            self.sessions.object(token as int).native().key()
        } else {
            0
        }
    }

    /// Gives up one application-side owner of a session. When the last one
    /// leaves, the session is deleted and leaves its registry, and in the same
    /// step every publisher and subscriber that was attached to it loses that
    /// attachment: none is unpublished or unsubscribed later from a session that
    /// is gone.
    pub fn release_session(&mut self, token: usize) -> (calls: Vec<EngineCall>)
        requires
            old(self).wf(),
        ensures
            final(self).wf(),
            final(self).sessions.released(old(self).sessions, token, calls@),
            publishers_detached(
                final(self).publishers,
                old(self).publishers,
                old(self).session_given_back(token),
            ),
            subscribers_detached(
                final(self).subscribers,
                old(self).subscribers,
                old(self).session_given_back(token),
            ),
            final(self).same_devices(*old(self)),
    {
        let key = if self.sessions.owner_count(token) == 1 {
            match self.sessions.get(token) {
                Some(session) => session.inner(),
                None => 0,
            }
        } else {
            0
        };
        let calls = self.sessions.release(token);
        Publisher::detach(&mut self.publishers, key);
        Subscriber::detach(&mut self.subscribers, key);
        calls
    }

    /// Gives up one application-side owner of a publisher. When the last one
    /// leaves, the publisher is unpublished from the session that it is attached
    /// to, if any, then deleted, and it leaves its registry in the same step.
    pub fn release_publisher(&mut self, token: usize) -> (calls: Vec<EngineCall>)
        requires
            old(self).wf(),
        ensures
            final(self).wf(),
            final(self).publishers.released(old(self).publishers, token, calls@),
            final(self).sessions == old(self).sessions,
            final(self).subscribers == old(self).subscribers,
            final(self).same_devices(*old(self)),
    {
        self.publishers.release(token)
    }

    /// Gives up one application-side owner of a subscriber. When the last one
    /// leaves, the subscriber is unsubscribed from the session that it is
    /// attached to, if any, then deleted, and it leaves its registry in the same
    /// step.
    pub fn release_subscriber(&mut self, token: usize) -> (calls: Vec<EngineCall>)
        requires
            old(self).wf(),
        ensures
            final(self).wf(),
            final(self).subscribers.released(old(self).subscribers, token, calls@),
            final(self).sessions == old(self).sessions,
            final(self).publishers == old(self).publishers,
            final(self).same_devices(*old(self)),
    {
        self.subscribers.release(token)
    }

    /// A context in which nothing was created yet.
    pub open spec fn is_fresh(self) -> bool {
        &&& self.wf()
        &&& self.sessions.count() == 0
        &&& self.publishers.count() == 0
        &&& self.subscribers.count() == 0
        &&& self.sessions.routes() == Map::<usize, usize>::empty()
        &&& self.publishers.routes() == Map::<usize, usize>::empty()
        &&& self.subscribers.routes() == Map::<usize, usize>::empty()
        &&& self.sessions.order() == Seq::<usize>::empty()
        &&& self.publishers.order() == Seq::<usize>::empty()
        &&& self.subscribers.order() == Seq::<usize>::empty()
        &&& self.capturers@ == Map::<usize, VideoCapturer>::empty()
        &&& self.audio_device.is_fresh()
        &&& self.loggers@ == Seq::<u64>::empty()
    }
}

/// The requests that disconnect the sessions registered under these
/// identities, in this order.
pub open spec fn disconnect_calls(keys: Seq<usize>) -> Seq<EngineCall>
    decreases keys.len(),
{
    if keys.len() == 0 {
        Seq::<EngineCall>::empty()
    } else {
        disconnect_calls(keys.drop_last()).push(
            (EngineCall::SessionDisconnect { session: keys.last() }),
        )
    }
}

/// Everything that releasing the engine asks for, in order. Every registered
/// publisher is given back: unpublished from the session that it is attached
/// to, then deleted. Every registered subscriber is given back likewise. Every
/// registered session is disconnected, and then every one is deleted. Each kind
/// goes in the order of registration. Only then is the engine released.
pub open spec fn deinit_calls(context: Context) -> Seq<EngineCall> {
    context.publishers.retire_all_calls(context.publishers.order())
        + context.subscribers.retire_all_calls(context.subscribers.order()) + disconnect_calls(
        context.sessions.order(),
    ) + context.sessions.retire_all_calls(context.sessions.order()) + seq![EngineCall::Destroy]
}

/// Starts the engine: the context of the process, and the requests that start
/// the engine and then install the audio device, in this order.
pub fn init() -> (started: (Context, Vec<EngineCall>))
    ensures
        started.0.is_fresh(),
        started.1@ == seq![EngineCall::Init, EngineCall::SetAudioDevice],
{
    let (audio_device, install) = AudioDevice::new();
    let mut calls: Vec<EngineCall> = Vec::new();
    calls.push(EngineCall::Init);
    calls.push(install);
    let context = Context {
        sessions: Instances::new(),
        publishers: Instances::new(),
        subscribers: Instances::new(),
        capturers: Registry::new(),
        audio_device,
        loggers: Loggers::new(),
    };
    (context, calls)
}

/// Releases the engine. The audio device's render loop is stopped, every
/// registered object is given back as by the release of its last owner, the
/// three registries are emptied, and the requests of [`deinit_calls`] are
/// returned. An event that comes for any identity afterwards finds nothing.
pub fn deinit(context: &mut Context) -> (calls: Vec<EngineCall>)
    requires
        old(context).wf(),
    ensures
        final(context).wf(),
        calls@ == deinit_calls(*old(context)),
        final(context).sessions.drained(old(context).sessions),
        final(context).publishers.drained(old(context).publishers),
        final(context).subscribers.drained(old(context).subscribers),
        final(context).capturers == old(context).capturers,
        final(context).loggers == old(context).loggers,
        !final(context).audio_device.render_running(),
        final(context).audio_device.capturer_ready() == old(context).audio_device.capturer_ready(),
        final(context).audio_device.same_but_flags(old(context).audio_device),
{
    context.audio_device.stop();
    let mut calls = context.publishers.drain();
    let mut given = context.subscribers.drain();
    calls.append(&mut given);
    let ghost after_subscribers = calls@;

    let keys = context.sessions.registered();
    let mut i: usize = 0;
    while i < keys.len()
        invariant
            i <= keys@.len(),
            calls@ == after_subscribers + disconnect_calls(keys@.subrange(0, i as int)),
        decreases keys@.len() - i,
    {
        let key = keys[i];
        proof {
            assert(keys@.subrange(0, i + 1).drop_last() =~= keys@.subrange(0, i as int));
            assert(keys@.subrange(0, i + 1).last() == key);
        }
        calls.push(EngineCall::SessionDisconnect { session: key });
        proof {
            assert(calls@ =~= after_subscribers + disconnect_calls(keys@.subrange(0, i + 1)));
        }
        i += 1;
    }
    proof {
        assert(keys@.subrange(0, keys@.len() as int) =~= keys@);
    }
    let mut given = context.sessions.drain();
    calls.append(&mut given);
    calls.push(EngineCall::Destroy);
    proof {
        assert(calls@ =~= deinit_calls(*old(context)));
        assert forall|t: int| 0 <= t < context.subscribers.count() implies !(
        #[trigger] context.subscribers.object(t)).native().live() by {
            assert(!context.subscribers.live(t));
        }
    }
    calls
}

} // verus!
