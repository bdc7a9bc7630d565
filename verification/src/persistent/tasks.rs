use vstd::prelude::*;

use crate::persistent::establish::{started, EstablishAction, EstablishActionView, EstablishPhase, Establishment, EstablishmentView};
use crate::persistent::registry::{callbacks_on, lists_callbacks};
use crate::persistent::{PersistentPostgres, PersistentPostgresView};

verus! {

/// What wakes the task that watches the health of the pool.
#[derive(Debug, Clone, Copy, PartialEq, Eq, Structural)]
pub enum MonitorEvent {
    /// The manager is shutting down.
    Shutdown,
    /// The watch interval elapsed; `pool_closed` tells whether the current
    /// pool, if any, was found closed.
    Tick { pool_closed: bool },
}

/// What the watching task is to do next.
pub enum MonitorAction {
    /// Leave the loop.
    Stop,
    /// Wait for the next event.
    Wait,
    /// The pool is lost: establish a new one with the current address.
    Reestablish(Establishment, EstablishAction),
}

/// What wakes the task that dispatches notifications.
pub enum NotificationEvent {
    /// The manager is shutting down.
    Shutdown,
    /// The polling interval elapsed.
    Tick,
    /// A notification arrived on `channel`; `payload_parsed` tells whether its
    /// payload is a well-formed change notification.
    Received { channel: String, payload_parsed: bool },
}

/// What the dispatching task is to do next.
pub enum NotificationAction<F> {
    /// Leave the loop.
    Stop,
    /// Wait for the next event.
    Continue,
    /// Hand the notification to each of these callbacks, listed with their tags.
    Dispatch(Vec<(String, F)>),
}

/// One step of a shutdown, in the order in which they are taken.
#[derive(Debug, Clone, Copy, PartialEq, Eq, Structural)]
pub enum ShutdownStep {
    /// Signal the notification handler task at this index to stop, and wait
    /// for it a while before aborting it.
    StopHandler(usize),
    /// Signal the manager's own tasks to stop.
    SignalShutdown,
    /// Wait a while for the watching task, then abort it.
    StopMonitor,
    /// Wait a while for the dispatching task, then abort it.
    StopNotifications,
    /// Drop the listener.
    DropListener,
    /// Close the pool, waiting for it a while.
    ClosePool,
}

/// The pool counts as lost where there is none or it was found closed.
pub open spec fn connection_lost<P, L, F>(v: PersistentPostgresView<P, L, F>, pool_closed: bool) -> bool {
    v.pool is None || pool_closed
}

/// The steps of a shutdown: first each notification handler in turn, then the
/// shutdown signal, then the manager's tasks, the listener and the pool, each
/// only where there is one.
pub open spec fn shutdown_plan(
    handlers: nat,
    has_monitor: bool,
    has_notifications: bool,
    has_listener: bool,
    has_pool: bool,
) -> Seq<ShutdownStep> {
    Seq::new(handlers, |i: int| ShutdownStep::StopHandler(i as usize)) + seq![
        ShutdownStep::SignalShutdown,
    ] + (if has_monitor {
        seq![ShutdownStep::StopMonitor]
    } else {
        seq![]
    }) + (if has_notifications {
        seq![ShutdownStep::StopNotifications]
    } else {
        seq![]
    }) + (if has_listener {
        seq![ShutdownStep::DropListener]
    } else {
        seq![]
    }) + (if has_pool {
        seq![ShutdownStep::ClosePool]
    } else {
        seq![]
    })
}

/// A pool counts as lost exactly when there is none or it was found closed,
/// whatever the listener setting or the listener held.
pub proof fn law_closed_or_missing_pool_is_lost<P, L, F>(
    v: PersistentPostgresView<P, L, F>,
    pool_closed: bool,
)
    ensures
        pool_closed ==> connection_lost(v, pool_closed),
        v.pool is None ==> connection_lost(v, pool_closed),
        v.pool is Some && !pool_closed ==> !connection_lost(v, pool_closed),
{
}

/// A shutdown first stops each notification handler, in order, then sends
/// the shutdown signal; it stops the watching task, stops the dispatching
/// task, drops the listener and closes the pool exactly where there is one,
/// whatever else there is, and takes no other step.
pub proof fn law_shutdown_plan_steps(
    handlers: nat,
    has_monitor: bool,
    has_notifications: bool,
    has_listener: bool,
    has_pool: bool,
)
    ensures
        ({
            let plan = shutdown_plan(
                handlers,
                has_monitor,
                has_notifications,
                has_listener,
                has_pool,
            );
            &&& plan.len() == handlers + 1 + (if has_monitor {
                1int
            } else {
                0
            }) + (if has_notifications {
                1int
            } else {
                0
            }) + (if has_listener {
                1int
            } else {
                0
            }) + (if has_pool {
                1int
            } else {
                0
            })
            &&& forall|i: int| 0 <= i < handlers ==> plan[i] == ShutdownStep::StopHandler(i as usize)
            &&& plan[handlers as int] == ShutdownStep::SignalShutdown
            &&& plan.contains(ShutdownStep::StopMonitor) <==> has_monitor
            &&& plan.contains(ShutdownStep::StopNotifications) <==> has_notifications
            &&& plan.contains(ShutdownStep::DropListener) <==> has_listener
            &&& plan.contains(ShutdownStep::ClosePool) <==> has_pool
        }),
{
    let a = Seq::new(handlers, |i: int| ShutdownStep::StopHandler(i as usize));
    let b = seq![ShutdownStep::SignalShutdown];
    let m = if has_monitor {
        seq![ShutdownStep::StopMonitor]
    } else {
        seq![]
    };
    let nt = if has_notifications {
        seq![ShutdownStep::StopNotifications]
    } else {
        seq![]
    };
    let l = if has_listener {
        seq![ShutdownStep::DropListener]
    } else {
        seq![]
    };
    let po = if has_pool {
        seq![ShutdownStep::ClosePool]
    } else {
        seq![]
    };
    let plan = shutdown_plan(handlers, has_monitor, has_notifications, has_listener, has_pool);
    assert(plan == a + b + m + nt + l + po);
    let k0 = handlers as int;
    let k1 = k0 + 1;
    let k2 = k1 + m.len();
    let k3 = k2 + nt.len();
    let k4 = k3 + l.len();
    assert forall|i: int| 0 <= i < plan.len() implies #[trigger] plan[i] == (if i < k0 {
        ShutdownStep::StopHandler(i as usize)
    } else if i < k1 {
        ShutdownStep::SignalShutdown
    } else if i < k2 {
        ShutdownStep::StopMonitor
    } else if i < k3 {
        ShutdownStep::StopNotifications
    } else if i < k4 {
        ShutdownStep::DropListener
    } else {
        ShutdownStep::ClosePool
    }) by {}
    if has_monitor {
        assert(plan[k1] == ShutdownStep::StopMonitor);
    }
    if has_notifications {
        assert(plan[k2] == ShutdownStep::StopNotifications);
    }
    if has_listener {
        assert(plan[k3] == ShutdownStep::DropListener);
    }
    if has_pool {
        assert(plan[k4] == ShutdownStep::ClosePool);
    }
}

fn push_if(steps: &mut Vec<ShutdownStep>, cond: bool, step: ShutdownStep)
    ensures
        final(steps)@ == old(steps)@ + (if cond {
            seq![step]
        } else {
            seq![]
        }),
{
    if cond {
        steps.push(step);
    }
    assert(final(steps)@ =~= old(steps)@ + (if cond {
        seq![step]
    } else {
        seq![]
    }));
}

impl<P, L, F> PersistentPostgres<P, L, F> {
    /// Decides what the watching task does on `event`: it stops on shutdown,
    /// and on a tick it asks for a new pool exactly when the pool is lost and
    /// an address is known.
    pub fn monitor_step(&self, event: MonitorEvent) -> (r: MonitorAction)
        requires
            self.wf(),
        ensures
            event is Shutdown ==> r is Stop,
            (event matches MonitorEvent::Tick { pool_closed } ==> (pool_closed
                && self@.address is Some ==> r is Reestablish)),
            (event matches MonitorEvent::Tick { pool_closed } ==> (self@.pool is Some
                && !pool_closed ==> r is Wait)),
            (event matches MonitorEvent::Tick { pool_closed } ==> {
                if connection_lost(self@, pool_closed) && self@.address is Some {
                    r matches MonitorAction::Reestablish(e, a) && e.wf() && e@ == started(
                        self@.address->0,
                        self@.with_listener,
                        self@.channels,
                    ) && a@ == EstablishActionView::ConnectPool(self@.address->0)
                } else {
                    r is Wait
                }
            }),
    {
        match event {
            MonitorEvent::Shutdown => MonitorAction::Stop,
            MonitorEvent::Tick { pool_closed } => {
                let lost = self.pool().is_none() || pool_closed;
                if !lost {
                    return MonitorAction::Wait;
                }
                match self.address() {
                    Some(address) => {
                        let channels = self.channels().clone();
                        assert(channels.deep_view() =~= self@.channels);
                        let (e, a) = Self::establish_pool(
                            address.as_str(),
                            self.with_listener(),
                            channels,
                        );
                        MonitorAction::Reestablish(e, a)
                    },
                    None => MonitorAction::Wait,
                }
            },
        }
    }

    /// Decides what the dispatching task does on `event`: a notification with
    /// a well-formed payload goes to every callback registered on its channel;
    /// one without is dropped.
    pub fn notifications_step(&self, event: NotificationEvent) -> (r: NotificationAction<F>) where
        F: Copy,
        requires
            self.wf(),
        ensures
            event is Shutdown ==> r is Stop,
            event is Tick ==> r is Continue,
            (event matches NotificationEvent::Received { channel, payload_parsed } ==> (if payload_parsed {
                r is Dispatch && lists_callbacks(
                    callbacks_on(self@.listeners, channel@),
                    r->Dispatch_0@,
                )
            } else {
                r is Continue
            })),
    {
        match event {
            NotificationEvent::Shutdown => NotificationAction::Stop,
            NotificationEvent::Tick => NotificationAction::Continue,
            NotificationEvent::Received { channel, payload_parsed } => {
                if payload_parsed {
                    NotificationAction::Dispatch(self.callbacks(&channel))
                } else {
                    NotificationAction::Continue
                }
            },
        }
    }

    /// The steps of a graceful shutdown, given the number of notification
    /// handler tasks still held and whether the watching and dispatching
    /// tasks were started.
    pub fn shutdown(&self, handlers: usize, has_monitor: bool, has_notifications: bool) -> (r: Vec<
        ShutdownStep,
    >)
        ensures
            r@ == shutdown_plan(
                handlers as nat,
                has_monitor,
                has_notifications,
                self@.listener is Some,
                self@.pool is Some,
            ),
    {
        let mut steps: Vec<ShutdownStep> = Vec::new();
        let mut i: usize = 0;
        while i < handlers
            invariant
                i <= handlers,
                steps@ == Seq::new(i as nat, |k: int| ShutdownStep::StopHandler(k as usize)),
            decreases handlers - i,
        {
            steps.push(ShutdownStep::StopHandler(i));
            assert(steps@ =~= Seq::new((i + 1) as nat, |k: int| ShutdownStep::StopHandler(k as usize)));
            i = i + 1;
        }
        steps.push(ShutdownStep::SignalShutdown);
        push_if(&mut steps, has_monitor, ShutdownStep::StopMonitor);
        push_if(&mut steps, has_notifications, ShutdownStep::StopNotifications);
        let has_listener = self.listener().is_some();
        push_if(&mut steps, has_listener, ShutdownStep::DropListener);
        let has_pool = self.pool().is_some();
        push_if(&mut steps, has_pool, ShutdownStep::ClosePool);
        steps
    }
}

} // verus!
