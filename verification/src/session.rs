//! The bridge's own state and the decision each native method takes on it.
//!
//! The server object, the Java references and the async runtime stay with
//! the caller; `Session` records what of them exists and decides, for each
//! request, what the caller has to do next.
use vstd::prelude::*;
use crate::callbacks::{BridgeEvent, Callback, ServiceClass, callback_for_event, event_callback};
use crate::params::{
    CopyRect,
    CropRegion,
    FramebufferSize,
    RequestError,
    StartConfig,
    spec_copy_rect,
    spec_crop_region,
    spec_start_config,
    valid_dimension,
    validate_copy_rect,
    validate_crop,
    validate_dimensions,
    validate_start_request,
    outbound_port,
    wrap_u16,
};

verus! {

/// What exists of the bridge's global state.
#[derive(Debug, Clone, Copy, PartialEq, Eq, Structural)]
pub struct Session {
    /// `vncInit` has prepared the slot that holds the server.
    pub container_ready: bool,
    /// A server is held in that slot.
    pub server_running: bool,
    /// The task that forwards server events to Java is running.
    pub event_handler_running: bool,
    /// A framebuffer update has been handed to the runtime and not finished.
    pub framebuffer_update_in_progress: bool,
    /// The broadcast channel used to stop background tasks exists.
    pub shutdown_channel_ready: bool,
    /// A reference to the Java VM is stored.
    pub java_vm_ready: bool,
    /// A global reference to the main service class is stored.
    pub main_class_ready: bool,
    /// A global reference to the input service class is stored.
    pub input_class_ready: bool,
}

/// Seconds allowed for disconnecting every client when the server stops.
pub const DISCONNECT_TIMEOUT_SECS: u64 = 3;

/// What to do after `vncStartServer` was accepted.
#[derive(Debug, Clone, PartialEq, Eq)]
pub struct StartPlan {
    /// The server to create; it listens on `config.port` when that is set.
    pub config: StartConfig,
    /// Whether to start the task that forwards server events to Java.
    pub spawn_event_handler: bool,
}

/// What to do for `vncStopServer`.
#[derive(Debug, Clone, PartialEq, Eq)]
pub struct StopPlan {
    /// Calls to make, in order, before the clients are dropped.
    pub notify: Vec<Callback>,
    /// Whether to disconnect every client of the running server, allowing
    /// `DISCONNECT_TIMEOUT_SECS` for it.
    pub disconnect_all: bool,
    /// Whether to send the shutdown signal to background tasks.
    pub send_shutdown: bool,
}

/// The decision on a framebuffer update.
#[derive(Debug, Clone, Copy, PartialEq, Eq)]
pub enum FramebufferStep {
    /// Another update is still in flight: this one is dropped.
    AlreadyInProgress,
    /// Hand the update to the server; call `finish_framebuffer_update` once done.
    Dispatch,
    /// No server is running.
    NoServer,
}

impl FramebufferStep {
    pub open spec fn spec_reply(self) -> bool {
        !(self is NoServer)
    }

    /// The `boolean` answered to Java: `false` only when no server runs.
    pub fn reply(&self) -> (r: bool)
        ensures
            r == self.spec_reply(),
    {
        match self {
            FramebufferStep::NoServer => false,
            _ => true,
        }
    }
}

/// The `onClientDisconnected` calls for the clients `ids`, in order.
pub open spec fn disconnect_notices(ids: Seq<u64>) -> Seq<Callback> {
    ids.map_values(|id: u64| event_callback(BridgeEvent::ClientDisconnected { client_id: id }))
}

impl Session {
    /// The state before any native method has run.
    pub open spec fn initial() -> Session {
        Session {
            container_ready: false,
            server_running: false,
            event_handler_running: false,
            framebuffer_update_in_progress: false,
            shutdown_channel_ready: false,
            java_vm_ready: false,
            main_class_ready: false,
            input_class_ready: false,
        }
    }

    /// A server is only ever held once `vncInit` has prepared its slot.
    pub open spec fn wf(self) -> bool {
        self.server_running ==> self.container_ready
    }

    /// Whether a server is running (`vncIsActive`).
    pub open spec fn active(self) -> bool {
        self.container_ready && self.server_running
    }

    /// Whether a callback to `class` can be made.
    pub open spec fn can_call(self, class: ServiceClass) -> bool {
        self.java_vm_ready && match class {
            ServiceClass::Main => self.main_class_ready,
            ServiceClass::Input => self.input_class_ready,
        }
    }

    /// The state after `vncInit`; `vm_available` tells whether the calling
    /// environment could hand over its Java VM.
    pub open spec fn after_init(self, vm_available: bool) -> Session {
        Session {
            container_ready: true,
            shutdown_channel_ready: true,
            java_vm_ready: self.java_vm_ready || vm_available,
            ..self
        }
    }

    /// The state after a server was stored, `listens` telling whether it
    /// accepts inbound connections.
    pub open spec fn after_start(self, listens: bool) -> Session {
        Session {
            server_running: true,
            event_handler_running: true,
            shutdown_channel_ready: self.shutdown_channel_ready || !self.event_handler_running
                || listens,
            ..self
        }
    }

    /// The state after `vncStopServer`.
    pub open spec fn after_stop(self) -> Session {
        Session {
            server_running: if self.container_ready { false } else { self.server_running },
            event_handler_running: false,
            ..self
        }
    }

    /// The decision on a framebuffer update in this state.
    pub open spec fn update_step(self) -> FramebufferStep {
        if self.framebuffer_update_in_progress {
            FramebufferStep::AlreadyInProgress
        } else if self.active() {
            FramebufferStep::Dispatch
        } else {
            FramebufferStep::NoServer
        }
    }

    /// The state after a framebuffer update was decided.
    pub open spec fn after_update_begins(self) -> Session {
        Session {
            framebuffer_update_in_progress: self.framebuffer_update_in_progress || self.active(),
            ..self
        }
    }

    /// The callback that reports `event` in this state, if one can be made.
    pub open spec fn spec_route(self, event: BridgeEvent) -> Option<Callback> {
        let c = event_callback(event);
        if self.can_call(c.spec_class()) {
            Some(c)
        } else {
            None
        }
    }

    pub fn new() -> (r: Session)
        ensures
            r == Session::initial(),
            r.wf(),
    {
        Session {
            container_ready: false,
            server_running: false,
            event_handler_running: false,
            framebuffer_update_in_progress: false,
            shutdown_channel_ready: false,
            java_vm_ready: false,
            main_class_ready: false,
            input_class_ready: false,
        }
    }

    pub fn is_active(&self) -> (r: bool)
        ensures
            r == self.active(),
    {
        self.container_ready && self.server_running
    }

    /// `vncInit`: prepares the server slot and the shutdown channel, and
    /// keeps the Java VM unless one is kept already. Answers whether the
    /// caller should store the VM it obtained.
    pub fn init(&mut self, vm_available: bool) -> (store_vm: bool)
        ensures
            *final(self) == old(self).after_init(vm_available),
            store_vm == (!old(self).java_vm_ready && vm_available),
            final(self).wf(),
    {
        let store_vm = !self.java_vm_ready && vm_available;
        self.container_ready = true;
        self.shutdown_channel_ready = true;
        if store_vm {
            self.java_vm_ready = true;
        }
        store_vm
    }

    /// `vncStartServer`: checks the request, then needs `vncInit` to have
    /// run. On success the new server replaces any running one and the
    /// event task is started unless one runs already. A refused request
    /// leaves the state as it was.
    pub fn start_server(
        &mut self,
        width: i32,
        height: i32,
        port: i32,
        desktop_name: Option<String>,
        password: Option<String>,
    ) -> (r: Result<StartPlan, RequestError>)
        ensures
            match spec_start_config(width, height, port, desktop_name, password) {
                Err(e) => r == Err::<StartPlan, RequestError>(e) && *final(self) == *old(self),
                Ok(config) => if !old(self).container_ready {
                    r == Err::<StartPlan, RequestError>(RequestError::NotInitialized) && *final(self)
                        == *old(self)
                } else {
                    r == Ok::<StartPlan, RequestError>(
                        StartPlan {
                            config,
                            spawn_event_handler: !old(self).event_handler_running,
                        },
                    ) && *final(self) == old(self).after_start(config.port is Some)
                },
            },
            old(self).wf() ==> final(self).wf(),
    {
        let config = match validate_start_request(width, height, port, desktop_name, password) {
            Ok(config) => config,
            Err(e) => return Err(e),
        };
        if !self.container_ready {
            return Err(RequestError::NotInitialized);
        }
        let spawn = !self.event_handler_running;
        self.server_running = true;
        if spawn {
            self.event_handler_running = true;
            self.shutdown_channel_ready = true;
        }
        if config.port.is_some() {
            self.shutdown_channel_ready = true;
        }
        Ok(StartPlan { config, spawn_event_handler: spawn })
    }

    /// `vncStopServer`: when a server runs, each of its clients `client_ids`
    /// is reported disconnected to Java and then all are dropped; the
    /// shutdown signal goes out, the server is released and the event task
    /// counts as stopped.
    pub fn stop_server(&mut self, client_ids: Vec<u64>) -> (r: StopPlan)
        ensures
            *final(self) == old(self).after_stop(),
            old(self).wf() ==> final(self).wf(),
            r.disconnect_all == old(self).active(),
            r.send_shutdown == old(self).shutdown_channel_ready,
            r.notify@ == (if old(self).active() && old(self).can_call(ServiceClass::Main) {
                disconnect_notices(client_ids@)
            } else {
                Seq::empty()
            }),
    {
        let active = self.is_active();
        let mut notify: Vec<Callback> = Vec::new();
        if active && self.java_vm_ready && self.main_class_ready {
            let mut i: usize = 0;
            while i < client_ids.len()
                invariant
                    i <= client_ids@.len(),
                    notify@ == disconnect_notices(client_ids@.take(i as int)),
                decreases client_ids@.len() - i,
            {
                let c = callback_for_event(BridgeEvent::ClientDisconnected { client_id: client_ids[i] });
                notify.push(c);
                assert(client_ids@.take(i + 1) == client_ids@.take(i as int).push(client_ids@[i as int]));
                i = i + 1;
            }
            assert(client_ids@.take(client_ids@.len() as int) == client_ids@);
        }
        let plan = StopPlan {
            notify,
            disconnect_all: active,
            send_shutdown: self.shutdown_channel_ready,
        };
        if self.container_ready {
            self.server_running = false;
        }
        self.event_handler_running = false;
        plan
    }

    /// `vncUpdateFramebuffer`: at most one update is in flight; while one
    /// is, further updates are dropped.
    pub fn begin_framebuffer_update(&mut self) -> (r: FramebufferStep)
        ensures
            r == old(self).update_step(),
            *final(self) == old(self).after_update_begins(),
            old(self).wf() ==> final(self).wf(),
    {
        if self.framebuffer_update_in_progress {
            return FramebufferStep::AlreadyInProgress;
        }
        if self.is_active() {
            self.framebuffer_update_in_progress = true;
            FramebufferStep::Dispatch
        } else {
            FramebufferStep::NoServer
        }
    }

    /// Called when a dispatched framebuffer update has finished.
    pub fn finish_framebuffer_update(&mut self)
        ensures
            *final(self) == (Session { framebuffer_update_in_progress: false, ..*old(self) }),
            old(self).wf() ==> final(self).wf(),
    {
        self.framebuffer_update_in_progress = false;
    }

    /// `vncUpdateFramebufferCropped`: checks the region against the buffer
    /// of `buffer_len` bytes, then decides as for a full update. A refused
    /// region leaves the state as it was.
    pub fn begin_cropped_update(
        &mut self,
        buffer_len: usize,
        x: i32,
        y: i32,
        width: i32,
        height: i32,
    ) -> (r: Result<(CropRegion, FramebufferStep), RequestError>)
        ensures
            match spec_crop_region(buffer_len, x, y, width, height) {
                Err(e) => r == Err::<(CropRegion, FramebufferStep), RequestError>(e) && *final(self)
                    == *old(self),
                Ok(region) => r == Ok::<(CropRegion, FramebufferStep), RequestError>(
                    (region, old(self).update_step()),
                ) && *final(self) == old(self).after_update_begins(),
            },
            old(self).wf() ==> final(self).wf(),
    {
        let region = match validate_crop(buffer_len, x, y, width, height) {
            Ok(region) => region,
            Err(e) => return Err(e),
        };
        let step = self.begin_framebuffer_update();
        Ok((region, step))
    }

    /// `vncNewFramebuffer`: checks the new size, then needs a running server.
    pub fn resize_request(&self, width: i32, height: i32) -> (r: Result<FramebufferSize, RequestError>)
        ensures
            !valid_dimension(width as int) ==> r == Err::<FramebufferSize, RequestError>(
                RequestError::InvalidWidth(width),
            ),
            valid_dimension(width as int) && !valid_dimension(height as int) ==> r == Err::<
                FramebufferSize,
                RequestError,
            >(RequestError::InvalidHeight(height)),
            valid_dimension(width as int) && valid_dimension(height as int) ==> r == (if self.active() {
                Ok::<FramebufferSize, RequestError>(
                    FramebufferSize { width: width as u16, height: height as u16 },
                )
            } else {
                Err::<FramebufferSize, RequestError>(RequestError::ServerNotRunning)
            }),
    {
        let size = match validate_dimensions(width, height) {
            Ok(size) => size,
            Err(e) => return Err(e),
        };
        if self.is_active() {
            Ok(size)
        } else {
            Err(RequestError::ServerNotRunning)
        }
    }

    /// `vncScheduleCopyRect` and `vncDoCopyRect`: checks the rectangle,
    /// then needs a running server.
    pub fn copy_rect_request(
        &self,
        x: i32,
        y: i32,
        width: i32,
        height: i32,
        dx: i32,
        dy: i32,
    ) -> (r: Result<CopyRect, RequestError>)
        ensures
            r == match spec_copy_rect(x, y, width, height, dx, dy) {
                Err(e) => Err::<CopyRect, RequestError>(e),
                Ok(rect) => if self.active() {
                    Ok::<CopyRect, RequestError>(rect)
                } else {
                    Err::<CopyRect, RequestError>(RequestError::ServerNotRunning)
                },
            },
    {
        let rect = match validate_copy_rect(x, y, width, height, dx, dy) {
            Ok(rect) => rect,
            Err(e) => return Err(e),
        };
        if self.is_active() {
            Ok(rect)
        } else {
            Err(RequestError::ServerNotRunning)
        }
    }

    /// `vncConnectReverse` and `vncConnectRepeater`: the port to connect to
    /// (the low 16 bits of the Java `int`), provided a server runs.
    pub fn outbound_request(&self, port: i32) -> (r: Result<u16, RequestError>)
        ensures
            !self.container_ready ==> r == Err::<u16, RequestError>(RequestError::NotInitialized),
            self.container_ready && !self.server_running ==> r == Err::<u16, RequestError>(
                RequestError::ServerNotRunning,
            ),
            self.active() ==> (r matches Ok(p) && p as int == wrap_u16(port as int)),
    {
        if !self.container_ready {
            return Err(RequestError::NotInitialized);
        }
        if !self.server_running {
            return Err(RequestError::ServerNotRunning);
        }
        Ok(outbound_port(port))
    }

    /// The Java call that reports `event`, or `None` when the Java VM or
    /// the receiving class is not known yet.
    pub fn route_event(&self, event: BridgeEvent) -> (r: Option<Callback>)
        ensures
            r == self.spec_route(event),
    {
        let c = callback_for_event(event);
        let ready = match c.class() {
            ServiceClass::Main => self.main_class_ready,
            ServiceClass::Input => self.input_class_ready,
        };
        if self.java_vm_ready && ready {
            Some(c)
        } else {
            None
        }
    }

    /// Called when the event task has received the shutdown signal and ended.
    pub fn event_handler_stopped(&mut self)
        ensures
            *final(self) == (Session { event_handler_running: false, ..*old(self) }),
            old(self).wf() ==> final(self).wf(),
    {
        self.event_handler_running = false;
    }
}

/// After `vncInit`, a start makes the server active with its event task
/// running; a stop then leaves neither a server nor an event task.
pub proof fn start_then_stop(s: Session, vm_available: bool, listens: bool)
    ensures
        s.after_init(vm_available).after_start(listens).active(),
        s.after_init(vm_available).after_start(listens).event_handler_running,
        !s.after_init(vm_available).after_start(listens).after_stop().active(),
        !s.after_init(vm_available).after_start(listens).after_stop().event_handler_running,
{
}

/// A stop always leaves the bridge inactive with no event task counted.
pub proof fn stop_leaves_nothing_running(s: Session)
    ensures
        !s.after_stop().active(),
        !s.after_stop().event_handler_running,
{
}

/// At most one event task runs: a start while the task runs does not start
/// another one, and a start after a stop does.
pub proof fn event_task_started_once(s: Session, first: bool, second: bool)
    ensures
        s.after_start(first).event_handler_running,
        !s.after_start(first).after_stop().event_handler_running,
        s.after_start(first).after_stop().after_start(second).event_handler_running,
{
}

/// At most one framebuffer update is in flight: once one is dispatched,
/// further updates are dropped until it finishes; after it finishes the
/// next update is dispatched again while the server runs.
pub proof fn one_update_in_flight(s: Session)
    requires
        s.update_step() == FramebufferStep::Dispatch,
    ensures
        s.after_update_begins().framebuffer_update_in_progress,
        s.after_update_begins().update_step() == FramebufferStep::AlreadyInProgress,
        s.after_update_begins().after_update_begins() == s.after_update_begins(),
        (Session { framebuffer_update_in_progress: false, ..s.after_update_begins() }).update_step()
            == FramebufferStep::Dispatch,
{
}

/// Without a running server an update is refused and changes nothing,
/// unless an earlier update is still in flight.
pub proof fn no_update_without_server(s: Session)
    requires
        !s.active(),
        !s.framebuffer_update_in_progress,
    ensures
        s.update_step() == FramebufferStep::NoServer,
        !s.update_step().spec_reply(),
        s.after_update_begins() == s,
{
}

/// No event reaches Java before the Java VM and the receiving class are
/// kept; once they are, every event reaches it as its callback.
pub proof fn routing_needs_registration(s: Session, event: BridgeEvent)
    ensures
        !s.java_vm_ready ==> s.spec_route(event) is None,
        s.java_vm_ready && s.main_class_ready && s.input_class_ready ==> s.spec_route(event)
            == Some(event_callback(event)),
{
}

/// `vncInit` leaves a well-formed bridge as it runs: a server held before is
/// kept and stays active or inactive as it was; a Java VM is kept once it is
/// known; and a second `vncInit` has the effect of one.
pub proof fn init_is_idempotent(s: Session, vm_available: bool)
    requires
        s.wf(),
    ensures
        s.after_init(vm_available).wf(),
        s.after_init(vm_available).server_running == s.server_running,
        s.after_init(vm_available).active() == s.active(),
        s.after_init(vm_available).container_ready,
        s.after_init(vm_available).shutdown_channel_ready,
        s.after_init(vm_available).java_vm_ready == (s.java_vm_ready || vm_available),
        s.after_init(vm_available).after_init(vm_available) == s.after_init(vm_available),
{
}

/// Every decision keeps the bridge well formed: no server is held without
/// the slot that `vncInit` prepares.
pub proof fn decisions_keep_wf(s: Session, vm_available: bool, listens: bool)
    requires
        s.wf(),
    ensures
        s.after_init(vm_available).wf(),
        s.container_ready ==> s.after_start(listens).wf(),
        s.after_stop().wf(),
        s.after_update_begins().wf(),
{
}

} // verus!
