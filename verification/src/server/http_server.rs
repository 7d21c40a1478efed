//! The lifecycle of the HTTP(S) server: start, stop, and what the accept
//! loop reports back.
//!
//! The handle owns the scheduler and the sending half of the shutdown
//! signal. Starting validates its input, provisions what it needs and hands
//! out a [`ServeOrder`]: everything the accept loop needs to run on the
//! scheduler. The loop itself awaits connections and so lives with the
//! caller; it reports what it meets as a [`ServeEvent`], and the handle
//! decides what that means for the state and for the loop.

use std::sync::Arc;
use vstd::prelude::*;
use tokio::runtime::Runtime;
use tokio::sync::watch::{Receiver, Sender};
use tokio_rustls::TlsAcceptor;
use crate::error::{CoreError, CoreErrorView};
use crate::server::address::{is_socket_addr, is_socket_address};
use crate::server::tls::provision_tls;
use crate::text::bytes_of;
use crate::types::{ServerConfig, ServerConfigView, ServerState, ServerStateView};

verus! {

/// The scheduler on which a server's tasks run, carried through as it came.
#[verifier::external_type_specification]
#[verifier::external_body]
pub struct ExRuntime(Runtime);

/// The sending half of a shutdown signal, carried through as it came.
#[verifier::external_type_specification]
#[verifier::external_body]
#[verifier::reject_recursive_types(T)]
pub struct ExSender<T>(Sender<T>);

/// The receiving half of a shutdown signal, carried through as it came.
#[verifier::external_type_specification]
#[verifier::external_body]
#[verifier::reject_recursive_types(T)]
pub struct ExReceiver<T>(Receiver<T>);

/// The two halves of a shutdown signal.
pub struct ShutdownChannel {
    /// The half the handle keeps.
    pub sender: Sender<()>,
    /// The half the accept loop observes.
    pub receiver: Receiver<()>,
}

/// Calls `tokio::runtime::Runtime::new`, which builds a multi-threaded
/// scheduler with its drivers. Whether that succeeds depends on the machine,
/// so nothing is claimed of the result; `None` stands for its error. Where
/// the environment names a number of worker threads that is no number, the
/// call panics; no argument decides that.
#[verifier::external_body]
pub(crate) fn new_runtime() -> (runtime: Option<Arc<Runtime>>) {
    match Runtime::new() {
        Ok(runtime) => Some(Arc::new(runtime)),
        Err(_) => None,
    }
}

/// Calls `Arc::clone`: another owner of the same scheduler.
#[verifier::external_body]
pub(crate) fn share_runtime(runtime: &Arc<Runtime>) -> (shared: Arc<Runtime>) {
    Arc::clone(runtime)
}

/// Calls `tokio::sync::watch::channel` with the unit value: a fresh signal
/// with one sender and one receiver.
#[verifier::external_body]
fn shutdown_channel() -> (channel: ShutdownChannel) {
    let (sender, receiver) = tokio::sync::watch::channel(());
    ShutdownChannel { sender, receiver }
}

/// Calls `Sender::send` with the unit value and drops the sender. The send
/// fails where every receiver is gone, which is not an error here.
#[verifier::external_body]
fn signal_shutdown(sender: Sender<()>) {
    let _ = sender.send(());
}

/// What a started server hands to whoever runs its accept loop.
pub struct ServeOrder {
    /// The address to bind.
    pub address: String,
    /// The directory beneath which files are served.
    pub static_dir: String,
    /// What terminates TLS, where the server speaks HTTPS.
    pub tls: Option<TlsAcceptor>,
    /// The signal on which the loop ends.
    pub shutdown: Receiver<()>,
    /// The scheduler on which the loop runs.
    pub runtime: Arc<Runtime>,
}

/// What a handle owned, taken apart for release. The sender comes before
/// the scheduler, which is the order in which the two are let go.
pub struct HttpResources {
    /// The sending half of the shutdown signal, where one was held.
    pub shutdown_tx: Option<Sender<()>>,
    /// The scheduler, where one was built.
    pub runtime: Option<Arc<Runtime>>,
}

/// What an accept loop reports to the handle.
#[derive(Clone, Copy, Debug, PartialEq, Eq, Structural)]
pub enum ServeEvent {
    /// The listener could not be bound.
    BindFailed,
    /// One connection could not be accepted.
    AcceptFailed,
    /// Serving ended with a fatal error.
    ServeFailed,
    /// Serving ended in good order.
    ServeEnded,
    /// The shutdown signal fired while the loop waited for a connection.
    ShutdownObserved,
}

/// What the accept loop does after an event.
#[derive(Clone, Copy, Debug, PartialEq, Eq, Structural)]
pub enum LoopVerdict {
    /// Go on accepting.
    Continue,
    /// Leave the loop.
    Exit,
}

/// A handle to one HTTP(S) server.
pub struct HttpServerState {
    inner: ServerState,
    shutdown_tx: Option<Sender<()>>,
    runtime: Option<Arc<Runtime>>,
}

/// A handle as plain values.
pub struct HttpServerView {
    /// The state record.
    pub state: ServerStateView,
    /// Whether the handle holds the sending half of a shutdown signal.
    pub armed: bool,
    /// Whether the scheduler exists.
    pub has_runtime: bool,
}

/// The configuration that a start records.
pub open spec fn config_of(address: Seq<char>, static_dir: Seq<char>, https: bool)
    -> ServerConfigView {
    ServerConfigView { address, static_dir, use_https: https, cert_path: None, key_path: None }
}

/// The handle after a successful start.
pub open spec fn started(
    pre: HttpServerView,
    address: Seq<char>,
    static_dir: Seq<char>,
    https: bool,
) -> HttpServerView {
    HttpServerView {
        state: ServerStateView {
            is_running: true,
            connected_clients: pre.state.connected_clients,
            config: Some(config_of(address, static_dir, https)),
        },
        armed: true,
        has_runtime: true,
    }
}

/// The handle after a stop. A handle that is not running is left as it is;
/// a running one is marked stopped, its clients are forgotten and its
/// sender is spent.
pub open spec fn stopped(pre: HttpServerView) -> HttpServerView {
    if pre.state.is_running {
        HttpServerView {
            state: ServerStateView {
                is_running: false,
                connected_clients: 0,
                config: pre.state.config,
            },
            armed: false,
            has_runtime: pre.has_runtime,
        }
    } else {
        pre
    }
}

/// Whether an event tells that the server no longer runs. A failed bind
/// does not: the flag then stays as the start left it until a stop.
pub open spec fn ends_service(event: ServeEvent) -> bool {
    event == ServeEvent::ServeFailed || event == ServeEvent::ShutdownObserved
}

/// The handle after an event of its accept loop.
pub open spec fn after_event(pre: HttpServerView, event: ServeEvent) -> HttpServerView {
    if ends_service(event) {
        HttpServerView {
            state: ServerStateView {
                is_running: false,
                connected_clients: pre.state.connected_clients,
                config: pre.state.config,
            },
            armed: pre.armed,
            has_runtime: pre.has_runtime,
        }
    } else {
        pre
    }
}

/// What the loop does after an event: it goes on only after a connection
/// that could not be accepted.
pub open spec fn verdict_of(event: ServeEvent) -> LoopVerdict {
    if event == ServeEvent::AcceptFailed {
        LoopVerdict::Continue
    } else {
        LoopVerdict::Exit
    }
}

/// The error with which a start is refused, if it is refused before
/// anything is provisioned.
pub open spec fn refusal(pre: HttpServerView, address: Seq<char>) -> Option<CoreErrorView> {
    if pre.state.is_running {
        Some(CoreErrorView::AlreadyRunning)
    } else if !is_socket_addr(bytes_of(address)) {
        Some(CoreErrorView::InvalidAddress(address))
    } else {
        None
    }
}

/// What a start may end in: success with the handle started and an order
/// for exactly what was asked, or an error with the handle untouched. The
/// error is the refusal where there is one, and otherwise
/// [`CoreError::Unknown`].
pub open spec fn start_outcome(
    pre: HttpServerView,
    post: HttpServerView,
    address: Seq<char>,
    static_dir: Seq<char>,
    https: bool,
    r: Result<ServeOrder, CoreError>,
) -> bool {
    match r {
        Ok(order) => {
            &&& refusal(pre, address).is_none()
            &&& post == started(pre, address, static_dir, https)
            &&& order.address@ == address
            &&& order.static_dir@ == static_dir
            &&& order.tls.is_some() == https
        },
        Err(e) => {
            &&& post == pre
            &&& e@ == match refusal(pre, address) {
                Some(why) => why,
                None => CoreErrorView::Unknown,
            }
        },
    }
}

/// A start with an address that is no socket address fails, and a server
/// that was not running is not running afterwards.
pub proof fn lemma_invalid_address_is_refused(
    pre: HttpServerView,
    post: HttpServerView,
    address: Seq<char>,
    static_dir: Seq<char>,
    https: bool,
    r: Result<ServeOrder, CoreError>,
)
    requires
        start_outcome(pre, post, address, static_dir, https, r),
        !is_socket_addr(bytes_of(address)),
    ensures
        r is Err,
        post == pre,
        !pre.state.is_running ==> !post.state.is_running && r->Err_0@
            == CoreErrorView::InvalidAddress(address),
{
}

/// After a successful start the server is marked running, with the
/// configuration that was asked for.
pub proof fn lemma_started_is_running(
    pre: HttpServerView,
    post: HttpServerView,
    address: Seq<char>,
    static_dir: Seq<char>,
    https: bool,
    r: Result<ServeOrder, CoreError>,
)
    requires
        start_outcome(pre, post, address, static_dir, https, r),
        r is Ok,
    ensures
        post.state.is_running,
        post.state.config == Some(config_of(address, static_dir, https)),
{
}

/// Stopping twice is stopping once: a second stop changes nothing, and a
/// server that was running is then not running and has no clients.
pub proof fn lemma_stop_is_idempotent(pre: HttpServerView)
    ensures
        stopped(stopped(pre)) == stopped(pre),
        !stopped(pre).state.is_running,
        pre.state.is_running ==> stopped(pre).state.connected_clients == 0,
{
}

/// Of two starts in a row on one handle at most the first succeeds: once a
/// start has succeeded, the next is refused as already running and changes
/// nothing, whatever it asks for.
pub proof fn lemma_single_winner(
    pre: HttpServerView,
    mid: HttpServerView,
    post: HttpServerView,
    first_address: Seq<char>,
    first_dir: Seq<char>,
    first_https: bool,
    first: Result<ServeOrder, CoreError>,
    second_address: Seq<char>,
    second_dir: Seq<char>,
    second_https: bool,
    second: Result<ServeOrder, CoreError>,
)
    requires
        start_outcome(pre, mid, first_address, first_dir, first_https, first),
        start_outcome(mid, post, second_address, second_dir, second_https, second),
        first is Ok,
    ensures
        second is Err,
        second->Err_0@ == CoreErrorView::AlreadyRunning,
        post == mid,
{
}

/// A stop followed by a start is a fresh start: a stopped server takes a
/// start again.
pub proof fn lemma_restart_after_stop(pre: HttpServerView, address: Seq<char>)
    requires
        is_socket_addr(bytes_of(address)),
    ensures
        refusal(stopped(pre), address).is_none(),
{
}

impl View for HttpServerState {
    type V = HttpServerView;

    closed spec fn view(&self) -> HttpServerView {
        HttpServerView {
            state: self.inner@,
            armed: self.shutdown_tx.is_some(),
            has_runtime: self.runtime.is_some(),
        }
    }
}

impl Default for HttpServerState {
    /// A handle to a server that was never started.
    fn default() -> (server: HttpServerState)
        ensures
            server.wf(),
            !server@.state.is_running,
            server@.state.connected_clients == 0,
            server@.state.config.is_none(),
            !server@.armed,
            !server@.has_runtime,
    {
        HttpServerState::new()
    }
}

impl HttpServerState {
    /// What holds of every handle: a running server has a configuration, a
    /// configuration exists exactly when the scheduler does, and a sender is
    /// only held once the scheduler exists.
    pub open spec fn wf(&self) -> bool {
        &&& self@.state.is_running ==> self@.state.config.is_some()
        &&& self@.state.config.is_some() <==> self@.has_runtime
        &&& self@.armed ==> self@.has_runtime
    }

    /// A handle to a server that was never started.
    pub fn new() -> (server: HttpServerState)
        ensures
            server.wf(),
            !server@.state.is_running,
            server@.state.connected_clients == 0,
            server@.state.config.is_none(),
            !server@.armed,
            !server@.has_runtime,
    {
        HttpServerState { inner: ServerState::default(), shutdown_tx: None, runtime: None }
    }

    /// Whether the server is believed to run.
    pub fn is_running(&self) -> (running: bool)
        ensures
            running == self@.state.is_running,
    {
        self.inner.is_running
    }

    /// How many clients are connected.
    pub fn connected_clients(&self) -> (count: usize)
        ensures
            count == self@.state.connected_clients,
    {
        self.inner.connected_clients
    }

    /// The address of the last successful start, or the empty string where
    /// the server was never started.
    pub fn get_address(&self) -> (address: String)
        ensures
            address@ == match self@.state.config {
                Some(config) => config.address,
                None => Seq::<char>::empty(),
            },
    {
        match &self.inner.config {
            Some(config) => config.address.clone(),
            None => String::new(),
        }
    }

    /// The state record.
    pub fn state(&self) -> (state: &ServerState)
        ensures
            state@ == self@.state,
    {
        &self.inner
    }

    /// Consumes the handle and hands out what it owned. Letting go of a
    /// scheduler must not happen on one of its own threads, so the caller
    /// decides where the parts are dropped.
    pub fn release(self) -> (resources: HttpResources)
        ensures
            resources.shutdown_tx.is_some() == self@.armed,
            resources.runtime.is_some() == self@.has_runtime,
    {
        HttpResources { shutdown_tx: self.shutdown_tx, runtime: self.runtime }
    }

    /// Takes in what a start has provisioned and starts the server with it:
    /// a scheduler that was built for this start, where one was, and what
    /// terminates TLS, where the server is to speak HTTPS.
    ///
    /// Refused with [`CoreError::AlreadyRunning`] while the server is marked
    /// running, and with [`CoreError::InvalidAddress`] where `address` is no
    /// socket address. Otherwise the start succeeds exactly when there is a
    /// scheduler to run on: the one the handle holds, or else the fresh one,
    /// which the handle then keeps. A fresh one that is not needed is let
    /// go unused. Without either the error is [`CoreError::Unknown`]. On success the handle is marked running,
    /// records the configuration, keeps the sender of a new shutdown signal
    /// in place of any it held, and hands out the order for the accept
    /// loop. On every error the handle is left as it was.
    pub fn adopt(
        &mut self,
        fresh: Option<Arc<Runtime>>,
        address: &str,
        static_dir: &str,
        tls: Option<TlsAcceptor>,
    ) -> (r: Result<ServeOrder, CoreError>)
        ensures
            old(self).wf() ==> final(self).wf(),
            start_outcome(old(self)@, final(self)@, address@, static_dir@, tls.is_some(), r),
            r is Ok <==> refusal(old(self)@, address@) is None && (fresh is Some || old(
                self,
            )@.has_runtime),
    {
        if self.inner.is_running {
            return Err(CoreError::AlreadyRunning);
        }
        if !is_socket_address(address) {
            return Err(CoreError::InvalidAddress(address.to_owned()));
        }
        if self.runtime.is_none() {
            match fresh {
                Some(runtime) => {
                    self.runtime = Some(runtime);
                },
                None => {
                    return Err(CoreError::Unknown);
                },
            }
        }
        let runtime = match &self.runtime {
            Some(runtime) => share_runtime(runtime),
            None => {
                return Err(CoreError::Unknown);
            },
        };
        self.inner.is_running = true;
        self.inner.config = Some(
            ServerConfig {
                address: address.to_owned(),
                static_dir: static_dir.to_owned(),
                use_https: tls.is_some(),
                cert_path: None,
                key_path: None,
            },
        );
        let channel = shutdown_channel();
        self.shutdown_tx = Some(channel.sender);
        Ok(
            ServeOrder {
                address: address.to_owned(),
                static_dir: static_dir.to_owned(),
                tls,
                shutdown: channel.receiver,
                runtime,
            },
        )
    }

    /// A scheduler for a start, built only where the handle holds none.
    fn fresh_scheduler(&self) -> (fresh: Option<Arc<Runtime>>)
        ensures
            self@.has_runtime ==> fresh is None,
    {
        if self.runtime.is_none() {
            new_runtime()
        } else {
            None
        }
    }

    /// Starts the server on plain HTTP.
    ///
    /// Refused with [`CoreError::AlreadyRunning`] while the server is marked
    /// running, and with [`CoreError::InvalidAddress`] where `address` is no
    /// socket address. The scheduler is built on the first start; where that
    /// fails the error is [`CoreError::Unknown`]. Whether `static_dir`
    /// exists is not looked at. On success the handle is marked running
    /// before anything is bound, and the order for the accept loop is
    /// returned. On every error the handle is left as it was. What follows
    /// from the scheduler that was built is [`HttpServerState::adopt`].
    pub fn start(&mut self, address: &str, static_dir: &str) -> (r: Result<ServeOrder, CoreError>)
        ensures
            old(self).wf() ==> final(self).wf(),
            start_outcome(old(self)@, final(self)@, address@, static_dir@, false, r),
            refusal(old(self)@, address@).is_none() && old(self)@.has_runtime ==> r is Ok,
    {
        if self.inner.is_running {
            return Err(CoreError::AlreadyRunning);
        }
        if !is_socket_address(address) {
            return Err(CoreError::InvalidAddress(address.to_owned()));
        }
        let fresh = self.fresh_scheduler();
        self.adopt(fresh, address, static_dir, None)
    }

    /// Starts the server on HTTPS with a fresh self-signed certificate for
    /// `localhost`.
    ///
    /// Refused as [`HttpServerState::start`] is. TLS is provisioned before
    /// the scheduler is built and before the handle is marked running;
    /// where either fails the error is [`CoreError::Unknown`] and the handle
    /// is left as it was. What follows once both are at hand is
    /// [`HttpServerState::adopt`].
    pub fn start_https(&mut self, address: &str, static_dir: &str) -> (r: Result<
        ServeOrder,
        CoreError,
    >)
        ensures
            old(self).wf() ==> final(self).wf(),
            start_outcome(old(self)@, final(self)@, address@, static_dir@, true, r),
    {
        if self.inner.is_running {
            return Err(CoreError::AlreadyRunning);
        }
        if !is_socket_address(address) {
            return Err(CoreError::InvalidAddress(address.to_owned()));
        }
        match provision_tls() {
            Ok(acceptor) => {
                let fresh = self.fresh_scheduler();
                self.adopt(fresh, address, static_dir, Some(acceptor))
            },
            Err(e) => Err(e),
        }
    }

    /// Asks the server to stop. Nothing happens to a server that is not
    /// marked running. Otherwise the shutdown signal is sent, if the sender
    /// is still held, and the handle is marked stopped with no clients,
    /// whether or not the accept loop has seen the signal yet.
    pub fn stop(&mut self)
        ensures
            old(self).wf() ==> final(self).wf(),
            final(self)@ == stopped(old(self)@),
    {
        if !self.inner.is_running {
            return ;
        }
        match self.shutdown_tx.take() {
            Some(sender) => {
                signal_shutdown(sender);
            },
            None => {},
        }
        self.inner.is_running = false;
        self.inner.connected_clients = 0;
    }

    /// Takes in what the accept loop reports and tells it how to go on. A
    /// fatal serve error and an observed shutdown mark the server stopped;
    /// every other event leaves the handle as it is.
    pub fn on_event(&mut self, event: ServeEvent) -> (verdict: LoopVerdict)
        ensures
            old(self).wf() ==> final(self).wf(),
            final(self)@ == after_event(old(self)@, event),
            verdict == verdict_of(event),
    {
        match event {
            ServeEvent::ServeFailed | ServeEvent::ShutdownObserved => {
                self.inner.is_running = false;
                LoopVerdict::Exit
            },
            ServeEvent::AcceptFailed => LoopVerdict::Continue,
            ServeEvent::BindFailed | ServeEvent::ServeEnded => LoopVerdict::Exit,
        }
    }
}

} // verus!
