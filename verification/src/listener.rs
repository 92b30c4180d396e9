//! The external listener: a second way in for plugins.
//!
//! A Unix-domain socket at a path of the caller's choice accepts raw
//! connections; each accepted descriptor is handed to a callback. This
//! module decides; the caller touches the filesystem and the socket.

use vstd::prelude::*;
use vstd::string::StringExecFns;

use crate::error::Error;

verus! {

/// Permissions of every directory created on the way to the socket.
pub const SOCKET_DIR_MODE: u32 = 0o700;

/// Permissions of the socket itself.
pub const SOCKET_FILE_MODE: u32 = 0o600;

/// The external listener service; `L` is the type of a listening socket.
/// There is one listener at most.
pub struct ExternalService<L> {
    listener: Option<L>,
}

impl<L> View for ExternalService<L> {
    type V = Option<L>;

    closed spec fn view(&self) -> Option<L> {
        self.listener
    }
}

impl<L> ExternalService<L> {
    /// A service that has not been started.
    pub fn new() -> (s: Self)
        ensures
            s@ is None,
    {
        ExternalService { listener: None }
    }

    /// Whether the service is started.
    pub fn is_started(&self) -> (b: bool)
        ensures
            b == (self@ is Some),
    {
        self.listener.is_some()
    }

    /// The listening socket, while the service is started.
    pub fn listener(&self) -> (l: Option<&L>)
        ensures
            l is Some <==> self@ is Some,
            l matches Some(s) ==> *s == self@->Some_0,
    {
        self.listener.as_ref()
    }
}

/// Why [`external_service_start`] refuses before it does anything, if it
/// does.
pub open spec fn start_refusal<L>(service: Option<L>, callback_set: bool) -> Option<
    crate::error::ErrorKind,
> {
    if service is Some {
        Some(crate::error::ErrorKind::AlreadyStarted)
    } else if !callback_set {
        Some(crate::error::ErrorKind::InvalidArgument)
    } else {
        None
    }
}

/// What [`external_service_start`] makes of the service and returns, once
/// it is known what the caller's set-up came to.
pub open spec fn start_outcome<L>(bound: Result<L, Error>) -> (Option<L>, Result<(), Error>) {
    match bound {
        Ok(listener) => (Some(listener), Ok(())),
        Err(e) => (None, Err(e)),
    }
}

/// Starts the external listener.
///
/// Refused, with nothing done: `AlreadyStarted` when the service is
/// started; otherwise `InvalidArgument` when no callback is given. A
/// refusal leaves `listen` uncalled, which need not even be callable then,
/// so that the socket of a running listener is never touched.
/// Otherwise `listen` is called with the callback. It clears a stale socket
/// (see [`remove_socket_file`]), creates the parent directories with
/// [`SOCKET_DIR_MODE`], binds, sets [`SOCKET_FILE_MODE`] on the socket,
/// starts accepting (see [`accept_step`]) and returns the listening socket,
/// which the service keeps. If `listen` fails, its error is returned as it
/// is and the service stays stopped.
pub fn external_service_start<L, K, F>(
    service: &mut ExternalService<L>,
    callback: Option<K>,
    listen: F,
) -> (r: Result<(), Error>) where F: FnOnce(K) -> Result<L, Error>
    requires
        start_refusal(old(service)@, callback is Some) is None ==> call_requires(
            listen,
            (callback->Some_0,),
        ),
    ensures
        match start_refusal(old(service)@, callback is Some) {
            Some(kind) => r is Err && r->Err_0.spec_kind() == kind && final(service)@ == old(
                service,
            )@,
            None => exists|bound: Result<L, Error>| #[trigger]
                call_ensures(listen, (callback->Some_0,), bound) && (final(service)@, r)
                    == start_outcome(bound),
        },
{
    if service.listener.is_some() {
        return Err(Error::AlreadyStarted("external service already started".to_string()));
    }
    match callback {
        None => Err(Error::InvalidArgument("external service callback not set".to_string())),
        Some(k) => {
            let bound = listen(k);
            match bound {
                Ok(listener) => {
                    service.listener = Some(listener);
                    Ok(())
                },
                Err(e) => Err(e),
            }
        },
    }
}

/// Stops the external listener.
///
/// Returns the listening socket for the caller to shut down, which ends
/// the accept loop. On a stopped service returns `None` and does nothing.
pub fn external_service_shutdown<L>(service: &mut ExternalService<L>) -> (r: Option<L>)
    ensures
        r == old(service)@,
        final(service)@ is None,
{
    service.listener.take()
}

/// What is found at the path where the socket is to be.
#[derive(Debug)]
pub enum SocketPath {
    /// Nothing.
    Missing,
    /// A socket, left over from an earlier run.
    Socket,
    /// Something that is not a socket.
    NotSocket,
    /// The path could not be examined, for the reason given.
    Unreadable(String),
}

/// What [`remove_socket_file`] returns when nothing is to be removed.
pub open spec fn kept(socket_addr: Seq<char>, found: SocketPath, r: Result<(), Error>) -> bool {
    match found {
        SocketPath::Missing => r is Ok,
        SocketPath::NotSocket => r is Err && r->Err_0 is InvalidArgument
            && r->Err_0.spec_message() == socket_addr + " is not a socket file"@,
        SocketPath::Unreadable(cause) => r is Err && r->Err_0 is IOError
            && r->Err_0.spec_message() == cause@,
        SocketPath::Socket => false,
    }
}

/// What [`remove_socket_file`] returns when the removal came to `removed`.
pub open spec fn cleared(removed: Result<(), String>, r: Result<(), Error>) -> bool {
    match removed {
        Ok(_) => r is Ok,
        Err(cause) => r is Err && r->Err_0 is IOError && r->Err_0.spec_message() == cause@,
    }
}

/// Clears the path of the socket.
///
/// A socket found there is removed, by one call of `remove`; if that fails
/// the result is `IOError` with the cause. Nothing there is fine. Anything
/// else there is left alone and reported as `InvalidArgument`; a path that
/// could not be examined as `IOError`. Only for a socket is `remove`
/// called; in the other cases it need not even be callable.
pub fn remove_socket_file<F>(socket_addr: &str, found: SocketPath, remove: F) -> (r: Result<
    (),
    Error,
>) where F: FnOnce() -> Result<(), String>
    requires
        found is Socket ==> call_requires(remove, ()),
    ensures
        found is Socket ==> exists|removed: Result<(), String>| #[trigger]
            call_ensures(remove, (), removed) && cleared(removed, r),
        !(found is Socket) ==> kept(socket_addr@, found, r),
{
    match found {
        SocketPath::Missing => Ok(()),
        SocketPath::Socket => {
            let removed = remove();
            match removed {
                Ok(_) => {
                    assert(cleared(removed, Ok(())));
                    Ok(())
                },
                Err(cause) => {
                    let e = Error::IOError(cause);
                    assert(cleared(removed, Err(e)));
                    Err(e)
                },
            }
        },
        SocketPath::NotSocket => Err(
            Error::InvalidArgument(socket_addr.to_string().concat(" is not a socket file")),
        ),
        SocketPath::Unreadable(cause) => Err(Error::IOError(cause)),
    }
}

/// What the accept loop observed.
#[derive(Clone, Copy, Debug, PartialEq, Eq, Structural)]
pub enum AcceptEvent {
    /// A connection was accepted and the callback, given its descriptor,
    /// returned this status.
    Handled(i32),
    /// Accepting failed: the listening socket was shut down.
    Failed,
}

/// What the accept loop has to do next.
#[derive(Clone, Copy, Debug, PartialEq, Eq, Structural)]
pub enum AcceptAction {
    /// The callback took the descriptor. Accept the next connection.
    Keep,
    /// The callback refused the descriptor. Close it, then accept the next
    /// connection.
    Close,
    /// Leave the loop.
    Exit,
}

/// What [`accept_step`] answers: only a failure to accept ends the loop; a
/// callback that returns non-zero costs that one connection.
pub open spec fn accept_action(event: AcceptEvent) -> AcceptAction {
    match event {
        AcceptEvent::Handled(status) => if status == 0 {
            AcceptAction::Keep
        } else {
            AcceptAction::Close
        },
        AcceptEvent::Failed => AcceptAction::Exit,
    }
}

/// One step of the accept loop.
pub fn accept_step(event: AcceptEvent) -> (action: AcceptAction)
    ensures
        action == accept_action(event),
{
    match event {
        AcceptEvent::Handled(status) => {
            if status == 0 {
                AcceptAction::Keep
            } else {
                AcceptAction::Close
            }
        },
        AcceptEvent::Failed => AcceptAction::Exit,
    }
}

} // verus!
