//! Decisions of the sandbox controller client: when to connect, and what to
//! do when waiting for a sandbox to exit fails.

use vstd::prelude::*;

verus! {

/// Seconds between two probes of a lost connection.
pub const RETRY_INTERVAL: u64 = 5;

/// Status code of a call that named an unknown sandbox.
pub const CODE_NOT_FOUND: u32 = 5;

/// Status code of a call that could not reach the controller.
pub const CODE_UNAVAILABLE: u32 = 14;

/// A sandbox controller and the client that talks to it. The client, of
/// type `C`, is made when it is first needed.
pub struct ControllerContext<C> {
    sandboxer: String,
    address: String,
    client: Option<C>,
}

/// Mathematical value of a [`ControllerContext`].
pub ghost struct ControllerView<C> {
    pub sandboxer: Seq<char>,
    pub address: Seq<char>,
    pub client: Option<C>,
}

impl<C> View for ControllerContext<C> {
    type V = ControllerView<C>;

    closed spec fn view(&self) -> ControllerView<C> {
        ControllerView { sandboxer: self.sandboxer@, address: self.address@, client: self.client }
    }
}

/// The client that a context holds once `connect` came to `made`.
pub open spec fn client_after<C>(made: Result<C, String>) -> Option<C> {
    match made {
        Ok(client) => Some(client),
        Err(_) => None,
    }
}

impl<C> ControllerContext<C> {
    /// A context for the controller `sandboxer` at `address`, without a
    /// client yet.
    pub fn new(sandboxer: String, address: String) -> (c: Self)
        ensures
            c@ == (ControllerView { sandboxer: sandboxer@, address: address@, client: None::<C> }),
    {
        ControllerContext { sandboxer, address, client: None }
    }

    /// The name of the controller.
    pub fn sandboxer(&self) -> (s: &String)
        ensures
            s@ == self@.sandboxer,
    {
        &self.sandboxer
    }

    /// The address of the controller.
    pub fn address(&self) -> (s: &String)
        ensures
            s@ == self@.address,
    {
        &self.address
    }

    /// The client, made now if there is none yet.
    ///
    /// A context that has a client keeps it: `connect` is not called, and
    /// need not even be callable then. A context without one calls
    /// `connect` with its address; the client it
    /// returns is kept, and if it fails the context stays without a client
    /// and `None` is returned.
    pub fn get_client<F>(&mut self, connect: F) -> (r: Option<&C>) where
        F: FnOnce(&String) -> Result<C, String>,

        requires
            old(self)@.client is None ==> forall|address: &String|
                address@ == old(self)@.address ==> call_requires(connect, (address,)),
        ensures
            final(self)@.sandboxer == old(self)@.sandboxer,
            final(self)@.address == old(self)@.address,
            old(self)@.client is Some ==> final(self)@.client == old(self)@.client,
            old(self)@.client is None ==> exists|address: &String, made: Result<C, String>|
                address@ == old(self)@.address && #[trigger] call_ensures(
                    connect,
                    (address,),
                    made,
                ) && final(self)@.client == client_after(made),
            r is Some <==> final(self)@.client is Some,
            r matches Some(c) ==> *c == final(self)@.client->Some_0,
    {
        if self.client.is_none() {
            let made = connect(&self.address);
            match made {
                Ok(client) => {
                    self.client = Some(client);
                },
                Err(_) => {},
            }
        }
        self.client.as_ref()
    }
}

/// How a call that waits for a sandbox to exit ended.
#[derive(Clone, Copy, Debug, PartialEq, Eq, Structural)]
pub enum WaitEvent {
    /// The controller answered: the sandbox has exited.
    Exited,
    /// The call failed with this status code; `broken_pipe` says whether
    /// the failure names a broken pipe.
    Failed { code: u32, broken_pipe: bool },
}

/// Why a wait is reported as a failed exit.
#[derive(Clone, Copy, Debug, PartialEq, Eq, Structural)]
pub enum WaitFailure {
    /// The controller does not know the sandbox.
    NotFound,
    /// The connection failed in some other way.
    ConnectionFailed,
}

/// What to do when a wait has ended.
#[derive(Clone, Copy, Debug, PartialEq, Eq, Structural)]
pub enum WaitAction {
    /// Report the exit that the controller announced.
    ReportExit,
    /// The controller is out of reach: report the sandbox as pending,
    /// recover the connection (see [`recover_step`]), and wait again.
    ReportPending,
    /// Report an exit with this status, at the present time.
    ReportFailedExit { exit_status: u32, failure: WaitFailure },
}

/// What [`wait_step`] answers. A broken pipe counts as an unreachable
/// controller whatever the status code says.
pub open spec fn wait_action(event: WaitEvent) -> WaitAction {
    match event {
        WaitEvent::Exited => WaitAction::ReportExit,
        WaitEvent::Failed { code, broken_pipe } => if broken_pipe || code == CODE_UNAVAILABLE {
            WaitAction::ReportPending
        } else if code == CODE_NOT_FOUND {
            WaitAction::ReportFailedExit { exit_status: code, failure: WaitFailure::NotFound }
        } else {
            WaitAction::ReportFailedExit {
                exit_status: code,
                failure: WaitFailure::ConnectionFailed,
            }
        },
    }
}

/// Decides what follows a wait.
pub fn wait_step(event: WaitEvent) -> (action: WaitAction)
    ensures
        action == wait_action(event),
{
    match event {
        WaitEvent::Exited => WaitAction::ReportExit,
        WaitEvent::Failed { code, broken_pipe } => {
            if broken_pipe || code == CODE_UNAVAILABLE {
                WaitAction::ReportPending
            } else if code == CODE_NOT_FOUND {
                WaitAction::ReportFailedExit { exit_status: code, failure: WaitFailure::NotFound }
            } else {
                WaitAction::ReportFailedExit {
                    exit_status: code,
                    failure: WaitFailure::ConnectionFailed,
                }
            }
        },
    }
}

/// What a waiter observed while the connection is being recovered.
#[derive(Clone, Copy, Debug, PartialEq, Eq, Structural)]
pub enum RecoverEvent {
    /// Recovery begins; `prober` says whether this waiter got hold of the
    /// retry lock and so is the one that probes.
    Begin { prober: bool },
    /// The prober has slept and probed; `alive` says whether the controller
    /// answered.
    Probed { alive: bool },
    /// The retry lock came free: the prober has finished.
    ProberDone,
}

/// What a waiter has to do next while the connection is being recovered.
#[derive(Clone, Copy, Debug, PartialEq, Eq, Structural)]
pub enum RecoverAction {
    /// Sleep this many seconds, probe the controller, report `Probed`.
    SleepThenProbe(u64),
    /// Block until the retry lock comes free, report `ProberDone`.
    AwaitProber,
    /// The connection is back: report the sandbox as ready and wait again.
    Resume,
}

/// What [`recover_step`] answers: one waiter probes, every
/// [`RETRY_INTERVAL`] seconds until the controller answers; the others
/// wait for it to finish.
pub open spec fn recover_action(event: RecoverEvent) -> RecoverAction {
    match event {
        RecoverEvent::Begin { prober } => if prober {
            RecoverAction::SleepThenProbe(RETRY_INTERVAL)
        } else {
            RecoverAction::AwaitProber
        },
        RecoverEvent::Probed { alive } => if alive {
            RecoverAction::Resume
        } else {
            RecoverAction::SleepThenProbe(RETRY_INTERVAL)
        },
        RecoverEvent::ProberDone => RecoverAction::Resume,
    }
}

/// One step of recovering a lost connection.
pub fn recover_step(event: RecoverEvent) -> (action: RecoverAction)
    ensures
        action == recover_action(event),
{
    match event {
        RecoverEvent::Begin { prober } => {
            if prober {
                RecoverAction::SleepThenProbe(RETRY_INTERVAL)
            } else {
                RecoverAction::AwaitProber
            }
        },
        RecoverEvent::Probed { alive } => {
            if alive {
                RecoverAction::Resume
            } else {
                RecoverAction::SleepThenProbe(RETRY_INTERVAL)
            }
        },
        RecoverEvent::ProberDone => RecoverAction::Resume,
    }
}

} // verus!
