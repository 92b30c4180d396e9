//! The multiplexer: one trunk, many logical connections, one close latch.
//!
//! A [`Mux`] performs no I/O. The caller reads and writes the streams and
//! tells the mux what happened; the mux answers with what to do next.
//!
//! * Trunk to connections: [`Mux::trunk_reader`] starts the demultiplexing
//!   loop and [`Mux::trunk_step`] advances it, one [`TrunkEvent`] at a time.
//! * Connection to trunk: [`conn_reader`] turns each read from a local
//!   endpoint into at most one frame for the trunk.
//!
//! Life of a mux: `Idle`, then reading (`AwaitHeader`, `AwaitPayload`,
//! `Delivering`), then `Closed`, which is final. Closing hands every stream
//! of the mux to the caller, the trunk included: a closed mux holds none,
//! so that no stream can be shut down twice.

use vstd::prelude::*;

use crate::error::{Error, ErrorKind};
use crate::frame::{
    decode_header, encode, frame_bytes, header_conn_id, header_length, ConnId, MAX_PAYLOAD_LEN,
    RESERVED_CONN_ID,
};
use crate::registry::{ConnRegistry, RegistryView};

verus! {

/// Where a mux stands in its life.
#[derive(Clone, Copy, Debug, PartialEq, Eq, Structural)]
pub enum Phase {
    /// Open; the trunk reader has not been started.
    Idle,
    /// Reading; the next thing on the trunk is a header.
    AwaitHeader,
    /// Reading; a header announced `length` payload bytes for `conn_id`.
    AwaitPayload { conn_id: ConnId, length: u32 },
    /// Reading; a payload is being written to a local endpoint.
    Delivering,
    /// Torn down. Nothing leaves this phase.
    Closed,
}

/// What the trunk reader observed.
#[derive(Debug)]
pub enum TrunkEvent {
    /// Eight header bytes were read from the trunk.
    Header([u8; 8]),
    /// The announced payload bytes were read from the trunk.
    Payload(Vec<u8>),
    /// The payload was written to its local endpoint.
    Delivered,
    /// Reading from the trunk failed or hit the end of the stream.
    ReadFailed,
    /// Writing to a local endpoint failed.
    WriteFailed,
}

/// Mathematical value of a [`TrunkEvent`].
pub ghost enum TrunkEventView {
    Header(Seq<u8>),
    Payload(Seq<u8>),
    Delivered,
    ReadFailed,
    WriteFailed,
}

impl View for TrunkEvent {
    type V = TrunkEventView;

    open spec fn view(&self) -> TrunkEventView {
        match self {
            TrunkEvent::Header(h) => TrunkEventView::Header(h@),
            TrunkEvent::Payload(p) => TrunkEventView::Payload(p@),
            TrunkEvent::Delivered => TrunkEventView::Delivered,
            TrunkEvent::ReadFailed => TrunkEventView::ReadFailed,
            TrunkEvent::WriteFailed => TrunkEventView::WriteFailed,
        }
    }
}

/// The streams of a mux that has just closed. Whoever is handed them shuts
/// them down, both directions each: the local endpoints first, oldest
/// first, then the trunk.
#[derive(Debug)]
pub struct Teardown<E> {
    pub endpoints: Vec<E>,
    pub trunk: E,
}

/// Mathematical value of a [`Teardown`].
pub ghost struct TeardownView<E> {
    pub endpoints: Seq<E>,
    pub trunk: E,
}

impl<E> View for Teardown<E> {
    type V = TeardownView<E>;

    open spec fn view(&self) -> TeardownView<E> {
        TeardownView { endpoints: self.endpoints@, trunk: self.trunk }
    }
}

/// What the trunk reader has to do next.
#[derive(Debug)]
pub enum TrunkAction<E> {
    /// Read exactly eight bytes from the trunk, then report `Header`.
    ReadHeader,
    /// Read exactly this many bytes from the trunk, then report `Payload`.
    ReadPayload(u32),
    /// Write `payload` to the endpoint registered under `conn_id`, then
    /// report `Delivered` or `WriteFailed`.
    Deliver { conn_id: ConnId, payload: Vec<u8> },
    /// The mux has just closed. Shut down its streams and leave the loop.
    Teardown(Teardown<E>),
    /// Leave the loop; there is nothing to tear down.
    Stop,
}

/// Mathematical value of a [`TrunkAction`].
pub ghost enum TrunkActionView<E> {
    ReadHeader,
    ReadPayload(u32),
    Deliver { conn_id: ConnId, payload: Seq<u8> },
    Teardown(TeardownView<E>),
    Stop,
}

impl<E> View for TrunkAction<E> {
    type V = TrunkActionView<E>;

    open spec fn view(&self) -> TrunkActionView<E> {
        match self {
            TrunkAction::ReadHeader => TrunkActionView::ReadHeader,
            TrunkAction::ReadPayload(n) => TrunkActionView::ReadPayload(*n),
            TrunkAction::Deliver { conn_id, payload } => TrunkActionView::Deliver {
                conn_id: *conn_id,
                payload: payload@,
            },
            TrunkAction::Teardown(streams) => TrunkActionView::Teardown(streams@),
            TrunkAction::Stop => TrunkActionView::Stop,
        }
    }
}

/// Why [`Mux::add_conn`] refuses, if it does.
pub open spec fn add_conn_refusal<E>(m: MuxView<E>, id: ConnId) -> Option<ErrorKind> {
    if id == RESERVED_CONN_ID {
        Some(ErrorKind::InvalidArgument)
    } else if m.phase is Closed {
        Some(ErrorKind::Other)
    } else if m.conns.contains(id) {
        Some(ErrorKind::InvalidArgument)
    } else {
        None
    }
}

/// Mathematical value of a [`Mux`].
pub ghost struct MuxView<E> {
    /// The trunk stream, until the mux is closed.
    pub trunk: Option<E>,
    /// The registered connections.
    pub conns: RegistryView<E>,
    /// Where the mux stands in its life.
    pub phase: Phase,
}

impl<E> MuxView<E> {
    /// The registry is valid, an open mux holds its trunk, and a closed mux
    /// holds no stream at all.
    pub open spec fn valid(self) -> bool {
        &&& self.conns.valid()
        &&& self.phase is Closed <==> self.trunk is None
        &&& self.phase is Closed ==> self.conns == RegistryView::<E>::empty()
    }

    /// A fresh mux around `trunk`.
    pub open spec fn fresh(trunk: E) -> Self {
        MuxView { trunk: Some(trunk), conns: RegistryView::empty(), phase: Phase::Idle }
    }

    /// The streams of the mux: what closing it hands out.
    pub open spec fn streams(self) -> TeardownView<E>
        recommends
            self.trunk is Some,
    {
        TeardownView { endpoints: self.conns.endpoints(), trunk: self.trunk->Some_0 }
    }

    /// Whether the mux has been closed.
    pub open spec fn is_closed(self) -> bool {
        self.phase is Closed
    }

    /// The mux after `endpoint` was registered under `id`.
    pub open spec fn add_conn(self, id: ConnId, endpoint: E) -> Self {
        if add_conn_refusal(self, id) is None {
            MuxView { conns: self.conns.add(id, endpoint), ..self }
        } else {
            self
        }
    }

    /// The closed mux.
    pub open spec fn closed() -> Self {
        MuxView { trunk: None, conns: RegistryView::empty(), phase: Phase::Closed }
    }

    /// The mux after a call of `close`, and what that call hands out.
    pub open spec fn close(self) -> (Self, Option<TeardownView<E>>) {
        if self.phase is Closed {
            (self, None)
        } else {
            (Self::closed(), Some(self.streams()))
        }
    }

    /// The mux after a call of `trunk_reader`, and what that call answers.
    pub open spec fn start(self) -> (Self, TrunkActionView<E>) {
        if self.phase is Idle {
            (MuxView { phase: Phase::AwaitHeader, ..self }, TrunkActionView::ReadHeader)
        } else {
            (self, TrunkActionView::Stop)
        }
    }

    /// The mux after the trunk reader closed it on a failure.
    pub open spec fn fail(self) -> (Self, TrunkActionView<E>) {
        (Self::closed(), TrunkActionView::Teardown(self.streams()))
    }

    /// The mux after one event of the trunk reader, and what it answers.
    ///
    /// A closed mux answers `Stop` to everything. An open mux follows the
    /// frame cycle header, payload, delivery; a frame for an unregistered
    /// connection is dropped and the cycle goes on. A failure, or an event
    /// that the current phase does not expect, closes the mux.
    pub open spec fn step(self, event: TrunkEventView) -> (Self, TrunkActionView<E>) {
        match (self.phase, event) {
            (Phase::Closed, _) => (self, TrunkActionView::Stop),
            (Phase::AwaitHeader, TrunkEventView::Header(h)) => if h.len() == 8 {
                (
                    MuxView {
                        phase: Phase::AwaitPayload {
                            conn_id: header_conn_id(h),
                            length: header_length(h),
                        },
                        ..self
                    },
                    TrunkActionView::ReadPayload(header_length(h)),
                )
            } else {
                self.fail()
            },
            (Phase::AwaitPayload { conn_id, length }, TrunkEventView::Payload(p)) => if p.len()
                != length {
                self.fail()
            } else if self.conns.contains(conn_id) {
                (
                    MuxView { phase: Phase::Delivering, ..self },
                    TrunkActionView::Deliver { conn_id, payload: p },
                )
            } else {
                (MuxView { phase: Phase::AwaitHeader, ..self }, TrunkActionView::ReadHeader)
            },
            (Phase::Delivering, TrunkEventView::Delivered) => (
                MuxView { phase: Phase::AwaitHeader, ..self },
                TrunkActionView::ReadHeader,
            ),
            _ => self.fail(),
        }
    }
}

/// Every operation keeps a valid mux valid.
pub proof fn lemma_operations_keep_valid<E>(
    m: MuxView<E>,
    id: ConnId,
    endpoint: E,
    event: TrunkEventView,
)
    requires
        m.valid(),
    ensures
        m.add_conn(id, endpoint).valid(),
        m.close().0.valid(),
        m.start().0.valid(),
        m.step(event).0.valid(),
{
    if add_conn_refusal(m, id) is None {
        crate::registry::lemma_add_keeps_valid(m.conns, id, endpoint);
    }
}

/// The reserved identifier zero is refused with `InvalidArgument` in every
/// state, the mux stays as it was, and no step of the trunk reader ever
/// delivers a payload to connection zero.
pub proof fn lemma_zero_is_refused_and_never_served<E>(
    m: MuxView<E>,
    endpoint: E,
    event: TrunkEventView,
)
    requires
        m.valid(),
    ensures
        add_conn_refusal(m, RESERVED_CONN_ID) == Some(ErrorKind::InvalidArgument),
        m.add_conn(RESERVED_CONN_ID, endpoint) == m,
        !m.conns.contains(RESERVED_CONN_ID),
        m.step(event).1 matches TrunkActionView::Deliver { conn_id, .. } ==> conn_id
            != RESERVED_CONN_ID,
{
}

/// Registering an identifier a second time is refused with
/// `InvalidArgument`, and the first registration stays exactly as it was.
pub proof fn lemma_duplicate_is_refused<E>(m: MuxView<E>, id: ConnId, first: E, second: E)
    requires
        m.valid(),
        add_conn_refusal(m, id) is None,
    ensures
        add_conn_refusal(m.add_conn(id, first), id) == Some(
            ErrorKind::InvalidArgument,
        ),
        m.add_conn(id, first).add_conn(id, second) == m.add_conn(id, first),
        m.add_conn(id, first).conns.entries[id] == first,
{
}

/// The mux after `n` calls of `close` in a row.
pub open spec fn close_repeatedly<E>(m: MuxView<E>, n: nat) -> MuxView<E>
    decreases n,
{
    if n == 0 {
        m
    } else {
        close_repeatedly(m.close().0, (n - 1) as nat)
    }
}

/// How many of `n` calls of `close` in a row hand out a teardown.
pub open spec fn teardown_count<E>(m: MuxView<E>, n: nat) -> nat
    decreases n,
{
    if n == 0 {
        0
    } else {
        (if m.close().1 is Some {
            1nat
        } else {
            0nat
        }) + teardown_count(m.close().0, (n - 1) as nat)
    }
}

/// However often `close` is called, exactly one call tears an open mux
/// down, none a closed one, and the mux ends up closed: a second call
/// returns `None` and changes nothing.
pub proof fn lemma_close_is_idempotent<E>(m: MuxView<E>, n: nat)
    requires
        n > 0,
    ensures
        m.close().0.close() == (m.close().0, None::<TeardownView<E>>),
        close_repeatedly(m, n) == m.close().0,
        close_repeatedly(m, n).is_closed(),
        teardown_count(m, n) == (if m.is_closed() {
            0nat
        } else {
            1nat
        }),
    decreases n,
{
    if n > 1 {
        lemma_close_is_idempotent(m.close().0, (n - 1) as nat);
    } else {
        assert(close_repeatedly(m.close().0, 0) == m.close().0);
        assert(teardown_count(m.close().0, 0) == 0);
    }
}

/// A frame addressed to an unregistered connection is dropped: after its
/// header and its payload the reader is asked for the next header, and the
/// mux is exactly as it was before the frame, open and reading.
pub proof fn lemma_unknown_connection_is_dropped<E>(
    m: MuxView<E>,
    header: Seq<u8>,
    payload: Seq<u8>,
)
    requires
        m.valid(),
        m.phase is AwaitHeader,
        header.len() == 8,
        payload.len() == header_length(header),
        !m.conns.contains(header_conn_id(header)),
    ensures
        m.step(TrunkEventView::Header(header)).1 == TrunkActionView::<E>::ReadPayload(
            header_length(header),
        ),
        m.step(TrunkEventView::Header(header)).0.step(TrunkEventView::Payload(payload)) == (
            m,
            TrunkActionView::<E>::ReadHeader,
        ),
{
}

/// A failure on the trunk or on a local endpoint closes an open mux, and
/// the reader is handed every stream of the mux for teardown: each
/// registered endpoint, and the trunk.
pub proof fn lemma_failure_closes<E>(m: MuxView<E>)
    requires
        m.valid(),
        !m.is_closed(),
    ensures
        m.step(TrunkEventView::ReadFailed) == (
            MuxView::<E>::closed(),
            TrunkActionView::Teardown(m.streams()),
        ),
        m.step(TrunkEventView::WriteFailed) == (
            MuxView::<E>::closed(),
            TrunkActionView::Teardown(m.streams()),
        ),
        m.streams().endpoints == m.conns.endpoints(),
        m.trunk == Some(m.streams().trunk),
{
}

/// Closed is final: whatever is asked of a closed mux, it stays exactly as
/// it is, registers nothing, and hands out nothing to tear down, for it
/// holds no stream.
pub proof fn lemma_closed_is_final<E>(
    m: MuxView<E>,
    id: ConnId,
    endpoint: E,
    event: TrunkEventView,
)
    requires
        m.valid(),
        m.is_closed(),
    ensures
        add_conn_refusal(m, id) is Some,
        m.add_conn(id, endpoint) == m,
        m == MuxView::<E>::closed(),
        m.close() == (m, None::<TeardownView<E>>),
        m.start() == (m, TrunkActionView::<E>::Stop),
        m.step(event) == (m, TrunkActionView::<E>::Stop),
{
}

/// Forwards frames between one trunk stream and the local endpoints of its
/// logical connections. `E` is the type of a stream handle.
pub struct Mux<E> {
    trunk: Option<E>,
    conns: ConnRegistry<E>,
    phase: Phase,
}

impl<E> View for Mux<E> {
    type V = MuxView<E>;

    closed spec fn view(&self) -> MuxView<E> {
        MuxView { trunk: self.trunk, conns: self.conns@, phase: self.phase }
    }
}

impl<E> Mux<E> {
    #[verifier::type_invariant]
    spec fn well_formed(self) -> bool {
        self@.valid()
    }

    /// A mux around `trunk`: open, without connections, reader not started.
    pub fn new(trunk: E) -> (m: Mux<E>)
        ensures
            m@ == MuxView::fresh(trunk),
            m@.valid(),
    {
        Mux { trunk: Some(trunk), conns: ConnRegistry::new(), phase: Phase::Idle }
    }

    /// The trunk stream; a closed mux has none.
    pub fn trunk(&self) -> (t: Option<&E>)
        ensures
            self@.valid(),
            t is Some <==> !self@.is_closed(),
            t matches Some(e) ==> self@.trunk == Some(*e),
    {
        proof {
            use_type_invariant(self);
        }
        self.trunk.as_ref()
    }

    /// Where the mux stands in its life.
    pub fn phase(&self) -> (p: Phase)
        ensures
            p == self@.phase,
    {
        self.phase
    }

    /// Whether the mux has been closed.
    pub fn is_closed(&self) -> (b: bool)
        ensures
            b == self@.is_closed(),
    {
        match self.phase {
            Phase::Closed => true,
            _ => false,
        }
    }

    /// The endpoint registered under `id`, if there is one.
    pub fn get(&self, id: ConnId) -> (r: Option<&E>)
        ensures
            self@.valid(),
            r is Some <==> self@.conns.contains(id),
            r matches Some(e) ==> *e == self@.conns.entries[id],
    {
        proof {
            use_type_invariant(self);
        }
        self.conns.get(id)
    }

    /// Number of registered connections.
    pub fn conn_count(&self) -> (n: usize)
        ensures
            n == self@.conns.len(),
    {
        self.conns.len()
    }

    /// Registers the local endpoint of logical connection `id`.
    ///
    /// On success the answer is the first action of the connection's
    /// reader, which the caller now starts (see [`conn_reader`]): to read
    /// from the endpoint.
    ///
    /// Refused, with the mux left as it was:
    /// * `InvalidArgument` when `id` is zero;
    /// * otherwise `Other` when the mux is closed;
    /// * otherwise `InvalidArgument` when `id` is already registered.
    pub fn add_conn(&mut self, id: ConnId, endpoint: E) -> (r: Result<ConnAction, Error>)
        ensures
            old(self)@.valid(),
            final(self)@.valid(),
            final(self)@ == old(self)@.add_conn(id, endpoint),
            match add_conn_refusal(old(self)@, id) {
                Some(kind) => r is Err && r->Err_0.spec_kind() == kind,
                None => r is Ok && r->Ok_0@ == ConnActionView::Read,
            },
    {
        proof {
            use_type_invariant(&*self);
        }
        if id == RESERVED_CONN_ID {
            return Err(Error::InvalidArgument("conn id is reserved".to_string()));
        }
        if self.is_closed() {
            return Err(Error::Other("mux is closed".to_string()));
        }
        let mut conns: ConnRegistry<E> = ConnRegistry::new();
        core::mem::swap(&mut self.conns, &mut conns);
        let r = conns.add(id, endpoint);
        self.conns = conns;
        match r {
            Ok(_) => Ok(ConnAction::Read),
            Err(e) => Err(e),
        }
    }

    /// Closes the mux.
    ///
    /// The first call on an open mux hands out its streams for the caller
    /// to shut down. Every other call returns `None` and changes nothing.
    pub fn close(&mut self) -> (r: Option<Teardown<E>>)
        ensures
            old(self)@.valid(),
            final(self)@.valid(),
            final(self)@ == old(self)@.close().0,
            match old(self)@.close().1 {
                Some(streams) => r is Some && r->Some_0@ == streams,
                None => r is None,
            },
    {
        proof {
            use_type_invariant(&*self);
        }
        let mut open = Mux { trunk: None, conns: ConnRegistry::new(), phase: Phase::Closed };
        core::mem::swap(self, &mut open);
        let Mux { trunk, mut conns, phase: _ } = open;
        match trunk {
            Some(trunk) => Some(Teardown { endpoints: conns.remove_all(), trunk }),
            None => None,
        }
    }

    /// Starts the trunk reader.
    ///
    /// Answers `ReadHeader` on an idle mux, which is then reading. On a mux
    /// that is already reading, or closed, answers `Stop` and changes
    /// nothing: a trunk has one reader.
    pub fn trunk_reader(&mut self) -> (action: TrunkAction<E>)
        ensures
            old(self)@.valid(),
            final(self)@.valid(),
            final(self)@ == old(self)@.start().0,
            action@ == old(self)@.start().1,
    {
        proof {
            use_type_invariant(&*self);
        }
        match self.phase {
            Phase::Idle => {
                self.phase = Phase::AwaitHeader;
                TrunkAction::ReadHeader
            },
            _ => TrunkAction::Stop,
        }
    }

    /// Closes the mux from inside the trunk reader.
    fn fail(&mut self) -> (action: TrunkAction<E>)
        requires
            !old(self)@.is_closed(),
        ensures
            final(self)@.valid(),
            final(self)@ == old(self)@.fail().0,
            action@ == old(self)@.fail().1,
    {
        match self.close() {
            Some(streams) => TrunkAction::Teardown(streams),
            None => TrunkAction::Stop,
        }
    }

    /// Advances the trunk reader by one event.
    pub fn trunk_step(&mut self, event: TrunkEvent) -> (action: TrunkAction<E>)
        ensures
            old(self)@.valid(),
            final(self)@.valid(),
            final(self)@ == old(self)@.step(event@).0,
            action@ == old(self)@.step(event@).1,
    {
        proof {
            use_type_invariant(&*self);
        }
        let phase = self.phase;
        match (phase, event) {
            (Phase::Closed, _) => TrunkAction::Stop,
            (Phase::AwaitHeader, TrunkEvent::Header(h)) => {
                let (conn_id, length) = decode_header(&h);
                self.phase = Phase::AwaitPayload { conn_id, length };
                TrunkAction::ReadPayload(length)
            },
            (Phase::AwaitPayload { conn_id, length }, TrunkEvent::Payload(p)) => {
                if p.len() != length as usize {
                    self.fail()
                } else if self.conns.contains(conn_id) {
                    self.phase = Phase::Delivering;
                    TrunkAction::Deliver { conn_id, payload: p }
                } else {
                    self.phase = Phase::AwaitHeader;
                    TrunkAction::ReadHeader
                }
            },
            (Phase::Delivering, TrunkEvent::Delivered) => {
                self.phase = Phase::AwaitHeader;
                TrunkAction::ReadHeader
            },
            _ => self.fail(),
        }
    }
}

/// Size of the buffer that the reader of a local endpoint reads into: no
/// read returns more, and no frame of a local endpoint carries more.
pub const CONN_BUFFER_LEN: usize = 1024;

/// What the reader of one local endpoint observed.
#[derive(Debug)]
pub enum ConnEvent {
    /// One read returned these bytes; none at all means "no data yet".
    Data(Vec<u8>),
    /// Reading from the local endpoint failed.
    ReadFailed,
    /// The frame was written to the trunk.
    Written,
    /// Writing the frame to the trunk failed.
    WriteFailed,
}

/// Mathematical value of a [`ConnEvent`].
pub ghost enum ConnEventView {
    Data(Seq<u8>),
    ReadFailed,
    Written,
    WriteFailed,
}

impl View for ConnEvent {
    type V = ConnEventView;

    open spec fn view(&self) -> ConnEventView {
        match self {
            ConnEvent::Data(d) => ConnEventView::Data(d@),
            ConnEvent::ReadFailed => ConnEventView::ReadFailed,
            ConnEvent::Written => ConnEventView::Written,
            ConnEvent::WriteFailed => ConnEventView::WriteFailed,
        }
    }
}

/// What the reader of one local endpoint has to do next.
#[derive(Debug)]
pub enum ConnAction {
    /// Read from the local endpoint again.
    Read,
    /// Write these bytes to the trunk as one piece, with no other writer in
    /// between, then report `Written` or `WriteFailed`.
    Write(Vec<u8>),
    /// Leave the loop. The mux stays as it is.
    Stop,
}

/// Mathematical value of a [`ConnAction`].
pub ghost enum ConnActionView {
    Read,
    Write(Seq<u8>),
    Stop,
}

impl View for ConnAction {
    type V = ConnActionView;

    open spec fn view(&self) -> ConnActionView {
        match self {
            ConnAction::Read => ConnActionView::Read,
            ConnAction::Write(b) => ConnActionView::Write(b@),
            ConnAction::Stop => ConnActionView::Stop,
        }
    }
}

/// What [`conn_reader`] answers.
///
/// An empty read is retried. A non-empty read becomes exactly one frame for
/// the trunk. After a frame is written the reader reads again. Any failure,
/// and a read too large for one frame, ends the loop.
pub open spec fn conn_step(id: ConnId, event: ConnEventView) -> ConnActionView {
    match event {
        ConnEventView::Data(d) => if d.len() == 0 {
            ConnActionView::Read
        } else if d.len() <= MAX_PAYLOAD_LEN {
            ConnActionView::Write(frame_bytes(id, d))
        } else {
            ConnActionView::Stop
        },
        ConnEventView::Written => ConnActionView::Read,
        ConnEventView::ReadFailed => ConnActionView::Stop,
        ConnEventView::WriteFailed => ConnActionView::Stop,
    }
}

/// One step of the loop that forwards a local endpoint to the trunk.
///
/// The loop starts by reading. It never touches the mux: a failure on one
/// connection ends that connection's loop and nothing else.
pub fn conn_reader(id: ConnId, event: ConnEvent) -> (action: ConnAction)
    ensures
        action@ == conn_step(id, event@),
{
    match event {
        ConnEvent::Data(d) => {
            if d.len() == 0 {
                ConnAction::Read
            } else {
                match encode(id, d.as_slice()) {
                    Ok(bytes) => ConnAction::Write(bytes),
                    Err(_) => ConnAction::Stop,
                }
            }
        },
        ConnEvent::Written => ConnAction::Read,
        ConnEvent::ReadFailed => ConnAction::Stop,
        ConnEvent::WriteFailed => ConnAction::Stop,
    }
}

} // verus!
