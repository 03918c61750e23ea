//! The command/data channel to the controller, and the history of transfers that the
//! contracts speak of.
use vstd::prelude::*;
use vstd::slice::slice_to_vec;

verus! {

/// One transfer on the bus, as the contracts see it.
pub enum BusOp {
    /// A control byte.
    Command(u8),
    /// A data payload, written to display memory.
    Data(Seq<u8>),
}

/// One transfer on the bus, as recorded by [`RecordingInterface`].
#[derive(Clone, Debug, PartialEq, Eq)]
pub enum Transfer {
    Command(u8),
    Data(Vec<u8>),
}

impl View for Transfer {
    type V = BusOp;

    open spec fn view(&self) -> BusOp {
        match self {
            Transfer::Command(c) => BusOp::Command(*c),
            Transfer::Data(d) => BusOp::Data(d@),
        }
    }
}

/// Control bytes as bus transfers, one each.
pub open spec fn as_commands(bytes: Seq<u8>) -> Seq<BusOp> {
    bytes.map_values(|b: u8| BusOp::Command(b))
}

/// The history `after` is `before` followed by the first part of `ops`: all of `ops`
/// exactly when the operation succeeded, a strict prefix of it when a transfer failed.
pub open spec fn transmitted(before: Seq<BusOp>, after: Seq<BusOp>, ops: Seq<BusOp>, ok: bool) -> bool {
    &&& before.len() <= after.len() <= before.len() + ops.len()
    &&& after == before + ops.take(after.len() - before.len())
    &&& (ok <==> after.len() == before.len() + ops.len())
}

/// Nothing was sent and the operation failed.
pub proof fn lemma_nothing_sent(h: Seq<BusOp>, ops: Seq<BusOp>)
    requires
        ops.len() > 0,
    ensures
        transmitted(h, h, ops, false),
{
    assert(h + ops.take(0) =~= h);
}

/// A completed operation followed by another one is one operation over the joined transfers.
pub proof fn lemma_transmitted_then(
    a: Seq<BusOp>,
    b: Seq<BusOp>,
    c: Seq<BusOp>,
    ops1: Seq<BusOp>,
    ops2: Seq<BusOp>,
    ok: bool,
)
    requires
        transmitted(a, b, ops1, true),
        transmitted(b, c, ops2, ok),
    ensures
        transmitted(a, c, ops1 + ops2, ok),
{
    let k = (c.len() - b.len()) as int;
    assert(ops1.take(ops1.len() as int) =~= ops1);
    assert((ops1 + ops2).take(ops1.len() + k) =~= ops1 + ops2.take(k));
    assert(a + (ops1 + ops2.take(k)) =~= (a + ops1) + ops2.take(k));
}

/// A failed operation is a failed prefix of any longer operation.
pub proof fn lemma_failed_prefix(a: Seq<BusOp>, b: Seq<BusOp>, ops1: Seq<BusOp>, ops2: Seq<BusOp>)
    requires
        transmitted(a, b, ops1, false),
    ensures
        transmitted(a, b, ops1 + ops2, false),
{
    let k = (b.len() - a.len()) as int;
    assert((ops1 + ops2).take(k) =~= ops1.take(k));
}

/// A byte-oriented command/data channel to the controller.
///
/// `sent` is the history of the transfers the channel accepted, oldest first, and
/// `refused` the history of the transfers it refused, each with its error. A transfer
/// either lands whole or is refused and leaves `sent` as it was. A channel whose
/// behaviour a proof relies on gives both its own definitions; the defaults claim that
/// nothing was ever sent or refused.
pub trait DisplayInterface {
    type Error;

    closed spec fn sent(&self) -> Seq<BusOp> {
        Seq::empty()
    }

    closed spec fn refused(&self) -> Seq<(BusOp, Self::Error)> {
        Seq::empty()
    }

    /// Transmits one control byte.
    fn send_command(&mut self, cmd: u8) -> (r: Result<(), Self::Error>)
        ensures
            r is Ok ==> final(self).sent() == old(self).sent().push(BusOp::Command(cmd))
                && final(self).refused() == old(self).refused(),
            r is Err ==> final(self).sent() == old(self).sent()
                && final(self).refused() == old(self).refused().push((BusOp::Command(cmd), r->Err_0)),
    ;

    /// Transmits a data payload.
    fn send_data(&mut self, buf: &[u8]) -> (r: Result<(), Self::Error>)
        ensures
            r is Ok ==> final(self).sent() == old(self).sent().push(BusOp::Data(buf@))
                && final(self).refused() == old(self).refused(),
            r is Err ==> final(self).sent() == old(self).sent()
                && final(self).refused() == old(self).refused().push((BusOp::Data(buf@), r->Err_0)),
    ;
}

/// Why a [`RecordingInterface`] refused a transfer.
#[derive(Clone, Copy, Debug, PartialEq, Eq, Structural)]
pub enum RecordingError {
    /// The interface was built to accept no more transfers.
    Full,
}

/// An in-memory channel that records every transfer it accepts. It accepts at most
/// `capacity` transfers when one is set, and refuses the rest.
pub struct RecordingInterface {
    log: Vec<Transfer>,
    capacity: Option<usize>,
    refusals: Ghost<Seq<(BusOp, RecordingError)>>,
}

impl RecordingInterface {
    /// The transfers accepted so far, oldest first.
    pub closed spec fn recorded(&self) -> Seq<Transfer> {
        self.log@
    }

    /// How many transfers it accepts in all, when bounded.
    pub closed spec fn limit(&self) -> Option<usize> {
        self.capacity
    }

    /// A channel that accepts every transfer.
    pub fn new() -> (r: RecordingInterface)
        ensures
            r.recorded() == Seq::<Transfer>::empty(),
            r.sent() == Seq::<BusOp>::empty(),
            r.limit() is None,
    {
        let r = RecordingInterface { log: Vec::new(), capacity: None, refusals: Ghost(Seq::empty()) };
        assert(r.sent() =~= Seq::<BusOp>::empty());
        r
    }

    /// A channel that accepts the first `capacity` transfers and refuses every later one.
    pub fn with_capacity(capacity: usize) -> (r: RecordingInterface)
        ensures
            r.recorded() == Seq::<Transfer>::empty(),
            r.sent() == Seq::<BusOp>::empty(),
            r.limit() == Some(capacity),
    {
        let r = RecordingInterface { log: Vec::new(), capacity: Some(capacity), refusals: Ghost(Seq::empty()) };
        assert(r.sent() =~= Seq::<BusOp>::empty());
        r
    }

    /// The transfers accepted so far, oldest first.
    pub fn transfers(&self) -> (r: &Vec<Transfer>)
        ensures
            r@ == self.recorded(),
            r@.map_values(|t: Transfer| t@) == self.sent(),
    {
        &self.log
    }

    fn has_room(&self) -> (r: bool)
        ensures
            r == (self.limit() is None || self.log@.len() < self.limit()->0),
    {
        match self.capacity {
            None => true,
            Some(c) => self.log.len() < c,
        }
    }

    fn record(&mut self, t: Transfer)
        ensures
            final(self).recorded() == old(self).recorded().push(t),
            final(self).sent() == old(self).sent().push(t@),
            final(self).limit() == old(self).limit(),
            final(self).refusals == old(self).refusals,
    {
        self.log.push(t);
        assert(self.log@.map_values(|t: Transfer| t@) =~= old(self).sent().push(t@));
    }
}

impl DisplayInterface for RecordingInterface {
    type Error = RecordingError;

    open spec fn sent(&self) -> Seq<BusOp> {
        self.recorded().map_values(|t: Transfer| t@)
    }

    closed spec fn refused(&self) -> Seq<(BusOp, RecordingError)> {
        self.refusals@
    }

    fn send_command(&mut self, cmd: u8) -> (r: Result<(), RecordingError>) {
        if self.has_room() {
            self.record(Transfer::Command(cmd));
            Ok(())
        } else {
            self.refusals = Ghost(self.refusals@.push((BusOp::Command(cmd), RecordingError::Full)));
            Err(RecordingError::Full)
        }
    }

    fn send_data(&mut self, buf: &[u8]) -> (r: Result<(), RecordingError>) {
        if self.has_room() {
            self.record(Transfer::Data(slice_to_vec(buf)));
            Ok(())
        } else {
            self.refusals = Ghost(self.refusals@.push((BusOp::Data(buf@), RecordingError::Full)));
            Err(RecordingError::Full)
        }
    }
}

} // verus!
