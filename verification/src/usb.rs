//! The USB-side decisions of both interrupt paths, on plain values: when a
//! report may be transmitted, how the bounded retry of one transmission
//! runs, what the control handler does after the bus poll, and what the
//! serial echo consumer answers. The bus itself (enumeration, endpoint
//! traffic) is the external stack's business; its link state and its write
//! results enter here as values, and every decision taken on them is
//! verified.

use vstd::prelude::*;

verus! {

/// The external USB device's enumeration state, as the standard device
/// model names it. Read-only for this core; it gates transmission.
#[derive(Clone, Copy, Debug, PartialEq, Eq, Structural)]
pub enum UsbLinkState {
    /// Powered but not yet addressed.
    DefaultState,
    /// Addressed but not yet configured.
    Addressed,
    /// Enumeration finished; reports may be sent.
    Configured,
}

/// What one write call against the class object came back with: a byte
/// count (zero means not ready), would-block (also not ready), or a
/// permanent failure for this transfer.
#[derive(Clone, Copy, Debug, PartialEq, Eq, Structural)]
pub enum WriteOutcome {
    Wrote(usize),
    NotReady,
    TransferFailed,
}

/// A write outcome that delivered the full report: a non-zero byte count.
pub open spec fn accepted(o: WriteOutcome) -> bool {
    match o {
        WriteOutcome::Wrote(n) => n > 0,
        _ => false,
    }
}

/// A write outcome that asks for a retry: would-block or a zero count.
pub open spec fn not_ready(o: WriteOutcome) -> bool {
    match o {
        WriteOutcome::Wrote(n) => n == 0,
        WriteOutcome::NotReady => true,
        WriteOutcome::TransferFailed => false,
    }
}

/// Reports are transmitted only once enumeration has finished.
pub open spec fn may_transmit(link: UsbLinkState) -> bool {
    link is Configured
}

/// The transmission gate: skip the tick's report unless the link is
/// `Configured`. No error and no retry: the next tick tries again.
pub fn transmit_gate(link: UsbLinkState) -> (b: bool)
    ensures
        b == may_transmit(link),
{
    match link {
        UsbLinkState::Configured => true,
        _ => false,
    }
}

/// What the sender does after one write call.
#[derive(Clone, Copy, Debug, PartialEq, Eq, Structural)]
pub enum SendStep {
    /// Not ready and budget left: call write again.
    TryAgain,
    /// The report went out whole.
    Delivered,
    /// Permanent failure, or the retry budget is spent: drop the report,
    /// counted as a missed frame, and try afresh next tick.
    GiveUp,
}

/// One tick's transmission attempt: a bounded retry against the class
/// object, in place of the unbounded spin that would risk starving the
/// higher-priority control handler inside one critical section.
#[derive(Clone, Copy, Debug, PartialEq, Eq, Structural)]
pub struct SendSession {
    /// Most write calls this session may make.
    pub budget: u32,
    /// Write calls made so far.
    pub attempts: u32,
    /// No further write call may be made.
    pub finished: bool,
    /// The report was accepted whole.
    pub delivered: bool,
}

impl SendSession {
    /// A session never writes past its budget, and delivery ends it.
    pub open spec fn wf(self) -> bool {
        &&& self.attempts <= self.budget
        &&& (self.delivered ==> self.finished)
        &&& (!self.finished ==> self.attempts < self.budget)
    }

    /// A fresh session for one tick's report.
    pub fn begin(budget: u32) -> (s: SendSession)
        requires
            budget >= 1,
        ensures
            s.wf(),
            s.budget == budget,
            s.attempts == 0,
            !s.finished,
            !s.delivered,
    {
        SendSession { budget, attempts: 0, finished: false, delivered: false }
    }

    /// Records the outcome of one write call and decides what follows: an
    /// accepted write delivers and ends the session; a permanent failure
    /// gives up; not-ready retries only while budget remains.
    pub fn record(&mut self, out: WriteOutcome) -> (step: SendStep)
        requires
            old(self).wf(),
            !old(self).finished,
        ensures
            final(self).wf(),
            final(self).budget == old(self).budget,
            final(self).attempts == old(self).attempts + 1,
            accepted(out) ==> step == SendStep::Delivered && final(self).delivered,
            out is TransferFailed ==> step == SendStep::GiveUp && !final(self).delivered,
            not_ready(out) && old(self).attempts + 1 < old(self).budget ==> step
                == SendStep::TryAgain && !final(self).finished,
            not_ready(out) && old(self).attempts + 1 >= old(self).budget ==> step
                == SendStep::GiveUp && !final(self).delivered,
            final(self).finished == !(step is TryAgain),
            final(self).delivered == accepted(out),
    {
        self.attempts = self.attempts + 1;
        let step = match out {
            WriteOutcome::Wrote(n) => {
                if n > 0 {
                    SendStep::Delivered
                } else if self.attempts < self.budget {
                    SendStep::TryAgain
                } else {
                    SendStep::GiveUp
                }
            },
            WriteOutcome::NotReady => {
                if self.attempts < self.budget {
                    SendStep::TryAgain
                } else {
                    SendStep::GiveUp
                }
            },
            WriteOutcome::TransferFailed => SendStep::GiveUp,
        };
        match step {
            SendStep::TryAgain => {
                self.finished = false;
                self.delivered = false;
            },
            SendStep::Delivered => {
                self.finished = true;
                self.delivered = true;
            },
            SendStep::GiveUp => {
                self.finished = true;
                self.delivered = false;
            },
        }
        step
    }
}

/// Runs one tick's bounded retry over the write outcomes the class object
/// would return, in order: writes until a write is accepted, a permanent
/// failure occurs, or the budget is spent. Returns how many write calls
/// were made and whether the report was delivered.
pub fn run_send(budget: u32, outcomes: &Vec<WriteOutcome>) -> (r: (u32, bool))
    requires
        budget >= 1,
        outcomes@.len() >= budget,
    ensures
        1 <= r.0 <= budget,
        r.1 == accepted(outcomes@[r.0 - 1]),
        forall|j: int| 0 <= j < r.0 - 1 ==> not_ready(#[trigger] outcomes@[j]),
        !r.1 ==> outcomes@[r.0 - 1] is TransferFailed || r.0 == budget,
        accepted(outcomes@[0]) ==> r.0 == 1 && r.1,
{
    let mut session = SendSession::begin(budget);
    let mut writes: u32 = 0;
    let mut delivered = false;
    loop
        invariant
            session.wf(),
            session.budget == budget,
            session.attempts == writes,
            writes <= budget,
            outcomes@.len() >= budget,
            delivered == session.delivered,
            !session.finished ==> !delivered && writes < budget,
            forall|j: int| 0 <= j < writes ==> not_ready(#[trigger] outcomes@[j]),
            !session.finished,
            !delivered,
        decreases budget - writes,
    {
        let out = outcomes[writes as usize];
        let step = session.record(out);
        writes = writes + 1;
        delivered = session.delivered;
        match step {
            SendStep::TryAgain => {
                proof {
                    assert(accepted(out) || not_ready(out) || out is TransferFailed);
                    assert(not_ready(out));
                }
            },
            _ => {
                return (writes, delivered);
            },
        }
    }
}

/// What the control handler does once the bus-level poll has answered:
/// service the class object exactly when the bus reported pending
/// activity.
pub fn control_step(bus_pending: bool) -> (service_class: bool)
    ensures
        service_class == bus_pending,
{
    bus_pending
}

/// The prefix the serial echo answers with.
pub open spec fn echo_prefix() -> Seq<u8> {
    seq![0x72u8, 0x65u8, 0x61u8, 0x64u8, 0x3au8, 0x20u8]
}

/// The line ending the serial echo answers with.
pub open spec fn echo_crlf() -> Seq<u8> {
    seq![0x0Du8, 0x0Au8]
}

/// The full echo answer for the bytes read from the serial port.
pub open spec fn echo_bytes(data: Seq<u8>) -> Seq<u8> {
    echo_prefix() + data + echo_crlf()
}

/// Builds the serial echo answer: the prefix, the bytes read, and the line
/// ending.
pub fn echo_response(data: &Vec<u8>) -> (r: Vec<u8>)
    ensures
        r@ == echo_bytes(data@),
{
    let mut r: Vec<u8> = Vec::new();
    r.push(0x72);
    r.push(0x65);
    r.push(0x61);
    r.push(0x64);
    r.push(0x3A);
    r.push(0x20);
    let mut i: usize = 0;
    while i < data.len()
        invariant
            i <= data@.len(),
            r@ == echo_prefix() + data@.take(i as int),
        decreases data@.len() - i,
    {
        r.push(data[i]);
        proof {
            assert(echo_prefix() + data@.take(i + 1int) =~= (echo_prefix() + data@.take(
                i as int,
            )).push(data@[i as int]));
        }
        i += 1;
    }
    proof {
        assert(data@.take(data@.len() as int) =~= data@);
    }
    r.push(0x0D);
    r.push(0x0A);
    proof {
        assert(r@ =~= echo_bytes(data@));
    }
    r
}

/// The whole control-path decision for one interrupt: with bus activity
/// pending and bytes read from the serial port, answer the echo; on no
/// pending activity, a failed read or an empty read, stay quiet.
pub fn control_plan(bus_pending: bool, data: Option<Vec<u8>>) -> (answer: Option<Vec<u8>>)
    ensures
        match answer {
            Some(bytes) => bus_pending && data is Some && data->0@.len() > 0 && bytes@
                == echo_bytes(data->0@),
            None => !bus_pending || data is None || data->0@.len() == 0,
        },
{
    if bus_pending {
        match data {
            Some(d) => {
                if d.len() > 0 {
                    Some(echo_response(&d))
                } else {
                    None
                }
            },
            None => None,
        }
    } else {
        None
    }
}

/// After a serial write the port is flushed on success or would-block; a
/// permanent error ends the attempt with no flush.
pub fn flush_after_serial_write(out: WriteOutcome) -> (flush: bool)
    ensures
        flush == !(out is TransferFailed),
{
    match out {
        WriteOutcome::TransferFailed => false,
        _ => true,
    }
}

} // verus!
