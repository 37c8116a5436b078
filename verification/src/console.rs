//! Console detection, and the writer that pushes code units through a
//! console's write primitive. Neither calls the system: the caller makes
//! the calls that these functions ask for and hands back what they returned.

use std::marker::PhantomData;
use vstd::prelude::*;
use vstd::slice::slice_subrange;

verus! {

/// The value by which a system call reports success.
pub const TRUE: i32 = 1;

/// The most code units that one call of the write primitive can be asked
/// to take.
pub const MAX_REQUEST: u32 = 0xFFFF_FFFF;

/// Whether a system call that returned `result` succeeded.
pub fn check_syscall(result: i32) -> (ok: bool)
    ensures
        ok == (result == TRUE),
{
    result == TRUE
}

/// The capability to write to a console, which holds the console's handle.
/// It borrows the destination that it was made for, and so cannot outlive
/// it: the handle stays open while the capability is in use.
#[derive(Clone, Copy, Debug, PartialEq, Eq)]
pub struct Console<'a> {
    handle: isize,
    owner: PhantomData<&'a ()>,
}

impl<'a> View for Console<'a> {
    type V = isize;

    /// The handle of the console.
    closed spec fn view(&self) -> isize {
        self.handle
    }
}

/// Whether `raw` can be a console's handle: it is neither null nor the
/// invalid handle value.
pub open spec fn usable(raw: isize) -> bool {
    raw != 0 && raw != -1
}

/// The handle of an optional console.
pub open spec fn handle_of(console: Option<Console>) -> Option<isize> {
    match console {
        Some(console) => Some(console@),
        None => None,
    }
}

impl<'a> Console<'a> {
    #[verifier::type_invariant]
    spec fn well_formed(self) -> bool {
        usable(self.handle)
    }

    /// Whether the system may be asked for the console mode of `raw`. A
    /// handle that fails this test is no console, and must not be queried.
    pub fn may_query(raw: isize) -> (r: bool)
        ensures
            r == usable(raw),
    {
        raw != 0 && raw != -1
    }

    /// The console capability of `owner`, whose handle is `raw`, given what
    /// the query for the handle's console mode returned. Success of that
    /// query is the only sign of a console; an unusable handle is never one.
    pub fn from_handle<T: ?Sized>(owner: &'a T, raw: isize, mode_query: i32) -> (r: Option<
        Console<'a>,
    >)
        ensures
            r is Some <==> usable(raw) && mode_query == TRUE,
            r is Some ==> r->0@ == raw,
    {
        if Self::may_query(raw) && check_syscall(mode_query) {
            Some(Console { handle: raw, owner: PhantomData })
        } else {
            None
        }
    }

    /// The handle to pass to the console's write primitive.
    pub fn handle(&self) -> (r: isize)
        ensures
            r == self@,
            usable(r),
    {
        proof {
            use_type_invariant(self);
        }
        self.handle
    }
}

/// What one call of the console's write primitive reported.
#[derive(Clone, Copy, Debug, PartialEq, Eq)]
pub enum ConsoleReply {
    /// The call succeeded and took this many code units.
    Wrote(u32),
    /// The call was interrupted before it took anything.
    Interrupted,
    /// The call failed with this system error code.
    Failed(i32),
}

/// Why a write failed, with the number of code units that the console had
/// taken before.
#[derive(Clone, Copy, Debug, PartialEq, Eq)]
pub enum WriteError {
    /// The primitive succeeded without taking anything.
    WriteZero { written: usize },
    /// The system reported an error other than an interruption.
    Os { code: i32, written: usize },
}

impl WriteError {
    /// The number of code units that the console had taken before the
    /// failure.
    pub open spec fn transferred(self) -> usize {
        match self {
            WriteError::WriteZero { written } => written,
            WriteError::Os { written, .. } => written,
        }
    }
}

/// The number of code units to offer the primitive when `remaining` are
/// left to write.
pub open spec fn request_len(remaining: nat) -> u32 {
    if remaining > MAX_REQUEST {
        MAX_REQUEST
    } else {
        remaining as u32
    }
}

/// Where a write stands after a reply.
pub enum Step {
    /// The write goes on with this many code units written.
    Next(nat),
    /// The write has failed.
    Fail(WriteError),
}

/// The effect of `reply` on a write that has `written` code units behind it.
pub open spec fn step(written: nat, reply: ConsoleReply) -> Step {
    match reply {
        ConsoleReply::Wrote(n) => if n == 0 {
            Step::Fail(WriteError::WriteZero { written: written as usize })
        } else {
            Step::Next((written + n) as nat)
        },
        ConsoleReply::Interrupted => Step::Next(written),
        ConsoleReply::Failed(code) => Step::Fail(
            WriteError::Os { code, written: written as usize },
        ),
    }
}

/// The progress of one write of a sequence of code units to a console.
#[derive(Debug)]
pub struct WideWriter {
    len: usize,
    written: usize,
}

impl WideWriter {
    /// The length of the sequence to write.
    pub closed spec fn total(&self) -> nat {
        self.len as nat
    }

    /// The number of code units that the console has taken.
    pub closed spec fn written(&self) -> nat {
        self.written as nat
    }

    #[verifier::type_invariant]
    spec fn well_formed(&self) -> bool {
        self.written <= self.len
    }

    /// Starts a write of `len` code units.
    pub fn new(len: usize) -> (w: Self)
        ensures
            w.total() == len,
            w.written() == 0,
    {
        WideWriter { len, written: 0 }
    }

    /// The next call to make: the start of the unwritten suffix and the
    /// number of code units of it to offer. `None` once everything is
    /// written, which ends the write with success.
    pub fn request(&self) -> (r: Option<(usize, u32)>)
        ensures
            self.written() <= self.total(),
            self.written() == self.total() ==> r is None,
            self.written() < self.total() ==> r == Some(
                (self.written() as usize, request_len((self.total() - self.written()) as nat)),
            ),
    {
        proof {
            use_type_invariant(self);
        }
        let remaining: usize = self.len - self.written;
        if remaining == 0 {
            None
        } else if remaining > MAX_REQUEST as usize {
            Some((self.written, MAX_REQUEST))
        } else {
            Some((self.written, remaining as u32))
        }
    }

    /// Takes in what the call asked for by `request` reported. Code units
    /// that were taken move the cursor by exactly their number; a call that
    /// took nothing is an error; an interrupted call changes nothing, so
    /// that the same suffix is offered again; any other failure is handed
    /// on with the progress made.
    pub fn advance(&mut self, reply: ConsoleReply) -> (r: Result<(), WriteError>)
        requires
            old(self).written() < old(self).total(),
            reply matches ConsoleReply::Wrote(n) ==> n <= request_len(
                (old(self).total() - old(self).written()) as nat,
            ),
        ensures
            final(self).total() == old(self).total(),
            match step(old(self).written(), reply) {
                Step::Next(written) => r is Ok && final(self).written() == written,
                Step::Fail(error) => r == Err::<(), WriteError>(error) && final(self).written()
                    == old(self).written(),
            },
    {
        proof {
            use_type_invariant(&*self);
        }
        match reply {
            ConsoleReply::Wrote(n) => {
                if n == 0 {
                    Err(WriteError::WriteZero { written: self.written })
                } else {
                    self.written = self.written + n as usize;
                    Ok(())
                }
            },
            ConsoleReply::Interrupted => Ok(()),
            ConsoleReply::Failed(code) => Err(WriteError::Os { code, written: self.written }),
        }
    }
}

/// What a write has come to after a script of replies.
pub struct Run {
    /// How the write ended; `None` while it still waits for a reply.
    pub outcome: Option<Result<(), WriteError>>,
    /// The code units that the console took, in the order it took them.
    pub received: Seq<u16>,
}

/// The course of a write of `units` that has `written` of them behind it
/// and is answered by `replies`, one reply to each call it makes: each call
/// offers the unwritten suffix, and the console takes the front of it.
pub open spec fn run(units: Seq<u16>, written: nat, replies: Seq<ConsoleReply>) -> Run
    decreases replies.len(),
{
    if written >= units.len() {
        Run { outcome: Some(Ok(())), received: Seq::empty() }
    } else if replies.len() == 0 {
        Run { outcome: None, received: Seq::empty() }
    } else {
        match step(written, replies[0]) {
            Step::Next(next) => {
                let rest = run(units, next, replies.drop_first());
                Run {
                    outcome: rest.outcome,
                    received: units.subrange(written as int, next as int) + rest.received,
                }
            },
            Step::Fail(error) => Run { outcome: Some(Err(error)), received: Seq::empty() },
        }
    }
}

/// Whether no reply of the script claims more code units than its call
/// offered.
pub open spec fn fits(len: nat, written: nat, replies: Seq<ConsoleReply>) -> bool
    decreases replies.len(),
{
    written >= len || replies.len() == 0 || {
        &&& replies[0] matches ConsoleReply::Wrote(n) ==> n <= request_len((len - written) as nat)
        &&& step(written, replies[0]) matches Step::Next(next) ==> fits(
            len,
            next,
            replies.drop_first(),
        )
    }
}

/// Whether the script is that of a console which takes at least one and at
/// most `k` code units at each call.
pub open spec fn takes_at_most(k: u32, len: nat, written: nat, replies: Seq<ConsoleReply>) -> bool
    decreases replies.len(),
{
    written >= len || replies.len() == 0 || {
        &&& replies[0] matches ConsoleReply::Wrote(n)
        &&& 1 <= replies[0]->Wrote_0 <= k
        &&& replies[0]->Wrote_0 <= request_len((len - written) as nat)
        &&& takes_at_most(k, len, written + replies[0]->Wrote_0 as nat, replies.drop_first())
    }
}

/// Carries out the write of `units` against a console that answers by the
/// script `replies`, and that takes from the front of what it is offered
/// as many code units as its reply says. Returns how the write ended,
/// `None` if the script ran out first, and what the console received.
pub fn replay(units: &[u16], replies: &[ConsoleReply]) -> (r: (
    Option<Result<(), WriteError>>,
    Vec<u16>,
))
    requires
        fits(units@.len(), 0, replies@),
    ensures
        r.0 == run(units@, 0, replies@).outcome,
        r.1@ == run(units@, 0, replies@).received,
{
    let mut writer = WideWriter::new(units.len());
    let mut received: Vec<u16> = Vec::new();
    let mut i: usize = 0;
    assert(replies@.skip(0) =~= replies@);
    assert(received@ + run(units@, 0, replies@).received =~= run(units@, 0, replies@).received);
    loop
        invariant
            i <= replies@.len(),
            writer.total() == units@.len(),
            writer.written() <= writer.total(),
            fits(units@.len(), writer.written(), replies@.skip(i as int)),
            run(units@, 0, replies@).outcome == run(
                units@,
                writer.written(),
                replies@.skip(i as int),
            ).outcome,
            run(units@, 0, replies@).received == received@ + run(
                units@,
                writer.written(),
                replies@.skip(i as int),
            ).received,
        decreases replies@.len() - i,
    {
        let ghost rest = replies@.skip(i as int);
        let ghost before = writer.written();
        let ghost taken = received@;
        let (start, count) = match writer.request() {
            Some(request) => request,
            None => {
                return (Some(Ok(())), received);
            },
        };
        if i >= replies.len() {
            return (None, received);
        }
        let reply = replies[i];
        assert(rest[0] == reply);
        assert(rest.drop_first() =~= replies@.skip(i + 1));
        if let Err(error) = writer.advance(reply) {
            return (Some(Err(error)), received);
        }
        if let ConsoleReply::Wrote(n) = reply {
            received.extend_from_slice(slice_subrange(units, start, start + n as usize));
        }
        assert(received@ =~= taken + units@.subrange(before as int, writer.written() as int));
        i = i + 1;
    }
}

/// The console receives a prefix of what was still to write, unchanged and
/// in order: nothing twice, nothing left out in between. A write that ends
/// with success has delivered all of it, and one that fails reports how
/// much it had delivered.
pub proof fn lemma_received_in_order(units: Seq<u16>, written: nat, replies: Seq<ConsoleReply>)
    requires
        written <= units.len() <= usize::MAX,
        fits(units.len(), written, replies),
    ensures
        written + run(units, written, replies).received.len() <= units.len(),
        run(units, written, replies).received == units.subrange(
            written as int,
            (written + run(units, written, replies).received.len()) as int,
        ),
        run(units, written, replies).outcome == Some(Ok::<(), WriteError>(())) ==> run(
            units,
            written,
            replies,
        ).received == units.subrange(written as int, units.len() as int),
        run(units, written, replies).outcome matches Some(Err(error)) ==> error.transferred()
            == written + run(units, written, replies).received.len(),
    decreases replies.len(),
{
    if written < units.len() && replies.len() > 0 {
        if let Step::Next(next) = step(written, replies[0]) {
            let rest = run(units, next, replies.drop_first());
            lemma_received_in_order(units, next, replies.drop_first());
            assert(units.subrange(written as int, next as int) + units.subrange(
                next as int,
                (next + rest.received.len()) as int,
            ) =~= units.subrange(written as int, (next + rest.received.len()) as int));
        }
    } else {
        assert(units.subrange(written as int, written as int) =~= Seq::<u16>::empty());
    }
}

/// A console that takes at least one and at most `k` code units at each
/// call, for any `k` from 1 on, still gets everything: once it has answered
/// as many calls as there are code units, at the latest, the write has ended
/// with success, and the console has received exactly `units`.
pub proof fn lemma_partial_writes_converge(units: Seq<u16>, k: u32, replies: Seq<ConsoleReply>)
    requires
        k >= 1,
        units.len() <= usize::MAX,
        takes_at_most(k, units.len(), 0, replies),
        replies.len() >= units.len(),
    ensures
        run(units, 0, replies) == (Run { outcome: Some(Ok(())), received: units }),
{
    lemma_progress_ends_with_success(units, k, 0, replies);
    lemma_received_in_order(units, 0, replies);
    assert(units.subrange(0, units.len() as int) =~= units);
}

/// From any point of a write on, a console that takes between one and `k`
/// code units at each call brings the write to success within as many
/// calls as code units are left.
pub proof fn lemma_progress_ends_with_success(
    units: Seq<u16>,
    k: u32,
    written: nat,
    replies: Seq<ConsoleReply>,
)
    requires
        written <= units.len(),
        takes_at_most(k, units.len(), written, replies),
        replies.len() >= units.len() - written,
    ensures
        fits(units.len(), written, replies),
        run(units, written, replies).outcome == Some(Ok::<(), WriteError>(())),
    decreases replies.len(),
{
    if written < units.len() {
        let n = replies[0]->Wrote_0;
        lemma_progress_ends_with_success(units, k, written + n as nat, replies.drop_first());
    }
}

/// A call that succeeds without taking anything ends the write with an
/// error at once, whatever the console would have answered later: a
/// console that never takes anything cannot keep the write going.
pub proof fn lemma_zero_progress_fails(units: Seq<u16>, written: nat, replies: Seq<ConsoleReply>)
    requires
        written < units.len(),
        replies.len() > 0,
        replies[0] == ConsoleReply::Wrote(0),
    ensures
        run(units, written, replies) == (Run {
            outcome: Some(Err(WriteError::WriteZero { written: written as usize })),
            received: Seq::empty(),
        }),
{
}

/// An interrupted call is not an error and moves nothing: the write goes
/// on as if the call had not been made, and offers the same suffix again.
pub proof fn lemma_interrupt_is_retried(units: Seq<u16>, written: nat, rest: Seq<ConsoleReply>)
    ensures
        run(units, written, seq![ConsoleReply::Interrupted] + rest) == run(units, written, rest),
{
    let replies = seq![ConsoleReply::Interrupted] + rest;
    if written < units.len() {
        assert(replies.drop_first() =~= rest);
        assert(units.subrange(written as int, written as int) + run(units, written, rest).received
            =~= run(units, written, rest).received);
    }
}

/// A call that is interrupted once, before a console that takes between
/// one and `k` code units at each call answers the calls that follow, does
/// no harm: the write ends with success, and the console has received
/// exactly `units`.
pub proof fn lemma_interrupt_then_success(units: Seq<u16>, k: u32, rest: Seq<ConsoleReply>)
    requires
        k >= 1,
        units.len() <= usize::MAX,
        takes_at_most(k, units.len(), 0, rest),
        rest.len() >= units.len(),
    ensures
        run(units, 0, seq![ConsoleReply::Interrupted] + rest) == (Run {
            outcome: Some(Ok(())),
            received: units,
        }),
{
    lemma_interrupt_is_retried(units, 0, rest);
    lemma_partial_writes_converge(units, k, rest);
}

} // verus!
