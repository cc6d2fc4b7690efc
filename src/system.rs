use vstd::prelude::*;

use multiqueue::{MPMCReceiver, MPMCSender};

verus! {

#[verifier::external_type_specification]
#[verifier::external_body]
#[verifier::reject_recursive_types(T)]
pub struct ExMPMCSender<T>(MPMCSender<T>);

#[verifier::external_type_specification]
#[verifier::external_body]
#[verifier::reject_recursive_types(T)]
pub struct ExMPMCReceiver<T>(MPMCReceiver<T>);

pub type ShutdownSender = MPMCSender<()>;

pub type ShutdownReceiver = MPMCReceiver<()>;

/// The most receivers a shutdown broadcast is made for. The queue that carries
/// the signals is allocated in one block, a power of two of entries at least
/// this large, which must stay far below the address space on every target.
pub const MAX_RECEIVERS: usize = 65536;

/// How many signals a trigger owes: one per registered receiver the first
/// time, none once the shutdown has been signalled.
pub open spec fn owed(receivers: nat, fired: bool) -> nat {
    if fired {
        0
    } else {
        receivers
    }
}

/// The signals owed in all by `triggers` further triggers.
pub open spec fn owed_by_triggers(receivers: nat, fired: bool, triggers: nat) -> nat
    decreases triggers,
{
    if triggers == 0 {
        0
    } else {
        owed(receivers, fired) + owed_by_triggers(receivers, true, (triggers - 1) as nat)
    }
}

/// One shutdown is delivered per process: any number of triggers, at least one,
/// owe exactly one signal to each registered receiver between them, so that
/// each of the competing receivers takes one; no trigger owes none, so no
/// receiver is woken; a second trigger owes nothing more.
pub proof fn lemma_one_signal_per_receiver(receivers: nat, triggers: nat)
    ensures
        owed_by_triggers(receivers, false, triggers) == if triggers == 0 {
            0
        } else {
            receivers
        },
    decreases triggers,
{
    if triggers > 0 {
        lemma_fired_owes_nothing(receivers, (triggers - 1) as nat);
    }
}

/// Once fired, further triggers owe nothing.
proof fn lemma_fired_owes_nothing(receivers: nat, triggers: nat)
    ensures
        owed_by_triggers(receivers, true, triggers) == 0,
    decreases triggers,
{
    if triggers > 0 {
        lemma_fired_owes_nothing(receivers, (triggers - 1) as nat);
    }
}

/// The originating side of the shutdown broadcast. It sends one signal per
/// registered receiver on the first trigger and ignores later ones.
pub struct ShutdownTrigger {
    shutdown_tx: ShutdownSender,
    receivers: usize,
    fired: bool,
}

impl ShutdownTrigger {
    /// The number of receivers each shutdown must reach.
    pub closed spec fn receivers(&self) -> nat {
        self.receivers as nat
    }

    /// Whether shutdown has already been signalled.
    pub closed spec fn fired(&self) -> bool {
        self.fired
    }

    pub fn new(shutdown_tx: ShutdownSender, receivers: usize) -> (r: Self)
        ensures
            r.receivers() == receivers,
            !r.fired(),
    {
        ShutdownTrigger { shutdown_tx, receivers, fired: false }
    }

    pub fn has_fired(&self) -> (r: bool)
        ensures
            r == self.fired(),
    {
        self.fired
    }

    /// Marks the shutdown as signalled and returns how many signals this
    /// trigger owes.
    pub fn take_owed(&mut self) -> (n: usize)
        ensures
            n == owed(old(self).receivers(), old(self).fired()),
            final(self).fired(),
            final(self).receivers() == old(self).receivers(),
    {
        let n = if self.fired {
            0
        } else {
            self.receivers
        };
        self.fired = true;
        n
    }

    /// Triggers shutdown: tries once, without blocking, to send each signal
    /// owed, and returns how many of those attempts the queue accepted. A later
    /// trigger makes no attempt.
    pub fn fire(&mut self) -> (sent: usize)
        ensures
            exists|outcomes: Seq<bool>|
                {
                    &&& outcomes.len() == owed(old(self).receivers(), old(self).fired())
                    &&& sent == accepted(outcomes)
                },
            sent <= owed(old(self).receivers(), old(self).fired()),
            final(self).fired(),
            final(self).receivers() == old(self).receivers(),
    {
        let n = self.take_owed();
        let mut outcomes: Vec<bool> = Vec::new();
        while outcomes.len() < n
            invariant
                outcomes@.len() <= n,
            decreases n - outcomes@.len(),
        {
            let ok = try_signal(&self.shutdown_tx);
            outcomes.push(ok);
        }
        let sent = count_accepted(&outcomes);
        proof {
            lemma_accepted_at_most_attempts(outcomes@);
        }
        sent
    }
}

/// How many of the attempts succeeded.
pub open spec fn accepted(outcomes: Seq<bool>) -> nat
    decreases outcomes.len(),
{
    if outcomes.len() == 0 {
        0
    } else {
        accepted(outcomes.drop_last()) + if outcomes.last() {
            1nat
        } else {
            0nat
        }
    }
}

proof fn lemma_accepted_at_most_attempts(outcomes: Seq<bool>)
    ensures
        accepted(outcomes) <= outcomes.len(),
    decreases outcomes.len(),
{
    if outcomes.len() > 0 {
        lemma_accepted_at_most_attempts(outcomes.drop_last());
    }
}

/// Counts the successful attempts among the outcomes of sending.
pub fn count_accepted(outcomes: &Vec<bool>) -> (n: usize)
    ensures
        n == accepted(outcomes@),
{
    let mut n: usize = 0;
    let mut i: usize = 0;
    while i < outcomes.len()
        invariant
            i <= outcomes@.len(),
            n == accepted(outcomes@.subrange(0, i as int)),
            n <= i,
        decreases outcomes@.len() - i,
    {
        assert(outcomes@.subrange(0, i as int + 1).drop_last() =~= outcomes@.subrange(0, i as int));
        if outcomes[i] {
            n = n + 1;
        }
        i = i + 1;
    }
    assert(outcomes@.subrange(0, outcomes@.len() as int) =~= outcomes@);
    n
}

/// Creates the shutdown broadcast for `receivers` receivers: a trigger that
/// has not fired, and a receiver to be cloned once per subsystem.
pub fn shutdown(receivers: usize) -> (r: (ShutdownTrigger, ShutdownReceiver))
    requires
        receivers <= MAX_RECEIVERS,
    ensures
        r.0.receivers() == receivers,
        !r.0.fired(),
{
    let (shutdown_tx, shutdown_rx) = shutdown_queue(receivers);
    (ShutdownTrigger::new(shutdown_tx, receivers), shutdown_rx)
}

/// Relies on multiqueue::mpmc_queue: a queue of competing consumers with room
/// for at least `capacity` items (the crate rounds up to a power of two and
/// allocates that many entries with `Vec::with_capacity`, which panics on a
/// size beyond the address space, hence the bound).
#[verifier::external_body]
fn shutdown_queue(capacity: usize) -> (ShutdownSender, ShutdownReceiver)
    requires
        capacity <= MAX_RECEIVERS,
{
    multiqueue::mpmc_queue(capacity as _)
}

/// Relies on multiqueue::MPMCSender::try_send: it never blocks, and fails when
/// the queue is full or no receiver is left.
#[verifier::external_body]
fn try_signal(shutdown_tx: &ShutdownSender) -> bool {
    shutdown_tx.try_send(()).is_ok()
}

} // verus!
