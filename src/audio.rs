use vstd::prelude::*;

use crossbeam::channel::{Receiver, SendError, Sender};

verus! {

#[verifier::external_type_specification]
#[verifier::external_body]
#[verifier::reject_recursive_types(T)]
pub struct ExSender<T>(Sender<T>);

#[verifier::external_type_specification]
#[verifier::external_body]
#[verifier::reject_recursive_types(T)]
pub struct ExReceiver<T>(Receiver<T>);

#[verifier::external_type_specification]
#[verifier::external_body]
#[verifier::reject_recursive_types(T)]
pub struct ExSendError<T>(SendError<T>);

/// A control message for the audio callback. `A` is the amplitude's numeric
/// type; the callback handles every variant.
pub enum AudioCommand<A> {
    /// Replace the current amplitude with this value.
    SetAmplitude(A),
}

/// What one non-blocking poll of the command channel yielded.
pub enum CommandPoll<A> {
    /// A command was waiting and has been taken off the channel.
    Command(AudioCommand<A>),
    /// Nothing was waiting.
    Empty,
    /// Nothing was waiting and every sender is gone.
    Disconnected,
}

/// Sending failed because every receiver of the channel is gone.
#[derive(Debug, Clone, Copy, PartialEq, Eq, Structural)]
pub struct ChannelClosed;

/// The amplitude in force after one poll.
pub open spec fn next_amplitude<A>(amplitude: A, poll: CommandPoll<A>) -> A {
    match poll {
        CommandPoll::Command(AudioCommand::SetAmplitude(a)) => a,
        _ => amplitude,
    }
}

/// Whether a disconnect has been seen once one more poll is taken into account.
pub open spec fn next_disconnected<A>(disconnected: bool, poll: CommandPoll<A>) -> bool {
    disconnected || poll is Disconnected
}

/// Whether this poll is the first sight of a disconnect, the one poll on which
/// a warning is due.
pub open spec fn warns<A>(disconnected: bool, poll: CommandPoll<A>) -> bool {
    !disconnected && poll is Disconnected
}

/// The amplitude after the polls, taken in order, starting from `amplitude`.
pub open spec fn amplitude_after<A>(amplitude: A, polls: Seq<CommandPoll<A>>) -> A
    decreases polls.len(),
{
    if polls.len() == 0 {
        amplitude
    } else {
        next_amplitude(amplitude_after(amplitude, polls.drop_last()), polls.last())
    }
}

/// The disconnect flag after the polls, taken in order.
pub open spec fn disconnected_after<A>(disconnected: bool, polls: Seq<CommandPoll<A>>) -> bool
    decreases polls.len(),
{
    if polls.len() == 0 {
        disconnected
    } else {
        next_disconnected(disconnected_after(disconnected, polls.drop_last()), polls.last())
    }
}

/// How many warnings the polls, taken in order, give rise to.
pub open spec fn warnings_after<A>(disconnected: bool, polls: Seq<CommandPoll<A>>) -> nat
    decreases polls.len(),
{
    if polls.len() == 0 {
        0
    } else {
        warnings_after(disconnected, polls.drop_last()) + if warns(
            disconnected_after(disconnected, polls.drop_last()),
            polls.last(),
        ) {
            1nat
        } else {
            0nat
        }
    }
}

/// Under the at-most-one-command-per-buffer policy, the amplitude after any run
/// of polls is the one that the last command drained sets, or the starting
/// amplitude when no command was drained at all.
pub proof fn lemma_amplitude_is_last_command<A>(amplitude: A, polls: Seq<CommandPoll<A>>)
    ensures
        (forall|i: int| 0 <= i < polls.len() ==> !(#[trigger] polls[i] is Command))
            ==> amplitude_after(amplitude, polls) == amplitude,
        forall|i: int|
            0 <= i < polls.len() && #[trigger] polls[i] is Command && (forall|j: int|
                i < j < polls.len() ==> !(#[trigger] polls[j] is Command)) ==> amplitude_after(
                amplitude,
                polls,
            ) == next_amplitude(amplitude, polls[i]),
    decreases polls.len(),
{
    if polls.len() > 0 {
        let prefix = polls.drop_last();
        lemma_amplitude_is_last_command(amplitude, prefix);
        let n = polls.len() - 1;
        assert forall|i: int| 0 <= i < n implies prefix[i] == #[trigger] polls[i] by {}
        assert forall|i: int|
            0 <= i < polls.len() && #[trigger] polls[i] is Command && (forall|j: int|
                i < j < polls.len() ==> !(#[trigger] polls[j] is Command)) implies amplitude_after(
            amplitude,
            polls,
        ) == next_amplitude(amplitude, polls[i]) by {
            if i < n {
                assert(!(polls[n] is Command));
                assert forall|j: int| i < j < prefix.len() implies !(#[trigger] prefix[j] is Command) by {
                    assert(polls[j] == prefix[j]);
                }
            }
        }
    }
}

/// A disconnect is reported exactly once: a run of polls from a state that has
/// not yet reported one gives one warning if any poll saw the channel
/// disconnected and none otherwise, and a state that has reported gives none.
pub proof fn lemma_disconnect_reported_once<A>(disconnected: bool, polls: Seq<CommandPoll<A>>)
    ensures
        disconnected_after(disconnected, polls) == (disconnected || exists|i: int|
            0 <= i < polls.len() && #[trigger] polls[i] is Disconnected),
        warnings_after(disconnected, polls) == if !disconnected && exists|i: int|
            0 <= i < polls.len() && #[trigger] polls[i] is Disconnected {
            1nat
        } else {
            0nat
        },
    decreases polls.len(),
{
    if polls.len() > 0 {
        let prefix = polls.drop_last();
        lemma_disconnect_reported_once(disconnected, prefix);
        let n = polls.len() - 1;
        assert forall|i: int| 0 <= i < n implies prefix[i] == #[trigger] polls[i] by {}
        if exists|i: int| 0 <= i < polls.len() && #[trigger] polls[i] is Disconnected {
            let i = choose|i: int| 0 <= i < polls.len() && #[trigger] polls[i] is Disconnected;
            if i < n {
                assert(prefix[i] is Disconnected);
            }
        }
    }
}

/// The state that the audio callback owns: the amplitude it scales noise by,
/// and whether it has already reported a disconnected command channel.
pub struct RenderControl<A> {
    pub amplitude: A,
    pub disconnected: bool,
}

impl<A: Copy> RenderControl<A> {
    pub fn new(amplitude: A) -> (r: Self)
        ensures
            r.amplitude == amplitude,
            !r.disconnected,
    {
        RenderControl { amplitude, disconnected: false }
    }

    pub fn amplitude(&self) -> (r: A)
        ensures
            r == self.amplitude,
    {
        self.amplitude
    }

    /// Takes one poll's outcome into account. Returns true exactly when a
    /// disconnect is seen for the first time, so that it is reported once.
    pub fn apply(&mut self, poll: CommandPoll<A>) -> (warn: bool)
        ensures
            final(self).amplitude == next_amplitude(old(self).amplitude, poll),
            final(self).disconnected == next_disconnected(old(self).disconnected, poll),
            warn == warns(old(self).disconnected, poll),
    {
        match poll {
            CommandPoll::Command(AudioCommand::SetAmplitude(a)) => {
                self.amplitude = a;
                false
            },
            CommandPoll::Empty => false,
            CommandPoll::Disconnected => {
                let first = !self.disconnected;
                self.disconnected = true;
                first
            },
        }
    }

    /// Takes at most one command off the channel, without blocking, and applies
    /// it. Which poll outcome comes depends on the other threads; whichever it
    /// is, the state moves as `apply` says.
    pub fn poll_commands(&mut self, commands_rx: &Receiver<AudioCommand<A>>) -> (warn: bool)
        ensures
            exists|poll: CommandPoll<A>|
                {
                    &&& final(self).amplitude == next_amplitude(old(self).amplitude, poll)
                    &&& final(self).disconnected == next_disconnected(old(self).disconnected, poll)
                    &&& warn == warns(old(self).disconnected, poll)
                },
    {
        let poll = try_receive(commands_rx);
        self.apply(poll)
    }
    /// Renders one output buffer: takes at most one command off the channel,
    /// then fills every frame with what `synth` makes of the amplitude now in
    /// force. `synth` draws the noise and converts it to the output's sample
    /// type; every frame is one of its results. Returns whether a disconnect
    /// warning is due.
    pub fn render<S, F: Fn(A) -> S>(
        &mut self,
        commands_rx: &Receiver<AudioCommand<A>>,
        data: &mut [S],
        synth: &F,
    ) -> (warn: bool)
        requires
            forall|a: A| synth.requires((a,)),
        ensures
            exists|poll: CommandPoll<A>|
                {
                    &&& final(self).amplitude == next_amplitude(old(self).amplitude, poll)
                    &&& final(self).disconnected == next_disconnected(old(self).disconnected, poll)
                    &&& warn == warns(old(self).disconnected, poll)
                },
            final(data)@.len() == old(data)@.len(),
            forall|i: int|
                0 <= i < final(data)@.len() ==> synth.ensures(
                    (final(self).amplitude,),
                    #[trigger] final(data)@[i],
                ),
    {
        let warn = self.poll_commands(commands_rx);
        let amplitude = self.amplitude;
        let n = data.len();
        let mut i: usize = 0;
        while i < n
            invariant
                i <= n,
                n == data@.len(),
                amplitude == self.amplitude,
                forall|a: A| synth.requires((a,)),
                forall|k: int| 0 <= k < i ==> synth.ensures((amplitude,), #[trigger] data@[k]),
            decreases n - i,
        {
            data[i] = synth(amplitude);
            i = i + 1;
        }
        warn
    }
}

/// Relies on crossbeam::channel::unbounded: a new channel with no capacity
/// bound, its sending and receiving halves.
#[verifier::external_body]
pub fn commands<A>() -> (Sender<AudioCommand<A>>, Receiver<AudioCommand<A>>) {
    crossbeam::channel::unbounded()
}

/// Relies on crossbeam::channel::Receiver::try_recv: it never blocks, and
/// yields a message, `Empty`, or `Disconnected`.
#[verifier::external_body]
fn try_receive<A>(commands_rx: &Receiver<AudioCommand<A>>) -> CommandPoll<A> {
    match commands_rx.try_recv() {
        Ok(command) => CommandPoll::Command(command),
        Err(crossbeam::channel::TryRecvError::Empty) => CommandPoll::Empty,
        Err(crossbeam::channel::TryRecvError::Disconnected) => CommandPoll::Disconnected,
    }
}

/// Relies on crossbeam::channel::Sender::send: it fails only when every
/// receiver is gone, and on an unbounded channel it does not block.
#[verifier::external_body]
pub(crate) fn send_command<A>(commands_tx: &Sender<AudioCommand<A>>, command: AudioCommand<A>) -> Result<
    (),
    SendError<AudioCommand<A>>,
> {
    commands_tx.send(command)
}

} // verus!
