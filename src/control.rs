use vstd::prelude::*;
use vstd::std_specs::cmp::PartialEqSpec;

use crossbeam::channel::Sender;

use crate::audio::{send_command, AudioCommand, ChannelClosed};
use crate::parameter::Parameter;

verus! {

/// The command a parameter calls for: its current value when that differs
/// from the previous one, nothing otherwise.
pub open spec fn pending_command<A: Copy + PartialEq>(p: Parameter<A>) -> Option<AudioCommand<A>> {
    if p.changed() {
        Some(AudioCommand::SetAmplitude(p.current()))
    } else {
        None
    }
}

/// The control side of the amplitude protocol: it takes a raw reading every
/// tick and forwards it to the audio callback only when it changed.
#[verifier::reject_recursive_types(A)]
pub struct Controls<A> {
    amplitude: Parameter<A>,
    commands_tx: Sender<AudioCommand<A>>,
}

impl<A: Copy + PartialEq> Controls<A> {
    /// The cell holding the latest reading and the one before it.
    pub closed spec fn parameter(&self) -> Parameter<A> {
        self.amplitude
    }

    /// The latest reading.
    pub fn amplitude(&self) -> (r: A)
        ensures
            r == self.parameter().current(),
    {
        self.amplitude.get()
    }

    pub fn new(initial: A, commands_tx: Sender<AudioCommand<A>>) -> (r: Self)
        ensures
            r.parameter().current() == initial,
            r.parameter().previous() == initial,
    {
        Controls { amplitude: Parameter::new(initial), commands_tx }
    }

    /// The command that the latest reading calls for: the new amplitude when it
    /// differs from the reading before it, nothing otherwise.
    pub fn command_for(&self) -> (c: Option<AudioCommand<A>>)
        ensures
            A::obeys_eq_spec() ==> c == pending_command(self.parameter()),
    {
        if self.amplitude.has_changed() {
            Some(AudioCommand::SetAmplitude(self.amplitude.get()))
        } else {
            None
        }
    }

    /// Records `reading` and sends the command it calls for, if any, to the
    /// audio callback. Returns whether a command went out; a closed channel
    /// means the audio side has stopped.
    pub fn update(&mut self, reading: A) -> (r: Result<bool, ChannelClosed>)
        ensures
            final(self).parameter().current() == reading,
            final(self).parameter().previous() == old(self).parameter().current(),
            A::obeys_eq_spec() ==> (pending_command(final(self).parameter()) is None <==> r
                == Ok::<bool, ChannelClosed>(false)),
            r != Ok::<bool, ChannelClosed>(false) ==> r == Ok::<bool, ChannelClosed>(true) || r
                == Err::<bool, ChannelClosed>(ChannelClosed),
    {
        self.amplitude.set(reading);
        match self.command_for() {
            Some(command) => match send_command(&self.commands_tx, command) {
                Ok(()) => Ok(true),
                Err(_) => Err(ChannelClosed),
            },
            None => Ok(false),
        }
    }
}

} // verus!
