//! The life of a drone: which inbox it serves next, what it does with what
//! it finds there, and when it stops.
//!
//! The caller owns the two inboxes and runs the loop. It asks
//! [`SkyLinkDrone::poll`] what to do, takes one command or packet out of the
//! inbox named, hands it to [`SkyLinkDrone::step`] and carries out the
//! actions that come back.

use vstd::prelude::*;
use crate::check_packet::{draw_below, HUNDRED};
use crate::drone::{
    accepts, accepts_crashing, after_command, after_packet, drained, draws, handled,
    resubmitted, views, Action, ActionView, DroneCommand, DroneState, SkyLinkDrone,
};
use crate::error::{nack_for, nacked_fragment};
use crate::links::{lemma_linked, lemma_unlinked};
use crate::packet::{Nack, NackType, Packet, PacketTypeView, PacketView};

verus! {

/// What the caller finds in an inbox.
#[derive(Clone, Copy, Debug, PartialEq, Eq, Structural)]
pub enum Inbox {
    /// Nothing waits, but something may still come.
    Empty,
    /// Something waits.
    Pending,
    /// Nothing waits and nothing will come.
    Closed,
}

/// What the caller is to do next.
#[derive(Clone, Copy, Debug, PartialEq, Eq, Structural)]
pub enum Next {
    /// Take one command and hand it to the drone.
    Command,
    /// Take one packet and hand it to the drone.
    Packet,
    /// Wait until something arrives.
    Wait,
    /// Leave the loop: the drone has stopped.
    Stop,
}

/// What the caller took out of an inbox.
#[derive(Debug, PartialEq, Eq)]
pub enum Input {
    Command(DroneCommand),
    Packet(Packet),
}

/// The model of an [`Input`].
pub ghost enum InputView {
    Command(DroneCommand),
    Packet(PacketView),
}

impl View for Input {
    type V = InputView;

    open spec fn view(&self) -> InputView {
        match *self {
            Input::Command(c) => InputView::Command(c),
            Input::Packet(p) => InputView::Packet(p@),
        }
    }
}

/// Which inbox is served next.
///
/// A drone that is not crashing serves a waiting command before a waiting
/// packet and waits when neither waits: it never stops, whatever becomes of
/// its inboxes. A crashing drone reads no command: it serves the packets
/// that wait and stops when none does.
pub open spec fn polled(drone: DroneState, commands: Inbox, packets: Inbox) -> Next {
    if drone.crashing {
        if packets == Inbox::Pending {
            Next::Packet
        } else {
            Next::Stop
        }
    } else if commands == Inbox::Pending {
        Next::Command
    } else if packets == Inbox::Pending {
        Next::Packet
    } else {
        Next::Wait
    }
}

/// The drone can handle `input` in the state it is in.
pub open spec fn admits(drone: DroneState, input: InputView) -> bool {
    match input {
        InputView::Command(_) => true,
        InputView::Packet(packet) => if drone.crashing {
            accepts_crashing(drone, packet)
        } else {
            accepts(drone, packet)
        },
    }
}

/// What the drone does with `input`, where `draw` is the number drawn for
/// it. A command yields nothing to do.
pub open spec fn stepped(drone: DroneState, input: InputView, draw: u32) -> Seq<ActionView> {
    match input {
        InputView::Command(_) => Seq::empty(),
        InputView::Packet(packet) => if drone.crashing {
            drained(drone, packet)
        } else {
            handled(drone, packet, draw)
        },
    }
}

/// The state after `input`. A crashing drone takes no command and keeps no
/// record of a packet.
pub open spec fn after_input(drone: DroneState, input: InputView) -> DroneState {
    if drone.crashing {
        drone
    } else {
        match input {
            InputView::Command(command) => after_command(drone, command),
            InputView::Packet(packet) => after_packet(drone, packet),
        }
    }
}

/// Whether a number is drawn for `input`.
pub open spec fn draws_on(drone: DroneState, input: InputView) -> bool {
    input matches InputView::Packet(packet) && !drone.crashing && !packet.is_flood_request()
        && draws(drone, packet)
}

impl SkyLinkDrone {
    /// Says which inbox the caller is to serve next, or whether to wait or to
    /// stop.
    pub fn poll(&self, commands: Inbox, packets: Inbox) -> (next: Next)
        ensures
            next == polled(self@, commands, packets),
    {
        if self.is_crashing() {
            if packets == Inbox::Pending {
                Next::Packet
            } else {
                Next::Stop
            }
        } else if commands == Inbox::Pending {
            Next::Command
        } else if packets == Inbox::Pending {
            Next::Packet
        } else {
            Next::Wait
        }
    }

    /// Whether the drone can handle `input` in the state it is in: every
    /// command, and every packet that the drone accepts as it is, crashing
    /// or not.
    pub fn can_take(&self, input: &Input) -> (ok: bool)
        ensures
            ok == admits(self@, input@),
    {
        match input {
            Input::Command(_) => true,
            Input::Packet(packet) => if self.is_crashing() {
                self.accepts_crashing(packet)
            } else {
                self.accepts(packet)
            },
        }
    }

    /// Handles one command or packet, with `draw` as the number drawn for
    /// it, and says what the caller is to do.
    pub fn step_with(&mut self, input: Input, draw: u32) -> (actions: Vec<Action>)
        requires
            admits(old(self)@, input@),
        ensures
            views(actions@) == stepped(old(self)@, input@, draw),
            final(self)@ == after_input(old(self)@, input@),
            final(self)@.well_formed(),
    {
        match input {
            Input::Command(command) => {
                if !self.is_crashing() {
                    self.handle_command(command);
                } else {
                    self.recall_links();
                }
                let actions: Vec<Action> = Vec::new();
                assert(views(actions@) =~= Seq::empty());
                actions
            },
            Input::Packet(packet) => {
                if self.is_crashing() {
                    self.crashing_handle_packet(packet)
                } else {
                    self.handle_packet_with(packet, draw)
                }
            },
        }
    }

    /// Handles one command or packet and says what the caller is to do. A
    /// number under 100 is drawn for a fragment that comes as far as the
    /// check of the drop rate.
    ///
    /// What is done is what [`SkyLinkDrone::step_with`] does for some number
    /// under 100, and for 0 where no number is drawn or the drop rate is 0
    /// or at least 100 hundredths.
    pub fn step(&mut self, input: Input) -> (actions: Vec<Action>)
        requires
            admits(old(self)@, input@),
        ensures
            exists|draw: u32|
                draw < 100 && views(actions@) == #[trigger] stepped(old(self)@, input@, draw),
            !draws_on(old(self)@, input@) || old(self)@.drop_rate == 0 || old(self)@.drop_rate
                >= 100 ==> views(actions@) == stepped(old(self)@, input@, 0),
            final(self)@ == after_input(old(self)@, input@),
            final(self)@.well_formed(),
    {
        let draw: u32 = if self.draws_on(&input) {
            draw_below(HUNDRED)
        } else {
            0
        };
        let ghost before = self@;
        let ghost given = input@;
        let actions = self.step_with(input, draw);
        assert(views(actions@) == stepped(before, given, draw));
        actions
    }

    /// Whether a number is drawn for `input`.
    fn draws_on(&self, input: &Input) -> (drawn: bool)
        requires
            admits(self@, input@),
        ensures
            drawn == draws_on(self@, input@),
    {
        match input {
            Input::Command(_) => false,
            Input::Packet(packet) => !self.is_crashing() && !packet.is_flood_request()
                && self.draws_for(packet),
        }
    }
}

/// Whatever arrives, a drone keeps its id, stays crashing once it crashes,
/// forgets no flood, and links no neighbour twice.
pub proof fn state_only_grows(drone: DroneState, input: InputView)
    requires
        drone.well_formed(),
    ensures
        after_input(drone, input).id == drone.id,
        drone.crashing ==> after_input(drone, input).crashing,
        drone.seen_floods.subset_of(after_input(drone, input).seen_floods),
        after_input(drone, input).well_formed(),
{
    if let InputView::Command(command) = input {
        match command {
            DroneCommand::AddSender(id) => lemma_linked(drone.links, id),
            DroneCommand::RemoveSender(id) => lemma_unlinked(drone.links, id),
            _ => {},
        }
    }
}

/// Once a drone has been told to crash, whatever state it was in, it never
/// forwards a fragment and never touches a flood request: the fragment is
/// answered with a negative acknowledgement that names the drone as
/// unreachable, and the flood request is discarded. Neither leaves a mark.
pub proof fn crash_drains(before: DroneState, packet: PacketView, draw: u32)
    ensures
        ({
            let drone = after_input(before, InputView::Command(DroneCommand::Crash));
            let nack = nack_for(drone.id, packet, NackType::ErrorInRouting(drone.id));
            &&& drone.crashing
            &&& packet.is_fragment() ==> {
                &&& stepped(drone, InputView::Packet(packet), draw) == seq![
                    resubmitted(drone, nack),
                ]
                &&& !(resubmitted(drone, nack) is Forward)
                &&& nack.pack_type == PacketTypeView::Nack(
                    Nack {
                        fragment_index: nacked_fragment(packet),
                        nack_type: NackType::ErrorInRouting(drone.id),
                    },
                )
            }
            &&& packet.is_flood_request() ==> stepped(drone, InputView::Packet(packet), draw)
                == Seq::<ActionView>::empty()
            &&& after_input(drone, InputView::Packet(packet)) == drone
        }),
{
}

} // verus!
