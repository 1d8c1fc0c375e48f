use vstd::prelude::*;
use vstd::string::StringExecFns;

verus! {

/// What an outbound command asks of a relay.
#[derive(Clone, Copy, Debug, PartialEq, Eq, Structural)]
pub enum CommandType {
    Ping,
    Actuator,
    Valve,
}

/// A command for a physical relay: the device addressed, the relay that
/// carries it (empty where the device is addressed directly) and the payload
/// as JSON text.
pub struct Command {
    pub command_type: CommandType,
    pub mac_address: String,
    pub actuator_mac_address: String,
    pub payload: String,
}

/// A command seen as plain values.
pub type CommandV = (CommandType, Seq<char>, Seq<char>, Seq<char>);

impl View for Command {
    type V = CommandV;

    open spec fn view(&self) -> CommandV {
        (self.command_type, self.mac_address@, self.actuator_mac_address@, self.payload@)
    }
}

/// The broadcast liveness command: no addresses, an empty JSON object.
pub fn ping_command() -> (r: Command)
    ensures
        r@ == (CommandType::Ping, Seq::<char>::empty(), Seq::<char>::empty(), "{}"@),
{
    Command {
        command_type: CommandType::Ping,
        mac_address: String::new(),
        actuator_mac_address: String::new(),
        payload: <String as StringExecFns>::from_str("{}"),
    }
}

} // verus!
