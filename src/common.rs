use vstd::prelude::*;

verus! {

/// Wire tag of a `Packet::Metrics` frame.
pub const PACKET_METRICS: u8 = 0x01;

/// Wire tag of a `Packet::Status` frame.
pub const PACKET_STATUS: u8 = 0x02;

/// Life cycle of the controller: set up, running, or stopped by a fault.
#[derive(Clone, Copy, Debug, PartialEq, Eq, Structural)]
pub enum ArduinoState {
    Initializing,
    Running,
    Error,
}

/// The pages of the operator interface.
#[derive(Clone, Copy, Debug, PartialEq, Eq, Structural)]
pub enum ArduinoMenu {
    Booting,
    Home,
    System,
    Data,
    Monitor,
    JoystickTest,
}

/// Controller state shared by the host and the device.
#[derive(Debug)]
pub struct ArduinoSystem {
    pub state: ArduinoState,
    pub menu_page: ArduinoMenu,
}

impl ArduinoSystem {
    /// A controller that is setting up and shows the boot page.
    pub fn init() -> (r: Self)
        ensures
            r.state == ArduinoState::Initializing,
            r.menu_page == ArduinoMenu::Booting,
    {
        ArduinoSystem { state: ArduinoState::Initializing, menu_page: ArduinoMenu::Booting }
    }

    pub fn set_state(&mut self, state: ArduinoState)
        ensures
            final(self).state == state,
            final(self).menu_page == old(self).menu_page,
    {
        self.state = state;
    }

    pub fn set_menu_page(&mut self, menu_page: ArduinoMenu)
        ensures
            final(self).menu_page == menu_page,
            final(self).state == old(self).state,
    {
        self.menu_page = menu_page;
    }
}

/// Host load figures: CPU use in percent and RAM in use.
#[derive(Clone, Copy, Debug, PartialEq, Eq, Structural)]
pub struct Metrics {
    pub cpu: u8,
    pub ram: u16,
}

/// Device status: battery level and LED state.
#[derive(Clone, Copy, Debug, PartialEq, Eq, Structural)]
pub struct Status {
    pub battery: u8,
    pub led_on: bool,
}

/// One message of the serial protocol.
#[derive(Clone, Copy, Debug, PartialEq, Eq, Structural)]
pub enum Packet {
    Metrics(Metrics),
    Status(Status),
}

} // verus!
