use vstd::prelude::*;

use crate::common::Packet;
use crate::joystick::Joystick;
use crate::ticks::seconds;

verus! {

/// An `x` reading below this selects the joystick test page.
pub const JOYSTICK_LOW: u16 = 100;

/// An `x` reading above this selects the system page.
pub const JOYSTICK_HIGH: u16 = 600;

/// Life cycle of the device: set up, running, or stopped by a fault.
#[derive(Clone, Copy, Debug, PartialEq, Eq, Structural)]
pub enum State {
    Initializing,
    Running,
    Error,
}

/// The pages of the operator interface.
#[derive(Clone, Copy, Debug, PartialEq, Eq, Structural)]
pub enum Menu {
    Booting,
    Home,
    System,
    Data,
    Monitor,
    JoystickTest,
}

/// The page that the boot page hands over to.
pub const BOOT_TARGET: Menu = Menu::Home;

/// What the active page puts on the display in one iteration.
#[derive(Clone, Copy, Debug, PartialEq, Eq, Structural)]
pub enum Screen {
    /// The splash shown once at boot, followed by the boot delay.
    Splash,
    /// The static menu text of the home page.
    HomeMenu,
    /// The host's CPU and RAM figures.
    Metrics { cpu: u8, ram: u16 },
    /// A status packet arrived; its battery figure is not shown.
    StatusNotShown,
    /// The live joystick axes and the seconds since start.
    JoystickReadout { x: u16, y: u16, seconds: u32 },
    /// Nothing new to show.
    Nothing,
}

/// The device: its life-cycle state, active page and last joystick sample.
#[derive(Debug)]
pub struct System {
    pub state: State,
    pub menu_page: Menu,
    pub joystick: Joystick,
}

/// The page that an `x` reading forces, whatever page is active.
pub open spec fn threshold_target(x: u16) -> Option<Menu> {
    if x < JOYSTICK_LOW {
        Some(Menu::JoystickTest)
    } else if x > JOYSTICK_HIGH {
        Some(Menu::System)
    } else {
        None
    }
}

/// The page that `page`'s own logic moves to when `packet` was decoded this iteration.
pub open spec fn page_target(page: Menu, packet: Option<Packet>) -> Menu {
    match page {
        Menu::Booting => BOOT_TARGET,
        Menu::Home => if packet is Some {
            Menu::System
        } else {
            Menu::Home
        },
        _ => page,
    }
}

/// The next page: a threshold reading of the joystick overrides the page's own logic.
pub open spec fn next_page(page: Menu, x: u16, packet: Option<Packet>) -> Menu {
    match threshold_target(x) {
        Some(target) => target,
        None => page_target(page, packet),
    }
}

/// What `page` shows in an iteration with joystick sample `joy`, decoded `packet` and tick
/// count `ticks`.
pub open spec fn screen_of(page: Menu, joy: Joystick, packet: Option<Packet>, ticks: u32) -> Screen {
    match page {
        Menu::Booting => Screen::Splash,
        Menu::Home => Screen::HomeMenu,
        Menu::System => match packet {
            Some(Packet::Metrics(m)) => Screen::Metrics { cpu: m.cpu, ram: m.ram },
            Some(Packet::Status(_)) => Screen::StatusNotShown,
            None => Screen::Nothing,
        },
        Menu::JoystickTest => Screen::JoystickReadout { x: joy.x, y: joy.y, seconds: ticks / 1000 },
        _ => Screen::Nothing,
    }
}

impl System {
    /// A device that is setting up, on the boot page, with the joystick at rest.
    pub fn init() -> (r: Self)
        ensures
            r.state == State::Initializing,
            r.menu_page == Menu::Booting,
            r.joystick == (Joystick { x: 0, y: 0, pressed: false }),
    {
        System { state: State::Initializing, menu_page: Menu::Booting, joystick: Joystick::init() }
    }

    pub fn set_state(&mut self, state: State)
        ensures
            final(self).state == state,
            final(self).menu_page == old(self).menu_page,
            final(self).joystick == old(self).joystick,
    {
        self.state = state;
    }

    pub fn set_menu_page(&mut self, menu_page: Menu)
        ensures
            final(self).menu_page == menu_page,
            final(self).state == old(self).state,
            final(self).joystick == old(self).joystick,
    {
        self.menu_page = menu_page;
    }

    /// Runs the page logic once: the active page renders what it shows, given the packet
    /// decoded this iteration, if any, and the tick count; then the next page is chosen, the
    /// joystick thresholds taking precedence over the page's own transition.
    pub fn step(&mut self, packet: Option<Packet>, ticks: u32) -> (r: Screen)
        ensures
            r == screen_of(old(self).menu_page, old(self).joystick, packet, ticks),
            final(self).menu_page == next_page(old(self).menu_page, old(self).joystick.x, packet),
            final(self).state == old(self).state,
            final(self).joystick == old(self).joystick,
    {
        let screen: Screen = match self.menu_page {
            Menu::Booting => Screen::Splash,
            Menu::Home => Screen::HomeMenu,
            Menu::System => match packet {
                Some(Packet::Metrics(m)) => Screen::Metrics { cpu: m.cpu, ram: m.ram },
                Some(Packet::Status(_)) => Screen::StatusNotShown,
                None => Screen::Nothing,
            },
            Menu::JoystickTest => Screen::JoystickReadout {
                x: self.joystick.x,
                y: self.joystick.y,
                seconds: seconds(ticks),
            },
            _ => Screen::Nothing,
        };
        let local: Menu = match self.menu_page {
            Menu::Booting => BOOT_TARGET,
            Menu::Home => if packet.is_some() {
                Menu::System
            } else {
                Menu::Home
            },
            _ => self.menu_page,
        };
        let x: u16 = self.joystick.x;
        self.menu_page = if x < JOYSTICK_LOW {
            Menu::JoystickTest
        } else if x > JOYSTICK_HIGH {
            Menu::System
        } else {
            local
        };
        screen
    }
}

/// Stores a new joystick sample in the device's state.
pub fn update_joystick(system: &mut System, x: u16, y: u16, pressed: bool)
    ensures
        final(system).joystick == (Joystick { x, y, pressed }),
        final(system).state == old(system).state,
        final(system).menu_page == old(system).menu_page,
{
    system.joystick.update(x, y, pressed);
}

/// The joystick thresholds come first: from any page, whatever packet arrived, a reading
/// below `JOYSTICK_LOW` moves to the joystick test page and one above `JOYSTICK_HIGH` to the
/// system page.
pub proof fn lemma_threshold_precedence(page: Menu, x: u16, packet: Option<Packet>)
    ensures
        x < JOYSTICK_LOW ==> next_page(page, x, packet) == Menu::JoystickTest,
        x > JOYSTICK_HIGH ==> next_page(page, x, packet) == Menu::System,
{
}

/// The boot page shows its splash in its one iteration and hands over to `BOOT_TARGET`
/// unless a joystick threshold overrides it; no transition ever leads back to it.
pub proof fn lemma_boot_transition(page: Menu, joy: Joystick, packet: Option<Packet>, ticks: u32)
    ensures
        screen_of(Menu::Booting, joy, packet, ticks) == Screen::Splash,
        next_page(Menu::Booting, joy.x, packet) != Menu::Booting,
        threshold_target(joy.x) is None ==> next_page(Menu::Booting, joy.x, packet) == BOOT_TARGET,
        page != Menu::Booting ==> next_page(page, joy.x, packet) != Menu::Booting,
        page != Menu::Booting ==> screen_of(page, joy, packet, ticks) != Screen::Splash,
{
}

} // verus!
