//! Status lamp of a half: blinks at one hertz while there is no link, dark once
//! there is, and dark while the keyboard sleeps.

use vstd::prelude::*;

use crate::connection::{BleState, ConnectionStatus, UsbState};

verus! {

/// No link, radio idle.
pub const ST_IDLE: u8 = 0;

/// No link, searching.
pub const ST_ADV: u8 = 1;

/// Linked.
pub const ST_CONN: u8 = 2;

/// Lit part of a blink, in ticks.
pub const SLOW_ON_TICKS: u8 = 10;

/// Length of a blink, in ticks.
pub const SLOW_CYCLE_TICKS: u8 = 20;

/// Length of a tick.
pub const TICK_MS: u64 = 50;

/// Time between two looks while the keyboard sleeps.
pub const SLEEP_CHECK_MS: u64 = 500;

/// Brightness of a blink, a notch under full.
pub const BLINK_LEVEL: u8 = 240;

/// Duty at full brightness.
pub const MAX_DUTY: u16 = 1000;

/// Link status. It starts as searching, which the first event corrects.
#[derive(Debug, Clone, Copy, PartialEq, Eq, Structural)]
pub struct LinkState {
    pub state: u8,
}

impl LinkState {
    /// One of the three states.
    pub open spec fn wf(self) -> bool {
        self.state == ST_IDLE || self.state == ST_ADV || self.state == ST_CONN
    }

    /// Searching.
    pub fn new() -> (r: Self)
        ensures
            r.state == ST_ADV,
            r.wf(),
    {
        LinkState { state: ST_ADV }
    }
}

/// Current link status.
pub fn link_state(link: &LinkState) -> (r: u8)
    ensures
        r == link.state,
{
    link.state
}

/// The link to the host that a status stands for: a live USB leg is a link whatever
/// the radio does, otherwise the radio tells. That the radio advertises counts as
/// searching, so that the lamp blinks during pairing.
pub open spec fn host_link(status: ConnectionStatus) -> u8 {
    if status.usb is Configured || status.usb is Suspended {
        ST_CONN
    } else {
        match status.ble_state {
            BleState::Advertising => ST_ADV,
            BleState::Connected => ST_CONN,
            BleState::Inactive => ST_IDLE,
        }
    }
}

/// Takes over the link to the host.
pub fn note_status(link: &mut LinkState, status: &ConnectionStatus)
    ensures
        final(link).state == host_link(*status),
        final(link).wf(),
{
    let usb_up: bool = match status.usb {
        UsbState::Configured => true,
        UsbState::Suspended => true,
        _ => false,
    };
    link.state = if usb_up {
        ST_CONN
    } else {
        match status.ble_state {
            BleState::Advertising => ST_ADV,
            BleState::Connected => ST_CONN,
            BleState::Inactive => ST_IDLE,
        }
    };
}

/// Takes over the link to the other side of the split.
pub fn note_central(link: &mut LinkState, connected: bool)
    ensures
        final(link).state == if connected {
            ST_CONN
        } else {
            ST_ADV
        },
        final(link).wf(),
{
    link.state = if connected {
        ST_CONN
    } else {
        ST_ADV
    };
}

/// Settings of the lamp's pulse width modulation.
#[derive(Debug, Clone, Copy, PartialEq, Eq, Structural)]
pub struct PwmConfig {
    pub max_duty: u16,
}

/// The lamp counts its duty in thousandths.
pub fn pwm_config() -> (r: PwmConfig)
    ensures
        r.max_duty == MAX_DUTY,
{
    PwmConfig { max_duty: MAX_DUTY }
}

/// The duty of a level: proportional, rounded to the nearest.
pub open spec fn duty_of(level: u8) -> int {
    (level * MAX_DUTY + 127) / 255
}

/// A lamp on pulse width modulation `P`.
pub struct StatusLed<P> {
    pub pwm: P,
}

impl<P> StatusLed<P> {
    pub fn new(pwm: P) -> (r: Self)
        ensures
            r.pwm == pwm,
    {
        StatusLed { pwm }
    }

    /// The duty to set for a level, 0 for off to 255 for full.
    pub fn set_level(&self, level: u8) -> (duty: u16)
        ensures
            duty == duty_of(level),
            duty <= MAX_DUTY,
    {
        ((level as u32 * 1000 + 127) / 255) as u16
    }
}

/// What the lamp does next.
#[derive(Debug, Clone, Copy, PartialEq, Eq, Structural)]
pub struct LedStep {
    /// Level to set.
    pub level: u8,
    /// Tick of the next look.
    pub tick: u8,
    /// Time until then.
    pub pause_ms: u64,
}

/// Level of the lamp at a tick.
pub open spec fn level_at(state: u8, tick: u8) -> u8 {
    if state != ST_CONN && tick % SLOW_CYCLE_TICKS < SLOW_ON_TICKS {
        BLINK_LEVEL
    } else {
        0
    }
}

/// The tick that follows: ticks count within a blink.
pub open spec fn tick_after(tick: u8) -> u8 {
    ((tick + 1) % SLOW_CYCLE_TICKS as int) as u8
}

/// One look of the lamp at the state of things. Sleep holds the tick.
pub fn led_step(sleeping: bool, link: &LinkState, tick: u8) -> (r: LedStep)
    ensures
        r == if sleeping {
            LedStep { level: 0, tick, pause_ms: SLEEP_CHECK_MS }
        } else {
            LedStep {
                level: level_at(link.state, tick),
                tick: tick_after(tick),
                pause_ms: TICK_MS,
            }
        },
{
    if sleeping {
        return LedStep { level: 0, tick, pause_ms: SLEEP_CHECK_MS };
    }
    let level: u8 = if link_state(link) == ST_CONN {
        0
    } else if tick % SLOW_CYCLE_TICKS < SLOW_ON_TICKS {
        BLINK_LEVEL
    } else {
        0
    };
    let next: u8 = ((tick as u16 + 1) % SLOW_CYCLE_TICKS as u16) as u8;
    LedStep { level, tick: next, pause_ms: TICK_MS }
}

/// A lamp that is linked is dark at every tick.
pub proof fn law_linked_lamp_is_dark(tick: u8)
    ensures
        level_at(ST_CONN, tick) == 0,
{
}

/// The tick after `n` looks that found the keyboard awake, from the start on.
pub open spec fn tick_at(n: nat) -> u8
    decreases n,
{
    if n == 0 {
        0
    } else {
        tick_after(tick_at((n - 1) as nat))
    }
}

/// Without a link the lamp blinks at a steady hertz for as long as it runs: look
/// `n`, counted from 0, is lit in the first half of every second and dark in the
/// second.
pub proof fn law_blink_is_one_hertz(state: u8, n: nat)
    requires
        state != ST_CONN,
    ensures
        tick_at(n) == n % 20,
        level_at(state, (n % 20) as u8) == if n % 20 < 10 {
            BLINK_LEVEL
        } else {
            0
        },
        level_at(state, tick_at(n)) == if n % 20 < 10 {
            BLINK_LEVEL
        } else {
            0
        },
        SLOW_CYCLE_TICKS * TICK_MS == 1000,
    decreases n,
{
    if n > 0 {
        law_blink_is_one_hertz(state, (n - 1) as nat);
    }
}

/// Off is dark, full is the whole duty, and a higher level is never darker.
pub proof fn law_brighter_levels_have_more_duty(low: u8, high: u8)
    requires
        low <= high,
    ensures
        duty_of(0) == 0,
        duty_of(255) == MAX_DUTY,
        duty_of(low) <= duty_of(high),
{
}

/// Pairing blinks: a radio that advertises, with no USB leg up, is not a link.
pub proof fn law_pairing_is_not_a_link(status: ConnectionStatus)
    requires
        status.ble_state is Advertising,
        !status.usb_ready(),
    ensures
        host_link(status) == ST_ADV,
        status.active() is None,
{
}

/// One look of the lamp: dark while the keyboard sleeps, with the tick held and half a
/// second to the next look; dark while linked; without a link lit in the first ten of
/// twenty ticks, whatever kind of no link it is. Awake, the ticks go round twenty, a
/// twentieth of a second each.
pub proof fn law_looks_of_the_lamp(sleeping: bool, link: LinkState, tick: u8, r: LedStep)
    requires
        call_ensures(led_step, (sleeping, &link, tick), r),
    ensures
        sleeping ==> r.level == 0 && r.tick == tick && r.pause_ms == 500,
        !sleeping ==> r.pause_ms == 50 && r.tick < 20 && (r.tick - tick - 1) % 20 == 0,
        !sleeping && link.state == 2 ==> r.level == 0,
        !sleeping && link.state != 2 ==> r.level == if (tick as int) % 20 < 10 {
            240
        } else {
            0int
        },
{
}

/// A lamp without a link is lit and dark in turn, ten ticks each: ten looks later it
/// is the other way round, and twenty later the same again.
pub proof fn law_lamp_changes_every_half_second(
    link: LinkState,
    tick: u8,
    now: LedStep,
    half: LedStep,
    full: LedStep,
)
    requires
        link.state != 2,
        tick < 20,
        call_ensures(led_step, (false, &link, tick), now),
        call_ensures(led_step, (false, &link, (tick + 10) as u8), half),
        call_ensures(led_step, (false, &link, (tick + 20) as u8), full),
    ensures
        (now.level == 0) != (half.level == 0),
        full.level == now.level,
        full.tick == now.tick,
{
}

/// A configured or suspended USB leg is a link, whatever the radio does. Otherwise a
/// connected radio is one, an advertising radio is a search, and an idle one neither.
/// What is noted is what is read.
pub proof fn law_link_to_the_host(link: &mut LinkState, status: ConnectionStatus, r: u8)
    requires
        call_ensures(note_status, (link, &status), ()),
        call_ensures(link_state, (&*final(link),), r),
    ensures
        r == 2 <==> status.usb is Configured || status.usb is Suspended
            || status.ble_state is Connected,
        r == 1 <==> !(status.usb is Configured) && !(status.usb is Suspended)
            && status.ble_state is Advertising,
        r == 0 <==> !(status.usb is Configured) && !(status.usb is Suspended)
            && status.ble_state is Inactive,
{
}

/// A half is linked while the receiver is there and searches while it is not; it
/// starts out searching.
pub proof fn law_link_to_the_receiver(link: &mut LinkState, connected: bool, r: u8, start: LinkState)
    requires
        call_ensures(note_central, (link, connected), ()),
        call_ensures(link_state, (&*final(link),), r),
        call_ensures(LinkState::new, (), start),
    ensures
        connected ==> r == 2,
        !connected ==> r == 1,
        start.state == 1,
{
}

/// The lamp is as bright as its level: the duty is the level's share of the whole,
/// rounded to the nearest thousandth.
pub proof fn law_duty_is_in_proportion<P>(led: StatusLed<P>, level: u8, duty: u16, config: PwmConfig)
    requires
        call_ensures(StatusLed::<P>::set_level, (&led, level), duty),
        call_ensures(pwm_config, (), config),
    ensures
        config.max_duty == 1000,
        -127 <= duty * 255 - level * config.max_duty <= 127,
{
}

} // verus!
