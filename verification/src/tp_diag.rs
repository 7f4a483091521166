//! Diagnostic counters of the pointing stick.
//!
//! The half that carries the stick has no debug probe, so "it does nothing" cannot
//! tell a dead bus from a wrong header, a missing motion edge, or an event lost on
//! the way to the host. The driver counts at each decision. No edges: wrong pin or
//! polarity. No reads but errors: address, pull-ups or wiring. Bad headers: the
//! bridge answers, in another layout. Events but no motion: the fault is further on.

use vstd::prelude::*;

use crate::bytes;
use crate::bytes::to_signed;

verus! {

/// Counters, which wrap, and the last raw bytes seen.
#[derive(Debug, Clone, Copy, PartialEq, Eq, Structural)]
pub struct TpStats {
    /// The motion line pulsed. Where the stick is read on a timer, its ticks.
    pub n_irq: u32,
    /// A read completed.
    pub n_read: u32,
    /// A read failed.
    pub n_err: u32,
    /// A packet had the wrong header.
    pub n_bad: u32,
    /// Header of the last such packet.
    pub last_bad_b0: u32,
    /// Events published.
    pub n_pub: u32,
    /// First two bytes of the last packet.
    pub last_b0: u32,
    pub last_b1: u32,
    /// Raw displacement of the last good packet, before the deadzone.
    pub last_dx: u32,
    pub last_dy: u32,
}

impl TpStats {
    /// All zero.
    pub fn new() -> (r: Self)
        ensures
            r == (TpStats {
                n_irq: 0,
                n_read: 0,
                n_err: 0,
                n_bad: 0,
                last_bad_b0: 0,
                n_pub: 0,
                last_b0: 0,
                last_b1: 0,
                last_dx: 0,
                last_dy: 0,
            }),
    {
        TpStats {
            n_irq: 0,
            n_read: 0,
            n_err: 0,
            n_bad: 0,
            last_bad_b0: 0,
            n_pub: 0,
            last_b0: 0,
            last_b1: 0,
            last_dx: 0,
            last_dy: 0,
        }
    }
}

fn get(c: &u32) -> (r: u32)
    ensures
        r == *c,
{
    *c
}

/// Pulses of the motion line so far.
pub fn n_irq(tp: &TpStats) -> (r: u32)
    ensures
        r == tp.n_irq,
{
    get(&tp.n_irq)
}

/// Reads that completed so far.
pub fn n_read(tp: &TpStats) -> (r: u32)
    ensures
        r == tp.n_read,
{
    get(&tp.n_read)
}

/// Reads that failed so far.
pub fn n_err(tp: &TpStats) -> (r: u32)
    ensures
        r == tp.n_err,
{
    get(&tp.n_err)
}

/// Packets with a wrong header so far.
pub fn n_bad(tp: &TpStats) -> (r: u32)
    ensures
        r == tp.n_bad,
{
    get(&tp.n_bad)
}

/// Header of the last packet with a wrong one.
pub fn last_bad_b0(tp: &TpStats) -> (r: u32)
    ensures
        r == tp.last_bad_b0,
{
    get(&tp.last_bad_b0)
}

/// Events published so far.
pub fn n_pub(tp: &TpStats) -> (r: u32)
    ensures
        r == tp.n_pub,
{
    get(&tp.n_pub)
}

/// Byte 0 of the last packet.
pub fn last_b0(tp: &TpStats) -> (r: u32)
    ensures
        r == tp.last_b0,
{
    get(&tp.last_b0)
}

/// Byte 1 of the last packet.
pub fn last_b1(tp: &TpStats) -> (r: u32)
    ensures
        r == tp.last_b1,
{
    get(&tp.last_b1)
}

/// Raw x displacement of the last good packet, as a signed value.
pub fn last_dx(tp: &TpStats) -> (r: i8)
    ensures
        r == bytes::signed((tp.last_dx % 256) as u8),
{
    to_signed((get(&tp.last_dx) % 256) as u8)
}

/// Raw y displacement of the last good packet, as a signed value.
pub fn last_dy(tp: &TpStats) -> (r: i8)
    ensures
        r == bytes::signed((tp.last_dy % 256) as u8),
{
    to_signed((get(&tp.last_dy) % 256) as u8)
}

/// A displacement that is stored comes back as it was.
pub proof fn law_displacements_survive_storage(d: i8)
    ensures
        bytes::signed((bytes::widened(d as int) % 256) as u8) == d,
{
}

/// Every counter is told as it stands, and none for another.
pub proof fn law_counters_are_told(
    tp: TpStats,
    irq: u32,
    read: u32,
    err: u32,
    bad: u32,
    bad_b0: u32,
    published: u32,
    b0: u32,
    b1: u32,
)
    requires
        call_ensures(n_irq, (&tp,), irq),
        call_ensures(n_read, (&tp,), read),
        call_ensures(n_err, (&tp,), err),
        call_ensures(n_bad, (&tp,), bad),
        call_ensures(last_bad_b0, (&tp,), bad_b0),
        call_ensures(n_pub, (&tp,), published),
        call_ensures(last_b0, (&tp,), b0),
        call_ensures(last_b1, (&tp,), b1),
    ensures
        tp == (TpStats {
            n_irq: irq,
            n_read: read,
            n_err: err,
            n_bad: bad,
            last_bad_b0: bad_b0,
            n_pub: published,
            last_b0: b0,
            last_b1: b1,
            last_dx: tp.last_dx,
            last_dy: tp.last_dy,
        }),
{
}

/// A displacement is told from the low byte of what is stored, in two's complement,
/// each axis from its own.
pub proof fn law_displacements_are_told_per_axis(tp: TpStats, dx: i8, dy: i8)
    requires
        call_ensures(last_dx, (&tp,), dx),
        call_ensures(last_dy, (&tp,), dy),
    ensures
        (dx - tp.last_dx) % 256 == 0,
        (dy - tp.last_dy) % 256 == 0,
{
}

} // verus!
