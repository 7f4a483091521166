//! Transport transitions on a tape, and whether the USB cable is plugged.
//!
//! The tape holds eight transitions, one nibble each, the newest in the low bits.
//! A lag that begins after idle seconds on the USB leg reads as a suspend before
//! the keystroke and a resume only after it. The tape follows the transport in
//! use; the snapshot beside it follows the USB leg itself, which the radio can
//! shadow.

use vstd::prelude::*;

use crate::connection::{decide_active, BleState, ConnectionStatus, ConnectionType, UsbState};
use crate::label;
use crate::label::label_push;

verus! {

/// USB is in use.
pub const USB_ON: u32 = 1;

/// USB is in use and suspended.
pub const USB_SUSPENDED: u32 = 2;

/// The radio is in use.
pub const BLE_CONNECTED: u32 = 3;

/// No transport is in use and the radio advertises.
pub const BLE_ADVERTISING: u32 = 4;

/// No transport is in use, nor sought.
pub const INACTIVE: u32 = 5;

/// The tape and the state of the USB leg.
#[derive(Debug, Clone, Copy, PartialEq, Eq, Structural)]
pub struct UsbDiag {
    pub tape: u32,
    /// 0 disconnected, 1 plugged, 2 plugged and suspended.
    pub usb_now: u8,
}

/// Transition `i` on the tape, counted from the newest; 0 is an untouched slot.
pub open spec fn slot(tape: u32, i: int) -> u32 {
    (tape >> ((4 * i) as u32)) & 0xF
}

impl UsbDiag {
    /// Nothing recorded, nothing plugged.
    pub fn new() -> (r: Self)
        ensures
            r == (UsbDiag { tape: 0, usb_now: 0 }),
    {
        UsbDiag { tape: 0, usb_now: 0 }
    }
}

/// Whether the USB cable is plugged; a suspended leg is.
pub fn usb_connected(diag: &UsbDiag) -> (r: bool)
    ensures
        r == (diag.usb_now != 0),
{
    diag.usb_now != 0
}

/// Puts a transition on the tape; the oldest one drops off.
pub fn record(diag: &mut UsbDiag, code: u32)
    requires
        code <= 0xF,
    ensures
        final(diag).usb_now == old(diag).usb_now,
        slot(final(diag).tape, 0) == code,
        forall|i: int|
            0 <= i < 7 ==> slot(final(diag).tape, i + 1) == #[trigger] slot(old(diag).tape, i),
{
    let v: u32 = diag.tape;
    diag.tape = (v << 4) | code;
    proof {
        assert((((v << 4) | code) >> 0u32) & 0xF == code) by (bit_vector)
            requires
                code <= 0xF,
        ;
        assert forall|i: int| 0 <= i < 7 implies slot(diag.tape, i + 1) == #[trigger] slot(v, i) by {
            let k = (4 * i) as u32;
            assert(k <= 24 ==> (((v << 4) | code) >> ((k + 4) as u32)) & 0xF == (v >> k) & 0xF)
                by (bit_vector)
                requires
                    code <= 0xF,
            ;
            assert((4 * (i + 1)) as u32 == (k + 4) as u32);
        }
    }
}

/// The mark of a transition: '+' USB, 's' suspended, '-' anything else, '?' none.
pub open spec fn mark_of(code: u32) -> char {
    if code == USB_ON {
        '+'
    } else if code == USB_SUSPENDED {
        's'
    } else if code == 0 {
        '?'
    } else {
        '-'
    }
}

/// Mark of the newest transition, which is the current state.
pub fn usb_mark(diag: &UsbDiag) -> (r: char)
    ensures
        r == mark_of(slot(diag.tape, 0)),
{
    let v: u32 = diag.tape;
    assert(v & 0xF == (v >> 0u32) & 0xF) by (bit_vector);
    let newest: u32 = v & 0xF;
    if newest == USB_ON {
        '+'
    } else if newest == USB_SUSPENDED {
        's'
    } else if newest == 0 {
        '?'
    } else {
        '-'
    }
}

/// The letter of a transition; an untouched slot has none.
pub open spec fn letter_of(code: u32) -> Option<char> {
    if code == USB_ON {
        Some('u')
    } else if code == USB_SUSPENDED {
        Some('s')
    } else if code == BLE_CONNECTED {
        Some('b')
    } else if code == BLE_ADVERTISING {
        Some('a')
    } else if code == INACTIVE {
        Some('x')
    } else {
        None
    }
}

fn letter(code: u32) -> (r: Option<char>)
    ensures
        r == letter_of(code),
{
    if code == USB_ON {
        Some('u')
    } else if code == USB_SUSPENDED {
        Some('s')
    } else if code == BLE_CONNECTED {
        Some('b')
    } else if code == BLE_ADVERTISING {
        Some('a')
    } else if code == INACTIVE {
        Some('x')
    } else {
        None
    }
}

/// `chars` with the letters of the `n` newest transitions appended, newest first,
/// as far as they fit.
pub open spec fn with_letters(chars: Seq<char>, tape: u32, n: int) -> Seq<char>
    decreases n,
{
    if n <= 0 {
        chars
    } else {
        let before = with_letters(chars, tape, n - 1);
        match letter_of(slot(tape, n - 1)) {
            Some(c) => if label::fits(before.push(c)) {
                before.push(c)
            } else {
                before
            },
            None => before,
        }
    }
}

/// Appends the tape to `out`, newest transition first.
pub fn snapshot(diag: &UsbDiag, out: &mut heapless::String<8>)
    ensures
        label::label_chars(*final(out)) == with_letters(label::label_chars(*old(out)), diag.tape, 8),
{
    let v: u32 = diag.tape;
    for i in 0..8u32
        invariant
            v == diag.tape,
            label::label_chars(*out) == with_letters(
                label::label_chars(*old(out)),
                diag.tape,
                i as int,
            ),
    {
        match letter((v >> (4 * i)) & 0xF) {
            Some(c) => {
                label_push(out, c);
            },
            None => {},
        }
    }
}

/// The code of the USB leg in the snapshot.
pub open spec fn usb_code(usb: UsbState) -> u8 {
    match usb {
        UsbState::Disabled => 0,
        UsbState::Suspended => 2,
        _ => 1,
    }
}

/// The transition that a status stands for.
pub open spec fn transition(status: ConnectionStatus) -> u32 {
    match status.active() {
        Some(ConnectionType::Usb) => if status.usb is Suspended {
            USB_SUSPENDED
        } else {
            USB_ON
        },
        Some(ConnectionType::Ble) => BLE_CONNECTED,
        None => if status.ble_state is Advertising {
            BLE_ADVERTISING
        } else {
            INACTIVE
        },
    }
}

/// Takes over a change of the connection status.
pub fn on_status(diag: &mut UsbDiag, status: ConnectionStatus)
    ensures
        final(diag).usb_now == usb_code(status.usb),
        slot(final(diag).tape, 0) == transition(status),
        forall|i: int|
            0 <= i < 7 ==> slot(final(diag).tape, i + 1) == #[trigger] slot(old(diag).tape, i),
{
    diag.usb_now = match status.usb {
        UsbState::Disabled => 0,
        UsbState::Suspended => 2,
        _ => 1,
    };
    let code: u32 = match decide_active(status) {
        Some(ConnectionType::Usb) => {
            match status.usb {
                UsbState::Suspended => USB_SUSPENDED,
                _ => USB_ON,
            }
        },
        Some(ConnectionType::Ble) => BLE_CONNECTED,
        None => {
            match status.ble_state {
                BleState::Advertising => BLE_ADVERTISING,
                _ => INACTIVE,
            }
        },
    };
    let ghost before = diag.tape;
    record(diag, code);
    assert forall|i: int| 0 <= i < 7 implies slot(diag.tape, i + 1) == #[trigger] slot(
        old(diag).tape,
        i,
    ) by {
        assert(slot(before, i) == slot(old(diag).tape, i));
    }
}

/// A status always leaves a mark, and the mark tells the state of the moment: '+'
/// for USB in use, 's' for USB suspended, '-' for everything else.
pub proof fn law_mark_is_the_current_state(status: ConnectionStatus)
    ensures
        mark_of(transition(status)) == if status.active() == Some(ConnectionType::Usb) {
            if status.usb is Suspended {
                's'
            } else {
                '+'
            }
        } else {
            '-'
        },
        letter_of(transition(status)) is Some,
{
}

/// The radio leg leaves its own letters: 'b' where it is in use, 'a' where it
/// advertises and no transport is in use.
pub proof fn law_radio_leg_is_recorded(status: ConnectionStatus)
    requires
        !status.usb_ready(),
    ensures
        status.ble_state is Connected ==> letter_of(transition(status)) == Some('b'),
        status.ble_state is Advertising ==> letter_of(transition(status)) == Some('a'),
        status.ble_state is Inactive ==> letter_of(transition(status)) == Some('x'),
{
}

/// The cable counts as plugged exactly unless the USB leg is disabled.
pub proof fn law_suspended_counts_as_plugged(status: ConnectionStatus)
    ensures
        usb_code(status.usb) != 0 <==> !(status.usb is Disabled),
{
}

proof fn lemma_letters_fit(tape: u32, n: int)
    requires
        0 <= n <= 8,
    ensures
        with_letters(Seq::empty(), tape, n).len() <= n,
        vstd::utf8::is_ascii_chars(with_letters(Seq::empty(), tape, n)),
        n > 0 ==> with_letters(Seq::empty(), tape, n) == match letter_of(slot(tape, n - 1)) {
            Some(c) => with_letters(Seq::empty(), tape, n - 1).push(c),
            None => with_letters(Seq::empty(), tape, n - 1),
        },
    decreases n,
{
    if n > 0 {
        lemma_letters_fit(tape, n - 1);
        let before = with_letters(Seq::empty(), tape, n - 1);
        match letter_of(slot(tape, n - 1)) {
            Some(c) => {
                label::lemma_short_ascii_fits(before.push(c));
            },
            None => {},
        }
    }
}

/// Whether `chars` is the letters of the `n` newest transitions, none left out.
pub open spec fn spells(chars: Seq<char>, tape: u32, n: int) -> bool
    decreases n,
{
    if n <= 0 {
        chars.len() == 0
    } else {
        match letter_of(slot(tape, n - 1)) {
            Some(c) => chars.len() > 0 && chars.last() == c && spells(
                chars.drop_last(),
                tape,
                n - 1,
            ),
            None => spells(chars, tape, n - 1),
        }
    }
}

/// An empty string takes the whole tape.
pub proof fn law_snapshot_holds_the_whole_tape(tape: u32, n: int)
    requires
        0 <= n <= 8,
    ensures
        spells(with_letters(Seq::empty(), tape, n), tape, n),
    decreases n,
{
    if n > 0 {
        law_snapshot_holds_the_whole_tape(tape, n - 1);
        lemma_letters_fit(tape, n);
        let before = with_letters(Seq::empty(), tape, n - 1);
        match letter_of(slot(tape, n - 1)) {
            Some(c) => {
                assert(before.push(c).drop_last() =~= before);
            },
            None => {},
        }
    }
}

/// The mark after a change of status is that of this very status: '+' where USB is in
/// use, 's' where it is in use and suspended, '-' otherwise. USB is in use where it is
/// configured or suspended and the radio is not connected, or not preferred. A tape
/// without any transition is marked '?'.
pub proof fn law_status_leaves_its_mark(
    diag: &mut UsbDiag,
    status: ConnectionStatus,
    mark: char,
    plugged: bool,
    start: UsbDiag,
    first: char,
    unplugged: bool,
)
    requires
        call_ensures(on_status, (diag, status), ()),
        call_ensures(usb_mark, (&*final(diag),), mark),
        call_ensures(usb_connected, (&*final(diag),), plugged),
        call_ensures(UsbDiag::new, (), start),
        call_ensures(usb_mark, (&start,), first),
        call_ensures(usb_connected, (&start,), unplugged),
    ensures
        mark == '+' <==> status.usb is Configured && (!(status.ble_state is Connected)
            || status.preferred is Usb),
        mark == 's' <==> status.usb is Suspended && (!(status.ble_state is Connected)
            || status.preferred is Usb),
        mark == '+' || mark == 's' || mark == '-',
        plugged <==> !(status.usb is Disabled),
        final(diag).usb_now == 2 <==> status.usb is Suspended,
        final(diag).usb_now <= 2,
        first == '?',
        !unplugged,
{
    let v = start.tape;
    assert((0u32 >> 0u32) & 0xF == 0) by (bit_vector);
}

/// A change of status puts one transition on the tape and moves the others up by one,
/// the oldest off it: 1 for USB, 2 for USB suspended, 3 for the radio, 4 for a radio
/// that advertises while nothing is in use, 5 for nothing at all.
pub proof fn law_status_goes_on_the_tape(diag: &mut UsbDiag, status: ConnectionStatus, i: int)
    requires
        call_ensures(on_status, (diag, status), ()),
        0 <= i < 7,
    ensures
        ({
            let usb = status.usb is Configured || status.usb is Suspended;
            let radio = status.ble_state is Connected;
            let usb_wins = usb && (!radio || status.preferred is Usb);
            &&& (final(diag).tape >> 0u32) & 0xF == if usb_wins && status.usb is Configured {
                1
            } else if usb_wins {
                2
            } else if radio {
                3
            } else if status.ble_state is Advertising {
                4
            } else {
                5u32
            }
            &&& (final(diag).tape >> ((4 * i + 4) as u32)) & 0xF == (old(diag).tape >> ((4
                * i) as u32)) & 0xF
        }),
{
    assert(slot(final(diag).tape, 0) == (final(diag).tape >> 0u32) & 0xF);
    assert(slot(old(diag).tape, i) == (old(diag).tape >> ((4 * i) as u32)) & 0xF);
    assert(slot(final(diag).tape, i + 1) == (final(diag).tape >> ((4 * i + 4) as u32)) & 0xF);
}

/// The same by hand: a recorded code is the newest, the others move up by one, and the
/// USB leg is not concerned.
pub proof fn law_records_go_on_the_tape(diag: &mut UsbDiag, code: u32, i: int)
    requires
        call_ensures(record, (diag, code), ()),
        code <= 0xF,
        0 <= i < 7,
    ensures
        (final(diag).tape >> 0u32) & 0xF == code,
        (final(diag).tape >> ((4 * i + 4) as u32)) & 0xF == (old(diag).tape >> ((4 * i) as u32))
            & 0xF,
        final(diag).usb_now == old(diag).usb_now,
{
    assert(slot(final(diag).tape, 0) == (final(diag).tape >> 0u32) & 0xF);
    assert(slot(old(diag).tape, i) == (old(diag).tape >> ((4 * i) as u32)) & 0xF);
    assert(slot(final(diag).tape, i + 1) == (final(diag).tape >> ((4 * i + 4) as u32)) & 0xF);
}

proof fn lemma_full_tape_is_spelt_out(tape: u32, n: int)
    requires
        0 <= n <= 8,
        forall|i: int| 0 <= i < 8 ==> 1 <= #[trigger] slot(tape, i) <= 5,
    ensures
        with_letters(Seq::empty(), tape, n).len() == n,
        forall|i: int|
            0 <= i < n ==> Some(#[trigger] with_letters(Seq::empty(), tape, n)[i]) == letter_of(
                slot(tape, i),
            ),
    decreases n,
{
    if n > 0 {
        lemma_full_tape_is_spelt_out(tape, n - 1);
        lemma_letters_fit(tape, n);
        assert(1 <= slot(tape, n - 1) <= 5);
    }
}

/// A full tape is spelt out letter by letter, the newest transition first: u for USB,
/// s for USB suspended, b for the radio, a for an advertising radio, x for nothing.
pub proof fn law_tape_is_spelt_out(diag: UsbDiag, out: &mut heapless::String<8>, i: int)
    requires
        call_ensures(snapshot, (&diag, out), ()),
        label::label_chars(*old(out)).len() == 0,
        forall|j: int| 0 <= j < 8 ==> 1 <= #[trigger] slot(diag.tape, j) <= 5,
        0 <= i < 8,
    ensures
        label::label_chars(*final(out)).len() == 8,
        ({
            let code = (diag.tape >> ((4 * i) as u32)) & 0xF;
            let c = label::label_chars(*final(out))[i];
            &&& code == 1 <==> c == 'u'
            &&& code == 2 <==> c == 's'
            &&& code == 3 <==> c == 'b'
            &&& code == 4 <==> c == 'a'
            &&& code == 5 <==> c == 'x'
        }),
{
    assert(label::label_chars(*old(out)) =~= Seq::empty());
    lemma_full_tape_is_spelt_out(diag.tape, 8);
    assert(1 <= slot(diag.tape, i) <= 5);
    assert(Some(with_letters(Seq::empty(), diag.tape, 8)[i]) == letter_of(slot(diag.tape, i)));
}

/// A tape with nothing on it adds nothing to the text.
pub proof fn law_empty_tape_adds_nothing(diag: UsbDiag, out: &mut heapless::String<8>)
    requires
        call_ensures(snapshot, (&diag, out), ()),
        diag.tape == 0,
    ensures
        label::label_chars(*final(out)) == label::label_chars(*old(out)),
{
    reveal_with_fuel(with_letters, 9);
    assert forall|i: int| 0 <= i < 8 implies #[trigger] slot(0, i) == 0 by {
        let k = (4 * i) as u32;
        assert((0u32 >> k) & 0xF == 0) by (bit_vector);
    }
}

/// Letters are added at the end: what the text held before stays in front.
pub proof fn law_snapshot_adds_at_the_end(diag: UsbDiag, out: &mut heapless::String<8>)
    requires
        call_ensures(snapshot, (&diag, out), ()),
    ensures
        label::label_chars(*old(out)).is_prefix_of(label::label_chars(*final(out))),
{
    lemma_letters_go_at_the_end(label::label_chars(*old(out)), diag.tape, 8);
}

proof fn lemma_letters_go_at_the_end(chars: Seq<char>, tape: u32, n: int)
    ensures
        chars.is_prefix_of(with_letters(chars, tape, n)),
    decreases n,
{
    if n > 0 {
        lemma_letters_go_at_the_end(chars, tape, n - 1);
    }
}

} // verus!
