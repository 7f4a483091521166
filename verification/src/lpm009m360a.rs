//! JDI LPM009M360A memory-in-pixel panel: 144 column lines of 72 pixels, one
//! bit per pixel, written over SPI.
//!
//! The framebuffer is kept in the layout that the controller takes: column line
//! `143 - x`, nine bytes per line, most significant bit first. A cleared bit is
//! a lit pixel. What goes over the bus is computed here as a list of frames; the
//! chip select and the bus writes belong to the board.

use vstd::prelude::*;

verus! {

/// Panel width in column lines, the controller's addressable range.
pub const WIDTH: usize = 144;

/// Panel height in pixels.
pub const HEIGHT: usize = 72;

/// Bytes of one column line.
pub const LINE_BYTES: usize = 9;

/// Framebuffer size in bytes: 144 lines of 9 bytes.
pub const FRAMEBUFFER_LEN: usize = 1296;

/// Frames of a flush: one per column line and two that close it.
pub const FLUSH_FRAMES: usize = 146;

/// Closes a flush; sent twice.
pub const CMD_NO_UPDATE: u8 = 0x00;

/// Blanks the panel; the only initialisation command.
pub const CMD_ALL_CLEAR: u8 = 0x20;

/// Writes one column line.
pub const CMD_UPDATE: u8 = 0x88;

/// Pause after [`CMD_ALL_CLEAR`].
pub const RESET_DELAY_MS: u64 = 1;

/// Polarity: a cleared bit is a lit pixel.
pub const BIT_IS_LIT_WHEN_CLEAR: bool = true;

/// Start value of the frame hash.
pub const FNV_OFFSET: u32 = 0x811c_9dc5;

/// Multiplier of the frame hash.
pub const FNV_PRIME: u32 = 0x0100_0193;

/// Size of a canvas in pixels.
#[derive(Debug, Clone, Copy, PartialEq, Eq, Structural)]
pub struct Size {
    pub width: u32,
    pub height: u32,
}

/// One pixel write: a canvas point, which may lie outside the canvas, and
/// whether it is to be lit.
#[derive(Debug, Clone, Copy, PartialEq, Eq, Structural)]
pub struct Pixel {
    pub x: i32,
    pub y: i32,
    pub on: bool,
}

/// How the rendered canvas maps onto the panel.
#[derive(Debug, Clone, Copy, PartialEq, Eq, Structural)]
pub enum PanelRot {
    /// 144x72 landscape.
    R0,
    /// 72x144 portrait, content rotated 90 degrees clockwise.
    R90,
    /// 144x72 landscape, upside down.
    R180,
    /// 72x144 portrait, content rotated 270 degrees clockwise.
    R270,
}

impl PanelRot {
    /// Whether the canvas stands upright.
    pub open spec fn is_portrait(self) -> bool {
        self is R90 || self is R270
    }

    /// Canvas width in pixels.
    pub open spec fn canvas_width(self) -> int {
        if self.is_portrait() {
            HEIGHT as int
        } else {
            WIDTH as int
        }
    }

    /// Canvas height in pixels.
    pub open spec fn canvas_height(self) -> int {
        if self.is_portrait() {
            WIDTH as int
        } else {
            HEIGHT as int
        }
    }

    /// Whether a point lies on the canvas.
    pub open spec fn on_canvas(self, x: int, y: int) -> bool {
        0 <= x < self.canvas_width() && 0 <= y < self.canvas_height()
    }

    /// The panel point that shows canvas point `(x, y)`.
    pub open spec fn native(self, x: int, y: int) -> (int, int) {
        match self {
            PanelRot::R0 => (x, y),
            PanelRot::R90 => (WIDTH - 1 - y, x),
            PanelRot::R180 => (WIDTH - 1 - x, HEIGHT - 1 - y),
            PanelRot::R270 => (y, HEIGHT - 1 - x),
        }
    }

    /// True when the canvas is rotated into the portrait shape.
    pub fn portrait(self) -> (r: bool)
        ensures
            r == self.is_portrait(),
    {
        match self {
            PanelRot::R90 => true,
            PanelRot::R270 => true,
            _ => false,
        }
    }

    /// Canvas size the renderer gets to draw into.
    pub fn logical_size(self) -> (r: Size)
        ensures
            r.width == self.canvas_width(),
            r.height == self.canvas_height(),
    {
        if self.portrait() {
            Size { width: HEIGHT as u32, height: WIDTH as u32 }
        } else {
            Size { width: WIDTH as u32, height: HEIGHT as u32 }
        }
    }

    /// Canvas point to panel point; `None` outside the canvas.
    pub fn to_native(self, x: usize, y: usize) -> (r: Option<(usize, usize)>)
        ensures
            r is Some <==> self.on_canvas(x as int, y as int),
            r matches Some(p) ==> (p.0 as int, p.1 as int) == self.native(x as int, y as int)
                && p.0 < WIDTH && p.1 < HEIGHT,
    {
        let (w, h): (usize, usize) = if self.portrait() {
            (HEIGHT, WIDTH)
        } else {
            (WIDTH, HEIGHT)
        };
        if x >= w || y >= h {
            return None;
        }
        Some(
            match self {
                PanelRot::R0 => (x, y),
                PanelRot::R90 => (h - 1 - y, x),
                PanelRot::R180 => (w - 1 - x, h - 1 - y),
                PanelRot::R270 => (y, w - 1 - x),
            },
        )
    }
}

/// Whether a point lies on the panel.
pub open spec fn on_panel(nx: int, ny: int) -> bool {
    0 <= nx < WIDTH && 0 <= ny < HEIGHT
}

/// Every panel point shows exactly one canvas point: the mapping of the canvas
/// onto the panel is injective, stays on the panel, and reaches all of it.
pub proof fn law_native_is_a_bijection(rot: PanelRot)
    ensures
        forall|x: int, y: int| #[trigger]
            rot.on_canvas(x, y) ==> on_panel(rot.native(x, y).0, rot.native(x, y).1),
        forall|x1: int, y1: int, x2: int, y2: int|
            #![trigger rot.native(x1, y1), rot.native(x2, y2)]
            rot.native(x1, y1) == rot.native(x2, y2) ==> x1 == x2 && y1 == y2,
        forall|nx: int, ny: int| #[trigger]
            on_panel(nx, ny) ==> exists|x: int, y: int|
                rot.on_canvas(x, y) && #[trigger] rot.native(x, y) == (nx, ny),
{
    assert forall|nx: int, ny: int| #[trigger] on_panel(nx, ny) implies exists|
        x: int,
        y: int,
    | rot.on_canvas(x, y) && #[trigger] rot.native(x, y) == (nx, ny) by {
        match rot {
            PanelRot::R0 => {
                assert(rot.native(nx, ny) == (nx, ny));
            },
            PanelRot::R90 => {
                assert(rot.native(ny, WIDTH - 1 - nx) == (nx, ny));
            },
            PanelRot::R180 => {
                assert(rot.native(WIDTH - 1 - nx, HEIGHT - 1 - ny) == (nx, ny));
            },
            PanelRot::R270 => {
                assert(rot.native(HEIGHT - 1 - ny, nx) == (nx, ny));
            },
        }
    }
}

/// Index of the framebuffer byte that holds panel point `(nx, ny)`.
pub open spec fn byte_index(nx: int, ny: int) -> int {
    (WIDTH - 1 - nx) * LINE_BYTES + ny / 8
}

/// Bit of that byte, most significant first.
pub open spec fn row_mask(ny: int) -> u8 {
    1u8 << ((7 - ny % 8) as u8)
}

/// Whether panel point `(nx, ny)` is lit in framebuffer `fb`.
pub open spec fn lit_native(fb: Seq<u8>, nx: int, ny: int) -> bool {
    (fb[byte_index(nx, ny)] & row_mask(ny) != 0) != BIT_IS_LIT_WHEN_CLEAR
}

/// FNV-1a hash of a byte sequence.
pub open spec fn fnv1a(s: Seq<u8>) -> u32
    decreases s.len(),
{
    if s.len() == 0 {
        FNV_OFFSET
    } else {
        (fnv1a(s.drop_last()) ^ (s.last() as u32)).wrapping_mul(FNV_PRIME)
    }
}

/// FNV-1a over the framebuffer.
pub fn frame_hash(fb: &[u8; FRAMEBUFFER_LEN]) -> (h: u32)
    ensures
        h == fnv1a(fb@),
{
    let mut h: u32 = FNV_OFFSET;
    assert(fb@.take(0) =~= Seq::<u8>::empty());
    for i in 0..FRAMEBUFFER_LEN
        invariant
            h == fnv1a(fb@.take(i as int)),
    {
        assert(fb@.take(i + 1).drop_last() =~= fb@.take(i as int));
        h = (h ^ (fb[i] as u32)).wrapping_mul(FNV_PRIME);
    }
    assert(fb@.take(FRAMEBUFFER_LEN as int) =~= fb@);
    h
}

/// What a pixel at `(x, y)` shows once `pixels` have been written in order over
/// one that showed `before`: the last write to that point counts.
pub open spec fn painted(pixels: Seq<Pixel>, x: int, y: int, before: bool) -> bool
    decreases pixels.len(),
{
    if pixels.len() == 0 {
        before
    } else if pixels.last().x == x && pixels.last().y == y {
        pixels.last().on
    } else {
        painted(pixels.drop_last(), x, y, before)
    }
}

proof fn lemma_bits_of_a_byte(b: u8, j: u8, k: u8)
    requires
        j < 8,
        k < 8,
    ensures
        (b | (1u8 << k)) & (1u8 << j) != 0 <==> (j == k || b & (1u8 << j) != 0),
        (b & !(1u8 << k)) & (1u8 << j) != 0 <==> (j != k && b & (1u8 << j) != 0),
{
    assert((b | (1u8 << k)) & (1u8 << j) != 0 <==> (j == k || b & (1u8 << j) != 0)) by (bit_vector)
        requires
            j < 8,
            k < 8,
    ;
    assert((b & !(1u8 << k)) & (1u8 << j) != 0 <==> (j != k && b & (1u8 << j) != 0))
        by (bit_vector)
        requires
            j < 8,
            k < 8,
    ;
}

/// One `[cmd][arg][data...]` transfer to the controller; a frame carries the bytes
/// of a column line, or none.
#[derive(Debug, Clone, Copy)]
pub struct Frame {
    pub cmd: u8,
    pub arg: u8,
    pub data: Option<[u8; LINE_BYTES]>,
}

impl Frame {
    /// The bytes after the header.
    pub open spec fn bytes(self) -> Seq<u8> {
        match self.data {
            Some(line) => line@,
            None => Seq::empty(),
        }
    }
}

/// A pending flush: the frames to send with the chip select held, and the hash
/// to report to [`Lpm009m360a::mark_sent`] once they have gone out.
pub struct Flush {
    pub hash: u32,
    pub frames: [Frame; FLUSH_FRAMES],
}

/// The frames that carry framebuffer `fb` to the panel: one update per column
/// line, addressed from 1, then two closing frames without data.
pub open spec fn carries(frames: Seq<Frame>, fb: Seq<u8>) -> bool {
    &&& frames.len() == WIDTH + 2
    &&& forall|i: int|
        0 <= i < WIDTH ==> (#[trigger] frames[i]).cmd == CMD_UPDATE && frames[i].arg == i + 1
            && frames[i].bytes() == fb.subrange(i * LINE_BYTES, (i + 1) * LINE_BYTES)
    &&& forall|i: int|
        WIDTH <= i < WIDTH + 2 ==> (#[trigger] frames[i]).cmd == CMD_NO_UPDATE && frames[i].arg == 0
            && frames[i].data is None
}

/// The bytes of all frames, headers left out, in order.
pub open spec fn payload(frames: Seq<Frame>) -> Seq<u8>
    decreases frames.len(),
{
    if frames.len() == 0 {
        Seq::empty()
    } else {
        payload(frames.drop_last()) + frames.last().bytes()
    }
}

proof fn lemma_payload_of_lines(frames: Seq<Frame>, fb: Seq<u8>, n: int)
    requires
        carries(frames, fb),
        fb.len() == FRAMEBUFFER_LEN,
        0 <= n <= WIDTH + 2,
    ensures
        payload(frames.take(n)) == fb.take(if n < WIDTH {
            n * LINE_BYTES
        } else {
            FRAMEBUFFER_LEN as int
        }),
    decreases n,
{
    if n == 0 {
        assert(frames.take(0) =~= Seq::empty());
        assert(fb.take(0) =~= Seq::empty());
    } else {
        lemma_payload_of_lines(frames, fb, n - 1);
        assert(frames.take(n).drop_last() =~= frames.take(n - 1));
        assert(frames.take(n).last() == frames[n - 1]);
        let done: int = if n - 1 < WIDTH {
            (n - 1) * LINE_BYTES
        } else {
            FRAMEBUFFER_LEN as int
        };
        if n - 1 < WIDTH {
            assert(fb.take(n * LINE_BYTES) =~= fb.take((n - 1) * LINE_BYTES) + fb.subrange(
                (n - 1) * LINE_BYTES,
                n * LINE_BYTES,
            ));
        } else {
            assert(fb.take(done) + frames[n - 1].bytes() =~= fb.take(done));
        }
    }
}

/// A flush loses nothing and adds nothing: what its frames carry, put one after
/// the other, is the framebuffer.
pub proof fn law_flush_carries_the_framebuffer(frames: Seq<Frame>, fb: Seq<u8>)
    requires
        carries(frames, fb),
        fb.len() == FRAMEBUFFER_LEN,
    ensures
        payload(frames) == fb,
{
    lemma_payload_of_lines(frames, fb, WIDTH + 2);
    assert(frames.take(WIDTH + 2) =~= frames);
    assert(fb.take(FRAMEBUFFER_LEN as int) =~= fb);
}

/// The controller accepts column addresses 1 to 144 only: no frame of a flush
/// leaves that range but the closing ones, which address nothing.
pub proof fn law_flush_stays_addressable(frames: Seq<Frame>, fb: Seq<u8>)
    requires
        carries(frames, fb),
    ensures
        forall|i: int|
            0 <= i < frames.len() && (#[trigger] frames[i]).cmd == CMD_UPDATE ==> 1 <= frames[i].arg
                <= 144,
{
}

/// Panel state: orientation, framebuffer, and the hash of the frame last sent.
pub struct Lpm009m360a {
    pub rot: PanelRot,
    /// Hash of the frame last sent, `None` before the first.
    pub sent_hash: Option<u32>,
    pub fb: [u8; FRAMEBUFFER_LEN],
}

impl Lpm009m360a {
    /// Whether the pixel at canvas point `(x, y)` is lit.
    pub open spec fn lit(&self, x: int, y: int) -> bool {
        lit_native(self.fb@, self.rot.native(x, y).0, self.rot.native(x, y).1)
    }

    /// Whether the panel shows the framebuffer, as far as the hash tells.
    pub open spec fn up_to_date(&self) -> bool {
        self.sent_hash == Some(fnv1a(self.fb@))
    }

    /// Orientation is passed in so that each half can pick its own.
    pub fn new(fb: [u8; FRAMEBUFFER_LEN], rot: PanelRot) -> (r: Self)
        ensures
            r.rot == rot,
            r.sent_hash is None,
            r.fb == fb,
    {
        Lpm009m360a { rot, sent_hash: None, fb }
    }

    /// Canvas size.
    pub fn size(&self) -> (r: Size)
        ensures
            r.width == self.rot.canvas_width(),
            r.height == self.rot.canvas_height(),
    {
        self.rot.logical_size()
    }

    /// Whether canvas point `(x, y)` is lit; a point outside the canvas is not.
    pub fn is_lit(&self, x: i32, y: i32) -> (r: bool)
        ensures
            r == (self.rot.on_canvas(x as int, y as int) && self.lit(x as int, y as int)),
    {
        if x < 0 || y < 0 {
            return false;
        }
        match self.rot.to_native(x as usize, y as usize) {
            None => false,
            Some((nx, ny)) => {
                let index: usize = (WIDTH - 1 - nx) * LINE_BYTES + ny / 8;
                let mask: u8 = 1u8 << ((7 - ny % 8) as u8);
                (self.fb[index] & mask != 0) != BIT_IS_LIT_WHEN_CLEAR
            },
        }
    }

    /// Writes one pixel; a point outside the canvas is left alone.
    pub fn set_pixel(&mut self, x: i32, y: i32, on: bool)
        ensures
            final(self).rot == old(self).rot,
            final(self).sent_hash == old(self).sent_hash,
            forall|px: int, py: int| #[trigger]
                final(self).rot.on_canvas(px, py) ==> final(self).lit(px, py) == if px == x && py
                    == y {
                    on
                } else {
                    old(self).lit(px, py)
                },
    {
        if x < 0 || y < 0 {
            return;
        }
        let (nx, ny): (usize, usize) = match self.rot.to_native(x as usize, y as usize) {
            None => {
                return;
            },
            Some(p) => p,
        };
        let line: usize = WIDTH - 1 - nx;
        let index: usize = line * LINE_BYTES + ny / 8;
        let bit: u8 = (7 - ny % 8) as u8;
        let mask: u8 = 1u8 << bit;
        let set_bit: bool = on != BIT_IS_LIT_WHEN_CLEAR;
        let b: u8 = self.fb[index];
        self.fb[index] =
        if set_bit {
            b | mask
        } else {
            b & !mask
        };
        proof {
            assert forall|px: int, py: int| #[trigger] self.rot.on_canvas(px, py) implies self.lit(
                px,
                py,
            ) == if px == x && py == y {
                on
            } else {
                old(self).lit(px, py)
            } by {
                let (qx, qy) = self.rot.native(px, py);
                lemma_bits_of_a_byte(b, (7 - qy % 8) as u8, bit);
                assert(0 <= qx < WIDTH && 0 <= qy < HEIGHT);
                assert(qy == 8 * (qy / 8) + qy % 8);
                assert(ny == 8 * (ny as int / 8) + ny as int % 8);
                assert(row_mask(qy) == 1u8 << ((7 - qy % 8) as u8));
            }
        }
    }

    /// Writes `pixels` in order. Points outside the canvas are skipped.
    pub fn draw_iter(&mut self, pixels: &[Pixel])
        ensures
            final(self).rot == old(self).rot,
            final(self).sent_hash == old(self).sent_hash,
            forall|x: int, y: int| #[trigger]
                final(self).rot.on_canvas(x, y) ==> final(self).lit(x, y) == painted(
                    pixels@,
                    x,
                    y,
                    old(self).lit(x, y),
                ),
    {
        assert(pixels@.take(0) =~= Seq::<Pixel>::empty());
        for i in 0..pixels.len()
            invariant
                self.rot == old(self).rot,
                self.sent_hash == old(self).sent_hash,
                forall|x: int, y: int| #[trigger]
                    self.rot.on_canvas(x, y) ==> self.lit(x, y) == painted(
                        pixels@.take(i as int),
                        x,
                        y,
                        old(self).lit(x, y),
                    ),
        {
            assert(pixels@.take(i + 1).drop_last() =~= pixels@.take(i as int));
            let p: Pixel = pixels[i];
            self.set_pixel(p.x, p.y, p.on);
        }
        assert(pixels@.take(pixels@.len() as int) =~= pixels@);
    }

    /// The command that blanks the panel.
    pub fn all_clear() -> (r: Frame)
        ensures
            r.cmd == CMD_ALL_CLEAR,
            r.arg == 0,
            r.data is None,
    {
        Frame { cmd: CMD_ALL_CLEAR, arg: 0x00, data: None }
    }

    /// Paints the whole framebuffer with one level.
    pub fn fill_all(&mut self, lit: bool)
        ensures
            final(self).rot == old(self).rot,
            final(self).sent_hash == old(self).sent_hash,
            forall|i: int|
                0 <= i < FRAMEBUFFER_LEN ==> #[trigger] final(self).fb@[i] == if lit {
                    0x00u8
                } else {
                    0xFFu8
                },
            forall|x: int, y: int| #[trigger]
                final(self).rot.on_canvas(x, y) ==> final(self).lit(x, y) == lit,
    {
        let pattern: u8 = if lit == BIT_IS_LIT_WHEN_CLEAR {
            0x00
        } else {
            0xFF
        };
        for i in 0..FRAMEBUFFER_LEN
            invariant
                self.rot == old(self).rot,
                self.sent_hash == old(self).sent_hash,
                forall|j: int| 0 <= j < i ==> #[trigger] self.fb@[j] == pattern,
        {
            self.fb[i] = pattern;
        }
        proof {
            assert forall|x: int, y: int| #[trigger] self.rot.on_canvas(x, y) implies self.lit(x, y)
                == lit by {
                let (nx, ny) = self.rot.native(x, y);
                assert(0 <= byte_index(nx, ny) < FRAMEBUFFER_LEN);
                let k = (7 - ny % 8) as u8;
                assert(0x00u8 & (1u8 << k) == 0) by (bit_vector);
                assert(k < 8 ==> 0xFFu8 & (1u8 << k) != 0) by (bit_vector);
            }
        }
    }

    /// The frames that bring the panel up to date, or `None` when the hash of the
    /// framebuffer is that of the frame last sent.
    pub fn flush_native(&self) -> (r: Option<Flush>)
        ensures
            r is None <==> self.up_to_date(),
            r matches Some(flush) ==> flush.hash == fnv1a(self.fb@) && carries(
                flush.frames@,
                self.fb@,
            ),
    {
        let hash: u32 = frame_hash(&self.fb);
        match self.sent_hash {
            Some(sent) => {
                if sent == hash {
                    return None;
                }
            },
            None => {},
        }
        let closing = Frame { cmd: CMD_NO_UPDATE, arg: 0x00, data: None };
        let mut frames: [Frame; FLUSH_FRAMES] = [closing; FLUSH_FRAMES];
        for line in 0..WIDTH
            invariant
                closing == (Frame { cmd: CMD_NO_UPDATE, arg: 0x00, data: None }),
                forall|i: int|
                    0 <= i < line ==> (#[trigger] frames@[i]).cmd == CMD_UPDATE && frames@[i].arg
                        == i + 1 && frames@[i].bytes() == self.fb@.subrange(
                        i * LINE_BYTES,
                        (i + 1) * LINE_BYTES,
                    ),
                forall|i: int| line <= i < FLUSH_FRAMES ==> #[trigger] frames@[i] == closing,
        {
            let start: usize = line * LINE_BYTES;
            let mut chunk: [u8; LINE_BYTES] = [0; LINE_BYTES];
            for k in 0..LINE_BYTES
                invariant
                    start == line * LINE_BYTES,
                    line < WIDTH,
                    forall|j: int| 0 <= j < k ==> #[trigger] chunk@[j] == self.fb@[start + j],
            {
                chunk[k] = self.fb[start + k];
            }
            assert(chunk@ =~= self.fb@.subrange(start as int, start + LINE_BYTES));
            frames[line] = Frame { cmd: CMD_UPDATE, arg: (line + 1) as u8, data: Some(chunk) };
        }
        Some(Flush { hash, frames })
    }

    /// Records that the frame with this hash is on the panel.
    pub fn mark_sent(&mut self, hash: u32)
        ensures
            final(self).rot == old(self).rot,
            final(self).fb == old(self).fb,
            final(self).sent_hash == Some(hash),
            final(self).up_to_date() <==> hash == fnv1a(old(self).fb@),
    {
        self.sent_hash = Some(hash);
    }
}

proof fn lemma_masks_agree(b: u8, k: u8)
    requires
        k < 8,
    ensures
        b & (1u8 << ((7 - k) as u8)) == b & (0x80u8 >> k),
{
    assert(k < 8 ==> b & (1u8 << ((7 - k) as u8)) == b & (0x80u8 >> k)) by (bit_vector);
}

/// Each orientation has every pixel of its canvas in a bit of its own, cleared when
/// the pixel is lit: upright the columns of the canvas run along the lines of the
/// panel, lying down across them. Points off the canvas are never lit.
pub proof fn law_pixels_have_their_bits(panel: Lpm009m360a, x: i32, y: i32, r: bool)
    requires
        call_ensures(Lpm009m360a::is_lit, (&panel, x, y), r),
    ensures
        panel.rot is R0 ==> r == (0 <= x < 144 && 0 <= y < 72 && panel.fb[(143 - x) * 9 + y as int
            / 8] & (0x80u8 >> ((y as int % 8) as u8)) == 0),
        panel.rot is R90 ==> r == (0 <= x < 72 && 0 <= y < 144 && panel.fb[y * 9 + x as int / 8] & (
        0x80u8 >> ((x as int % 8) as u8)) == 0),
        panel.rot is R180 ==> r == (0 <= x < 144 && 0 <= y < 72 && panel.fb[x * 9 + (71 - y) / 8]
            & (0x80u8 >> (((71 - y) % 8) as u8)) == 0),
        panel.rot is R270 ==> r == (0 <= x < 72 && 0 <= y < 144 && panel.fb[(143 - y) * 9 + (71 - x)
            / 8] & (0x80u8 >> (((71 - x) % 8) as u8)) == 0),
        panel.rot.on_canvas(x as int, y as int) ==> r == panel.lit(x as int, y as int),
{
    if panel.rot.on_canvas(x as int, y as int) {
        let (nx, ny) = panel.rot.native(x as int, y as int);
        lemma_masks_agree(panel.fb@[byte_index(nx, ny)], (ny % 8) as u8);
        assert(panel.fb@[byte_index(nx, ny)] == panel.fb[byte_index(nx, ny)]);
    }
}

/// A written pixel reads as it was written, and every other as before; a pixel off
/// the canvas cannot be written.
pub proof fn law_written_pixels_read_back(
    panel: &mut Lpm009m360a,
    x: i32,
    y: i32,
    on: bool,
    qx: i32,
    qy: i32,
    before: bool,
    after: bool,
)
    requires
        call_ensures(Lpm009m360a::set_pixel, (panel, x, y, on), ()),
        call_ensures(Lpm009m360a::is_lit, (&*old(panel), qx, qy), before),
        call_ensures(Lpm009m360a::is_lit, (&*final(panel), qx, qy), after),
    ensures
        (qx, qy) != (x, y) ==> after == before,
        (qx, qy) == (x, y) && old(panel).rot.on_canvas(x as int, y as int) ==> after == on,
        !old(panel).rot.on_canvas(qx as int, qy as int) ==> !after,
        final(panel).rot == old(panel).rot,
        final(panel).sent_hash == old(panel).sent_hash,
{
    if old(panel).rot.on_canvas(qx as int, qy as int) {
        assert(final(panel).rot.on_canvas(qx as int, qy as int));
    }
}

proof fn lemma_last_write_counts(pixels: Seq<Pixel>, i: int, x: int, y: int, before: bool)
    requires
        -1 <= i < pixels.len(),
        i >= 0 ==> pixels[i].x == x && pixels[i].y == y,
        forall|j: int|
            i < j < pixels.len() ==> !((#[trigger] pixels[j]).x == x && pixels[j].y == y),
    ensures
        painted(pixels, x, y, before) == if i >= 0 {
            pixels[i].on
        } else {
            before
        },
    decreases pixels.len(),
{
    if pixels.len() > 0 && i < pixels.len() - 1 {
        let rest = pixels.drop_last();
        assert(!(pixels[pixels.len() - 1].x == x && pixels[pixels.len() - 1].y == y));
        assert forall|j: int| i < j < rest.len() implies !((#[trigger] rest[j]).x == x && rest[j].y
            == y) by {
            assert(rest[j] == pixels[j]);
        }
        if i >= 0 {
            assert(rest[i] == pixels[i]);
        }
        lemma_last_write_counts(rest, i, x, y, before);
    }
}

/// Of several writes to a point the last one counts: write `i`, if no later one goes
/// there. A point that no write goes to, which `i` of -1 stands for, stays as it was.
pub proof fn law_last_write_counts(
    panel: &mut Lpm009m360a,
    pixels: &[Pixel],
    i: int,
    x: int,
    y: int,
)
    requires
        call_ensures(Lpm009m360a::draw_iter, (panel, pixels), ()),
        old(panel).rot.on_canvas(x, y),
        -1 <= i < pixels@.len(),
        i >= 0 ==> pixels@[i].x == x && pixels@[i].y == y,
        forall|j: int|
            i < j < pixels@.len() ==> !((#[trigger] pixels@[j]).x == x && pixels@[j].y == y),
    ensures
        i >= 0 ==> final(panel).lit(x, y) == pixels@[i].on,
        i == -1 ==> final(panel).lit(x, y) == old(panel).lit(x, y),
        final(panel).rot == old(panel).rot,
        final(panel).sent_hash == old(panel).sent_hash,
{
    lemma_last_write_counts(pixels@, i, x, y, old(panel).lit(x, y));
    assert(final(panel).rot.on_canvas(x, y));
}

/// A filled panel is lit on all of its canvas, or on none of it.
pub proof fn law_filled_panels_are_even(
    panel: &mut Lpm009m360a,
    lit: bool,
    x: i32,
    y: i32,
    r: bool,
)
    requires
        call_ensures(Lpm009m360a::fill_all, (panel, lit), ()),
        call_ensures(Lpm009m360a::is_lit, (&*final(panel), x, y), r),
    ensures
        r == (lit && old(panel).rot.on_canvas(x as int, y as int)),
        final(panel).rot == old(panel).rot,
        final(panel).sent_hash == old(panel).sent_hash,
{
}

/// The canvas of an upright panel is 72 by 144 pixels, that of a lying one 144 by 72;
/// exactly the points on it have a place on the panel.
pub proof fn law_canvas_of_an_orientation(
    rot: PanelRot,
    x: usize,
    y: usize,
    p: Option<(usize, usize)>,
    upright: bool,
    size: Size,
)
    requires
        call_ensures(PanelRot::to_native, (rot, x, y), p),
        call_ensures(PanelRot::portrait, (rot,), upright),
        call_ensures(PanelRot::logical_size, (rot,), size),
    ensures
        upright <==> rot is R90 || rot is R270,
        upright ==> size.width == 72 && size.height == 144,
        !upright ==> size.width == 144 && size.height == 72,
        p is Some <==> x < size.width && y < size.height,
        rot.on_canvas(x as int, y as int) <==> x < size.width && y < size.height,
        p is Some && rot is R0 ==> p->0 == (x, y),
        p is Some && rot is R180 ==> (p->0).0 + x == 143 && (p->0).1 + y == 71,
        p is Some && rot is R90 ==> (p->0).0 + y == 143 && (p->0).1 == x,
        p is Some && rot is R270 ==> (p->0).0 == y && (p->0).1 + x == 71,
{
}

/// The hash takes one byte after the other, from a fixed start.
pub proof fn law_hash_takes_byte_by_byte(s: Seq<u8>, b: u8)
    ensures
        fnv1a(Seq::empty()) == 0x811c_9dc5,
        fnv1a(s.push(b)) == (fnv1a(s) ^ (b as u32)) * 0x0100_0193 % 0x1_0000_0000,
{
    assert(s.push(b).drop_last() =~= s);
}

proof fn lemma_round_is_injective(g: u32, h: u32)
    requires
        g * 0x0100_0193 % 0x1_0000_0000 == h * 0x0100_0193 % 0x1_0000_0000,
    ensures
        g == h,
{
    // 0x359c_449b inverts the multiplier modulo 2^32.
    let p: int = g * 0x0100_0193;
    let q: int = h * 0x0100_0193;
    let m = p / 0x1_0000_0000 - q / 0x1_0000_0000;
    let d = g - h;
    assert(d * 0x0100_0193 == m * 0x1_0000_0000);
    let n = m * 0x359c_449b - d * 0x35_9c99;
    assert(d == n * 0x1_0000_0000);
    assert(n == 0);
}

/// A frame in which a single byte has changed has another hash.
pub proof fn law_one_byte_changes_the_hash(s: Seq<u8>, t: Seq<u8>, k: int)
    requires
        s.len() == t.len(),
        0 <= k < s.len(),
        s[k] != t[k],
        forall|i: int| 0 <= i < s.len() && i != k ==> #[trigger] s[i] == t[i],
    ensures
        fnv1a(s) != fnv1a(t),
    decreases s.len(),
{
    let (g, h) = (fnv1a(s.drop_last()), fnv1a(t.drop_last()));
    let (b, c) = (s.last() as u32, t.last() as u32);
    if k == s.len() - 1 {
        assert(s.drop_last() =~= t.drop_last());
        assert(b != c ==> g ^ b != g ^ c) by (bit_vector);
        if fnv1a(s) == fnv1a(t) {
            lemma_round_is_injective(g ^ b, h ^ c);
        }
    } else {
        assert forall|i: int| 0 <= i < s.len() - 1 && i != k implies #[trigger] s.drop_last()[i]
            == t.drop_last()[i] by {
            assert(s[i] == t[i]);
        }
        law_one_byte_changes_the_hash(s.drop_last(), t.drop_last(), k);
        assert(s[s.len() - 1] == t[s.len() - 1]);
        assert(g != h ==> g ^ b != h ^ b) by (bit_vector);
        if fnv1a(s) == fnv1a(t) {
            lemma_round_is_injective(g ^ b, h ^ c);
        }
    }
}

/// A flush is due unless the hash that was sent last is that of the framebuffer. It
/// writes line after line, each under its own address from one on and with its own
/// nine bytes, and closes with two empty frames.
pub proof fn law_flush_writes_every_line(
    panel: Lpm009m360a,
    r: Option<Flush>,
    hash: u32,
    line: int,
    k: int,
)
    requires
        call_ensures(Lpm009m360a::flush_native, (&panel,), r),
        call_ensures(frame_hash, (&panel.fb,), hash),
        0 <= line < 144,
        0 <= k < 9,
    ensures
        r is None <==> panel.sent_hash == Some(hash),
        r matches Some(flush) ==> {
            let frame = flush.frames[line];
            &&& flush.hash == hash
            &&& frame.cmd == 0x88
            &&& frame.arg == line + 1
            &&& frame.data is Some
            &&& frame.data->0[k] == panel.fb[line * 9 + k]
            &&& flush.frames[144].cmd == 0 && flush.frames[144].arg == 0
                && flush.frames[144].data is None
            &&& flush.frames[145].cmd == 0 && flush.frames[145].arg == 0
                && flush.frames[145].data is None
        },
{
    if r is Some {
        let frames = r->0.frames;
        assert(frames@[line] == frames[line]);
        assert(frames@[144] == frames[144]);
        assert(frames@[145] == frames[145]);
        let part = panel.fb@.subrange(line * LINE_BYTES, (line + 1) * LINE_BYTES);
        assert(part.len() == 9);
        assert(frames[line].bytes() == part);
        assert(frames[line].data is Some);
        assert(frames[line].data->0@[k] == part[k]);
    }
}

/// Once a flush has gone out there is nothing to flush, until the framebuffer
/// changes: a change in a single byte makes the next flush due.
pub proof fn law_flush_goes_out_once(
    panel: Lpm009m360a,
    flush: Flush,
    sent: &mut Lpm009m360a,
    again: Option<Flush>,
    changed: Lpm009m360a,
    k: int,
    next: Option<Flush>,
)
    requires
        call_ensures(Lpm009m360a::flush_native, (&panel,), Some(flush)),
        *old(sent) == panel,
        call_ensures(Lpm009m360a::mark_sent, (sent, flush.hash), ()),
        call_ensures(Lpm009m360a::flush_native, (&*final(sent),), again),
        changed.sent_hash == final(sent).sent_hash,
        0 <= k < 1296,
        changed.fb[k] != panel.fb[k],
        forall|i: int| 0 <= i < 1296 && i != k ==> #[trigger] changed.fb@[i] == panel.fb@[i],
        call_ensures(Lpm009m360a::flush_native, (&changed,), next),
    ensures
        again is None,
        final(sent).sent_hash == Some(flush.hash),
        final(sent).rot == panel.rot,
        final(sent).fb == panel.fb,
        next is Some,
{
    law_one_byte_changes_the_hash(changed.fb@, panel.fb@, k);
}

/// A panel starts with the framebuffer and the orientation that it is given, and with
/// a flush due. It is blanked by a command without data, which takes a millisecond.
pub proof fn law_new_panel_wants_a_flush(
    fb: [u8; FRAMEBUFFER_LEN],
    rot: PanelRot,
    panel: Lpm009m360a,
    size: Size,
    canvas: Size,
    r: Option<Flush>,
    clear: Frame,
)
    requires
        call_ensures(Lpm009m360a::new, (fb, rot), panel),
        call_ensures(Lpm009m360a::size, (&panel,), size),
        call_ensures(PanelRot::logical_size, (rot,), canvas),
        call_ensures(Lpm009m360a::flush_native, (&panel,), r),
        call_ensures(Lpm009m360a::all_clear, (), clear),
    ensures
        panel.fb == fb,
        panel.rot == rot,
        size == canvas,
        r is Some,
        clear.cmd == 0x20 && clear.arg == 0 && clear.data is None,
        RESET_DELAY_MS == 1,
{
}

} // verus!
