//! Panel geometry and the packed monochrome framebuffer.

use vstd::prelude::*;

verus! {

/// Width and height of a panel, in pixels.
#[derive(Clone, Copy, Debug, PartialEq, Eq, Structural)]
pub struct Dimensions {
    pub width: u32,
    pub height: u32,
}

impl Dimensions {
    /// Number of pixels of a panel of these dimensions.
    pub open spec fn pixels(self) -> int {
        self.width * self.height
    }

    /// Number of bytes that hold one bit per pixel.
    pub open spec fn byte_len(self) -> int {
        self.pixels() / 8
    }

    /// Whether the pixels fill whole bytes, with no padding bit.
    pub open spec fn byte_aligned(self) -> bool {
        self.pixels() % 8 == 0
    }

    /// Whether the coordinate `(x, y)` lies on the panel.
    pub open spec fn contains(self, x: int, y: int) -> bool {
        0 <= x < self.width && 0 <= y < self.height
    }

    /// Position of pixel `(x, y)` in the row-major order of the panel.
    pub open spec fn bit_index(self, x: int, y: int) -> int {
        y * self.width + x
    }
}

/// SteelSeries devices which can be targeted.
#[derive(Clone, Copy, Debug, PartialEq, Eq, Hash, Structural)]
pub enum SteelSeriesLCDType {
    /// Rival 700 and Rival 710
    Rival7x0,
    /// Apex7, Apex 7 TKL, Apex Pro and Apex Pro TKL
    Apex,
    /// Arctis Pro Wireless
    Arctis,
    /// GameDAC or Arctis Pro
    GameDAC,
}

impl SteelSeriesLCDType {
    /// The supported panels, in the order in which a session lists them.
    pub open spec fn spec_all() -> Seq<SteelSeriesLCDType> {
        seq![
            SteelSeriesLCDType::Apex,
            SteelSeriesLCDType::Arctis,
            SteelSeriesLCDType::GameDAC,
            SteelSeriesLCDType::Rival7x0,
        ]
    }

    /// The geometry table.
    pub open spec fn spec_dimensions(&self) -> Dimensions {
        match *self {
            SteelSeriesLCDType::Apex => Dimensions { width: 128, height: 40 },
            SteelSeriesLCDType::Arctis => Dimensions { width: 128, height: 48 },
            SteelSeriesLCDType::GameDAC => Dimensions { width: 128, height: 52 },
            SteelSeriesLCDType::Rival7x0 => Dimensions { width: 128, height: 36 },
        }
    }

    /// All supported LCD types, in a fixed order.
    pub fn all() -> (types: &'static [SteelSeriesLCDType])
        ensures
            types@ == Self::spec_all(),
    {
        &[
            SteelSeriesLCDType::Apex,
            SteelSeriesLCDType::Arctis,
            SteelSeriesLCDType::GameDAC,
            SteelSeriesLCDType::Rival7x0,
        ]
    }

    /// The dimensions of each type of hardware.
    #[verifier::when_used_as_spec(spec_dimensions)]
    pub fn dimensions(&self) -> (size: Dimensions)
        ensures
            size == self.spec_dimensions(),
            size.byte_aligned(),
    {
        match self {
            SteelSeriesLCDType::Apex => Dimensions { width: 128, height: 40 },
            SteelSeriesLCDType::Arctis => Dimensions { width: 128, height: 48 },
            SteelSeriesLCDType::GameDAC => Dimensions { width: 128, height: 52 },
            SteelSeriesLCDType::Rival7x0 => Dimensions { width: 128, height: 36 },
        }
    }

    /// The number of bytes of a framebuffer for this type of hardware.
    pub fn buffer_len(&self) -> (len: usize)
        ensures
            len == self.spec_dimensions().byte_len(),
    {
        let size = self.dimensions();
        assert(size.width == 128 && size.height <= 52);
        size.width as usize * size.height as usize / 8
    }

    /// The bit index of the pixel at `(x, y)`, or `None` where the
    /// coordinate lies outside the panel.
    pub fn locate(&self, x: i32, y: i32) -> (index: Option<usize>)
        ensures
            index.is_some() == self.spec_dimensions().contains(x as int, y as int),
            index matches Some(i) ==> i == self.spec_dimensions().bit_index(x as int, y as int) && i
                < self.spec_dimensions().pixels(),
    {
        let size = self.dimensions();
        if x >= 0 && y >= 0 && (x as u32) < size.width && (y as u32) < size.height {
            proof {
                lemma_bit_index(size, x as int, y as int, x as int, y as int);
            }
            assert(size.width == 128 && size.height <= 52);
            Some(y as usize * size.width as usize + x as usize)
        } else {
            None
        }
    }
}

/// One pixel write: a coordinate and the state that the pixel is to take.
#[derive(Clone, Copy, Debug, PartialEq, Eq, Structural)]
pub struct Pixel {
    pub x: i32,
    pub y: i32,
    pub on: bool,
}

/// Whether bit `offset` of `byte` is set, bit 0 being the least significant.
pub open spec fn has_bit(byte: u8, offset: u8) -> bool {
    byte & (1u8 << offset) != 0
}

/// `byte` with bit `offset` set or cleared.
pub open spec fn with_bit(byte: u8, offset: u8, on: bool) -> u8 {
    if on {
        byte | (1u8 << offset)
    } else {
        byte & !(1u8 << offset)
    }
}

/// Place inside its byte of the bit with index `index`: the most significant
/// bit of a byte holds the lowest index.
pub open spec fn bit_offset(index: int) -> u8 {
    (7 - index % 8) as u8
}

/// State of the bit with index `index` in a packed buffer.
pub open spec fn bit_at(bytes: Seq<u8>, index: int) -> bool {
    has_bit(bytes[index / 8], bit_offset(index))
}

/// What a display is to its callers: the panel it targets and the packed
/// bytes of its framebuffer.
pub struct DisplayView {
    pub lcd_type: SteelSeriesLCDType,
    pub bytes: Seq<u8>,
}

impl DisplayView {
    /// The dimensions of the targeted panel.
    pub open spec fn size(self) -> Dimensions {
        self.lcd_type.spec_dimensions()
    }

    /// The framebuffer holds exactly one bit per pixel of the panel.
    pub open spec fn wf(self) -> bool {
        self.bytes.len() == self.size().byte_len()
    }

    /// The framebuffer of a panel with every pixel off.
    pub open spec fn blank(lcd_type: SteelSeriesLCDType) -> DisplayView {
        DisplayView {
            lcd_type,
            bytes: Seq::new(lcd_type.spec_dimensions().byte_len() as nat, |i: int| 0x00u8),
        }
    }

    /// State of the pixel at `(x, y)`.
    pub open spec fn is_on(self, x: int, y: int) -> bool {
        bit_at(self.bytes, self.size().bit_index(x, y))
    }

    /// A framebuffer of the same panel with every byte all ones or all zeros.
    pub open spec fn cleared(self, on: bool) -> DisplayView {
        DisplayView {
            lcd_type: self.lcd_type,
            bytes: Seq::new(
                self.bytes.len(),
                |i: int|
                    if on {
                        0xFFu8
                    } else {
                        0x00u8
                    },
            ),
        }
    }

    /// The display after one pixel write. A write outside the panel changes
    /// nothing.
    pub open spec fn set_pixel(self, x: int, y: int, on: bool) -> DisplayView {
        if self.size().contains(x, y) {
            let index = self.size().bit_index(x, y);
            DisplayView {
                lcd_type: self.lcd_type,
                bytes: self.bytes.update(
                    index / 8,
                    with_bit(self.bytes[index / 8], bit_offset(index), on),
                ),
            }
        } else {
            self
        }
    }

    /// The display after the writes of `pixels`, applied first to last.
    pub open spec fn draw(self, pixels: Seq<Pixel>) -> DisplayView
        decreases pixels.len(),
    {
        if pixels.len() == 0 {
            self
        } else {
            let p = pixels.last();
            self.draw(pixels.drop_last()).set_pixel(p.x as int, p.y as int, p.on)
        }
    }

    /// The writes of `pixels` that fall outside the panel, in their order.
    pub open spec fn clipped(self, pixels: Seq<Pixel>) -> Seq<Pixel>
        decreases pixels.len(),
    {
        if pixels.len() == 0 {
            Seq::empty()
        } else {
            let p = pixels.last();
            let rest = self.clipped(pixels.drop_last());
            if self.size().contains(p.x as int, p.y as int) {
                rest
            } else {
                rest.push(p)
            }
        }
    }

    /// The state that the writes of `pixels` leave at `(x, y)`: that of the
    /// last write to this coordinate, if there is one.
    pub open spec fn last_write(pixels: Seq<Pixel>, x: int, y: int) -> Option<bool>
        decreases pixels.len(),
    {
        if pixels.len() == 0 {
            None
        } else {
            let p = pixels.last();
            if p.x == x && p.y == y {
                Some(p.on)
            } else {
                Self::last_write(pixels.drop_last(), x, y)
            }
        }
    }
}

/// Display driver for SteelSeries devices: the packed framebuffer of one
/// panel, one bit per pixel, rows first, most significant bit first.
#[derive(Debug, PartialEq, Eq)]
pub struct SteelSeriesDisplay {
    lcd_type: SteelSeriesLCDType,
    framebuffer: Vec<u8>,
}

impl View for SteelSeriesDisplay {
    type V = DisplayView;

    closed spec fn view(&self) -> DisplayView {
        DisplayView { lcd_type: self.lcd_type, bytes: self.framebuffer@ }
    }
}

impl SteelSeriesDisplay {
    #[verifier::type_invariant]
    spec fn inv(&self) -> bool {
        self@.wf()
    }

    /// Create a display for a device type, with every pixel off.
    pub fn new(lcd_type: SteelSeriesLCDType) -> (display: SteelSeriesDisplay)
        ensures
            display@ == DisplayView::blank(lcd_type),
            display@.wf(),
            forall|x: int, y: int|
                lcd_type.spec_dimensions().contains(x, y) ==> !#[trigger] display@.is_on(x, y),
    {
        let len: usize = lcd_type.buffer_len();
        let framebuffer: Vec<u8> = vec![0u8; len];
        let display = SteelSeriesDisplay { lcd_type, framebuffer };
        proof {
            assert(display@.bytes =~= DisplayView::blank(lcd_type).bytes);
            assert forall|x: int, y: int|
                lcd_type.spec_dimensions().contains(x, y) implies !#[trigger] display@.is_on(
                x,
                y,
            ) by {
                lemma_cleared_reads(display@.cleared(false), x, y, false);
                assert(display@.bytes =~= display@.cleared(false).bytes);
            }
        }
        display
    }

    /// The device type that this display targets.
    pub fn lcd_type(&self) -> (lcd_type: SteelSeriesLCDType)
        ensures
            lcd_type == self@.lcd_type,
    {
        self.lcd_type
    }

    /// The dimensions of the targeted panel.
    pub fn size(&self) -> (size: Dimensions)
        ensures
            size == self@.size(),
    {
        self.lcd_type.dimensions()
    }

    /// The packed framebuffer, as it goes on the wire.
    pub fn as_bytes(&self) -> (bytes: &[u8])
        ensures
            bytes@ == self@.bytes,
            self@.wf(),
    {
        proof {
            use_type_invariant(self);
        }
        self.framebuffer.as_slice()
    }

    /// Turn every pixel on or off.
    pub fn clear(&mut self, on: bool)
        ensures
            final(self)@ == old(self)@.cleared(on),
            final(self)@.wf(),
            forall|i: int|
                0 <= i < final(self)@.bytes.len() ==> #[trigger] final(self)@.bytes[i] == (if on {
                    0xFFu8
                } else {
                    0x00u8
                }),
            forall|x: int, y: int|
                final(self)@.size().contains(x, y) ==> #[trigger] final(self)@.is_on(x, y) == on,
    {
        proof {
            use_type_invariant(&*self);
        }
        let target: u8 = if on {
            0xFF
        } else {
            0x00
        };
        let len: usize = self.framebuffer.len();
        let mut i: usize = 0;
        while i < len
            invariant
                i <= len,
                len == self.framebuffer@.len(),
                self.lcd_type == old(self).lcd_type,
                self@.wf(),
                forall|j: int| 0 <= j < i ==> #[trigger] self.framebuffer@[j] == target,
            decreases len - i,
        {
            self.framebuffer[i] = target;
            i += 1;
        }
        proof {
            assert(self@.bytes =~= old(self)@.cleared(on).bytes);
            assert forall|x: int, y: int| self@.size().contains(x, y) implies #[trigger] self@.is_on(
                x,
                y,
            ) == on by {
                lemma_cleared_reads(old(self)@, x, y, on);
            }
        }
    }

    /// Turn the pixel at `(x, y)` on or off. A coordinate outside the panel
    /// is ignored: the framebuffer stays as it was, and the result says so.
    pub fn set_pixel(&mut self, x: i32, y: i32, on: bool) -> (drawn: bool)
        ensures
            drawn == old(self)@.size().contains(x as int, y as int),
            final(self)@ == old(self)@.set_pixel(x as int, y as int, on),
            final(self)@.wf(),
            !drawn ==> final(self)@ == old(self)@,
            forall|x2: int, y2: int|
                drawn && old(self)@.size().contains(x2, y2) ==> #[trigger] final(self)@.is_on(x2, y2)
                    == (if x2 == x && y2 == y {
                    on
                } else {
                    old(self)@.is_on(x2, y2)
                }),
    {
        proof {
            use_type_invariant(&*self);
        }
        if let Some(pixel_index) = self.lcd_type.locate(x, y) {
            proof {
                lemma_panels_byte_aligned(self.lcd_type);
            }
            let byte_index: usize = pixel_index / 8;
            let offset: u8 = (7 - pixel_index % 8) as u8;
            let byte: u8 = self.framebuffer[byte_index];
            let updated: u8 = if on {
                byte | (1u8 << offset)
            } else {
                byte & !(1u8 << offset)
            };
            self.framebuffer[byte_index] = updated;
            proof {
                assert(self@.bytes =~= old(self)@.set_pixel(x as int, y as int, on).bytes);
                assert forall|x2: int, y2: int| old(self)@.size().contains(x2, y2) implies (
                #[trigger] self@.is_on(x2, y2)) == (if x2 == x && y2 == y {
                    on
                } else {
                    old(self)@.is_on(x2, y2)
                }) by {
                    lemma_set_pixel_reads(old(self)@, x as int, y as int, on, x2, y2);
                }
            }
            true
        } else {
            false
        }
    }

    /// The state of the pixel at `(x, y)`, or `None` outside the panel.
    pub fn get_pixel(&self, x: i32, y: i32) -> (state: Option<bool>)
        ensures
            state == (if self@.size().contains(x as int, y as int) {
                Some(self@.is_on(x as int, y as int))
            } else {
                None
            }),
    {
        proof {
            use_type_invariant(self);
        }
        if let Some(pixel_index) = self.lcd_type.locate(x, y) {
            proof {
                lemma_panels_byte_aligned(self.lcd_type);
            }
            let offset: u8 = (7 - pixel_index % 8) as u8;
            Some(self.framebuffer[pixel_index / 8] & (1u8 << offset) != 0)
        } else {
            None
        }
    }

    /// Apply a batch of pixel writes in order, so that a later write to a
    /// coordinate overrides an earlier one. Writes outside the panel are
    /// ignored, not refused: the result lists them, for the caller to warn
    /// about.
    pub fn draw_iter(&mut self, pixels: &[Pixel]) -> (ignored: Vec<Pixel>)
        ensures
            final(self)@ == old(self)@.draw(pixels@),
            final(self)@.wf(),
            ignored@ == old(self)@.clipped(pixels@),
            forall|x: int, y: int|
                old(self)@.size().contains(x, y) ==> #[trigger] final(self)@.is_on(x, y) == (
                match DisplayView::last_write(pixels@, x, y) {
                    Some(on) => on,
                    None => old(self)@.is_on(x, y),
                }),
    {
        proof {
            use_type_invariant(&*self);
        }
        let mut ignored: Vec<Pixel> = Vec::new();
        let mut i: usize = 0;
        while i < pixels.len()
            invariant
                i <= pixels.len(),
                self@ == old(self)@.draw(pixels@.take(i as int)),
                ignored@ == old(self)@.clipped(pixels@.take(i as int)),
                self@.lcd_type == old(self)@.lcd_type,
            decreases pixels.len() - i,
        {
            let p = pixels[i];
            proof {
                assert(pixels@.take(i + 1).drop_last() =~= pixels@.take(i as int));
                assert(pixels@.take(i + 1).last() == p);
            }
            let drawn = self.set_pixel(p.x, p.y, p.on);
            if !drawn {
                ignored.push(p);
            }
            i += 1;
        }
        proof {
            assert(pixels@.take(i as int) =~= pixels@);
            lemma_draw_wf(old(self)@, pixels@);
            assert forall|x: int, y: int| old(self)@.size().contains(x, y) implies (
            #[trigger] self@.is_on(x, y)) == (match DisplayView::last_write(pixels@, x, y) {
                Some(on) => on,
                None => old(self)@.is_on(x, y),
            }) by {
                lemma_draw_last_write_wins(old(self)@, pixels@, x, y);
            }
        }
        ignored
    }
}

/// Setting or clearing bit `k` of a byte gives that bit the new state and
/// leaves the other seven as they were.
pub proof fn lemma_with_bit(byte: u8, k: u8, j: u8, on: bool)
    requires
        k < 8,
        j < 8,
    ensures
        has_bit(with_bit(byte, k, on), j) == (if j == k {
            on
        } else {
            has_bit(byte, j)
        }),
{
    assert(((byte | (1u8 << k)) & (1u8 << j) != 0) == (j == k || byte & (1u8 << j) != 0))
        by (bit_vector)
        requires
            k < 8,
            j < 8,
    ;
    assert(((byte & !(1u8 << k)) & (1u8 << j) != 0) == (j != k && byte & (1u8 << j) != 0))
        by (bit_vector)
        requires
            k < 8,
            j < 8,
    ;
}

/// A byte of zeros has no bit set, a byte of ones has all eight.
pub proof fn lemma_uniform_byte(j: u8)
    requires
        j < 8,
    ensures
        !has_bit(0x00u8, j),
        has_bit(0xFFu8, j),
{
    assert(0x00u8 & (1u8 << j) == 0) by (bit_vector);
    assert(0xFFu8 & (1u8 << j) != 0) by (bit_vector)
        requires
            j < 8,
    ;
}

/// On a panel, the bit index of a coordinate is below the number of pixels,
/// and two coordinates share a bit index only if they are the same.
pub proof fn lemma_bit_index(size: Dimensions, x: int, y: int, x2: int, y2: int)
    requires
        size.contains(x, y),
        size.contains(x2, y2),
    ensures
        0 <= size.bit_index(x, y) < size.pixels(),
        size.bit_index(x, y) == size.bit_index(x2, y2) ==> x == x2 && y == y2,
{
    let w = size.width as int;
    let h = size.height as int;
    assert(0 <= y * w && y * w + w <= h * w) by (nonlinear_arith)
        requires
            0 <= y < h,
            0 <= w,
    ;
    assert(h * w == w * h) by (nonlinear_arith);
    if y < y2 {
        assert(y * w + w <= y2 * w) by (nonlinear_arith)
            requires
                y < y2,
                0 <= w,
        ;
    }
    if y2 < y {
        assert(y2 * w + w <= y * w) by (nonlinear_arith)
            requires
                y2 < y,
                0 <= w,
        ;
    }
}

/// Every panel of the table fills whole bytes: no padding bit is needed.
pub proof fn lemma_panels_byte_aligned(lcd_type: SteelSeriesLCDType)
    ensures
        lcd_type.spec_dimensions().byte_aligned(),
        lcd_type.spec_dimensions().pixels() == 8 * lcd_type.spec_dimensions().byte_len(),
{
    match lcd_type {
        SteelSeriesLCDType::Apex => assert(128 * 40 == 8 * 640),
        SteelSeriesLCDType::Arctis => assert(128 * 48 == 8 * 768),
        SteelSeriesLCDType::GameDAC => assert(128 * 52 == 8 * 832),
        SteelSeriesLCDType::Rival7x0 => assert(128 * 36 == 8 * 576),
    }
}

/// In a framebuffer whose bytes are all ones or all zeros, every pixel of
/// the panel is on or off accordingly.
pub proof fn lemma_cleared_reads(display: DisplayView, x: int, y: int, on: bool)
    requires
        display.wf(),
        display.size().contains(x, y),
    ensures
        display.cleared(on).is_on(x, y) == on,
{
    let index = display.size().bit_index(x, y);
    lemma_bit_index(display.size(), x, y, x, y);
    lemma_panels_byte_aligned(display.lcd_type);
    lemma_uniform_byte(bit_offset(index));
}

/// After a pixel write on the panel, the written coordinate reads back the
/// new state and every other coordinate of the panel reads as before.
pub proof fn lemma_set_pixel_reads(
    display: DisplayView,
    x: int,
    y: int,
    on: bool,
    x2: int,
    y2: int,
)
    requires
        display.wf(),
        display.size().contains(x, y),
        display.size().contains(x2, y2),
    ensures
        display.set_pixel(x, y, on).wf(),
        display.set_pixel(x, y, on).is_on(x2, y2) == (if x2 == x && y2 == y {
            on
        } else {
            display.is_on(x2, y2)
        }),
{
    let size = display.size();
    let i = size.bit_index(x, y);
    let i2 = size.bit_index(x2, y2);
    lemma_bit_index(size, x, y, x2, y2);
    lemma_bit_index(size, x2, y2, x, y);
    lemma_panels_byte_aligned(display.lcd_type);
    if i / 8 == i2 / 8 {
        lemma_with_bit(display.bytes[i / 8], bit_offset(i), bit_offset(i2), on);
    }
}

/// A pixel write outside the panel leaves the display as it was.
pub proof fn lemma_set_pixel_outside(display: DisplayView, x: int, y: int, on: bool)
    requires
        !display.size().contains(x, y),
    ensures
        display.set_pixel(x, y, on) == display,
{
}

/// A batch of writes keeps the panel and the length of the framebuffer.
pub proof fn lemma_draw_wf(display: DisplayView, pixels: Seq<Pixel>)
    requires
        display.wf(),
    ensures
        display.draw(pixels).wf(),
        display.draw(pixels).lcd_type == display.lcd_type,
    decreases pixels.len(),
{
    if pixels.len() > 0 {
        let p = pixels.last();
        let before = display.draw(pixels.drop_last());
        lemma_draw_wf(display, pixels.drop_last());
        if before.size().contains(p.x as int, p.y as int) {
            lemma_set_pixel_reads(before, p.x as int, p.y as int, p.on, p.x as int, p.y as int);
        }
    }
}

/// Last write wins: after a batch of writes, a coordinate of the panel holds
/// the state of the last write that targets it, and its earlier state if no
/// write of the batch does.
pub proof fn lemma_draw_last_write_wins(display: DisplayView, pixels: Seq<Pixel>, x: int, y: int)
    requires
        display.wf(),
        display.size().contains(x, y),
    ensures
        display.draw(pixels).is_on(x, y) == (match DisplayView::last_write(pixels, x, y) {
            Some(on) => on,
            None => display.is_on(x, y),
        }),
    decreases pixels.len(),
{
    if pixels.len() > 0 {
        let p = pixels.last();
        let before = display.draw(pixels.drop_last());
        lemma_draw_wf(display, pixels.drop_last());
        lemma_draw_last_write_wins(display, pixels.drop_last(), x, y);
        if before.size().contains(p.x as int, p.y as int) {
            lemma_set_pixel_reads(before, p.x as int, p.y as int, p.on, x, y);
        }
    }
}

/// Two writes to one coordinate of the panel with opposite states leave the
/// pixel in the state of the second.
pub proof fn lemma_opposite_writes(display: DisplayView, x: i32, y: i32, on: bool)
    requires
        display.wf(),
        display.size().contains(x as int, y as int),
    ensures
        display.draw(seq![Pixel { x, y, on: !on }, Pixel { x, y, on }]).is_on(x as int, y as int)
            == on,
{
    let pixels = seq![Pixel { x, y, on: !on }, Pixel { x, y, on }];
    lemma_draw_last_write_wins(display, pixels, x as int, y as int);
}

/// Reading the packed bytes back bit by bit gives the pixels: bit `i` is the
/// state of the pixel in column `i % width` of row `i / width`.
pub proof fn lemma_bits_are_pixels(display: DisplayView, i: int)
    requires
        display.wf(),
        0 <= i < display.size().pixels(),
    ensures
        display.size().contains(i % (display.size().width as int), i / (display.size().width as int)),
        bit_at(display.bytes, i) == display.is_on(
            i % (display.size().width as int),
            i / (display.size().width as int),
        ),
{
    let w = display.size().width as int;
    let h = display.size().height as int;
    assert(w > 0) by (nonlinear_arith)
        requires
            0 <= i < w * h,
            0 <= w,
    ;
    assert(i == (i / w) * w + i % w && 0 <= i % w < w && 0 <= i / w < h) by (nonlinear_arith)
        requires
            0 <= i < w * h,
            w > 0,
    ;
}

} // verus!
