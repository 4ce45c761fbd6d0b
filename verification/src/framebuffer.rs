use vstd::prelude::*;

verus! {

/// Screen width in pixels.
pub const SCREEN_W: usize = 160;

/// Screen height in pixels.
pub const SCREEN_H: usize = 144;

/// Bytes of one RGBA frame.
pub const FRAMEBUFFER_SIZE: usize = 92_160;

/// One finished frame: 160 x 144 pixels, 4 bytes (R, G, B, A) each, row by
/// row.
pub struct Frame {
    pub data: Vec<u8>,
}

/// A frame of opaque white.
pub open spec fn blank_frame() -> Seq<u8> {
    Seq::new(FRAMEBUFFER_SIZE as nat, |i: int| 0xFFu8)
}

/// The byte offset of pixel (x, y).
pub open spec fn pixel_offset(x: int, y: int) -> int {
    y * 640 + x * 4
}

/// `buf` with pixel (x, y) set to the opaque colour (r, g, b).
pub open spec fn with_pixel(buf: Seq<u8>, r: u8, g: u8, b: u8, x: int, y: int) -> Seq<u8> {
    let o = pixel_offset(x, y);
    buf.update(o, r).update(o + 1, g).update(o + 2, b).update(o + 3, 0xFF)
}

impl Frame {
    pub fn new() -> (r: Self)
        ensures
            r.data@ == blank_frame(),
    {
        Self { data: white_buffer() }
    }
}

/// A buffer of one frame's bytes, all 0xFF.
fn white_buffer() -> (r: Vec<u8>)
    ensures
        r@ == blank_frame(),
{
    let r = vec![0xFF; FRAMEBUFFER_SIZE];
    assert(r@ =~= blank_frame());
    r
}

#[verifier::external_type_specification]
#[verifier::external_body]
#[verifier::reject_recursive_types(T)]
pub struct ExSender<T>(std::sync::mpsc::Sender<T>);

/// `Sender::send`: hands `frame` to the receiving end; fails, dropping the
/// frame, once the receiver is gone. Whether it was taken is returned, and
/// nothing more is claimed.
#[verifier::external_body]
fn send_frame(sender: &std::sync::mpsc::Sender<Frame>, frame: Frame) -> bool {
    sender.send(frame).is_ok()
}

/// The drawing side of a double-buffered frame channel: pixels go into a
/// back buffer, and a finished frame is sent to the display side.
pub struct FramebufferWriter {
    back_buffer: Vec<u8>,
    frame_sender: std::sync::mpsc::Sender<Frame>,
    /// Every frame handed to the channel so far, oldest first.
    sent: Ghost<Seq<Seq<u8>>>,
}

impl View for FramebufferWriter {
    type V = Seq<u8>;

    closed spec fn view(&self) -> Seq<u8> {
        self.back_buffer@
    }
}

impl FramebufferWriter {
    /// The frames handed to the channel so far, oldest first.
    pub closed spec fn sent(&self) -> Seq<Seq<u8>> {
        self.sent@
    }

    pub fn new(frame_sender: std::sync::mpsc::Sender<Frame>) -> (r: Self)
        ensures
            r@ == blank_frame(),
            r.sent() == Seq::<Seq<u8>>::empty(),
    {
        Self { back_buffer: white_buffer(), frame_sender, sent: Ghost(Seq::empty()) }
    }

    /// Sets pixel (x, y) to the opaque colour (r, g, b).
    pub fn set_pixel(&mut self, r: u8, g: u8, b: u8, x: usize, y: usize)
        requires
            old(self)@.len() == FRAMEBUFFER_SIZE,
            x < SCREEN_W,
            y < SCREEN_H,
        ensures
            final(self)@ == with_pixel(old(self)@, r, g, b, x as int, y as int),
            final(self).sent() == old(self).sent(),
    {
        let bytes_per_pixel: usize = 4;
        let bytes_per_row: usize = bytes_per_pixel * 160;

        let vertical_offset = y * bytes_per_row;
        let horizontal_offset = x * bytes_per_pixel;
        let total_offset = vertical_offset + horizontal_offset;

        self.back_buffer.set(total_offset, r);
        self.back_buffer.set(total_offset + 1, g);
        self.back_buffer.set(total_offset + 2, b);
        self.back_buffer.set(total_offset + 3, 0xFF);
    }

    /// Takes the drawn back buffer as a frame and starts a new, white, one.
    pub fn take_frame(&mut self) -> (f: Frame)
        ensures
            f.data@ == old(self)@,
            final(self)@ == blank_frame(),
            final(self).sent() == old(self).sent(),
    {
        let mut new_back = white_buffer();
        std::mem::swap(&mut self.back_buffer, &mut new_back);
        Frame { data: new_back }
    }

    /// Sends the drawn frame (the frame `take_frame` gives, unchanged) and
    /// starts a new, white, back buffer. The frame joins the log of frames
    /// handed to the channel. Returns whether the display side took it.
    pub fn submit_frame(&mut self) -> (taken: bool)
        ensures
            final(self)@ == blank_frame(),
            final(self).sent() == old(self).sent().push(old(self)@),
    {
        let frame = self.take_frame();
        self.sent = Ghost(self.sent@.push(frame.data@));
        send_frame(&self.frame_sender, frame)
    }

    /// Whitens the back buffer.
    pub fn clear(&mut self)
        ensures
            final(self)@ == blank_frame(),
            final(self).sent() == old(self).sent(),
    {
        self.back_buffer = white_buffer();
    }

    /// Paints the whole back buffer with the opaque colour (r, g, b).
    pub fn fill(&mut self, r: u8, g: u8, b: u8)
        requires
            old(self)@.len() == FRAMEBUFFER_SIZE,
        ensures
            final(self)@.len() == FRAMEBUFFER_SIZE,
            final(self).sent() == old(self).sent(),
            forall|i: int|
                0 <= i < FRAMEBUFFER_SIZE ==> #[trigger] final(self)@[i] == (if i % 4 == 0 {
                    r
                } else if i % 4 == 1 {
                    g
                } else if i % 4 == 2 {
                    b
                } else {
                    0xFF
                }),
    {
        let mut y: usize = 0;
        while y < 144
            invariant
                y <= 144,
                self@.len() == FRAMEBUFFER_SIZE,
                self.sent() == old(self).sent(),
                forall|i: int| 0 <= i < y * 640 ==> #[trigger] self@[i] == fill_byte(r, g, b, i),
            decreases 144 - y,
        {
            let mut x: usize = 0;
            while x < 160
                invariant
                    y < 144,
                    x <= 160,
                    self@.len() == FRAMEBUFFER_SIZE,
                    self.sent() == old(self).sent(),
                    forall|i: int| 0 <= i < y * 640 + x * 4 ==> #[trigger] self@[i] == fill_byte(r, g, b, i),
                decreases 160 - x,
            {
                self.set_pixel(r, g, b, x, y);
                proof {
                    assert forall|i: int| 0 <= i < y * 640 + (x + 1) * 4 implies #[trigger] self@[i] == fill_byte(
                        r,
                        g,
                        b,
                        i,
                    ) by {
                        if i >= y * 640 + x * 4 {
                            assert(i - (y * 640 + x * 4) < 4);
                            assert((y * 640 + x * 4) % 4 == 0) by (nonlinear_arith)
                                requires y * 640 + x * 4 >= 0;
                        }
                    }
                }
                x += 1;
            }
            y += 1;
        }
        proof {
            assert forall|i: int| 0 <= i < FRAMEBUFFER_SIZE implies #[trigger] self@[i] == (if i % 4 == 0 {
                r
            } else if i % 4 == 1 {
                g
            } else if i % 4 == 2 {
                b
            } else {
                0xFF
            }) by {
                assert(self@[i] == fill_byte(r, g, b, i));
            }
        }
    }
}

/// Byte `i` of a frame painted (r, g, b).
pub open spec fn fill_byte(r: u8, g: u8, b: u8, i: int) -> u8 {
    if i % 4 == 0 {
        r
    } else if i % 4 == 1 {
        g
    } else if i % 4 == 2 {
        b
    } else {
        0xFF
    }
}

} // verus!
