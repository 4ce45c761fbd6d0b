use tetsuyu::framebuffer::{Frame, FramebufferWriter, FRAMEBUFFER_SIZE};
use tetsuyu::harness::{compare_frame, CompareError, DecodeError, DiffReport, PixelLayout, RefImage, RunOutcome};

#[test]
fn frame_starts_white() {
    let f = Frame::new();
    assert_eq!(f.data.len(), FRAMEBUFFER_SIZE);
    assert!(f.data.iter().all(|&b| b == 0xFF));
}

#[test]
fn writer_sends_drawn_frame() {
    let (tx, rx) = std::sync::mpsc::channel();
    let mut w = FramebufferWriter::new(tx);
    w.set_pixel(1, 2, 3, 1, 1);
    assert!(w.submit_frame());
    let frame = rx.try_recv().unwrap();
    let o = 160 * 4 + 4;
    assert_eq!(&frame.data[o..o + 4], &[1, 2, 3, 0xFF]);
    assert_eq!(frame.data[0], 0xFF);
    // The next frame starts white again.
    assert!(w.submit_frame());
    let next = rx.try_recv().unwrap();
    assert!(next.data.iter().all(|&b| b == 0xFF));
}

#[test]
fn writer_fill_and_clear() {
    let (tx, rx) = std::sync::mpsc::channel();
    let mut w = FramebufferWriter::new(tx);
    w.fill(10, 20, 30);
    w.submit_frame();
    let f = rx.try_recv().unwrap();
    assert_eq!(&f.data[FRAMEBUFFER_SIZE - 4..], &[10, 20, 30, 0xFF]);
    w.fill(1, 1, 1);
    w.clear();
    w.submit_frame();
    let g = rx.try_recv().unwrap();
    assert!(g.data.iter().all(|&b| b == 0xFF));
}

#[test]
fn writer_reports_closed_receiver() {
    let (tx, rx) = std::sync::mpsc::channel();
    drop(rx);
    let mut w = FramebufferWriter::new(tx);
    assert!(!w.submit_frame());
}

fn reference(rgba: Vec<u8>) -> RefImage {
    RefImage { width: 160, height: 144, rgba }
}

#[test]
fn compare_exact_frame() {
    let frame = vec![0x55u8; FRAMEBUFFER_SIZE];
    let r = compare_frame(&frame, &reference(frame.clone())).unwrap();
    assert_eq!(r.total, 23040);
    assert_eq!(r.matched, 23040);
    assert!(r.first_diff.is_none());
    assert!(r.is_exact());
}

#[test]
fn compare_reports_first_difference() {
    let frame = vec![0u8; FRAMEBUFFER_SIZE];
    let mut rgba = frame.clone();
    // Pixel (5, 2) and pixel (0, 3) differ; alpha differences are ignored.
    rgba[(2 * 160 + 5) * 4 + 1] = 9;
    rgba[(3 * 160) * 4] = 9;
    rgba[3] = 7;
    let r = compare_frame(&frame, &reference(rgba)).unwrap();
    assert_eq!(r.matched, 23038);
    assert_eq!(r.first_diff, Some((5, 2)));
    assert!(!r.is_exact());
}

#[test]
fn compare_rejects_bad_sizes() {
    let small = RefImage { width: 10, height: 10, rgba: vec![] };
    assert_eq!(
        compare_frame(&[], &small).unwrap_err(),
        CompareError::ReferenceSize { width: 10, height: 10 }
    );
    let frame = vec![0u8; 100];
    assert_eq!(
        compare_frame(&frame, &reference(vec![0u8; FRAMEBUFFER_SIZE])).unwrap_err(),
        CompareError::FrameTooSmall { len: 100 }
    );
}

#[test]
fn empty_report_is_not_exact() {
    let r = DiffReport { total: 0, matched: 0, first_diff: None };
    assert!(!r.is_exact());
}

#[test]
fn expand_grey_and_indexed() {
    let g = RefImage::expand(2, 1, PixelLayout::Grayscale, &[0x10, 0x20], &[]);
    assert_eq!(g.rgba, vec![0x10, 0x10, 0x10, 0xFF, 0x20, 0x20, 0x20, 0xFF]);
    let i = RefImage::expand(2, 1, PixelLayout::Indexed, &[1, 5], &[1, 2, 3, 4, 5, 6]);
    assert_eq!(i.rgba, vec![4, 5, 6, 0xFF, 0, 0, 0, 0xFF]);
    let a = RefImage::expand(1, 1, PixelLayout::GrayscaleAlpha, &[0x80, 0x40], &[]);
    assert_eq!(a.rgba, vec![0x80, 0x80, 0x80, 0x40]);
    let rgb = RefImage::expand(1, 1, PixelLayout::Rgb, &[1, 2, 3], &[]);
    assert_eq!(rgb.rgba, vec![1, 2, 3, 0xFF]);
}

#[test]
fn writer_take_frame_gives_drawn_buffer() {
    let (tx, _rx) = std::sync::mpsc::channel();
    let mut w = FramebufferWriter::new(tx);
    w.set_pixel(9, 8, 7, 0, 0);
    let f = w.take_frame();
    assert_eq!(&f.data[0..4], &[9, 8, 7, 0xFF]);
    let g = w.take_frame();
    assert!(g.data.iter().all(|&b| b == 0xFF));
}

#[test]
fn writer_submit_frame_sends_drawn_buffer() {
    let (tx, rx) = std::sync::mpsc::channel();
    let mut w = FramebufferWriter::new(tx);
    w.set_pixel(1, 2, 3, 159, 143);
    assert!(w.submit_frame());
    let f = rx.try_recv().unwrap();
    let o = 4 * (160 * 143 + 159);
    assert_eq!(&f.data[o..o + 4], &[1, 2, 3, 0xFF]);
    assert_eq!(f.data.iter().filter(|&&b| b != 0xFF).count(), 3);
    // The next frame starts white.
    assert!(w.submit_frame());
    assert!(rx.try_recv().unwrap().data.iter().all(|&b| b == 0xFF));
    drop(rx);
    assert!(!w.submit_frame());
}

fn encode_png(w: u32, h: u32, color: png::ColorType, data: &[u8]) -> Vec<u8> {
    let mut out = Vec::new();
    {
        let mut enc = png::Encoder::new(&mut out, w, h);
        enc.set_color(color);
        enc.set_depth(png::BitDepth::Eight);
        let mut writer = enc.write_header().unwrap();
        writer.write_image_data(data).unwrap();
    }
    out
}

#[test]
fn decode_rgb_png() {
    let bytes = encode_png(2, 1, png::ColorType::Rgb, &[1, 2, 3, 4, 5, 6]);
    let img = RefImage::decode(&bytes).unwrap();
    assert_eq!((img.width, img.height), (2, 1));
    assert_eq!(img.rgba, vec![1, 2, 3, 0xFF, 4, 5, 6, 0xFF]);
}

#[test]
fn decode_grayscale_alpha_png() {
    let bytes = encode_png(1, 2, png::ColorType::GrayscaleAlpha, &[9, 0x80, 7, 0x10]);
    let img = RefImage::decode(&bytes).unwrap();
    assert_eq!(img.rgba, vec![9, 9, 9, 0x80, 7, 7, 7, 0x10]);
}

#[test]
fn decode_rejects_garbage() {
    assert!(matches!(RefImage::decode(&[1, 2, 3, 4]), Err(DecodeError::Undecodable)));
}
