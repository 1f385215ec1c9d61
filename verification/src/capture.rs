//! Asynchronous framebuffer capture: a two-state recorder that stamps each
//! grabbed frame with a strictly increasing sequence number and a
//! zero-padded PNG filename, and hands the raw pixels out as encode jobs
//! so writing never stalls the frame loop.  The pixel readback itself and
//! the file writes belong to the caller; everything between — state
//! machine, numbering, naming, row order and encoding — lives here.

use vstd::prelude::*;
use vstd::arithmetic::div_mod::{
    lemma_div_multiples_vanish_fancy, lemma_mod_multiples_vanish, lemma_small_mod,
};
use crate::numeric::{pad8, pad8_spec};
use vstd::string::StringExecFns;

verus! {

/// Relies on chrono's `Utc::now` for the current instant and on
/// `DateTime::format` with a fixed, valid strftime pattern (year month
/// day, underscore, hour minute second) to render it; with a valid
/// pattern the rendering cannot fail.  Nothing is assumed of the text:
/// it depends on the clock.  (`Utc::now` itself aborts on a system clock
/// set before the Unix epoch.)
#[verifier::external_body]
fn timestamp_name() -> (r: String) {
    chrono::Utc::now().format("%Y%m%d_%H%M%S").to_string()
}

/// The bytes of the PNG encoding of an RGB image: a pure function of the
/// pixel data and the dimensions.
pub uninterp spec fn png_bytes_of(pixels: Seq<u8>, width: u32, height: u32) -> Seq<u8>;

/// Relies on image's `PngEncoder` (through `ImageEncoder::write_image`)
/// writing into an in-memory buffer: the encoder is deterministic in the
/// pixel data and dimensions, and demands exactly `3 * width * height`
/// bytes of 8-bit RGB input (it panics otherwise, which the precondition
/// rules out).  For the admitted inputs encoding succeeds: the encoder's
/// error paths are animation misconfiguration (none is configured), zero
/// dimensions, a wrong data length and writer I/O, all excluded here —
/// writing into a `Vec` cannot fail.
#[verifier::external_body]
fn encode_png(pixels: &Vec<u8>, width: u32, height: u32) -> (r: Option<Vec<u8>>)
    requires
        pixels@.len() == 3 * width * height,
        1 <= width <= 1_000_000,
        1 <= height <= 1_000_000,
    ensures
        r is Some,
        r matches Some(b) ==> b@ == png_bytes_of(pixels@, width, height),
{
    let mut out: Vec<u8> = Vec::new();
    let encoder = image::codecs::png::PngEncoder::new(&mut out);
    match image::ImageEncoder::write_image(
        encoder,
        pixels,
        width,
        height,
        image::ExtendedColorType::Rgb8,
    ) {
        Ok(()) => Some(out),
        Err(_) => None,
    }
}

/// Where byte `k` of the row-reversed image comes from in a row-major
/// buffer of `h` rows of `3 * w` bytes: same column, mirrored row.
pub open spec fn flip_index_spec(k: int, w: int, h: int) -> int {
    (h - 1 - (k / (3 * w))) * (3 * w) + (k % (3 * w))
}

/// The row-reversed image: row `i` of the result is row `h - 1 - i` of
/// `s`.  Framebuffer readbacks arrive bottom-up; image formats store rows
/// top-down.
pub open spec fn flip_spec(s: Seq<u8>, w: int, h: int) -> Seq<u8> {
    Seq::new(s.len(), |k: int| s[flip_index_spec(k, w, h)])
}

/// Reverse the row order of a raw RGB image.
pub fn flip_rows(buf: &Vec<u8>, w: u32, h: u32) -> (out: Vec<u8>)
    requires
        buf@.len() == 3 * w * h,
        1 <= w <= 1_000_000,
        1 <= h <= 1_000_000,
    ensures
        out@ == flip_spec(buf@, w as int, h as int),
{
    let row: usize = 3 * (w as usize);
    let blen: usize = buf.len();
    let mut out: Vec<u8> = Vec::new();
    let mut i: usize = 0;
    proof {
        assert((h as int) * (row as int) == buf@.len() && row <= 3_000_000) by (nonlinear_arith)
            requires
                row == 3 * w,
                buf@.len() == 3 * w * h,
                1 <= w <= 1_000_000,
                1 <= h,
        ;
    }
    while i < h as usize
        invariant
            i <= h,
            row == 3 * w,
            1 <= w <= 1_000_000,
            1 <= h <= 1_000_000,
            buf@.len() == 3 * w * h,
            buf@.len() == blen,
            (h as int) * (row as int) == buf@.len(),
            out@.len() == i * row,
            forall|k: int| 0 <= k < out@.len()
                ==> out@[k] == buf@[flip_index_spec(k, w as int, h as int)],
        decreases h - i,
    {
        proof {
            assert((i as int) * (row as int) <= (h as int) * (row as int)
                && ((h - 1 - i) as int) * (row as int) + (row as int) <= (h as int) * (row as int)
                && ((i + 1) as int) * (row as int) == (i as int) * (row as int) + (row as int))
                by (nonlinear_arith)
                requires
                    0 <= i < h,
                    0 < row,
            ;
        }
        let src_row: usize = (h as usize) - 1 - i;
        let base: usize = src_row * row;
        let mut j: usize = 0;
        while j < row
            invariant
                0 <= i < h,
                j <= row,
                row == 3 * w,
                1 <= w <= 1_000_000,
                1 <= h <= 1_000_000,
                buf@.len() == 3 * w * h,
                buf@.len() == blen,
                (h as int) * (row as int) == buf@.len(),
                base == (h - 1 - i) * row,
                base + row <= buf@.len(),
                out@.len() == i * row + j,
                forall|k: int| 0 <= k < out@.len()
                    ==> out@[k] == buf@[flip_index_spec(k, w as int, h as int)],
        decreases row - j,
        {
            let ghost k0 = out@.len() as int;
            out.push(buf[base + j]);
            proof {
                lemma_div_multiples_vanish_fancy(i as int, j as int, row as int);
                lemma_mod_multiples_vanish(i as int, j as int, row as int);
                lemma_small_mod(j as nat, row as nat);
                assert(k0 == (row as int) * (i as int) + j);
                assert(k0 / (row as int) == i);
                assert(k0 % (row as int) == j);
                assert(flip_index_spec(k0, w as int, h as int) == base + j);
            }
            j = j + 1;
        }
        i = i + 1;
    }
    proof {
        assert(out@ =~= flip_spec(buf@, w as int, h as int));
    }
    out
}

/// Row reversal undoes itself: flipping twice gives back the original
/// buffer, so the saved image's rows are exactly the readback's rows in
/// mirrored order and nothing else.
pub proof fn lemma_flip_involutive(s: Seq<u8>, w: int, h: int)
    requires
        1 <= w,
        1 <= h,
        s.len() == 3 * w * h,
    ensures
        flip_spec(flip_spec(s, w, h), w, h) == s,
{
    let r = 3 * w;
    assert forall|k: int| 0 <= k < s.len() implies flip_spec(flip_spec(s, w, h), w, h)[k] == s[k] by {
        let row = k / r;
        let col = k % r;
        vstd::arithmetic::div_mod::lemma_fundamental_div_mod(k, r);
        vstd::arithmetic::div_mod::lemma_mod_bound(k, r);
        vstd::arithmetic::div_mod::lemma_div_pos_is_pos(k, r);
        assert(0 <= col < r);
        assert(row < h) by (nonlinear_arith)
            requires
                k == r * row + col,
                0 <= col < r,
                0 <= row,
                0 < r,
                k < r * h,
        ;
        let k1 = flip_index_spec(k, w, h);
        assert(k1 == (h - 1 - row) * r + col);
        lemma_div_multiples_vanish_fancy(h - 1 - row, col, r);
        lemma_mod_multiples_vanish(h - 1 - row, col, r);
        lemma_small_mod(col as nat, r as nat);
        assert(k1 / r == h - 1 - row);
        assert(k1 % r == col);
        assert(0 <= k1 < s.len()) by (nonlinear_arith)
            requires
                k1 == (h - 1 - row) * r + col,
                0 <= h - 1 - row < h,
                0 <= col < r,
                0 < r,
                s.len() == r * h,
        ;
        assert(flip_index_spec(k1, w, h) == (h - 1 - (h - 1 - row)) * r + col);
        assert(flip_index_spec(k1, w, h) == row * r + col);
        assert(row * r == r * row) by (nonlinear_arith);
        assert(flip_index_spec(k1, w, h) == k);
    };
    assert(flip_spec(flip_spec(s, w, h), w, h) =~= s);
}

/// The `.png` suffix, as bytes.
pub open spec fn png_ext_spec() -> Seq<u8> {
    seq![46u8, 112u8, 110u8, 103u8]
}

/// The fixed filename prefix of every saved frame, as bytes
/// (`frame_`).
pub open spec fn prefix_spec() -> Seq<u8> {
    seq![102u8, 114u8, 97u8, 109u8, 101u8, 95u8]
}

/// The filename of capture number `seq`: prefix, eight zero-padded
/// decimal digits, `.png`.
pub open spec fn filename_spec(seq: int) -> Seq<u8> {
    prefix_spec() + pad8_spec(seq) + png_ext_spec()
}

/// Largest sequence number the eight-digit filenames accommodate.
pub const SEQ_MAX: u64 = 99_999_999;

/// One frame to encode and persist: the assigned sequence number fixes
/// the on-disk name before any background work starts, so file ordering
/// is correct whatever order encodes complete in.
pub struct CaptureJob {
    /// Sequence number assigned at grab time.
    pub seq: u64,
    /// Directory to write into: the capture root joined with the
    /// recorder's construction timestamp.
    pub dir: String,
    /// File name within `dir`, ASCII.
    pub filename: Vec<u8>,
    /// Raw RGB readback, bottom row first, `3 * width * height` bytes.
    pub pixels: Vec<u8>,
    pub width: u32,
    pub height: u32,
}

impl CaptureJob {
    pub open spec fn wf(&self) -> bool {
        &&& self.pixels@.len() == 3 * self.width * self.height
        &&& 1 <= self.width <= 1_000_000
        &&& 1 <= self.height <= 1_000_000
    }
}

/// Flip and encode one grabbed frame; the caller (typically a background
/// worker) writes the returned bytes to `job.dir` + `job.filename`.  The
/// result is always produced and is exactly the PNG encoding of the
/// row-mirrored readback.
pub fn render_frame(job: &CaptureJob) -> (r: Option<Vec<u8>>)
    requires
        job.wf(),
    ensures
        r is Some,
        r matches Some(b) ==> b@ == png_bytes_of(
            flip_spec(job.pixels@, job.width as int, job.height as int),
            job.width,
            job.height,
        ),
{
    let flipped = flip_rows(&job.pixels, job.width, job.height);
    encode_png(&flipped, job.width, job.height)
}

/// What the recorder's state machine acts on: the sequence counter, the
/// enabled flag and the pending buffered frames.
#[verifier::ext_equal]
pub struct CaptureObs {
    pub seq: int,
    pub enabled: bool,
    pub images: Seq<Seq<u8>>,
}

/// `start`: recording turns on; numbering and pending frames are kept.
pub open spec fn spec_start(o: CaptureObs) -> CaptureObs {
    CaptureObs { enabled: true, ..o }
}

/// `stop`: recording turns off and every pending frame is flushed out,
/// consuming one sequence number each.
pub open spec fn spec_stop(o: CaptureObs) -> CaptureObs {
    CaptureObs { enabled: false, seq: o.seq + o.images.len(), images: Seq::empty() }
}

/// `toggle`: stop when enabled, start when not.
pub open spec fn spec_toggle(o: CaptureObs) -> CaptureObs {
    if o.enabled { spec_stop(o) } else { spec_start(o) }
}

/// `enable(flag)`: a transition only when the requested state differs.
pub open spec fn spec_enable(o: CaptureObs, flag: bool) -> CaptureObs {
    if flag != o.enabled { spec_toggle(o) } else { o }
}

/// How many pending frames `enable(flag)` flushes.
pub open spec fn spec_enable_flushes(o: CaptureObs, flag: bool) -> int {
    if flag != o.enabled && o.enabled { o.images.len() as int } else { 0 }
}

/// Law of the recorder switch: `enable` is idempotent.  The second of two
/// equal `enable` calls is a no-op — it flushes nothing, so flushing
/// happens at most once, on the actual transition — and the sequence
/// counter never moves except by that one flush.
pub proof fn lemma_enable_idempotent(o: CaptureObs, flag: bool)
    ensures
        spec_enable(spec_enable(o, flag), flag) == spec_enable(o, flag),
        spec_enable_flushes(spec_enable(o, flag), flag) == 0,
        spec_enable(o, flag).seq >= o.seq,
{
}

/// Law of numbering: no transition of the recorder ever lowers the
/// sequence counter — numbering survives any number of stop/start
/// cycles and is never reset — and each flushed frame raises it by one.
/// Together with `screen_grab` raising it by exactly one per grab, the
/// counter is strictly increasing across the recorder's lifetime.
pub proof fn lemma_seq_monotonic(o: CaptureObs, flag: bool)
    ensures
        spec_start(o).seq == o.seq,
        spec_stop(o).seq == o.seq + o.images.len(),
        spec_toggle(o).seq >= o.seq,
        spec_enable(o, flag).seq >= o.seq,
{
}

/// The recorder.  Width and height are fixed at construction: captures
/// do not track window resizes.
pub struct Capture {
    pub seq: u64,
    pub capture_dir: String,
    pub capture_prefix: Vec<u8>,
    pub enabled: bool,
    pub w: u32,
    pub h: u32,
    pub images: Vec<Vec<u8>>,
}

impl Capture {
    /// Dimensions in range, numbering within what the filenames carry,
    /// the fixed prefix in place, and pending frames correctly sized.
    pub open spec fn wf(&self) -> bool {
        &&& 1 <= self.w <= 1_000_000
        &&& 1 <= self.h <= 1_000_000
        &&& self.seq + self.images@.len() <= SEQ_MAX
        &&& self.capture_prefix@ == prefix_spec()
        &&& forall|i: int| 0 <= i < self.images@.len()
            ==> (#[trigger] self.images@[i])@.len() == 3 * self.w * self.h
    }

    /// The recorder's abstract state.
    pub open spec fn obs(&self) -> CaptureObs {
        CaptureObs {
            seq: self.seq as int,
            enabled: self.enabled,
            images: Seq::new(self.images@.len(), |i: int| self.images@[i]@),
        }
    }

    /// Construct a disabled recorder for `w` by `h` frames.  The capture
    /// directory is the capture root joined with the current timestamp;
    /// numbering starts at zero.
    pub fn init(w: u32, h: u32) -> (c: Capture)
        requires
            1 <= w <= 1_000_000,
            1 <= h <= 1_000_000,
        ensures
            c.wf(),
            c.seq == 0,
            !c.enabled,
            c.w == w,
            c.h == h,
            c.images@.len() == 0,
            c.capture_dir@.len() >= "capture/"@.len(),
            c.capture_dir@.subrange(0, "capture/"@.len() as int) == "capture/"@,
    {
        let stamp = timestamp_name();
        let mut dir = String::from_str("capture/");
        dir.append(stamp.as_str());
        proof {
            assert(dir@.subrange(0, "capture/"@.len() as int) =~= "capture/"@);
        }
        let mut prefix: Vec<u8> = Vec::new();
        prefix.push(102);
        prefix.push(114);
        prefix.push(97);
        prefix.push(109);
        prefix.push(101);
        prefix.push(95);
        proof {
            assert(prefix@ =~= prefix_spec());
        }
        Capture {
            seq: 0,
            capture_dir: dir,
            capture_prefix: prefix,
            enabled: false,
            w,
            h,
            images: Vec::new(),
        }
    }

    /// The filename for capture number `seq`.
    fn filename_for(&self, seq: u64) -> (name: Vec<u8>)
        requires
            self.capture_prefix@ == prefix_spec(),
            seq <= SEQ_MAX,
        ensures
            name@ == filename_spec(seq as int),
    {
        let mut name: Vec<u8> = Vec::new();
        name.extend_from_slice(self.capture_prefix.as_slice());
        let mut digits = pad8(seq);
        name.append(&mut digits);
        name.push(46);
        name.push(112);
        name.push(110);
        name.push(103);
        proof {
            assert(name@ =~= filename_spec(seq as int));
        }
        name
    }

    /// Capture the current framebuffer contents if recording is enabled:
    /// assign the next sequence number, fix the destination filename, and
    /// hand the (moved) pixel buffer out as a background encode job.
    /// When disabled this is a no-op and returns no job.
    pub fn screen_grab(&mut self, frame: Vec<u8>) -> (job: Option<CaptureJob>)
        requires
            old(self).wf(),
            frame@.len() == 3 * old(self).w * old(self).h,
            old(self).seq + old(self).images@.len() < SEQ_MAX,
        ensures
            final(self).wf(),
            final(self).w == old(self).w,
            final(self).h == old(self).h,
            final(self).capture_dir == old(self).capture_dir,
            final(self).capture_prefix == old(self).capture_prefix,
            final(self).enabled == old(self).enabled,
            final(self).images == old(self).images,
            !old(self).enabled ==> job is None && *final(self) == *old(self),
            old(self).enabled ==> ({
                &&& final(self).seq == old(self).seq + 1
                &&& job matches Some(j)
                &&& j.seq == old(self).seq + 1
                &&& j.dir == old(self).capture_dir
                &&& j.filename@ == filename_spec(old(self).seq + 1)
                &&& j.pixels@ == frame@
                &&& j.width == old(self).w
                &&& j.height == old(self).h
                &&& j.wf()
            }),
    {
        if !self.enabled {
            return None;
        }
        self.seq = self.seq + 1;
        let filename = self.filename_for(self.seq);
        Some(CaptureJob {
            seq: self.seq,
            dir: self.capture_dir.clone(),
            filename,
            pixels: frame,
            width: self.w,
            height: self.h,
        })
    }

    /// Drain the buffered frames into write jobs, assigning each the next
    /// sequence number; the buffer is cleared whatever the caller then
    /// does with the jobs.
    fn flush(&mut self) -> (jobs: Vec<CaptureJob>)
        requires
            old(self).wf(),
        ensures
            final(self).wf(),
            final(self).w == old(self).w,
            final(self).h == old(self).h,
            final(self).capture_dir == old(self).capture_dir,
            final(self).capture_prefix == old(self).capture_prefix,
            final(self).enabled == old(self).enabled,
            final(self).images@.len() == 0,
            final(self).seq == old(self).seq + old(self).images@.len(),
            jobs@.len() == old(self).images@.len(),
            forall|i: int| 0 <= i < jobs@.len() ==> {
                &&& (#[trigger] jobs@[i]).seq == old(self).seq + i + 1
                &&& jobs@[i].dir == old(self).capture_dir
                &&& jobs@[i].filename@ == filename_spec(old(self).seq + i + 1)
                &&& jobs@[i].pixels@ == old(self).images@[i]@
                &&& jobs@[i].width == old(self).w
                &&& jobs@[i].height == old(self).h
                &&& jobs@[i].wf()
            },
    {
        let mut jobs: Vec<CaptureJob> = Vec::new();
        let total = self.images.len();
        while self.images.len() > 0
            invariant
                self.wf(),
                self.w == old(self).w,
                self.h == old(self).h,
                self.capture_dir == old(self).capture_dir,
                self.capture_prefix == old(self).capture_prefix,
                self.enabled == old(self).enabled,
                total == old(self).images@.len(),
                jobs@.len() == total - self.images@.len(),
                self.seq == old(self).seq + jobs@.len(),
                self.images@ =~= old(self).images@.skip(jobs@.len() as int),
                forall|i: int| 0 <= i < jobs@.len() ==> {
                    &&& (#[trigger] jobs@[i]).seq == old(self).seq + i + 1
                    &&& jobs@[i].dir == old(self).capture_dir
                    &&& jobs@[i].filename@ == filename_spec(old(self).seq + i + 1)
                    &&& jobs@[i].pixels@ == old(self).images@[i]@
                    &&& jobs@[i].width == old(self).w
                    &&& jobs@[i].height == old(self).h
                    &&& jobs@[i].wf()
                },
            decreases self.images@.len(),
        {
            let img = self.images.remove(0);
            self.seq = self.seq + 1;
            let filename = self.filename_for(self.seq);
            let job = CaptureJob {
                seq: self.seq,
                dir: self.capture_dir.clone(),
                filename,
                pixels: img,
                width: self.w,
                height: self.h,
            };
            jobs.push(job);
            proof {
                assert(self.images@ =~= old(self).images@.skip(jobs@.len() as int));
            }
        }
        jobs
    }

    /// Remote control: transition only when the requested state differs
    /// from the current one.
    pub fn enable(&mut self, enabled: bool) -> (jobs: Vec<CaptureJob>)
        requires
            old(self).wf(),
        ensures
            final(self).wf(),
            final(self).w == old(self).w,
            final(self).h == old(self).h,
            final(self).capture_dir == old(self).capture_dir,
            final(self).capture_prefix == old(self).capture_prefix,
            final(self).obs() == spec_enable(old(self).obs(), enabled),
            jobs@.len() == spec_enable_flushes(old(self).obs(), enabled),
            enabled == old(self).enabled ==> *final(self) == *old(self),
            forall|i: int| 0 <= i < jobs@.len() ==> {
                &&& (#[trigger] jobs@[i]).seq == old(self).seq + i + 1
                &&& jobs@[i].filename@ == filename_spec(old(self).seq + i + 1)
                &&& jobs@[i].pixels@ == old(self).images@[i]@
                &&& jobs@[i].wf()
            },
    {
        if enabled != self.enabled {
            self.toggle()
        } else {
            Vec::new()
        }
    }

    /// Start (or restart) recording without flushing.
    pub fn start(&mut self)
        requires
            old(self).wf(),
        ensures
            final(self).wf(),
            final(self).obs() == spec_start(old(self).obs()),
            *final(self) == (Capture { enabled: true, ..*old(self) }),
    {
        self.enabled = true;
    }

    /// Stop recording; flush the pending frames into write jobs.
    pub fn stop(&mut self) -> (jobs: Vec<CaptureJob>)
        requires
            old(self).wf(),
        ensures
            final(self).wf(),
            final(self).w == old(self).w,
            final(self).h == old(self).h,
            final(self).capture_dir == old(self).capture_dir,
            final(self).capture_prefix == old(self).capture_prefix,
            final(self).obs() == spec_stop(old(self).obs()) || (!old(self).enabled && final(self).obs() == CaptureObs { enabled: false, ..old(self).obs() }),
            !final(self).enabled,
            final(self).seq >= old(self).seq,
            old(self).enabled ==> jobs@.len() == old(self).images@.len(),
            !old(self).enabled ==> jobs@.len() == 0 && final(self).seq == old(self).seq,
            forall|i: int| 0 <= i < jobs@.len() ==> {
                &&& (#[trigger] jobs@[i]).seq == old(self).seq + i + 1
                &&& jobs@[i].filename@ == filename_spec(old(self).seq + i + 1)
                &&& jobs@[i].pixels@ == old(self).images@[i]@
                &&& jobs@[i].wf()
            },
    {
        let jobs = if self.enabled {
            self.flush()
        } else {
            Vec::new()
        };
        self.enabled = false;
        proof {
            if old(self).enabled {
                assert(final(self).obs() =~= spec_stop(old(self).obs()));
            } else {
                assert(final(self).obs() =~= CaptureObs { enabled: false, ..old(self).obs() });
            }
        }
        jobs
    }

    pub fn enabled(&self) -> (r: bool)
        ensures
            r == self.enabled,
    {
        self.enabled
    }

    /// Flip the recorder's state: stop (and flush) when enabled, start
    /// when not.
    pub fn toggle(&mut self) -> (jobs: Vec<CaptureJob>)
        requires
            old(self).wf(),
        ensures
            final(self).wf(),
            final(self).w == old(self).w,
            final(self).h == old(self).h,
            final(self).capture_dir == old(self).capture_dir,
            final(self).capture_prefix == old(self).capture_prefix,
            final(self).obs() == spec_toggle(old(self).obs()),
            jobs@.len() == (if old(self).enabled { old(self).images@.len() as int } else { 0 }),
            forall|i: int| 0 <= i < jobs@.len() ==> {
                &&& (#[trigger] jobs@[i]).seq == old(self).seq + i + 1
                &&& jobs@[i].filename@ == filename_spec(old(self).seq + i + 1)
                &&& jobs@[i].pixels@ == old(self).images@[i]@
                &&& jobs@[i].wf()
            },
    {
        if self.enabled {
            let jobs = self.stop();
            proof {
                assert(final(self).obs() =~= spec_toggle(old(self).obs()));
            }
            jobs
        } else {
            self.start();
            proof {
                assert(final(self).obs() =~= spec_toggle(old(self).obs()));
            }
            Vec::new()
        }
    }
}

} // verus!
