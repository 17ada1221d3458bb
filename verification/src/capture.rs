//! The capture session and frame-readback pipeline: error kinds, validation
//! of a staging description, extraction of a tightly packed pixel buffer from
//! mapped staging memory, and the session state machine around the single-slot
//! frame mailbox.

use vstd::prelude::*;

use crate::d3d::BYTES_PER_PIXEL;
use crate::d3d::D3D11_CPU_ACCESS_READ;
use crate::d3d::D3D11_USAGE_STAGING;
use crate::d3d::DXGI_FORMAT_B8G8R8A8_UNORM;
use crate::d3d::TextureDesc;

verus! {

/// The closed set of failure kinds of the capture pipeline.
#[derive(Clone, Debug, PartialEq, Eq)]
pub enum CaptureError {
    /// Operation attempted after the session was closed.
    NotActive,
    /// No frame has been copied into the slot yet; transient, retryable.
    NoTexture,
    /// The staging resource lacks CPU read access.
    DeniedAccessCpuRead,
    /// A failure surfaced by the underlying graphics or capture backend.
    BackendError(String),
    /// The resource is not a staging resource.
    UnsupportedBufferType,
    /// The resource's pixel format is not the one supported format.
    UnsupportedPixelFormat(u32),
}

impl CaptureError {
    /// `NoTexture` is the one error kind a caller is expected to retry on:
    /// it only says that no frame has arrived yet.
    pub fn is_retryable(&self) -> (r: bool)
        ensures
            r <==> *self == CaptureError::NoTexture,
    {
        match self {
            CaptureError::NoTexture => true,
            _ => false,
        }
    }
}

/// What validation of a texture description reports: the format is checked
/// first, then the usage, then CPU read access; `None` means the description
/// is fit for readback.
pub open spec fn desc_error(desc: TextureDesc) -> Option<CaptureError> {
    if desc.format != DXGI_FORMAT_B8G8R8A8_UNORM {
        Some(CaptureError::UnsupportedPixelFormat(desc.format))
    } else if desc.usage != D3D11_USAGE_STAGING {
        Some(CaptureError::UnsupportedBufferType)
    } else if desc.cpu_access_flags & D3D11_CPU_ACCESS_READ != D3D11_CPU_ACCESS_READ {
        Some(CaptureError::DeniedAccessCpuRead)
    } else {
        None
    }
}

/// Check that a texture description describes a readable staging resource in
/// the supported pixel format.
pub fn validate_desc(desc: &TextureDesc) -> (r: Result<(), CaptureError>)
    ensures
        r is Ok <==> desc_error(*desc) is None,
        r matches Err(e) ==> desc_error(*desc) == Some(e),
{
    if desc.format != DXGI_FORMAT_B8G8R8A8_UNORM {
        Err(CaptureError::UnsupportedPixelFormat(desc.format))
    } else if desc.usage != D3D11_USAGE_STAGING {
        Err(CaptureError::UnsupportedBufferType)
    } else if desc.cpu_access_flags & D3D11_CPU_ACCESS_READ != D3D11_CPU_ACCESS_READ {
        Err(CaptureError::DeniedAccessCpuRead)
    } else {
        Ok(())
    }
}

/// The three validation checks are ordered — format before usage before CPU
/// access — and mutually exclusive: a description fails with the error of the
/// first check it misses, and passes only when it misses none.
pub proof fn lemma_validation_order(desc: TextureDesc)
    ensures
        desc.format != DXGI_FORMAT_B8G8R8A8_UNORM ==> desc_error(desc) == Some(
            CaptureError::UnsupportedPixelFormat(desc.format),
        ),
        desc.format == DXGI_FORMAT_B8G8R8A8_UNORM && desc.usage != D3D11_USAGE_STAGING
            ==> desc_error(desc) == Some(CaptureError::UnsupportedBufferType),
        desc.format == DXGI_FORMAT_B8G8R8A8_UNORM && desc.usage == D3D11_USAGE_STAGING
            && desc.cpu_access_flags & D3D11_CPU_ACCESS_READ != D3D11_CPU_ACCESS_READ
            ==> desc_error(desc) == Some(CaptureError::DeniedAccessCpuRead),
        desc.format == DXGI_FORMAT_B8G8R8A8_UNORM && desc.usage == D3D11_USAGE_STAGING
            && desc.cpu_access_flags & D3D11_CPU_ACCESS_READ == D3D11_CPU_ACCESS_READ
            ==> desc_error(desc) is None,
{
}

/// A raw frame: a tightly packed BGRA8 byte buffer of exactly
/// `width * height * 4` bytes.
#[derive(Clone, Debug)]
pub struct RawFrameData {
    pub width: i32,
    pub height: i32,
    pub data: Vec<u8>,
}

impl RawFrameData {
    /// A well-formed frame is never malformed: non-negative dimensions and a
    /// buffer of exactly `width * height * 4` bytes.
    pub open spec fn wf(self) -> bool {
        &&& 0 <= self.width
        &&& 0 <= self.height
        &&& self.data@.len() == self.width * self.height * BYTES_PER_PIXEL
    }
}

/// The same pixels with blue and red swapped in every four-byte group:
/// tightly packed BGRA8 reread as RGBA8.
pub open spec fn rgba_of(bgra: Seq<u8>) -> Seq<u8> {
    Seq::new(
        bgra.len(),
        |i: int|
            if i % 4 == 0 {
                bgra[i + 2]
            } else if i % 4 == 2 {
                bgra[i - 2]
            } else {
                bgra[i]
            },
    )
}

impl RawFrameData {
    /// Reorder the frame's bytes into RGBA8 channel order, for adapters that
    /// hand the frame to consumers expecting red first.
    pub fn to_rgba(&self) -> (r: Vec<u8>)
        requires
            self.wf(),
        ensures
            r@ == rgba_of(self.data@),
    {
        proof {
            assert(((self.width as int) * (self.height as int)) * (BYTES_PER_PIXEL as int) % (
            BYTES_PER_PIXEL as int) == 0) by (nonlinear_arith);
        }
        let n = self.data.len();
        let mut r: Vec<u8> = Vec::new();
        let mut i: usize = 0;
        while i < n
            invariant
                n == self.data@.len(),
                n % 4 == 0,
                i <= n,
                r@.len() == i,
                forall|j: int| 0 <= j < i ==> r@[j] == rgba_of(self.data@)[j],
            decreases n - i,
        {
            let m = i % 4;
            let b = if m == 0 {
                self.data[i + 2]
            } else if m == 2 {
                self.data[i - 2]
            } else {
                self.data[i]
            };
            r.push(b);
            i = i + 1;
        }
        proof {
            assert(r@ =~= rgba_of(self.data@));
        }
        r
    }
}

impl Default for RawFrameData {
    /// An empty frame: zero dimensions, no bytes.
    fn default() -> (r: Self)
        ensures
            r.width == 0,
            r.height == 0,
            r.data@ == Seq::<u8>::empty(),
            r.wf(),
    {
        let r = RawFrameData { width: 0, height: 0, data: Vec::new() };
        proof {
            assert(r.data@ =~= Seq::<u8>::empty());
        }
        r
    }
}

/// Offset of column `col` of row `row` in a tightly packed BGRA8 buffer of
/// the given width.
pub open spec fn packed_offset(width: int, row: int, col: int) -> int {
    row * (width * BYTES_PER_PIXEL) + col
}

/// Offset of column `col` of row `row` in mapped memory laid out with the
/// given row pitch.
pub open spec fn pitched_offset(pitch: int, row: int, col: int) -> int {
    row * pitch + col
}

/// Every byte of a tightly packed buffer comes from the row of mapped memory
/// that holds it: row `row` of `data` is the first `width * 4` bytes of the
/// `pitch`-sized stretch that holds row `row` of `bytes`.
pub open spec fn rows_packed(data: Seq<u8>, bytes: Seq<u8>, width: int, height: int, pitch: int) -> bool {
    forall|row: int, col: int|
        0 <= row < height && 0 <= col < width * BYTES_PER_PIXEL ==> data[#[trigger] packed_offset(
            width,
            row,
            col,
        )] == bytes[pitched_offset(pitch, row, col)]
}

/// Copy the mapped bytes of a staging texture into a tightly packed buffer,
/// removing the hardware's row-pitch padding.
pub fn extract_packed(t: &crate::d3d::StagingTexture) -> (data: Vec<u8>)
    requires
        t.wf(),
    ensures
        data@.len() == t.desc.width * t.desc.height * BYTES_PER_PIXEL,
        rows_packed(data@, t.bytes@, t.desc.width as int, t.desc.height as int, t.row_pitch as int),
{
    let width = t.desc.width;
    let height = t.desc.height;
    let pitch = t.row_pitch;
    let n_bytes: usize = t.bytes.len();
    let row_bytes: usize = (width as usize) * (BYTES_PER_PIXEL as usize);
    let mut data: Vec<u8> = Vec::new();
    let mut row: usize = 0;
    while row < height as usize
        invariant
            t.wf(),
            width == t.desc.width,
            height == t.desc.height,
            pitch == t.row_pitch,
            n_bytes == t.bytes@.len(),
            row_bytes == width * BYTES_PER_PIXEL,
            row <= height,
            data@.len() == row * row_bytes,
            rows_packed(data@, t.bytes@, width as int, row as int, pitch as int),
        decreases height - row,
    {
        let mut col: usize = 0;
        while col < row_bytes
            invariant
                t.wf(),
                width == t.desc.width,
                height == t.desc.height,
                pitch == t.row_pitch,
                n_bytes == t.bytes@.len(),
                row_bytes == width * BYTES_PER_PIXEL,
                row < height,
                col <= row_bytes,
                data@.len() == row * row_bytes + col,
                rows_packed(data@, t.bytes@, width as int, row as int, pitch as int),
                forall|c: int|
                    0 <= c < col ==> data@[#[trigger] packed_offset(width as int, row as int, c)]
                        == t.bytes@[pitched_offset(pitch as int, row as int, c)],
            decreases row_bytes - col,
        {
            proof {
                assert((row as int) * (pitch as int) + (col as int) < (height as int) * (
                pitch as int)) by (nonlinear_arith)
                    requires
                        (row as int) < (height as int),
                        0 <= (col as int) < (pitch as int),
                        0 <= (row as int),
                ;
            }
            let idx: usize = row * (pitch as usize) + col;
            let b = t.bytes[idx];
            data.push(b);
            proof {
                assert forall|r: int, c: int|
                    0 <= r < row && 0 <= c < row_bytes implies data@[#[trigger] packed_offset(
                    width as int,
                    r,
                    c,
                )] == t.bytes@[pitched_offset(pitch as int, r, c)] by {
                    assert((r + 1) * (row_bytes as int) == r * (row_bytes as int) + row_bytes)
                        by (nonlinear_arith);
                    assert((r + 1) * (row_bytes as int) <= (row as int) * (row_bytes as int))
                        by (nonlinear_arith)
                        requires
                            r + 1 <= row as int,
                            0 <= row_bytes as int,
                    ;
                    assert(packed_offset(width as int, r, c) < (row as int) * (row_bytes as int));
                }
            }
            col = col + 1;
        }
        proof {
            assert((row as int + 1) * (row_bytes as int) == (row as int) * (row_bytes as int)
                + row_bytes) by (nonlinear_arith);
        }
        row = row + 1;
    }
    proof {
        assert((height as int) * (row_bytes as int) == (t.desc.width as int) * (
        t.desc.height as int) * (BYTES_PER_PIXEL as int)) by (nonlinear_arith)
            requires
                row_bytes == (t.desc.width as int) * (BYTES_PER_PIXEL as int),
                height == t.desc.height,
        ;
    }
    data
}

/// The single-slot, latest-wins mailbox between the arrival callback
/// (producer) and the pull path (consumer).  In the running system the slot
/// sits behind a mutex held only for the pointer swap; the model publishes
/// and reads whole values, which is exactly what the short-held lock makes
/// atomic: a reader never sees a partially copied frame.  Each publish tags
/// the slot with the next generation.
pub struct FrameSlot {
    pub texture: Option<crate::d3d::StagingTexture>,
    pub generation: Ghost<nat>,
}

impl FrameSlot {
    /// A slot no frame has reached yet.
    pub fn empty() -> (s: FrameSlot)
        ensures
            s.texture is None,
            s.generation@ == 0,
    {
        FrameSlot { texture: None, generation: Ghost(0nat) }
    }

    /// Unconditionally replace whatever the slot holds with a newly copied
    /// staging texture: latest wins, no queue, no backpressure.
    pub fn publish(&mut self, t: crate::d3d::StagingTexture)
        ensures
            final(self).texture == Some(t),
            final(self).generation@ == old(self).generation@ + 1,
    {
        self.texture = Some(t);
        self.generation = Ghost(self.generation@ + 1);
    }

    /// Read the slot without removing what it holds: a later read may see the
    /// same frame again if no newer one arrived.
    pub fn current(&self) -> (r: Option<&crate::d3d::StagingTexture>)
        ensures
            match r {
                Some(t) => self.texture == Some(*t),
                None => self.texture is None,
            },
    {
        match &self.texture {
            Some(t) => Some(t),
            None => None,
        }
    }
}

/// What one invocation of the arrival callback produced: nothing was waiting
/// in the pool, the backend failed while resolving or copying the frame, or
/// a finished staging copy of the delivered frame.
#[derive(Debug)]
pub enum FrameArrival {
    Empty,
    Failed(String),
    Arrived(crate::d3d::StagingTexture),
}

/// A capture session: the active flag and the frame slot the arrival
/// callback fills.  The session is active from construction until `close`;
/// closed is terminal.  The underlying device, frame pool and session
/// handles live in the graphics backend, which performs the bring-up, runs
/// the callback, and is directed by `close` to release them.
pub struct Capture {
    pub slot: FrameSlot,
    pub active: bool,
}

/// The error a pull reports for a session in this state: `NotActive` once
/// closed, `NoTexture` while no frame has been copied in, otherwise whatever
/// the held frame's description fails validation with.  `None` means the
/// pull succeeds.
pub open spec fn pull_error(c: Capture) -> Option<CaptureError> {
    if !c.active {
        Some(CaptureError::NotActive)
    } else {
        match c.slot.texture {
            None => Some(CaptureError::NoTexture),
            Some(t) => desc_error(t.desc),
        }
    }
}

/// How `close` changes a session: no longer active, the slot left as it was,
/// and `released` telling the caller whether the underlying session and
/// frame pool must be closed now — true only the first time.
pub open spec fn close_post(pre: Capture, post: Capture, released: bool) -> bool {
    &&& !post.active
    &&& post.slot == pre.slot
    &&& released == pre.active
}

/// How one callback invocation changes the slot's generation: only a
/// finished staging copy delivered to a still-active session publishes, and
/// each publish strictly increases the generation.
pub open spec fn step_generation(active: bool, g: nat, a: FrameArrival) -> nat {
    if active && a matches FrameArrival::Arrived(_) {
        g + 1
    } else {
        g
    }
}

impl Capture {
    /// How many frames have been published into the slot.
    pub open spec fn generation(self) -> nat {
        self.slot.generation@
    }

    /// The staging copy in the slot, if any, is shaped like mapped GPU memory.
    pub open spec fn wf(self) -> bool {
        self.slot.texture matches Some(t) ==> t.wf()
    }

    /// Build a session from the outcome of the backend bring-up (frame pool,
    /// session, callback registration, start — performed by the graphics
    /// backend).  Construction and activation are atomic from the caller's
    /// side: any failure aborts with `BackendError` and no partial session;
    /// success yields a session that is already active, with an empty slot.
    pub fn new(setup: Result<(), String>) -> (r: Result<Capture, CaptureError>)
        ensures
            setup is Ok ==> (r matches Ok(c) && c.active && c.slot.texture is None
                && c.generation() == 0 && c.wf()),
            setup matches Err(m) ==> r == Err::<Capture, CaptureError>(
                CaptureError::BackendError(m),
            ),
    {
        match setup {
            Ok(()) => Ok(Capture { slot: FrameSlot::empty(), active: true }),
            Err(m) => Err(CaptureError::BackendError(m)),
        }
    }

    /// Whether the session has not been closed yet.
    pub fn is_active(&self) -> (b: bool)
        ensures
            b == self.active,
    {
        self.active
    }

    /// The decision the arrival callback takes once the backend has tried to
    /// copy the delivered frame.  An empty pool is a no-op; a backend failure
    /// is handed back on the framework's error channel (the returned
    /// `Result`) and leaves the slot untouched; a finished staging copy
    /// replaces the slot's contents — unless the session was closed
    /// meanwhile, for a closed session accepts no further frames.
    pub fn on_frame_arrived(&mut self, arrival: FrameArrival) -> (r: Result<(), String>)
        requires
            arrival matches FrameArrival::Arrived(t) ==> t.wf(),
        ensures
            final(self).active == old(self).active,
            final(self).generation() == step_generation(
                old(self).active,
                old(self).generation(),
                arrival,
            ),
            old(self).wf() ==> final(self).wf(),
            match arrival {
                FrameArrival::Arrived(t) => r is Ok && if old(self).active {
                    final(self).slot.texture == Some(t)
                } else {
                    *final(self) == *old(self)
                },
                FrameArrival::Empty => *final(self) == *old(self) && r is Ok,
                FrameArrival::Failed(m) => *final(self) == *old(self) && r == Err::<(), String>(m),
            },
    {
        match arrival {
            FrameArrival::Empty => Ok(()),
            FrameArrival::Failed(m) => Err(m),
            FrameArrival::Arrived(t) => {
                if self.active {
                    self.slot.publish(t);
                }
                Ok(())
            },
        }
    }

    /// Close the session.  Idempotent: the first call deactivates the
    /// session and returns true, directing the caller to close the
    /// underlying session and frame pool; any later call changes nothing
    /// and directs no second release.
    pub fn close(&mut self) -> (released: bool)
        ensures
            close_post(*old(self), *final(self), released),
            old(self).wf() ==> final(self).wf(),
    {
        let was_active = self.active;
        self.active = false;
        was_active
    }

    /// The pull path's first step: fails with `NotActive` after closure and
    /// with `NoTexture` while no frame has been copied in; otherwise hands
    /// out the held staging copy without removing it, so a later pull may
    /// re-extract the same frame.  (In the running system the handed-out
    /// texture is converted to the backend's abstract surface type.)
    pub fn take(&self) -> (r: Result<&crate::d3d::StagingTexture, CaptureError>)
        ensures
            match r {
                Ok(t) => self.active && self.slot.texture == Some(*t),
                Err(e) => if !self.active {
                    e == CaptureError::NotActive
                } else {
                    self.slot.texture is None && e == CaptureError::NoTexture
                },
            },
            r is Ok <==> (self.active && self.slot.texture is Some),
    {
        if !self.active {
            return Err(CaptureError::NotActive);
        }
        match self.slot.current() {
            None => Err(CaptureError::NoTexture),
            Some(t) => Ok(t),
        }
    }

    /// Turn a mapped staging texture into a raw frame: validate the pixel
    /// format, then the usage, then CPU read access, and copy the rows into
    /// a tightly packed buffer, dropping the row-pitch padding.
    pub fn surface_to_data(&self, surface: &crate::d3d::StagingTexture) -> (r: Result<
        RawFrameData,
        CaptureError,
    >)
        requires
            surface.wf(),
        ensures
            r is Ok <==> desc_error(surface.desc) is None,
            r matches Err(e) ==> desc_error(surface.desc) == Some(e),
            r matches Ok(f) ==> f.wf() && f.width == surface.desc.width as i32 && f.height
                == surface.desc.height as i32 && f.data@.len() == surface.desc.width
                * surface.desc.height * BYTES_PER_PIXEL && rows_packed(
                f.data@,
                surface.bytes@,
                surface.desc.width as int,
                surface.desc.height as int,
                surface.row_pitch as int,
            ),
    {
        match validate_desc(&surface.desc) {
            Err(e) => Err(e),
            Ok(()) => {
                let data = extract_packed(surface);
                Ok(
                    RawFrameData {
                        width: surface.desc.width as i32,
                        height: surface.desc.height as i32,
                        data,
                    },
                )
            },
        }
    }

    /// Pull the current frame: whatever staging copy the slot holds right
    /// now, extracted into a tightly packed BGRA8 buffer.  Never blocks and
    /// never consumes the frame; produces a fresh buffer on every call.
    pub fn get_raw_frame(&self) -> (r: Result<RawFrameData, CaptureError>)
        requires
            self.wf(),
        ensures
            r is Ok <==> pull_error(*self) is None,
            r matches Err(e) ==> pull_error(*self) == Some(e),
            r matches Ok(f) ==> self.slot.texture matches Some(t) && f.wf() && f.width
                == t.desc.width as i32 && f.height == t.desc.height as i32 && f.data@.len()
                == t.desc.width * t.desc.height * BYTES_PER_PIXEL && rows_packed(
                f.data@,
                t.bytes@,
                t.desc.width as int,
                t.desc.height as int,
                t.row_pitch as int,
            ),
    {
        let surface = match self.take() {
            Err(e) => return Err(e),
            Ok(s) => s,
        };
        self.surface_to_data(surface)
    }
}

/// The description the callback derives for a staging copy passes validation
/// exactly when the delivered frame was in the supported pixel format — so
/// always, for frames out of the BGRA8 frame pool.
pub proof fn lemma_staging_desc_valid(desc: TextureDesc)
    ensures
        desc_error(crate::d3d::staging_of(desc)) is None <==> desc.format
            == DXGI_FORMAT_B8G8R8A8_UNORM,
{
    assert(0x20000u32 & 0x20000u32 == 0x20000u32) by (bit_vector);
}

/// Immediately after construction the session is active and the slot empty,
/// so a pull reports `NoTexture` — no frame has arrived yet.  (And a pull
/// that does succeed yields a well-formed frame, by `get_raw_frame`'s
/// contract.)
pub proof fn lemma_fresh_session_pull(c: Capture)
    requires
        c.active,
        c.slot.texture is None,
    ensures
        pull_error(c) == Some(CaptureError::NoTexture),
{
}

/// Once the callback has published the staging copy of a pool-delivered
/// frame — the pool delivers BGRA8 frames — a pull no longer errors:
/// `get_raw_frame` returns `Ok`, and by its contract the frame carries
/// exactly `width * height * 4` bytes.
pub proof fn lemma_pull_after_arrival(
    pre: Capture,
    post: Capture,
    frame_desc: TextureDesc,
    t: crate::d3d::StagingTexture,
)
    requires
        pre.active,
        frame_desc.format == DXGI_FORMAT_B8G8R8A8_UNORM,
        t.desc == crate::d3d::staging_of(frame_desc),
        post.active == pre.active,
        post.slot.texture == Some(t),
    ensures
        pull_error(post) is None,
{
    lemma_staging_desc_valid(frame_desc);
}

/// Closing twice has the observable effect of closing once: the second call
/// leaves the session exactly as the first left it, and directs no second
/// release of the underlying resources.
pub proof fn lemma_close_idempotent(c0: Capture, c1: Capture, c2: Capture, r1: bool, r2: bool)
    requires
        close_post(c0, c1, r1),
        close_post(c1, c2, r2),
    ensures
        c2.active == c1.active,
        c2.slot == c1.slot,
        c2.generation() == c1.generation(),
        !r2,
{
}

/// After `close`, every pull reports `NotActive`, deterministically,
/// whatever the slot held before or holds now.
pub proof fn lemma_pull_after_close(pre: Capture, post: Capture, released: bool)
    requires
        close_post(pre, post, released),
    ensures
        pull_error(post) == Some(CaptureError::NotActive),
{
}

/// The slot's generation after a run of callback invocations.
pub open spec fn generation_after(active: bool, g: nat, events: Seq<FrameArrival>) -> nat
    decreases events.len(),
{
    if events.len() == 0 {
        g
    } else {
        generation_after(active, step_generation(active, g, events[0]), events.drop_first())
    }
}

/// Callback invocations never lower the slot's generation.
pub proof fn lemma_generation_monotonic(active: bool, g: nat, events: Seq<FrameArrival>)
    ensures
        g <= generation_after(active, g, events),
    decreases events.len(),
{
    if events.len() != 0 {
        lemma_generation_monotonic(
            active,
            step_generation(active, g, events[0]),
            events.drop_first(),
        );
    }
}

/// Runs of callback invocations compose: stepping through `a + b` is
/// stepping through `a`, then through `b`.
pub proof fn lemma_generation_after_concat(
    active: bool,
    g: nat,
    a: Seq<FrameArrival>,
    b: Seq<FrameArrival>,
)
    ensures
        generation_after(active, g, a + b) == generation_after(
            active,
            generation_after(active, g, a),
            b,
        ),
    decreases a.len(),
{
    if a.len() == 0 {
        assert(a + b =~= b);
    } else {
        assert((a + b).drop_first() =~= a.drop_first() + b);
        lemma_generation_after_concat(active, step_generation(active, g, a[0]), a.drop_first(), b);
    }
}

/// A consumer pulling at two points of the callback run observes
/// non-decreasing generations: after any prefix of the run the slot's
/// generation is at most its generation after any longer prefix.  Publishes
/// replace the slot's whole value, so what the consumer reads at either
/// point is a completely copied frame, never a torn one, and never an older
/// frame after a newer one.
pub proof fn lemma_observed_generations_monotonic(
    active: bool,
    g: nat,
    events: Seq<FrameArrival>,
    i: int,
    j: int,
)
    requires
        0 <= i <= j <= events.len(),
    ensures
        generation_after(active, g, events.take(i)) <= generation_after(
            active,
            g,
            events.take(j),
        ),
{
    assert(events.take(j) =~= events.take(i) + events.subrange(i, j));
    lemma_generation_after_concat(active, g, events.take(i), events.subrange(i, j));
    lemma_generation_monotonic(
        active,
        generation_after(active, g, events.take(i)),
        events.subrange(i, j),
    );
}

} // verus!
