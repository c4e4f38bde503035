use vstd::prelude::*;

use crate::display::Display;
use crate::errors::X11Error;
use crate::errors::failed_with;
use crate::gc::GC;
use crate::request::Request;
use crate::window::Window;

verus! {

/// The private key asked of the native segment-create call.
pub const IPC_PRIVATE_KEY: i32 = 0;
/// Segment-create flag: make a new segment.
pub const IPC_CREAT: i32 = 512;
/// Permission bits a segment is created with: read, write and execute
/// for everyone.
pub const SEGMENT_PERMS: i32 = 511;
/// The full flag word handed to the native segment-create call.
pub const SEGMENT_FLAGS: i32 = IPC_CREAT | SEGMENT_PERMS;
/// The address value the native map call returns on failure.
pub const MAP_FAILED_ADDRESS: u64 = u64::MAX;

/// The fixed color depth every image of this layer is created with.
pub const IMAGE_DEPTH: u32 = 24;
/// The fixed pixel-packing format every image of this layer is created
/// with.
pub const ZPIXMAP: i32 = 2;
/// Bytes per pixel under the fixed 32-bit packing.
pub const BYTES_PER_PIXEL: u32 = 4;

/// The native segment-info record, as plain values: what the image-attach
/// calls read. A fresh segment always carries a zero server-side segment
/// id and is mapped writable.
#[derive(Debug, Clone, Copy, PartialEq, Eq, Structural)]
pub struct SegmentInfo {
    pub shmseg: u64,
    pub shmid: i32,
    pub address: u64,
    pub read_only: i32,
}

/// A shared-memory segment that was allocated but not yet mapped into the
/// process address space.
#[derive(Debug)]
pub struct PendingSegment {
    shmid: i32,
}

/// One shared-memory region: the system identifier and the mapped
/// address. On teardown the mapping is detached and the identifier marked
/// for removal, exactly once, in that order.
#[derive(Debug)]
pub struct SharedMemory {
    shmid: i32,
    address: u64,
}

impl PendingSegment {
    /// The system segment identifier.
    pub closed spec fn shmid(&self) -> i32 {
        self.shmid
    }

    /// Well-formed: the identifier is non-negative.
    pub open spec fn wf(&self) -> bool {
        self.shmid() >= 0
    }

    /// Interprets the address the native map call returned for this
    /// segment. On failure the identifier is marked for removal — the one
    /// returned request — before the error is reported, so a segment that
    /// allocated but never mapped is not leaked.
    pub fn attach(self, address: u64) -> (r: Result<SharedMemory, (Vec<Request>, X11Error)>)
        requires
            self.wf(),
        ensures
            address == MAP_FAILED_ADDRESS ==> (r matches Err((reqs, e)) && {
                &&& reqs@ == seq![Request::SegmentRemove { segment: self.shmid() }]
                &&& e matches X11Error::OperationFailed(m)
                &&& m@ == "attach to shared memory"@
            }),
            address != MAP_FAILED_ADDRESS ==> (r matches Ok(s) && s.shmid() == self.shmid()
                && s.address() == address && s.wf()),
    {
        if address == MAP_FAILED_ADDRESS {
            let mut reqs: Vec<Request> = Vec::new();
            reqs.push(Request::SegmentRemove { segment: self.shmid });
            proof {
                assert(reqs@ =~= seq![Request::SegmentRemove { segment: self.shmid() }]);
            }
            Err((reqs, X11Error::from("attach to shared memory")))
        } else {
            Ok(SharedMemory { shmid: self.shmid, address })
        }
    }
}

impl SharedMemory {
    /// The system segment identifier.
    pub closed spec fn shmid(&self) -> i32 {
        self.shmid
    }

    /// The mapped address.
    pub closed spec fn spec_address(&self) -> u64 {
        self.address
    }

    /// Well-formed: allocated and mapped.
    pub open spec fn wf(&self) -> bool {
        self.shmid() >= 0 && self.spec_address() != MAP_FAILED_ADDRESS
    }

    /// Interprets the identifier the native segment-create call returned
    /// (negative standing for failure). The successful segment still has
    /// to be mapped by [`PendingSegment::attach`].
    pub fn allocate(shmid: i32) -> (r: Result<PendingSegment, X11Error>)
        ensures
            shmid < 0 ==> failed_with(r, "create shared memory"@),
            shmid >= 0 ==> (r matches Ok(p) && p.shmid() == shmid && p.wf()),
    {
        if shmid < 0 {
            Err(X11Error::from("create shared memory"))
        } else {
            Ok(PendingSegment { shmid })
        }
    }

    /// The mapped address, under which the region's bytes are read and
    /// written.
    #[verifier::when_used_as_spec(spec_address)]
    pub fn address(&self) -> (r: u64)
        ensures
            r == self.spec_address(),
    {
        self.address
    }

    /// The segment-info record the native image calls read.
    pub fn as_segment_info(&self) -> (r: SegmentInfo)
        ensures
            r == (SegmentInfo {
                shmseg: 0,
                shmid: self.shmid(),
                address: self.spec_address(),
                read_only: 0,
            }),
    {
        SegmentInfo { shmseg: 0, shmid: self.shmid, address: self.address, read_only: 0 }
    }

    /// Teardown: detach the mapping, then mark the identifier for
    /// removal, in exactly that order. Consuming `self` makes both happen
    /// exactly once. The surrounding process ignores the two status
    /// codes: teardown opens no new failure surface.
    pub fn release(self) -> (r: Vec<Request>)
        ensures
            r@ == seq![
                Request::SegmentDetach { address: self.spec_address() },
                Request::SegmentRemove { segment: self.shmid() },
            ],
    {
        let mut reqs: Vec<Request> = Vec::new();
        reqs.push(Request::SegmentDetach { address: self.address });
        reqs.push(Request::SegmentRemove { segment: self.shmid });
        proof {
            assert(reqs@ =~= seq![
                Request::SegmentDetach { address: self.spec_address() },
                Request::SegmentRemove { segment: self.shmid() },
            ]);
        }
        reqs
    }
}

/// Byte `k` (little-endian, `0 <= k < 4`) of a pixel of color `color`
/// under the fixed 32-bit packing: blue in byte 0, green in byte 1, red
/// in byte 2.
pub open spec fn pixel_byte(color: u32, k: int) -> u8 {
    if k == 0 {
        color as u8
    } else if k == 1 {
        (color >> 8u32) as u8
    } else if k == 2 {
        (color >> 16u32) as u8
    } else {
        (color >> 24u32) as u8
    }
}

/// The byte offset where pixel `(x, y)` of a `width`-wide image starts.
pub open spec fn pixel_offset(width: int, x: int, y: int) -> int {
    (y * width + x) * 4
}

/// A pixel buffer after one pixel write: the four bytes at the pixel's
/// offset hold the color, little-endian; everything else is unchanged.
pub open spec fn write_pixel(buf: Seq<u8>, width: int, x: int, y: int, color: u32) -> Seq<u8> {
    let off = pixel_offset(width, x, y);
    buf.update(off, pixel_byte(color, 0)).update(off + 1, pixel_byte(color, 1)).update(
        off + 2,
        pixel_byte(color, 2),
    ).update(off + 3, pixel_byte(color, 3))
}

/// The all-zero buffer of a fresh `width` by `height` image: the native
/// segment-create call hands out zeroed memory.
pub open spec fn zero_buffer(width: int, height: int) -> Seq<u8> {
    Seq::new((width * height * 4) as nat, |i: int| 0u8)
}

/// The product of two values below their types' bounds stays below the
/// product of the bounds.
proof fn lemma_mul_le(a: int, b: int, c: int, d: int)
    by (nonlinear_arith)
    requires
        0 <= a <= c,
        0 <= b <= d,
    ensures
        a * b <= c * d,
{
}

/// A pixel inside the image rectangle starts and ends inside the buffer.
proof fn lemma_pixel_offset_in_bounds(width: int, height: int, x: int, y: int)
    by (nonlinear_arith)
    requires
        0 <= x < width,
        0 <= y < height,
    ensures
        0 <= pixel_offset(width, x, y),
        pixel_offset(width, x, y) + 4 <= width * height * 4,
{
}

/// Whether a `width` by `height` image's byte size, four bytes per pixel,
/// fits the native size word. The driving process checks this before it
/// asks for a segment.
pub fn size_fits(width: u32, height: u32) -> (b: bool)
    ensures
        b == (width * height * 4 <= u32::MAX),
{
    proof {
        lemma_mul_le(width as int, height as int, u32::MAX as int, u32::MAX as int);
    }
    let p: u64 = (width as u64) * (height as u64);
    p <= 1073741823u64
}

/// The byte size of a `width` by `height` image: four bytes per pixel.
pub fn image_byte_size(width: u32, height: u32) -> (r: u32)
    requires
        width * height * 4 <= u32::MAX,
    ensures
        r == width * height * 4,
{
    proof {
        lemma_mul_le(width as int, height as int, u32::MAX as int, u32::MAX as int);
    }
    let p: u64 = (width as u64) * (height as u64);
    (p * 4) as u32
}

/// Whether the native descriptor's computed byte size — bytes per row
/// times rows — equals the size this layer allocated. A mismatch is a
/// construction-time defect: the driving process checks this and treats
/// failure as fatal.
pub fn descriptor_size_matches(
    width: u32,
    height: u32,
    bytes_per_line: i32,
    descriptor_height: i32,
) -> (b: bool)
    requires
        width * height * 4 <= u32::MAX,
    ensures
        b == (bytes_per_line * descriptor_height == width * height * 4),
{
    proof {
        lemma_mul_i32_fits(bytes_per_line as int, descriptor_height as int);
    }
    let lhs: i64 = (bytes_per_line as i64) * (descriptor_height as i64);
    let rhs: i64 = image_byte_size(width, height) as i64;
    lhs == rhs
}

/// The product of two 32-bit signed values fits a 64-bit signed word.
proof fn lemma_mul_i32_fits(a: int, b: int)
    by (nonlinear_arith)
    requires
        -0x8000_0000 <= a <= 0x7fff_ffff,
        -0x8000_0000 <= b <= 0x7fff_ffff,
    ensures
        -0x4000_0000_0000_0000 <= a * b <= 0x4000_0000_0000_0000,
{
}

/// An image descriptor that was created and bound to its segment but not
/// yet attached to the display server.
#[derive(Debug)]
pub struct PendingImage<'a> {
    display: &'a Display,
    segment: SharedMemory,
    image: u64,
    width: u32,
    height: u32,
}

/// A shared-memory image: a native descriptor bound to one owned
/// shared-memory segment, with a verified model of the mapped pixel
/// bytes. The borrow of the display keeps the image from outliving its
/// connection.
#[derive(Debug)]
pub struct ShmImage<'a> {
    display: &'a Display,
    segment: SharedMemory,
    image: u64,
    width: u32,
    height: u32,
    buffer: Vec<u8>,
}

impl<'a> PendingImage<'a> {
    /// The native image-descriptor handle.
    pub closed spec fn image(&self) -> u64 {
        self.image
    }

    /// The owned segment's identifier.
    pub closed spec fn shmid(&self) -> i32 {
        self.segment.shmid()
    }

    /// The owned segment's mapped address.
    pub closed spec fn address(&self) -> u64 {
        self.segment.spec_address()
    }

    /// The declared width.
    pub closed spec fn width(&self) -> u32 {
        self.width
    }

    /// The declared height.
    pub closed spec fn height(&self) -> u32 {
        self.height
    }

    /// Well-formed: descriptor non-null, segment mapped, size in range.
    pub open spec fn wf(&self) -> bool {
        &&& self.image() != 0
        &&& self.shmid() >= 0
        &&& self.address() != MAP_FAILED_ADDRESS
        &&& self.width() * self.height() * 4 <= u32::MAX
    }

    /// Interprets the status of the native server-attach call (zero
    /// standing for failure). On failure the descriptor is destroyed and
    /// the segment released — exactly the three returned requests, in
    /// that order. On success the image is complete, its pixel model the
    /// zeroed bytes the fresh segment holds.
    pub fn attach(self, status: i32) -> (r: Result<ShmImage<'a>, (Vec<Request>, X11Error)>)
        requires
            self.wf(),
        ensures
            status == 0 ==> (r matches Err((reqs, e)) && {
                &&& reqs@ == seq![
                    Request::DestroyImage { image: self.image() },
                    Request::SegmentDetach { address: self.address() },
                    Request::SegmentRemove { segment: self.shmid() },
                ]
                &&& e matches X11Error::OperationFailed(m)
                &&& m@ == "attach shm image"@
            }),
            status != 0 ==> (r matches Ok(img) && {
                &&& img.image() == self.image()
                &&& img.shmid() == self.shmid()
                &&& img.address() == self.address()
                &&& img.width() == self.width()
                &&& img.height() == self.height()
                &&& img.bytes() == zero_buffer(self.width() as int, self.height() as int)
                &&& img.wf()
            }),
    {
        let ghost orig = self;
        let PendingImage { display, segment, image, width, height } = self;
        if status == 0 {
            let mut reqs: Vec<Request> = Vec::new();
            reqs.push(Request::DestroyImage { image });
            let mut tail = segment.release();
            reqs.append(&mut tail);
            proof {
                assert(reqs@ =~= seq![
                    Request::DestroyImage { image: orig.image() },
                    Request::SegmentDetach { address: orig.address() },
                    Request::SegmentRemove { segment: orig.shmid() },
                ]);
            }
            Err((reqs, X11Error::from("attach shm image")))
        } else {
            let size = image_byte_size(width, height) as usize;
            let mut buffer: Vec<u8> = Vec::new();
            let mut i: usize = 0;
            while i < size
                invariant
                    0 <= i <= size,
                    buffer@.len() == i,
                    forall|j: int| 0 <= j < i ==> buffer@[j] == 0u8,
                decreases size - i,
            {
                buffer.push(0u8);
                i += 1;
            }
            proof {
                assert(buffer@ =~= zero_buffer(width as int, height as int));
            }
            Ok(ShmImage { display, segment, image, width, height, buffer })
        }
    }
}

impl<'a> ShmImage<'a> {
    /// The native image-descriptor handle.
    pub closed spec fn image(&self) -> u64 {
        self.image
    }

    /// The owned segment's identifier.
    pub closed spec fn shmid(&self) -> i32 {
        self.segment.shmid()
    }

    /// The owned segment's mapped address.
    pub closed spec fn address(&self) -> u64 {
        self.segment.spec_address()
    }

    /// The declared width.
    pub closed spec fn spec_width(&self) -> u32 {
        self.width
    }

    /// The declared height.
    pub closed spec fn spec_height(&self) -> u32 {
        self.height
    }

    /// The model of the mapped pixel bytes.
    pub closed spec fn bytes(&self) -> Seq<u8> {
        self.buffer@
    }

    /// Well-formed: descriptor non-null, segment mapped, and the model
    /// buffer exactly the image's byte size — width times height times
    /// four, the same size the native descriptor computed.
    pub open spec fn wf(&self) -> bool {
        &&& self.image() != 0
        &&& self.shmid() >= 0
        &&& self.address() != MAP_FAILED_ADDRESS
        &&& self.spec_width() * self.spec_height() * 4 <= u32::MAX
        &&& self.bytes().len() == self.spec_width() * self.spec_height() * 4
    }

    /// Interprets the outcome of the native descriptor-create call
    /// (`image` zero standing for the null sentinel), taking ownership of
    /// the image's segment. On failure the segment is released — exactly
    /// the two returned requests. On success the descriptor's data
    /// pointer still has to be bound to the mapped address (the returned
    /// request) and the segment attached to the server, judged by
    /// [`PendingImage::attach`].
    ///
    /// The descriptor's computed byte size must equal the allocated size;
    /// a mismatch is a construction-time defect the driving process rules
    /// out with [`descriptor_size_matches`] before calling.
    pub fn create(
        display: &'a Display,
        width: u32,
        height: u32,
        segment: SharedMemory,
        image: u64,
        bytes_per_line: i32,
        descriptor_height: i32,
    ) -> (r: Result<(PendingImage<'a>, Request), (Vec<Request>, X11Error)>)
        requires
            display.wf(),
            segment.wf(),
            width * height * 4 <= u32::MAX,
            image != 0 ==> bytes_per_line * descriptor_height == width * height * 4,
        ensures
            image == 0 ==> (r matches Err((reqs, e)) && {
                &&& reqs@ == seq![
                    Request::SegmentDetach { address: segment.spec_address() },
                    Request::SegmentRemove { segment: segment.shmid() },
                ]
                &&& e matches X11Error::OperationFailed(m)
                &&& m@ == "create shm image"@
            }),
            image != 0 ==> (r matches Ok((p, req)) && {
                &&& p.image() == image
                &&& p.shmid() == segment.shmid()
                &&& p.address() == segment.spec_address()
                &&& p.width() == width
                &&& p.height() == height
                &&& p.wf()
                &&& req == (Request::BindImageData { image, address: segment.spec_address() })
            }),
    {
        if image == 0 {
            let reqs = segment.release();
            Err((reqs, X11Error::from("create shm image")))
        } else {
            let address = segment.address();
            Ok((
                PendingImage { display, segment, image, width, height },
                Request::BindImageData { image, address },
            ))
        }
    }

    /// The declared width.
    #[verifier::when_used_as_spec(spec_width)]
    pub fn width(&self) -> (r: u32)
        ensures
            r == self.spec_width(),
    {
        self.width
    }

    /// The declared height.
    #[verifier::when_used_as_spec(spec_height)]
    pub fn height(&self) -> (r: u32)
        ensures
            r == self.spec_height(),
    {
        self.height
    }

    /// Writes one pixel into the shared buffer: the four bytes at the
    /// pixel's offset take the color, little-endian. Coordinates inside
    /// the rectangle are a caller obligation; nothing else about the
    /// image changes.
    pub fn put_pixel(&mut self, x: u32, y: u32, color: u32)
        requires
            old(self).wf(),
            x < old(self).width(),
            y < old(self).height(),
        ensures
            final(self).wf(),
            final(self).image() == old(self).image(),
            final(self).shmid() == old(self).shmid(),
            final(self).address() == old(self).address(),
            final(self).width() == old(self).width(),
            final(self).height() == old(self).height(),
            final(self).bytes() == write_pixel(
                old(self).bytes(),
                old(self).width() as int,
                x as int,
                y as int,
                color,
            ),
    {
        proof {
            lemma_pixel_offset_in_bounds(
                self.width as int,
                self.height as int,
                x as int,
                y as int,
            );
        }
        let off: usize = ((y as usize) * (self.width as usize) + (x as usize)) * 4;
        assert(off as int == pixel_offset(self.spec_width() as int, x as int, y as int));
        self.buffer.set(off, color as u8);
        self.buffer.set(off + 1, (color >> 8u32) as u8);
        self.buffer.set(off + 2, (color >> 16u32) as u8);
        self.buffer.set(off + 3, (color >> 24u32) as u8);
    }

    /// Reads one byte of the shared buffer back.
    pub fn byte_at(&self, index: usize) -> (b: u8)
        requires
            self.wf(),
            index < self.bytes().len(),
        ensures
            b == self.bytes()[index as int],
    {
        self.buffer[index]
    }

    /// The whole shared buffer, for the driving process to carry into the
    /// real mapped region before a blit.
    pub fn buffer(&self) -> (r: &Vec<u8>)
        ensures
            r@ == self.bytes(),
    {
        &self.buffer
    }

    /// The blit request: the full rectangle goes to the window at the
    /// given offset. No synchronize is implied — a caller that needs
    /// visibility ordering issues [`Display::sync`]'s request explicitly.
    pub fn put_image(&self, window: &Window<'_>, gc: &GC<'_>, x: i32, y: i32) -> (r: Request)
        ensures
            r == (Request::PutImage {
                window: window.window_id(),
                gc: gc.handle(),
                image: self.image(),
                dst_x: x,
                dst_y: y,
                width: self.spec_width(),
                height: self.spec_height(),
            }),
    {
        Request::PutImage {
            window: window.window_id(),
            gc: gc.handle(),
            image: self.image,
            dst_x: x,
            dst_y: y,
            width: self.width,
            height: self.height,
        }
    }

    /// Teardown, in dependency order: detach the segment from the display
    /// server, destroy the native descriptor, synchronize, and only then
    /// release the owned segment — detach its mapping, remove its
    /// identifier. Exactly these five requests, in exactly that order,
    /// whether or not a pixel was ever written. Consuming `self` makes
    /// the teardown happen exactly once.
    pub fn destroy(self) -> (r: Vec<Request>)
        ensures
            r@ == seq![
                Request::ShmDetach { segment: self.shmid() },
                Request::DestroyImage { image: self.image() },
                Request::Sync,
                Request::SegmentDetach { address: self.address() },
                Request::SegmentRemove { segment: self.shmid() },
            ],
    {
        let ghost orig = self;
        let ShmImage { display, segment, image, width: _, height: _, buffer: _ } = self;
        let sid: i32 = segment.shmid;
        let mut reqs: Vec<Request> = Vec::new();
        reqs.push(Request::ShmDetach { segment: sid });
        reqs.push(Request::DestroyImage { image });
        reqs.push(display.sync());
        let mut tail = segment.release();
        reqs.append(&mut tail);
        proof {
            assert(reqs@ =~= seq![
                Request::ShmDetach { segment: orig.shmid() },
                Request::DestroyImage { image: orig.image() },
                Request::Sync,
                Request::SegmentDetach { address: orig.address() },
                Request::SegmentRemove { segment: orig.shmid() },
            ]);
        }
        reqs
    }
}

/// Law: after one pixel write, the four bytes at the pixel's offset hold
/// the color packed little-endian, and every other byte of the buffer is
/// what it was.
pub proof fn lemma_write_pixel_readback(
    buf: Seq<u8>,
    width: int,
    height: int,
    x: int,
    y: int,
    color: u32,
)
    requires
        0 <= x < width,
        0 <= y < height,
        buf.len() == width * height * 4,
    ensures
        write_pixel(buf, width, x, y, color).len() == buf.len(),
        forall|k: int|
            0 <= k < 4 ==> write_pixel(buf, width, x, y, color)[pixel_offset(width, x, y) + k]
                == pixel_byte(color, k),
        forall|i: int|
            0 <= i < buf.len() && !(pixel_offset(width, x, y) <= i < pixel_offset(width, x, y)
                + 4) ==> write_pixel(buf, width, x, y, color)[i] == buf[i],
{
    lemma_pixel_offset_in_bounds(width, height, x, y);
}

} // verus!
