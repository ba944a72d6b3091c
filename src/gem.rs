use vstd::prelude::*;
use crate::error::DrmError;

verus! {

/// The bytes `min(want, len - offset)` long from `offset`, none when the
/// offset is at or past the end.
pub open spec fn transfer_len(len: int, offset: int, want: int) -> int {
    if offset >= len {
        0
    } else if want < len - offset {
        want
    } else {
        len - offset
    }
}

/// A storage interface that buffer objects delegate to.
pub trait DrmGemBackend {
    /// Copies bytes from `offset` into the front of `out`; returns how many.
    fn read(&self, offset: usize, out: &mut Vec<u8>) -> Result<usize, DrmError>;

    /// Copies the bytes of `data` to `offset`; returns how many.
    fn write(&mut self, offset: usize, data: &[u8]) -> Result<usize, DrmError>;

    /// Gives up the storage; later reads and writes transfer nothing.
    fn release(&mut self) -> Result<(), DrmError>;
}

/// Anonymous-memory backing store of a fixed size.
#[derive(Debug)]
pub struct DrmMemfdFile {
    data: Vec<u8>,
}

impl DrmMemfdFile {
    pub closed spec fn contents(&self) -> Seq<u8> {
        self.data@
    }

    /// A zero-filled store of `size` bytes.
    pub fn new(size: usize) -> (r: DrmMemfdFile)
        ensures
            r.contents() == Seq::new(size as nat, |i: int| 0u8),
    {
        let data = vec![0u8; size];
        proof {
            assert(data@ =~= Seq::new(size as nat, |i: int| 0u8));
        }
        DrmMemfdFile { data }
    }

    /// The bytes that a mapping of the store shows.
    pub fn mappable(&self) -> (r: &[u8])
        ensures
            r@ == self.contents(),
    {
        self.data.as_slice()
    }

    pub fn len(&self) -> (r: usize)
        ensures
            r == self.contents().len(),
    {
        self.data.len()
    }

    /// Copies bytes from `offset` into the front of `out`.
    pub fn read_at(&self, offset: usize, out: &mut Vec<u8>) -> (r: usize)
        ensures
            r == transfer_len(self.contents().len() as int, offset as int, old(out)@.len() as int),
            final(out)@.len() == old(out)@.len(),
            forall|i: int| 0 <= i < r ==> #[trigger] final(out)@[i] == self.contents()[offset + i],
            forall|i: int| r <= i < old(out)@.len() ==> #[trigger] final(out)@[i] == old(out)@[i],
    {
        let len = self.data.len();
        if offset >= len {
            return 0;
        }
        let n: usize = if out.len() < len - offset { out.len() } else { len - offset };
        let mut i: usize = 0;
        while i < n
            invariant
                len == self.data@.len(),
                n <= out@.len(),
                offset + n <= self.data@.len(),
                i <= n,
                out@.len() == old(out)@.len(),
                forall|j: int| 0 <= j < i ==> #[trigger] out@[j] == self.data@[offset + j],
                forall|j: int| n <= j < old(out)@.len() ==> #[trigger] out@[j] == old(out)@[j],
            decreases n - i,
        {
            assert(offset + i < self.data@.len());
            let b = self.data[offset + i];
            out.set(i, b);
            i = i + 1;
        }
        n
    }

    /// Copies the bytes of `src` to `offset`, within the store's size.
    pub fn write_at(&mut self, offset: usize, src: &[u8]) -> (r: usize)
        ensures
            r == transfer_len(old(self).contents().len() as int, offset as int, src@.len() as int),
            final(self).contents().len() == old(self).contents().len(),
            forall|i: int|
                0 <= i < final(self).contents().len() ==> #[trigger] final(self).contents()[i] == if offset
                    <= i < offset + r {
                    src@[i - offset]
                } else {
                    old(self).contents()[i]
                },
    {
        let len = self.data.len();
        if offset >= len {
            return 0;
        }
        let n: usize = if src.len() < len - offset { src.len() } else { len - offset };
        let mut i: usize = 0;
        while i < n
            invariant
                n <= src@.len(),
                offset + n <= len,
                len == old(self).data@.len(),
                i <= n,
                self.data@.len() == len,
                forall|j: int|
                    0 <= j < len ==> #[trigger] self.data@[j] == if offset <= j < offset + i {
                        src@[j - offset]
                    } else {
                        old(self).data@[j]
                    },
            decreases n - i,
        {
            self.data.set(offset + i, src[i]);
            i = i + 1;
        }
        n
    }

    /// Truncates the store to nothing.
    pub fn truncate(&mut self)
        ensures
            final(self).contents().len() == 0,
    {
        self.data.clear();
    }
}

impl DrmGemBackend for DrmMemfdFile {
    fn read(&self, offset: usize, out: &mut Vec<u8>) -> Result<usize, DrmError> {
        Ok(self.read_at(offset, out))
    }

    fn write(&mut self, offset: usize, data: &[u8]) -> Result<usize, DrmError> {
        Ok(self.write_at(offset, data))
    }

    fn release(&mut self) -> Result<(), DrmError> {
        self.truncate();
        Ok(())
    }
}

/// The backing stores a buffer object can have.
#[derive(Debug)]
pub enum GemBackend {
    Memfd(DrmMemfdFile),
}

/// A buffer object: size and pitch in bytes over a backing store.
#[derive(Debug)]
pub struct DrmGemObject {
    pub size: u64,
    pub pitch: u32,
    pub backend: GemBackend,
}

impl DrmGemObject {
    /// The bytes the object's store holds.
    pub open spec fn contents(&self) -> Seq<u8> {
        match self.backend {
            GemBackend::Memfd(m) => m.contents(),
        }
    }

    pub fn new(size: u64, pitch: u32, backend: GemBackend) -> (r: DrmGemObject)
        ensures
            r.size == size,
            r.pitch == pitch,
            r.backend == backend,
    {
        DrmGemObject { size, pitch, backend }
    }

    pub fn size(&self) -> (r: u64)
        ensures
            r == self.size,
    {
        self.size
    }

    pub fn pitch(&self) -> (r: u32)
        ensures
            r == self.pitch,
    {
        self.pitch
    }

    /// Reads through the backend: bytes from `offset` into the front of `out`.
    pub fn read(&self, offset: usize, out: &mut Vec<u8>) -> (r: Result<usize, DrmError>)
        ensures
            r matches Ok(n) && n == transfer_len(self.contents().len() as int, offset as int, old(out)@.len() as int),
            final(out)@.len() == old(out)@.len(),
            forall|i: int| 0 <= i < old(out)@.len() ==> #[trigger] final(out)@[i] == if i < transfer_len(
                self.contents().len() as int, offset as int, old(out)@.len() as int) {
                self.contents()[offset + i]
            } else {
                old(out)@[i]
            },
    {
        match &self.backend {
            GemBackend::Memfd(m) => Ok(m.read_at(offset, out)),
        }
    }

    /// Writes through the backend: the bytes of `src` to `offset`.
    pub fn write(&mut self, offset: usize, src: &[u8]) -> (r: Result<usize, DrmError>)
        ensures
            r matches Ok(n) && n == transfer_len(old(self).contents().len() as int, offset as int, src@.len() as int),
            final(self).size == old(self).size,
            final(self).pitch == old(self).pitch,
            final(self).contents().len() == old(self).contents().len(),
    {
        match &mut self.backend {
            GemBackend::Memfd(m) => Ok(m.write_at(offset, src)),
        }
    }

    /// Releases the backing store; the object keeps its size and pitch.
    pub fn release(&mut self) -> (r: Result<(), DrmError>)
        ensures
            r is Ok,
            final(self).size == old(self).size,
            final(self).pitch == old(self).pitch,
            final(self).contents().len() == 0,
    {
        match &mut self.backend {
            GemBackend::Memfd(m) => {
                m.truncate();
                Ok(())
            },
        }
    }

    /// The anonymous-memory store, when the object has one.
    pub fn downcast_ref(&self) -> (r: Option<&DrmMemfdFile>)
        ensures
            r matches Some(m) ==> self.backend == GemBackend::Memfd(*m),
            self.backend is Memfd ==> r is Some,
    {
        match &self.backend {
            GemBackend::Memfd(m) => Some(m),
        }
    }
}

/// Pitch of a dumb buffer: whole bytes per pixel times the width.
pub open spec fn dumb_pitch(width: u32, bpp: u32) -> int {
    width as int * (bpp as int / 8)
}

/// Size of a dumb buffer: pitch times height.
pub open spec fn dumb_size(width: u32, height: u32, bpp: u32) -> int {
    dumb_pitch(width, bpp) * height as int
}

/// Creates a dumb buffer over anonymous memory. Fails with
/// `InvalidArgument` when the pitch or the size does not fit in 32 bits.
pub fn dumb_create_impl(width: u32, height: u32, bpp: u32) -> (r: Result<DrmGemObject, DrmError>)
    ensures
        r is Ok <==> dumb_size(width, height, bpp) <= u32::MAX && dumb_pitch(width, bpp) <= u32::MAX,
        r matches Ok(g) ==> g.pitch == dumb_pitch(width, bpp) && g.size == dumb_size(width, height, bpp)
            && g.backend is Memfd && g.contents().len() == g.size,
        r matches Err(e) ==> e == DrmError::InvalidArgument,
{
    let pitch = match width.checked_mul(bpp / 8) {
        Some(p) => p,
        None => return Err(DrmError::InvalidArgument),
    };
    let size = match pitch.checked_mul(height) {
        Some(s) => s,
        None => {
            proof {
                assert(dumb_size(width, height, bpp) == pitch as int * height as int);
            }
            return Err(DrmError::InvalidArgument);
        },
    };
    proof {
        assert(dumb_size(width, height, bpp) == pitch as int * height as int);
    }
    let backend = DrmMemfdFile::new(size as usize);
    Ok(DrmGemObject::new(size as u64, pitch, GemBackend::Memfd(backend)))
}

} // verus!
