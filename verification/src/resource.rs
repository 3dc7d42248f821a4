//! The typed resource allocator: CPU-writable upload buffers, GPU-only
//! opaque resources, scoped mapped views, and the factory that assigns
//! GPU virtual addresses and keeps resource-count accounting.

use vstd::prelude::*;
use vstd::layout::size_of;
use vstd::slice::slice_index_get;

verus! {

/// Base of the model's GPU virtual address space; every allocation lies at
/// or above this address, so no resource ever has address zero.
pub const ADDRESS_BASE: u64 = 65536;

#[derive(Clone, Copy, Debug, PartialEq, Eq, Structural)]
pub enum ResourceDimension {
    Buffer,
    Texture2d,
}

#[derive(Clone, Copy, Debug, PartialEq, Eq, Structural)]
pub enum ResourceFlags {
    NoFlags,
    AllowUnorderedAccess,
}

/// The usage states a resource transitions through; a barrier moves a
/// resource from one state to another and any mismatch is a protocol bug.
#[derive(Clone, Copy, Debug, PartialEq, Eq, Structural)]
pub enum ResourceState {
    Common,
    UnorderedAccess,
    CopySource,
    CopyDest,
    Present,
    RaytracingAccelerationStructure,
}

#[derive(Clone, Copy, Debug, PartialEq, Eq, Structural)]
pub struct ResourceDesc {
    pub dimension: ResourceDimension,
    pub width: u64,
    pub height: u32,
    pub flags: ResourceFlags,
}

/// Allocation failure: the size is invalid (zero) or the device cannot
/// supply the heap/size combination.
#[derive(Clone, Copy, Debug, PartialEq, Eq, Structural)]
pub struct AllocationError;

/// A rejected buffer copy: the slice length does not match the buffer
/// length, or the offset copy would run past the buffer's capacity.
#[derive(Clone, Copy, Debug, PartialEq, Eq, Structural)]
pub enum CopyError {
    LengthMismatch,
    OutOfBounds,
}

/// A GPU-only allocation: no CPU access, known address, size and state.
#[derive(Clone, Copy, Debug, PartialEq, Eq, Structural)]
pub struct OpaqueResource {
    pub address: u64,
    pub size: u64,
    pub desc: ResourceDesc,
    pub state: ResourceState,
}

impl OpaqueResource {
    pub open spec fn wf(self) -> bool {
        &&& ADDRESS_BASE <= self.address
        &&& 1 <= self.size
        &&& self.address + self.size <= u64::MAX
    }

    pub fn get_gpu_virtual_address(&self) -> (r: u64)
        ensures
            r == self.address,
    {
        self.address
    }

    pub fn get_desc(&self) -> (r: ResourceDesc)
        ensures
            r == self.desc,
    {
        self.desc
    }
}

/// A CPU-writable, GPU-readable allocation of `count` elements of `T`.
/// While a mapped view is outstanding, `contents` is `None`; the view must
/// be handed back through `release_buffer` before the GPU may use the
/// buffer again, and ownership of the view makes that release exactly-once.
pub struct UploadResource<T> {
    pub address: u64,
    pub count: usize,
    pub flags: ResourceFlags,
    pub state: ResourceState,
    pub contents: Option<Vec<T>>,
}

/// A scoped mapped view of an upload buffer, exposing indexed access and
/// the two copy primitives.
pub struct ResourceBuffer<T> {
    pub data: Vec<T>,
}

impl<T> View for ResourceBuffer<T> {
    type V = Seq<T>;

    open spec fn view(&self) -> Seq<T> {
        self.data@
    }
}

impl<T> ResourceBuffer<T> {
    pub fn len(&self) -> (r: usize)
        ensures
            r == self@.len(),
    {
        self.data.len()
    }

    pub fn write(&mut self, i: usize, value: T)
        requires
            i < old(self)@.len(),
        ensures
            final(self)@ == old(self)@.update(i as int, value),
    {
        self.data[i] = value;
    }
}

impl<T: Copy> ResourceBuffer<T> {
    pub fn read(&self, i: usize) -> (r: T)
        requires
            i < self@.len(),
        ensures
            r == self@[i as int],
    {
        self.data[i]
    }

    /// Whole-slice copy; the slice length must equal the buffer length.
    /// A mismatched length is a contract violation — a caller that
    /// cannot establish the equality uses `try_copy_from_slice`, whose
    /// contract proves the mismatch is rejected with the buffer
    /// untouched.
    pub fn copy_from_slice(&mut self, slice: &[T])
        requires
            slice@.len() == old(self)@.len(),
        ensures
            final(self)@ == slice@,
    {
        let n: usize = slice.len();
        let mut v: Vec<T> = Vec::new();
        let mut i: usize = 0;
        while i < n
            invariant
                i <= n,
                n == slice@.len(),
                v@ == slice@.subrange(0, i as int),
            decreases n - i,
        {
            v.push(*slice_index_get(slice, i));
            proof {
                assert(slice@.subrange(0, i as int).push(slice@[i as int]) =~= slice@.subrange(
                    0,
                    i + 1,
                ));
            }
            i = i + 1;
        }
        proof {
            assert(v@ =~= slice@);
        }
        self.data = v;
    }

    /// Whole-slice copy that rejects, rather than performs, a copy whose
    /// slice length differs from the buffer length.
    pub fn try_copy_from_slice(&mut self, slice: &[T]) -> (r: Result<(), CopyError>)
        ensures
            r is Ok <==> slice@.len() == old(self)@.len(),
            r is Ok ==> final(self)@ == slice@,
            r is Err ==> final(self)@ == old(self)@ && r == Err::<(), CopyError>(
                CopyError::LengthMismatch,
            ),
    {
        if slice.len() == self.data.len() {
            self.copy_from_slice(slice);
            Ok(())
        } else {
            Err(CopyError::LengthMismatch)
        }
    }

    /// Copy into the buffer starting at `offset`; `offset + slice.len()`
    /// must stay within the buffer's capacity.  Overrunning the capacity
    /// is a contract violation — a caller that cannot establish the
    /// bound uses `try_copy_from_slice_at`, whose contract proves the
    /// overrun is rejected rather than truncated, with the buffer
    /// untouched.
    pub fn copy_from_slice_at(&mut self, slice: &[T], offset: usize)
        requires
            offset + slice@.len() <= old(self)@.len(),
        ensures
            final(self)@.len() == old(self)@.len(),
            forall|j: int| 0 <= j < slice@.len() ==> final(self)@[offset + j] == slice@[j],
            forall|j: int|
                0 <= j < old(self)@.len() && !(offset <= j < offset + slice@.len()) ==> final(self)@[j] == old(self)@[j],
    {
        let n: usize = slice.len();
        let total: usize = self.data.len();
        let mut i: usize = 0;
        while i < n
            invariant
                i <= n,
                n == slice@.len(),
                total == self.data@.len(),
                offset + n <= total,
                self.data@.len() == old(self)@.len(),
                forall|j: int| 0 <= j < i ==> self.data@[offset + j] == slice@[j],
                forall|j: int|
                    0 <= j < self.data@.len() && !(offset <= j < offset + i) ==> self.data@[j]
                        == old(self)@[j],
            decreases n - i,
        {
            let idx: usize = offset + i;
            self.data[idx] = *slice_index_get(slice, i);
            i = i + 1;
        }
    }

    /// Offset copy that rejects, rather than truncates, a copy that would
    /// run past the buffer's capacity.
    pub fn try_copy_from_slice_at(&mut self, slice: &[T], offset: usize) -> (r: Result<
        (),
        CopyError,
    >)
        ensures
            r is Ok <==> offset + slice@.len() <= old(self)@.len(),
            r is Ok ==> final(self)@.len() == old(self)@.len() && (forall|j: int|
                0 <= j < slice@.len() ==> final(self)@[offset + j] == slice@[j]) && (forall|j: int|
                0 <= j < old(self)@.len() && !(offset <= j < offset + slice@.len()) ==> final(self)@[j] == old(self)@[j]),
            r is Err ==> final(self)@ == old(self)@ && r == Err::<(), CopyError>(
                CopyError::OutOfBounds,
            ),
    {
        if offset <= self.data.len() && slice.len() <= self.data.len() - offset {
            self.copy_from_slice_at(slice, offset);
            Ok(())
        } else {
            Err(CopyError::OutOfBounds)
        }
    }
}

impl<T> View for UploadResource<T> {
    type V = Seq<T>;

    open spec fn view(&self) -> Seq<T> {
        match self.contents {
            Option::Some(v) => v@,
            Option::None => Seq::empty(),
        }
    }
}

impl<T> UploadResource<T> {
    /// A mapped view is outstanding: the CPU side owns the contents and
    /// the buffer must not be handed to the GPU.
    pub open spec fn mapped(self) -> bool {
        self.contents is None
    }

    pub open spec fn wf(self) -> bool {
        &&& ADDRESS_BASE <= self.address
        &&& 1 <= self.count * size_of::<T>()
        &&& self.address + self.count * size_of::<T>() <= u64::MAX
        &&& match self.contents {
            Option::Some(v) => v@.len() == self.count,
            Option::None => true,
        }
    }

    /// Element count the buffer was allocated for; its byte size is always
    /// `count * size_of::<T>()`.
    pub fn len(&self) -> (r: usize)
        ensures
            r == self.count,
    {
        self.count
    }

    pub fn get_gpu_virtual_address(&self) -> (r: u64)
        ensures
            r == self.address,
    {
        self.address
    }

    /// Acquires the scoped mapped view.  The view holds exactly the
    /// buffer's `count` elements; the buffer counts as mapped until the
    /// view is handed back through `release_buffer`.
    pub fn get_buffer(&mut self) -> (b: ResourceBuffer<T>)
        requires
            !old(self).mapped(),
            old(self).wf(),
        ensures
            final(self).mapped(),
            final(self).address == old(self).address,
            final(self).count == old(self).count,
            final(self).flags == old(self).flags,
            final(self).state == old(self).state,
            b@ == old(self)@,
            b@.len() == old(self).count,
    {
        let data = self.contents.take();
        match data {
            Option::Some(v) => ResourceBuffer { data: v },
            Option::None => unreached(),
        }
    }

    /// Hands the mapped view back, releasing the mapping exactly once; the
    /// buffer's contents become whatever the view now holds.
    pub fn release_buffer(&mut self, b: ResourceBuffer<T>)
        requires
            old(self).mapped(),
            b@.len() == old(self).count,
        ensures
            !final(self).mapped(),
            final(self).address == old(self).address,
            final(self).count == old(self).count,
            final(self).flags == old(self).flags,
            final(self).state == old(self).state,
            final(self)@ == b@,
    {
        self.contents = Some(b.data);
    }

    /// Consumes the typed buffer into a type-erased, GPU-facing resource;
    /// an ownership transfer, not a copy.
    pub fn into_opaque(self) -> (r: OpaqueResource)
        requires
            !self.mapped(),
            self.wf(),
        ensures
            r.address == self.address,
            r.size == self.count * size_of::<T>(),
            r.state == self.state,
            r.desc == (ResourceDesc {
                dimension: ResourceDimension::Buffer,
                width: (self.count * size_of::<T>()) as u64,
                height: 1,
                flags: self.flags,
            }),
            r.wf(),
    {
        let bytes: u64 = (self.count as u64) * (core::mem::size_of::<T>() as u64);
        OpaqueResource {
            address: self.address,
            size: bytes,
            desc: ResourceDesc {
                dimension: ResourceDimension::Buffer,
                width: bytes,
                height: 1,
                flags: self.flags,
            },
            state: self.state,
        }
    }
}

/// Allocates resources from the device: assigns each a fresh GPU virtual
/// address and keeps the created/retired accounting that lets a harness
/// check that nothing leaks.
pub struct ResourceFactory {
    pub next_address: u64,
    pub created: u64,
    pub retired: u64,
}

impl ResourceFactory {
    pub open spec fn wf(self) -> bool {
        &&& ADDRESS_BASE <= self.next_address
        &&& self.created <= self.next_address - ADDRESS_BASE
        &&& self.retired <= self.created
    }

    /// Resources currently alive: created and not yet retired.
    pub open spec fn live(self) -> int {
        self.created - self.retired
    }

    pub fn new() -> (r: Self)
        ensures
            r.wf(),
            r.next_address == ADDRESS_BASE,
            r.created == 0,
            r.retired == 0,
    {
        ResourceFactory { next_address: ADDRESS_BASE, created: 0, retired: 0 }
    }

    pub fn live_resources(&self) -> (r: u64)
        requires
            self.wf(),
        ensures
            r == self.live(),
    {
        self.created - self.retired
    }

    /// Reserves `size` bytes of address space.  Fails exactly when the
    /// size is invalid (zero) or the address space is exhausted.
    fn allocate(&mut self, size: u64) -> (r: Result<u64, AllocationError>)
        requires
            old(self).wf(),
        ensures
            final(self).wf(),
            final(self).retired == old(self).retired,
            r is Ok <==> 1 <= size && old(self).next_address + size <= u64::MAX,
            match r {
                Ok(addr) => {
                    &&& addr == old(self).next_address
                    &&& final(self).next_address == addr + size
                    &&& final(self).created == old(self).created + 1
                },
                Err(e) => *final(self) == *old(self) && e == AllocationError,
            },
    {
        if size == 0 {
            return Err(AllocationError);
        }
        if size > u64::MAX - self.next_address {
            return Err(AllocationError);
        }
        let addr: u64 = self.next_address;
        self.next_address = self.next_address + size;
        self.created = self.created + 1;
        Ok(addr)
    }

    /// Retires a resource after the GPU no longer references it; the
    /// accounting pairs this with the creation that produced it.
    pub fn retire(&mut self, resource: OpaqueResource)
        requires
            old(self).wf(),
            old(self).retired < old(self).created,
        ensures
            final(self).wf(),
            final(self).retired == old(self).retired + 1,
            final(self).created == old(self).created,
            final(self).next_address == old(self).next_address,
    {
        let _ = resource;
        self.retired = self.retired + 1;
    }

    /// Allocates `size` bytes of GPU-only memory for acceleration
    /// structures or render output.  Fails exactly when the size is
    /// invalid (zero) or the address space is exhausted.
    pub fn create_gpu_resource(
        &mut self,
        buffer_flags: Option<ResourceFlags>,
        initial_state: Option<ResourceState>,
        size: u64,
    ) -> (r: Result<OpaqueResource, AllocationError>)
        requires
            old(self).wf(),
        ensures
            final(self).wf(),
            final(self).retired == old(self).retired,
            r is Ok <==> 1 <= size && old(self).next_address + size <= u64::MAX,
            match r {
                Ok(resource) => {
                    &&& resource.wf()
                    &&& resource.address == old(self).next_address
                    &&& resource.size == size
                    &&& resource.state == state_or_common(initial_state)
                    &&& resource.desc == buffer_desc(size, flags_or_none(buffer_flags))
                    &&& final(self).next_address == old(self).next_address + size
                    &&& final(self).created == old(self).created + 1
                },
                Err(e) => *final(self) == *old(self) && e == AllocationError,
            },
    {
        let flags: ResourceFlags = match buffer_flags {
            Option::Some(f) => f,
            Option::None => ResourceFlags::NoFlags,
        };
        let state: ResourceState = match initial_state {
            Option::Some(s) => s,
            Option::None => ResourceState::Common,
        };
        let addr: u64 = match self.allocate(size) {
            Ok(a) => a,
            Err(e) => {
                return Err(e);
            },
        };
        Ok(
            OpaqueResource {
                address: addr,
                size,
                desc: ResourceDesc {
                    dimension: ResourceDimension::Buffer,
                    width: size,
                    height: 1,
                    flags,
                },
                state,
            },
        )
    }

    /// Retires a typed upload buffer, the same accounting as `retire`
    /// for a buffer that was never type-erased.
    pub fn retire_upload<T>(&mut self, resource: UploadResource<T>)
        requires
            old(self).wf(),
            old(self).retired < old(self).created,
        ensures
            final(self).wf(),
            final(self).retired == old(self).retired + 1,
            final(self).created == old(self).created,
            final(self).next_address == old(self).next_address,
    {
        let _ = resource;
        self.retired = self.retired + 1;
    }

    /// Allocates a GPU-only two-dimensional RGBA8 image of the given
    /// extent, for render output.  Fails exactly when the image is empty
    /// or the address space is exhausted.
    pub fn create_texture_resource(
        &mut self,
        width: u32,
        height: u32,
        flags: ResourceFlags,
        initial_state: ResourceState,
    ) -> (r: Result<OpaqueResource, AllocationError>)
        requires
            old(self).wf(),
        ensures
            final(self).wf(),
            final(self).retired == old(self).retired,
            r is Ok <==> 1 <= texture_bytes(width, height) && old(self).next_address
                + texture_bytes(width, height) <= u64::MAX,
            match r {
                Ok(resource) => {
                    &&& resource.wf()
                    &&& resource.address == old(self).next_address
                    &&& resource.size == texture_bytes(width, height)
                    &&& resource.state == initial_state
                    &&& resource.desc == (ResourceDesc {
                        dimension: ResourceDimension::Texture2d,
                        width: width as u64,
                        height,
                        flags,
                    })
                    &&& final(self).next_address == old(self).next_address + texture_bytes(
                        width,
                        height,
                    )
                    &&& final(self).created == old(self).created + 1
                },
                Err(e) => *final(self) == *old(self) && e == AllocationError,
            },
    {
        proof {
            assert((width as int) * (height as int) <= 0xFFFFFFFFu64 * 0xFFFFFFFFu64)
                by (nonlinear_arith)
                requires
                    width <= 0xFFFFFFFFu64,
                    height <= 0xFFFFFFFFu64,
            ;
        }
        let texels: u64 = (width as u64) * (height as u64);
        let bytes: u64 = match texels.checked_mul(4) {
            Option::Some(b) => b,
            Option::None => {
                return Err(AllocationError);
            },
        };
        let addr: u64 = match self.allocate(bytes) {
            Ok(a) => a,
            Err(e) => {
                return Err(e);
            },
        };
        Ok(
            OpaqueResource {
                address: addr,
                size: bytes,
                desc: ResourceDesc {
                    dimension: ResourceDimension::Texture2d,
                    width: width as u64,
                    height,
                    flags,
                },
                state: initial_state,
            },
        )
    }

    /// Allocates `count * size_of::<T>()` bytes of CPU-writable,
    /// GPU-readable memory.  The driver hands back uniform memory, so the
    /// caller states the element value a fresh buffer holds (zeroed for
    /// the native heap).  Fails exactly when the byte size is invalid
    /// (zero) or the address space is exhausted.
    pub fn create_upload_resource<T: Copy>(
        &mut self,
        buffer_flags: Option<ResourceFlags>,
        initial_state: Option<ResourceState>,
        count: u64,
        init: T,
    ) -> (r: Result<UploadResource<T>, AllocationError>)
        requires
            old(self).wf(),
            count <= usize::MAX,
        ensures
            final(self).wf(),
            final(self).retired == old(self).retired,
            r is Ok <==> 1 <= count * size_of::<T>() && old(self).next_address + count * size_of::<
                T,
            >() <= u64::MAX,
            match r {
                Ok(resource) => {
                    &&& resource.wf()
                    &&& !resource.mapped()
                    &&& resource.address == old(self).next_address
                    &&& resource.count == count
                    &&& resource.flags == flags_or_none(buffer_flags)
                    &&& resource.state == state_or_common(initial_state)
                    &&& resource@ == Seq::new(count as nat, |i: int| init)
                    &&& final(self).next_address == old(self).next_address + count * size_of::<T>()
                    &&& final(self).created == old(self).created + 1
                },
                Err(e) => *final(self) == *old(self) && e == AllocationError,
            },
    {
        let elem: u64 = core::mem::size_of::<T>() as u64;
        let bytes: u64 = match count.checked_mul(elem) {
            Option::Some(b) => b,
            Option::None => {
                return Err(AllocationError);
            },
        };
        let addr: u64 = match self.allocate(bytes) {
            Ok(a) => a,
            Err(e) => {
                return Err(e);
            },
        };
        let n: usize = count as usize;
        let mut v: Vec<T> = Vec::new();
        let mut i: usize = 0;
        while i < n
            invariant
                i <= n,
                v@ == Seq::new(i as nat, |k: int| init),
            decreases n - i,
        {
            v.push(init);
            proof {
                assert(Seq::new(i as nat, |k: int| init).push(init) =~= Seq::new(
                    (i + 1) as nat,
                    |k: int| init,
                ));
            }
            i = i + 1;
        }
        Ok(
            UploadResource {
                address: addr,
                count: n,
                flags: match buffer_flags {
                    Option::Some(f) => f,
                    Option::None => ResourceFlags::NoFlags,
                },
                state: match initial_state {
                    Option::Some(s) => s,
                    Option::None => ResourceState::Common,
                },
                contents: Some(v),
            },
        )
    }

    /// Allocates an upload buffer sized for `data` and performs an
    /// immediate scoped write of the whole slice.  Fails exactly when the
    /// byte size is invalid (zero) or the address space is exhausted.
    pub fn create_upload_resource_from_slice<T: Copy>(
        &mut self,
        buffer_flags: Option<ResourceFlags>,
        initial_state: Option<ResourceState>,
        data: &[T],
    ) -> (r: Result<UploadResource<T>, AllocationError>)
        requires
            old(self).wf(),
        ensures
            final(self).wf(),
            final(self).retired == old(self).retired,
            r is Ok <==> 1 <= data@.len() * size_of::<T>() && old(self).next_address + data@.len()
                * size_of::<T>() <= u64::MAX,
            match r {
                Ok(resource) => {
                    &&& resource.wf()
                    &&& !resource.mapped()
                    &&& resource.address == old(self).next_address
                    &&& resource.count == data@.len()
                    &&& resource.flags == flags_or_none(buffer_flags)
                    &&& resource.state == state_or_common(initial_state)
                    &&& resource@ == data@
                    &&& final(self).next_address == old(self).next_address + data@.len()
                        * size_of::<T>()
                    &&& final(self).created == old(self).created + 1
                },
                Err(e) => *final(self) == *old(self) && e == AllocationError,
            },
    {
        if data.len() == 0 {
            return Err(AllocationError);
        }
        let first: T = *slice_index_get(data, 0);
        let mut resource = match self.create_upload_resource(
            buffer_flags,
            initial_state,
            data.len() as u64,
            first,
        ) {
            Ok(resource) => resource,
            Err(e) => {
                return Err(e);
            },
        };
        let mut buffer = resource.get_buffer();
        buffer.copy_from_slice(data);
        resource.release_buffer(buffer);
        Ok(resource)
    }
}

/// Bytes of a two-dimensional RGBA8 image: four bytes per texel.
pub open spec fn texture_bytes(width: u32, height: u32) -> int {
    width * height * 4
}

/// The resource description every plain buffer allocation carries.
pub open spec fn buffer_desc(size: u64, flags: ResourceFlags) -> ResourceDesc {
    ResourceDesc { dimension: ResourceDimension::Buffer, width: size, height: 1, flags }
}

pub open spec fn flags_or_none(flags: Option<ResourceFlags>) -> ResourceFlags {
    match flags {
        Option::Some(f) => f,
        Option::None => ResourceFlags::NoFlags,
    }
}

pub open spec fn state_or_common(state: Option<ResourceState>) -> ResourceState {
    match state {
        Option::Some(s) => s,
        Option::None => ResourceState::Common,
    }
}

} // verus!
