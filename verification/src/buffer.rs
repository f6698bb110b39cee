//! GPU buffers registered with cuFile.
use vstd::prelude::*;
use core::marker::PhantomData;
use crate::error::{check_cufile_error, error_for_code, CuFileResult};
use crate::status;

verus! {

/// Flags for buffer registration
pub struct BufferFlags;

impl BufferFlags {
    /// No flags.
    pub const NONE: i32 = 0;
}

/// A registered GPU buffer for CuFile operations: the device address of its
/// base and its size in bytes, for elements of type `T`.
pub struct RegisteredBuffer<T> {
    addr: usize,
    size: usize,
    _phantom: PhantomData<T>,
}

impl<T> RegisteredBuffer<T> {
    /// The device address of the buffer's base.
    pub closed spec fn spec_addr(&self) -> usize {
        self.addr
    }

    /// The size of the buffer in bytes.
    pub closed spec fn spec_size(&self) -> usize {
        self.size
    }

    /// Records the buffer of `size` bytes at device address `addr`, whose
    /// registration (`cuFileBufRegister`) returned `status`: the buffer when
    /// the registration succeeded, the error that `status` stands for otherwise.
    pub fn register(addr: usize, size: usize, status: i32) -> (r: CuFileResult<Self>)
        ensures
            r is Ok <==> status == status::CU_FILE_SUCCESS,
            r matches Ok(b) ==> b.spec_addr() == addr && b.spec_size() == size,
            r matches Err(e) ==> e == error_for_code(status),
    {
        match check_cufile_error(status) {
            Ok(()) => Ok(RegisteredBuffer { addr, size, _phantom: PhantomData }),
            Err(e) => Err(e),
        }
    }

    /// Get the device address of the registered buffer
    pub fn address(&self) -> (a: usize)
        ensures
            a == self.spec_addr(),
    {
        self.addr
    }

    /// Get the size of the registered buffer in bytes
    pub fn size(&self) -> (s: usize)
        ensures
            s == self.spec_size(),
    {
        self.size
    }

    /// Get the size of the registered buffer in elements
    pub fn len(&self) -> (n: usize)
        requires
            vstd::layout::size_of::<T>() > 0,
        ensures
            n == self.spec_size() as nat / vstd::layout::size_of::<T>(),
    {
        self.size / core::mem::size_of::<T>()
    }

    /// Check if the buffer is empty
    pub fn is_empty(&self) -> (b: bool)
        ensures
            b <==> self.spec_size() == 0,
    {
        self.size == 0
    }
}

/// Convenience functions for common buffer operations
impl RegisteredBuffer<u8> {
    /// Register a byte buffer: records the buffer of `size` bytes at `addr`
    /// registered with no flags, whose registration returned `status`.
    pub fn register_bytes(addr: usize, size: usize, status: i32) -> (r: CuFileResult<Self>)
        ensures
            r is Ok <==> status == status::CU_FILE_SUCCESS,
            r matches Ok(b) ==> b.spec_addr() == addr && b.spec_size() == size,
            r matches Err(e) ==> e == error_for_code(status),
    {
        Self::register(addr, size, status)
    }
}

impl<T: Copy> RegisteredBuffer<T> {
    /// The size in bytes of `count` elements of type `T`: the size with which
    /// a typed buffer is registered.
    pub fn typed_size(count: usize) -> (size: usize)
        requires
            count * vstd::layout::size_of::<T>() <= usize::MAX,
        ensures
            size == count * vstd::layout::size_of::<T>(),
    {
        count * core::mem::size_of::<T>()
    }

    /// Register a typed buffer: records the buffer of `count` elements at
    /// `addr`, registered with `typed_size(count)` bytes and no flags, whose
    /// registration returned `status`.
    pub fn register_typed(addr: usize, count: usize, status: i32) -> (r: CuFileResult<Self>)
        requires
            count * vstd::layout::size_of::<T>() <= usize::MAX,
        ensures
            r is Ok <==> status == status::CU_FILE_SUCCESS,
            r matches Ok(b) ==> b.spec_addr() == addr && b.spec_size() == count
                * vstd::layout::size_of::<T>(),
            r matches Err(e) ==> e == error_for_code(status),
            r matches Ok(b) ==> (vstd::layout::size_of::<T>() > 0 ==> b.spec_size() as nat
                / vstd::layout::size_of::<T>() == count),
    {
        let size = Self::typed_size(count);
        proof {
            if vstd::layout::size_of::<T>() > 0 {
                lemma_typed_buffer_len::<T>(count as nat);
            }
        }
        Self::register(addr, size, status)
    }
}

/// A buffer registered for `count` elements holds exactly `count` elements.
pub proof fn lemma_typed_buffer_len<T>(count: nat)
    requires
        vstd::layout::size_of::<T>() > 0,
    ensures
        (count * vstd::layout::size_of::<T>()) / vstd::layout::size_of::<T>() == count,
{
    vstd::arithmetic::div_mod::lemma_div_multiples_vanish(
        count as int,
        vstd::layout::size_of::<T>() as int,
    );
    vstd::arithmetic::mul::lemma_mul_is_commutative(
        count as int,
        vstd::layout::size_of::<T>() as int,
    );
}

} // verus!
