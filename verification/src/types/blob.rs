//! Owned byte buffers that stand behind the CSP's C blobs
//! (`CRYPT_INTEGER_BLOB`, `CRYPT_DATA_BLOB`, `CRYPT_BIT_BLOB`, ...).
//!
//! The bytes live in a `Vec<u8>`; the C structure handed to the CSP
//! carries their length and address and is valid while the buffer lives.
use vstd::prelude::*;
use crate::ffi_helpers::buffer::copy_bytes;
use crate::raw_types as ffi;

verus! {

/// The address of a vector's buffer (`Vec::as_ptr` as an integer).
#[verifier::external_body]
fn vec_address(v: &Vec<u8>) -> usize {
    v.as_ptr() as usize
}

/// An owned byte buffer to be passed to the CSP as a C blob.
#[derive(Clone, Debug)]
pub struct DataBlob {
    inner: Vec<u8>,
}

impl View for DataBlob {
    type V = Seq<u8>;

    closed spec fn view(&self) -> Seq<u8> {
        self.inner@
    }
}

impl DataBlob {
    /// A blob holding a copy of `data`.
    pub fn new(data: &[u8]) -> (b: Self)
        ensures
            b@ == data@,
    {
        Self { inner: copy_bytes(data) }
    }

    /// An empty blob.
    pub fn new_empty() -> (b: Self)
        ensures
            b@ == Seq::<u8>::empty(),
    {
        Self { inner: Vec::new() }
    }

    /// A blob of `size` zero bytes.
    pub fn new_zeroed(size: usize) -> (b: Self)
        ensures
            b@ == Seq::new(size as nat, |i: int| 0u8),
    {
        let inner = vec![0u8; size];
        assert(inner@ =~= Seq::new(size as nat, |i: int| 0u8));
        Self { inner }
    }

    /// The bytes of the blob.
    pub fn as_bytes(&self) -> (s: &[u8])
        ensures
            s@ == self@,
    {
        self.inner.as_slice()
    }

    /// The bytes of the blob, for writing in place.
    pub fn as_bytes_mut(&mut self) -> (s: &mut [u8])
        ensures
            s@ == old(self)@,
            final(s)@ == final(self)@,
    {
        self.inner.as_mut_slice()
    }

    /// Number of bytes.
    pub fn len(&self) -> (n: usize)
        ensures
            n == self@.len(),
    {
        self.inner.len()
    }

    /// Whether the blob holds no bytes.
    pub fn is_empty(&self) -> (b: bool)
        ensures
            b == (self@.len() == 0),
    {
        self.inner.len() == 0
    }

    /// The C structure for the blob: its length (as a `DWORD`, taken modulo
    /// 2^32) and the address of its bytes.
    pub fn as_ffi(&self) -> (b: ffi::DataBlob)
        ensures
            b.cb_data == self@.len() as u32,
    {
        ffi::DataBlob { cb_data: self.inner.len() as u32, pb_data: vec_address(&self.inner) }
    }

    /// The same structure, for functions that take a `const BLOB*`.
    pub fn as_ffi_const(&self) -> (b: ffi::DataBlob)
        ensures
            b.cb_data == self@.len() as u32,
    {
        ffi::DataBlob { cb_data: self.inner.len() as u32, pb_data: vec_address(&self.inner) }
    }

    /// Replace the bytes with those a C blob describes: none when its
    /// length is 0 or its address NULL, otherwise the `cb_data` bytes at
    /// its address, which `read(address, length)` copies out of the CSP's
    /// memory.
    pub fn clone_from_ffi<F: FnOnce(usize, u32) -> Vec<u8>>(&mut self, src: &ffi::DataBlob, read: F)
        requires
            read.requires((src.pb_data, src.cb_data)),
        ensures
            src.cb_data == 0 || src.pb_data == 0 ==> final(self)@ == Seq::<u8>::empty(),
            !(src.cb_data == 0 || src.pb_data == 0) ==> exists|v: Vec<u8>|
                #[trigger] read.ensures((src.pb_data, src.cb_data), v) && final(self)@ == v@,
    {
        if src.cb_data == 0 || src.pb_data == 0 {
            self.inner.clear();
        } else {
            let v = read(src.pb_data, src.cb_data);
            assert(read.ensures((src.pb_data, src.cb_data), v));
            self.inner = v;
        }
    }

    /// The blob's buffer, taken out of it.
    pub fn into_vec(self) -> (v: Vec<u8>)
        ensures
            v@ == self@,
    {
        self.inner
    }

    /// A blob that takes over a buffer.
    pub fn from_vec(data: Vec<u8>) -> (b: Self)
        ensures
            b@ == data@,
    {
        Self { inner: data }
    }
}

/// A blob of bits: bytes and the number of unused bits in the last one
/// (`CRYPT_BIT_BLOB`).
#[derive(Clone, Debug)]
pub struct BitBlob {
    data: Vec<u8>,
    unused_bits: u32,
}

impl View for BitBlob {
    type V = (Seq<u8>, u32);

    closed spec fn view(&self) -> (Seq<u8>, u32) {
        (self.data@, self.unused_bits)
    }
}

impl BitBlob {
    /// A bit blob holding a copy of `data`.
    pub fn new(data: &[u8], unused_bits: u32) -> (b: Self)
        ensures
            b@ == (data@, unused_bits),
    {
        Self { data: copy_bytes(data), unused_bits }
    }

    /// The bytes.
    pub fn as_bytes(&self) -> (s: &[u8])
        ensures
            s@ == self@.0,
    {
        self.data.as_slice()
    }

    /// Number of unused bits in the last byte.
    pub fn unused_bits(&self) -> (n: u32)
        ensures
            n == self@.1,
    {
        self.unused_bits
    }

    /// Number of significant bits: eight per byte, less the unused ones.
    pub fn bit_len(&self) -> (n: usize)
        requires
            self@.0.len() * 8 <= usize::MAX,
            self@.1 <= self@.0.len() * 8,
        ensures
            n == self@.0.len() * 8 - self@.1,
    {
        self.data.len() * 8 - self.unused_bits as usize
    }

    /// The C structure for the blob.
    pub fn as_ffi(&self) -> (b: ffi::CRYPT_BIT_BLOB)
        ensures
            b.cb_data == self@.0.len() as u32,
            b.c_unused_bits == self@.1,
    {
        ffi::CRYPT_BIT_BLOB {
            cb_data: self.data.len() as u32,
            pb_data: vec_address(&self.data),
            c_unused_bits: self.unused_bits,
        }
    }
}

} // verus!

verus! {

impl Default for DataBlob {
    fn default() -> (b: Self)
        ensures
            b@ == Seq::<u8>::empty(),
    {
        Self::new_empty()
    }
}

impl From<Vec<u8>> for DataBlob {
    fn from(data: Vec<u8>) -> (b: Self) {
        Self { inner: data }
    }
}

impl vstd::std_specs::convert::FromSpecImpl<Vec<u8>> for DataBlob {
    open spec fn obeys_from_spec() -> bool {
        true
    }

    closed spec fn from_spec(data: Vec<u8>) -> Self {
        DataBlob { inner: data }
    }
}

impl From<DataBlob> for Vec<u8> {
    fn from(blob: DataBlob) -> (v: Self) {
        blob.inner
    }
}

impl vstd::std_specs::convert::FromSpecImpl<DataBlob> for Vec<u8> {
    open spec fn obeys_from_spec() -> bool {
        true
    }

    closed spec fn from_spec(blob: DataBlob) -> Self {
        blob.inner
    }
}

impl AsRef<[u8]> for DataBlob {
    fn as_ref(&self) -> (s: &[u8])
        ensures
            s@ == self@,
    {
        self.as_bytes()
    }
}

} // verus!

verus! {

/// What the `From` conversions between `Vec<u8>` and `DataBlob` do: the
/// bytes pass unchanged.
pub proof fn lemma_blob_from_vec(v: Vec<u8>, b: DataBlob)
    ensures
        <DataBlob as vstd::std_specs::convert::FromSpec<Vec<u8>>>::from_spec(v)@ == v@,
        <Vec<u8> as vstd::std_specs::convert::FromSpec<DataBlob>>::from_spec(b)@ == b@,
{
}

/// Law: converting a buffer into a blob and back gives the same buffer.
pub proof fn law_blob_vec_round_trip(v: Vec<u8>)
    ensures
        <Vec<u8> as vstd::std_specs::convert::FromSpec<DataBlob>>::from_spec(
            <DataBlob as vstd::std_specs::convert::FromSpec<Vec<u8>>>::from_spec(v),
        ) == v,
{
}

} // verus!
