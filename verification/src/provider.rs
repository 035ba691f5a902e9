//! The cryptographic provider (`HCRYPTPROV`) and what is computed from
//! its replies.
//!
//! Acquiring and releasing a provider are calls into the CSP
//! (`CryptAcquireContext` / `CryptReleaseContext`); a `Provider` holds
//! the handle they give and the provider type it was opened with.
use vstd::prelude::*;
use vstd::string::StringExecFns;
use vstd::utf8::{decode_utf8, valid_utf8};
use crate::ffi_helpers::buffer::{truncated, zeroed};
use crate::ffi_helpers::string::{c_string_of, to_c_string};
use crate::raw_constants::{PP_CONTAINER, PP_NAME};
use crate::raw_types::{BOOL, DWORD};
use crate::text::{decimal, hex_upper, push_decimal_u32, push_hex_upper};
use crate::types::error::{CpcspError, CpcspResult};
use crate::types::handle::ProvHandle;

verus! {

/// A cryptographic provider: its handle and type.
#[derive(Debug)]
pub struct Provider {
    handle: ProvHandle,
    provider_type: DWORD,
}

impl Provider {
    /// The raw handle held.
    pub closed spec fn spec_handle(&self) -> usize {
        self.handle@
    }

    /// The provider type held.
    pub closed spec fn spec_provider_type(&self) -> DWORD {
        self.provider_type
    }

    /// A provider from the handle that `CryptAcquireContext` gave and the
    /// type it was asked for.
    pub fn from_handle(handle: ProvHandle, provider_type: DWORD) -> (p: Self)
        ensures
            p.spec_handle() == handle@,
            p.spec_provider_type() == provider_type,
    {
        Self { handle, provider_type }
    }

    /// The raw `HCRYPTPROV`, for passing to CSP calls; the provider keeps
    /// owning it.
    pub fn raw_handle(&self) -> (r: usize)
        ensures
            r == self.spec_handle(),
    {
        self.handle.raw()
    }

    /// The provider type.
    pub fn provider_type(&self) -> (t: DWORD)
        ensures
            t == self.spec_provider_type(),
    {
        self.provider_type
    }

    /// Whether the handle is not NULL.
    pub fn is_valid(&self) -> (b: bool)
        ensures
            b == (self.spec_handle() != 0),
    {
        !self.handle.is_null()
    }

    /// The provider as text: its type in decimal and its handle in
    /// hexadecimal, as in `Provider(type=80, handle=0x1A2B)`.
    pub fn describe(&self) -> (s: String)
        ensures
            s@ == "Provider(type="@ + decimal(self.spec_provider_type() as nat) + ", handle=0x"@
                + hex_upper(self.spec_handle() as nat) + ")"@,
    {
        let mut s = String::from_str("Provider(type=");
        push_decimal_u32(&mut s, self.provider_type);
        s.append(", handle=0x");
        push_hex_upper(&mut s, self.handle.raw());
        s.append(")");
        s
    }

    /// Give up the handle for release: returns it and leaves NULL in its
    /// place, so that it is released once.
    pub fn take_handle(&mut self) -> (r: usize)
        ensures
            r == old(self).spec_handle(),
            final(self).spec_handle() == 0,
            final(self).spec_provider_type() == old(self).spec_provider_type(),
    {
        let r = self.handle.raw();
        self.handle = ProvHandle::from_raw(0);
        r
    }
}

/// `b` without its trailing zero bytes.
pub open spec fn strip_trailing_zeros(b: Seq<u8>) -> Seq<u8>
    decreases b.len(),
{
    if b.len() > 0 && b.last() == 0 {
        strip_trailing_zeros(b.drop_last())
    } else {
        b
    }
}

/// A string parameter of the provider (a C string in a byte buffer): the
/// trailing zero bytes are dropped and the rest must be UTF-8, else the
/// result is `ERROR_INVALID_PARAMETER` (0x57).
pub fn trim_cstr(buf: Vec<u8>) -> (r: CpcspResult<String>)
    ensures
        r is Ok <==> valid_utf8(strip_trailing_zeros(buf@)),
        r matches Ok(s) ==> s@ == decode_utf8(strip_trailing_zeros(buf@)),
        r matches Err(e) ==> e@ == 0x57,
{
    let mut buf = buf;
    let ghost orig = buf@;
    while buf.len() > 0 && buf[buf.len() - 1] == 0
        invariant
            strip_trailing_zeros(buf@) == strip_trailing_zeros(orig),
        decreases buf@.len(),
    {
        let ghost before = buf@;
        buf.pop();
        assert(buf@ =~= before.drop_last());
    }
    match crate::text::string_from_utf8(buf) {
        Some(s) => Ok(s),
        None => Err(CpcspError::from_raw(0x57)),
    }
}

/// `c` is what a CSP call takes for the optional name `s`: NULL for no
/// name, else the name's C string.
pub open spec fn c_name_arg(s: Option<&str>, c: Option<&Vec<u8>>) -> bool {
    match (s, c) {
        (None, None) => true,
        (Some(s), Some(c)) => c@ == c_string_of(s@),
        _ => false,
    }
}

/// The optional name has no zero character (`CString::new` takes it).
pub open spec fn name_ok(s: Option<&str>) -> bool {
    s matches Some(t) ==> !t@.contains('\0')
}

/// The parameter `param` of the provider with handle `h` was read as `v`:
/// the size query succeeded, and either reported zero (`v` empty) or the
/// second call, given that many zero bytes, succeeded and `v` is its
/// output cut to the length it reported.
pub open spec fn param_read<
    F: FnOnce(usize, DWORD, u32) -> (u32, u32),
    G: FnOnce(usize, DWORD, Vec<u8>, u32) -> (u32, Vec<u8>, u32),
>(get_size: F, fill: G, h: usize, param: DWORD, v: Seq<u8>) -> bool {
    exists|r1: u32, s1: u32|
        #[trigger] get_size.ensures((h, param, 0u32), (r1, s1)) && r1 != 0 && (if s1 == 0 {
            v == Seq::<u8>::empty()
        } else {
            exists|b0: Vec<u8>, r2: u32, b2: Vec<u8>, s2: u32|
                #[trigger] fill.ensures((h, param, b0, s1), (r2, b2, s2)) && b0@ == zeroed(
                    s1 as nat,
                ) && r2 != 0 && v == truncated(b2@, s2 as int)
        })
}

/// Reading the parameter `param` of the provider with handle `h` failed
/// with `e`: the size query or the second call failed and `e` is the code
/// `last_error` reported.
pub open spec fn param_failed<
    F: FnOnce(usize, DWORD, u32) -> (u32, u32),
    G: FnOnce(usize, DWORD, Vec<u8>, u32) -> (u32, Vec<u8>, u32),
    E: FnOnce() -> u32,
>(get_size: F, fill: G, last_error: E, h: usize, param: DWORD, e: u32) -> bool {
    last_error.ensures((), e) && exists|r1: u32, s1: u32|
        #[trigger] get_size.ensures((h, param, 0u32), (r1, s1)) && (r1 == 0 || (s1 != 0 && exists|
            b0: Vec<u8>,
            b2: Vec<u8>,
            s2: u32,
        |
            #[trigger] fill.ensures((h, param, b0, s1), (0u32, b2, s2)) && b0@ == zeroed(
                s1 as nat,
            )))
}

/// What reading a string parameter gives: the read bytes without their
/// trailing zeros, decoded as UTF-8, or `ERROR_INVALID_PARAMETER` (0x57)
/// when they are not UTF-8; or the error of the read.
pub open spec fn string_param_reply<
    F: FnOnce(usize, DWORD, u32) -> (u32, u32),
    G: FnOnce(usize, DWORD, Vec<u8>, u32) -> (u32, Vec<u8>, u32),
    E: FnOnce() -> u32,
>(get_size: F, fill: G, last_error: E, h: usize, param: DWORD, r: CpcspResult<String>) -> bool {
    &&& r matches Ok(s) ==> exists|v: Seq<u8>|
        #[trigger] param_read(get_size, fill, h, param, v) && valid_utf8(strip_trailing_zeros(v))
            && s@ == decode_utf8(strip_trailing_zeros(v))
    &&& r matches Err(e) ==> param_failed(get_size, fill, last_error, h, param, e@) || (e@ == 0x57
        && exists|v: Seq<u8>|
        #[trigger] param_read(get_size, fill, h, param, v) && !valid_utf8(strip_trailing_zeros(v)))
}

impl Provider {
    /// Open a provider (`CryptAcquireContextA`) with the given container
    /// and provider names (`None` for the defaults), type and flags.
    /// `call` receives the names as C strings (NULL for `None`), the type
    /// and the flags, and returns the call's result and the handle it
    /// gave. A failed call gives the code from `last_error`.
    pub fn acquire<
        F: FnOnce(Option<&Vec<u8>>, Option<&Vec<u8>>, DWORD, DWORD) -> (BOOL, usize),
        E: FnOnce() -> u32,
    >(
        container: Option<&str>,
        provider: Option<&str>,
        provider_type: DWORD,
        flags: DWORD,
        call: F,
        last_error: E,
    ) -> (r: CpcspResult<Self>)
        requires
            name_ok(container),
            name_ok(provider),
            forall|c: Option<&Vec<u8>>, p: Option<&Vec<u8>>|
                call.requires((c, p, provider_type, flags)),
            last_error.requires(()),
        ensures
            exists|c: Option<&Vec<u8>>, p: Option<&Vec<u8>>, b: BOOL, h: usize|
                #[trigger] call.ensures((c, p, provider_type, flags), (b, h)) && c_name_arg(
                    container,
                    c,
                ) && c_name_arg(provider, p) && (if b == 0 {
                    r matches Err(e) && last_error.ensures((), e@)
                } else {
                    r matches Ok(prov) && prov.spec_handle() == h && prov.spec_provider_type()
                        == provider_type
                }),
    {
        let container_c: Option<Vec<u8>> = match container {
            Some(s) => match to_c_string(s) {
                Ok(c) => Some(c),
                Err(e) => return Err(e),
            },
            None => None,
        };
        let provider_c: Option<Vec<u8>> = match provider {
            Some(s) => match to_c_string(s) {
                Ok(c) => Some(c),
                Err(e) => return Err(e),
            },
            None => None,
        };
        let c = container_c.as_ref();
        let p = provider_c.as_ref();
        assert(c_name_arg(container, c));
        assert(c_name_arg(provider, p));
        let out = call(c, p, provider_type, flags);
        let (b, h) = out;
        assert(call.ensures((c, p, provider_type, flags), (b, h)));
        if b == 0 {
            let code = last_error();
            return Err(CpcspError::from_raw(code));
        }
        Ok(Self::from_handle(ProvHandle::from_raw(h), provider_type))
    }

    /// Open the default provider of a type without a container name.
    pub fn acquire_system<
        F: FnOnce(Option<&Vec<u8>>, Option<&Vec<u8>>, DWORD, DWORD) -> (BOOL, usize),
        E: FnOnce() -> u32,
    >(provider_type: DWORD, flags: DWORD, call: F, last_error: E) -> (r: CpcspResult<Self>)
        requires
            forall|c: Option<&Vec<u8>>, p: Option<&Vec<u8>>|
                call.requires((c, p, provider_type, flags)),
            last_error.requires(()),
        ensures
            exists|b: BOOL, h: usize|
                #[trigger] call.ensures((None, None, provider_type, flags), (b, h)) && (if b
                    == 0 {
                    r matches Err(e) && last_error.ensures((), e@)
                } else {
                    r matches Ok(prov) && prov.spec_handle() == h && prov.spec_provider_type()
                        == provider_type
                }),
    {
        Self::acquire(None, None, provider_type, flags, call, last_error)
    }

    /// Read a provider parameter (`CryptGetProvParam`) in two calls:
    /// `get_size(handle, param, 0)` asks for the size, `fill(handle,
    /// param, buffer, size)` writes it. A size of zero gives an empty
    /// value without a second call.
    pub fn get_param<
        F: FnOnce(usize, DWORD, u32) -> (u32, u32),
        G: FnOnce(usize, DWORD, Vec<u8>, u32) -> (u32, Vec<u8>, u32),
        E: FnOnce() -> u32,
    >(&self, param: DWORD, get_size: F, fill: G, last_error: E) -> (r: CpcspResult<Vec<u8>>)
        requires
            get_size.requires((self.spec_handle(), param, 0u32)),
            forall|b: Vec<u8>, s: u32| fill.requires((self.spec_handle(), param, b, s)),
            forall|b: Vec<u8>, s: u32, r2: u32, b2: Vec<u8>, s2: u32| #[trigger] fill.ensures((self.spec_handle(), param, b, s), (r2, b2, s2)) ==> b2@.len() == b@.len(),
            last_error.requires(()),
        ensures
            r matches Ok(v) ==> param_read(get_size, fill, self.spec_handle(), param, v@),
            r matches Err(e) ==> param_failed(
                get_size,
                fill,
                last_error,
                self.spec_handle(),
                param,
                e@,
            ),
    {
        let h = self.handle.raw();
        let out = get_size(h, param, 0);
        let (r1, s1) = out;
        assert(get_size.ensures((h, param, 0u32), (r1, s1)));
        if r1 == 0 {
            let c = last_error();
            return Err(CpcspError::from_raw(c));
        }
        if s1 == 0 {
            let v: Vec<u8> = Vec::new();
            assert(v@ =~= Seq::<u8>::empty());
            return Ok(v);
        }
        let buf: Vec<u8> = vec![0u8; s1 as usize];
        assert(buf@ =~= zeroed(s1 as nat));
        let ghost b0 = buf;
        let out2 = fill(h, param, buf, s1);
        let (r2, b2, s2) = out2;
        assert(fill.ensures((h, param, b0, s1), (r2, b2, s2)));
        if r2 == 0 {
            let c = last_error();
            return Err(CpcspError::from_raw(c));
        }
        let mut data = b2;
        data.truncate(s2 as usize);
        assert(data@ =~= truncated(b2@, s2 as int));
        Ok(data)
    }

    /// A string parameter: the parameter read with `get_param`, then
    /// `trim_cstr`.
    fn string_param<
        F: FnOnce(usize, DWORD, u32) -> (u32, u32),
        G: FnOnce(usize, DWORD, Vec<u8>, u32) -> (u32, Vec<u8>, u32),
        E: FnOnce() -> u32,
    >(&self, param: DWORD, get_size: F, fill: G, last_error: E) -> (r: CpcspResult<String>)
        requires
            get_size.requires((self.spec_handle(), param, 0u32)),
            forall|b: Vec<u8>, s: u32| fill.requires((self.spec_handle(), param, b, s)),
            forall|b: Vec<u8>, s: u32, r2: u32, b2: Vec<u8>, s2: u32| #[trigger] fill.ensures((self.spec_handle(), param, b, s), (r2, b2, s2)) ==> b2@.len() == b@.len(),
            last_error.requires(()),
        ensures
            string_param_reply(get_size, fill, last_error, self.spec_handle(), param, r),
    {
        match self.get_param(param, get_size, fill, last_error) {
            Ok(v) => {
                let ghost bytes = v@;
                assert(param_read(get_size, fill, self.spec_handle(), param, bytes));
                trim_cstr(v)
            },
            Err(e) => Err(e),
        }
    }

    /// The key container's name (`PP_CONTAINER`).
    pub fn container_name<
        F: FnOnce(usize, DWORD, u32) -> (u32, u32),
        G: FnOnce(usize, DWORD, Vec<u8>, u32) -> (u32, Vec<u8>, u32),
        E: FnOnce() -> u32,
    >(&self, get_size: F, fill: G, last_error: E) -> (r: CpcspResult<String>)
        requires
            get_size.requires((self.spec_handle(), PP_CONTAINER, 0u32)),
            forall|b: Vec<u8>, s: u32| fill.requires((self.spec_handle(), PP_CONTAINER, b, s)),
            forall|b: Vec<u8>, s: u32, r2: u32, b2: Vec<u8>, s2: u32| #[trigger] fill.ensures((self.spec_handle(), PP_CONTAINER, b, s), (r2, b2, s2)) ==> b2@.len() == b@.len(),
            last_error.requires(()),
        ensures
            string_param_reply(get_size, fill, last_error, self.spec_handle(), PP_CONTAINER, r),
    {
        self.string_param(PP_CONTAINER, get_size, fill, last_error)
    }

    /// The provider's name (`PP_NAME`).
    pub fn provider_name<
        F: FnOnce(usize, DWORD, u32) -> (u32, u32),
        G: FnOnce(usize, DWORD, Vec<u8>, u32) -> (u32, Vec<u8>, u32),
        E: FnOnce() -> u32,
    >(&self, get_size: F, fill: G, last_error: E) -> (r: CpcspResult<String>)
        requires
            get_size.requires((self.spec_handle(), PP_NAME, 0u32)),
            forall|b: Vec<u8>, s: u32| fill.requires((self.spec_handle(), PP_NAME, b, s)),
            forall|b: Vec<u8>, s: u32, r2: u32, b2: Vec<u8>, s2: u32| #[trigger] fill.ensures((self.spec_handle(), PP_NAME, b, s), (r2, b2, s2)) ==> b2@.len() == b@.len(),
            last_error.requires(()),
        ensures
            string_param_reply(get_size, fill, last_error, self.spec_handle(), PP_NAME, r),
    {
        self.string_param(PP_NAME, get_size, fill, last_error)
    }

    /// `len` random bytes from the provider (`CryptGenRandom`). `call`
    /// receives the handle, the length and a zeroed buffer of that length,
    /// and returns the call's result and the buffer it filled in place. Zero bytes are
    /// returned without a call.
    pub fn gen_random<F: FnOnce(usize, DWORD, Vec<u8>) -> (BOOL, Vec<u8>), E: FnOnce() -> u32>(
        &self,
        len: usize,
        call: F,
        last_error: E,
    ) -> (r: CpcspResult<Vec<u8>>)
        requires
            forall|b: Vec<u8>| #[trigger] call.requires((self.spec_handle(), len as u32, b)),
            forall|b: Vec<u8>, res: BOOL, out: Vec<u8>| #[trigger] call.ensures((self.spec_handle(), len as u32, b), (res, out)) ==> out@.len() == b@.len(),
            last_error.requires(()),
        ensures
            len == 0 ==> (r matches Ok(v) && v@.len() == 0),
            r matches Ok(v) ==> v@.len() == len,
            len != 0 ==> exists|b0: Vec<u8>, res: BOOL, out: Vec<u8>|
                #[trigger] call.ensures((self.spec_handle(), len as u32, b0), (res, out)) && b0@
                    == zeroed(len as nat) && (if res == 0 {
                    r matches Err(e) && last_error.ensures((), e@)
                } else {
                    r == Ok::<Vec<u8>, CpcspError>(out)
                }),
    {
        if len == 0 {
            return Ok(Vec::new());
        }
        let buf: Vec<u8> = vec![0u8; len];
        assert(buf@ =~= zeroed(len as nat));
        let ghost b0 = buf;
        let h = self.handle.raw();
        let n: u32 = #[verifier::truncate] (len as u32);
        assert(h == self.spec_handle());
        assert(n == len as u32);
        let out = call(h, n, buf);
        let (res, filled) = out;
        assert(call.ensures((h, n, b0), (res, filled)));
        if res == 0 {
            let c = last_error();
            return Err(CpcspError::from_raw(c));
        }
        Ok(filled)
    }
}

} // verus!
