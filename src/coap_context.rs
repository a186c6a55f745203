//! CoAP encoder state: staging buffers for the next key and value, encoder
//! lookup, and checking of encode results.

use vstd::prelude::*;
use crate::bytes::{ends_with_nul, logical_len, cstr_of, has_trailing_nul};
use crate::error::CoapError;
use crate::registry::{EncoderHandle, resolves, lookup_encoder};

verus! {

/// Capacity of the key staging buffer, terminator included.
pub const COAP_KEY_SIZE: usize = 32;

/// Capacity of the value staging buffer, terminator included.
pub const COAP_VALUE_SIZE: usize = 32;

/// Whether `buf` now holds `s` followed by a null byte at its start, and
/// is otherwise as `prev` was.
pub open spec fn staged_into(prev: Seq<u8>, buf: Seq<u8>, s: Seq<u8>) -> bool {
    &&& buf.len() == prev.len()
    &&& s.len() < buf.len()
    &&& forall|i: int| 0 <= i < s.len() ==> #[trigger] buf[i] == s[i]
    &&& buf[s.len() as int] == 0u8
    &&& forall|i: int| s.len() < i < buf.len() ==> #[trigger] buf[i] == prev[i]
}

/// Copies `s` to the start of `buf` and writes a null byte right after it.
fn stage_into<const N: usize>(buf: &mut [u8; N], s: &[u8])
    requires
        s@.len() < N,
    ensures
        staged_into(old(buf)@, final(buf)@, s@),
{
    let n = s.len();
    let mut i: usize = 0;
    while i < n
        invariant
            n == s@.len(),
            n < N,
            i <= n,
            buf@.len() == N,
            forall|j: int| 0 <= j < i ==> buf@[j] == s@[j],
            forall|j: int| i <= j < N ==> buf@[j] == old(buf)@[j],
        decreases n - i,
    {
        buf[i] = s[i];
        i = i + 1;
    }
    buf[n] = 0;
}

/// CoAP encoder state: buffers the next key and value to be encoded, each
/// null-terminated so that it can be handed to the encoder as a C string.
pub struct CoapContext {
    /// Staging buffer for the next key.
    key_buffer: [u8; COAP_KEY_SIZE],
    /// Staging buffer for the next string value.
    value_buffer: [u8; COAP_VALUE_SIZE],
}

/// The contents of both staging buffers.
pub struct CoapContextView {
    pub key_buffer: Seq<u8>,
    pub value_buffer: Seq<u8>,
}

impl View for CoapContext {
    type V = CoapContextView;

    closed spec fn view(&self) -> CoapContextView {
        CoapContextView { key_buffer: self.key_buffer@, value_buffer: self.value_buffer@ }
    }
}

impl CoapContext {
    /// Every context's buffers have their fixed capacities.
    pub proof fn lemma_buffer_lens(&self)
        ensures
            self@.key_buffer.len() == COAP_KEY_SIZE,
            self@.value_buffer.len() == COAP_VALUE_SIZE,
    {
    }

    /// Creates a context whose buffers are filled with zeros.
    pub fn new() -> (r: CoapContext)
        ensures
            r@.key_buffer == Seq::new(COAP_KEY_SIZE as nat, |i: int| 0u8),
            r@.value_buffer == Seq::new(COAP_VALUE_SIZE as nat, |i: int| 0u8),
    {
        let r = CoapContext { key_buffer: [0u8; COAP_KEY_SIZE], value_buffer: [0u8; COAP_VALUE_SIZE] };
        assert(r@.key_buffer =~= Seq::new(COAP_KEY_SIZE as nat, |i: int| 0u8));
        assert(r@.value_buffer =~= Seq::new(COAP_VALUE_SIZE as nat, |i: int| 0u8));
        r
    }

    /// Given a key `s`, returns it as a null-terminated C string. The key is
    /// always copied to the key buffer, with a null byte appended, even when
    /// `s` is already null-terminated; the result is the start of that buffer.
    pub fn key_to_cstr(&mut self, s: &[u8]) -> (r: &[u8])
        requires
            s@.len() < COAP_KEY_SIZE,
        ensures
            staged_into(old(self)@.key_buffer, final(self)@.key_buffer, s@),
            final(self)@.key_buffer.len() == COAP_KEY_SIZE,
            final(self)@.value_buffer == old(self)@.value_buffer,
            r@ == s@.push(0u8),
            r@ == final(self)@.key_buffer.subrange(0, s@.len() + 1int),
    {
        stage_into(&mut self.key_buffer, s);
        let n = s.len();
        assert(self.key_buffer@.subrange(0, n + 1) =~= s@.push(0u8));
        vstd::slice::slice_subrange(self.key_buffer.as_slice(), 0, n + 1)
    }

    /// Given a value `s`, returns it as a null-terminated C string. When `s`
    /// is already null-terminated it is returned as it is, without copying.
    /// Otherwise it is copied to the value buffer with a null byte appended,
    /// and the result is the start of that buffer.
    pub fn value_to_cstr<'a>(&'a mut self, s: &'a [u8]) -> (r: &'a [u8])
        requires
            !ends_with_nul(s@) ==> s@.len() < COAP_VALUE_SIZE,
        ensures
            r@ == cstr_of(s@),
            r@.len() == logical_len(s@) + 1,
            r@.subrange(0, logical_len(s@) as int) == s@.subrange(0, logical_len(s@) as int),
            r@[logical_len(s@) as int] == 0u8,
            ends_with_nul(s@) ==> r@ == s@ && final(self)@ == old(self)@,
            !ends_with_nul(s@) ==> staged_into(old(self)@.value_buffer, final(self)@.value_buffer, s@)
                && r@ == final(self)@.value_buffer.subrange(0, s@.len() + 1int),
            final(self)@.key_buffer == old(self)@.key_buffer,
            final(self)@.value_buffer.len() == COAP_VALUE_SIZE,
    {
        if has_trailing_nul(s) {
            assert(s@.subrange(0, logical_len(s@) as int).push(0u8) =~= s@);
            return s;
        }
        stage_into(&mut self.value_buffer, s);
        let n = s.len();
        assert(s@.subrange(0, logical_len(s@) as int) =~= s@);
        assert(self.value_buffer@.subrange(0, n + 1) =~= s@.push(0u8));
        vstd::slice::slice_subrange(self.value_buffer.as_slice(), 0, n + 1)
    }

    /// Computes the byte length of the string in `s`, leaving out its
    /// trailing null terminator if it has one.
    pub fn cstr_len(&self, s: &[u8]) -> (r: usize)
        ensures
            r == logical_len(s@),
            ends_with_nul(s@) ==> r == s@.len() - 1,
            !ends_with_nul(s@) ==> r == s@.len(),
    {
        if has_trailing_nul(s) {
            s.len() - 1
        } else {
            s.len()
        }
    }

    /// Returns the global CBOR encoder.
    pub fn global_encoder(&self) -> (r: EncoderHandle)
        ensures
            r == EncoderHandle::Global,
    {
        EncoderHandle::Global
    }

    /// Returns a new CBOR encoder for the current array, e.g. `key = values`.
    /// Only the `values` array is supported.
    pub fn new_encoder(&self, key: &str, suffix: &str) -> (r: EncoderHandle)
        requires
            key@ == "values"@,
        ensures
            r == EncoderHandle::Values,
            Some(r) == resolves(key@, suffix@),
    {
        proof {
            reveal_strlit("values");
            reveal_strlit("root");
            assert(key@.len() != "root"@.len());
        }
        EncoderHandle::Values
    }

    /// Returns the CBOR encoder for the current map or array, e.g.
    /// `key = root, suffix = _map`. The name must be one that
    /// `lookup_encoder` resolves.
    pub fn encoder(&self, key: &str, suffix: &str) -> (r: EncoderHandle)
        requires
            resolves(key@, suffix@) is Some,
        ensures
            Some(r) == resolves(key@, suffix@),
    {
        lookup_encoder(key, suffix).unwrap()
    }

    /// Checks the status code of an encode call: only success, 0, lets the
    /// encoding go on.
    pub fn check_result(&self, res: u32)
        requires
            res == 0,
    {
    }

    /// Checks the outcome of the encoding: only `CoapError::OK` lets it go on.
    pub fn fail(&mut self, err: CoapError)
        requires
            err == CoapError::OK,
        ensures
            final(self)@ == old(self)@,
    {
    }

    /// The whole key buffer, as the last staging left it.
    pub fn key_buffer(&self) -> (r: &[u8])
        ensures
            r@ == self@.key_buffer,
    {
        self.key_buffer.as_slice()
    }

    /// The whole value buffer, as the last staging left it.
    pub fn value_buffer(&self) -> (r: &[u8])
        ensures
            r@ == self@.value_buffer,
    {
        self.value_buffer.as_slice()
    }
}

impl Default for CoapContext {
    /// Creates a context whose buffers are filled with zeros.
    fn default() -> (r: CoapContext)
        ensures
            r@.key_buffer == Seq::new(COAP_KEY_SIZE as nat, |i: int| 0u8),
            r@.value_buffer == Seq::new(COAP_VALUE_SIZE as nat, |i: int| 0u8),
    {
        CoapContext::new()
    }
}

} // verus!
