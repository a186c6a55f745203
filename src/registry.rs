//! The fixed set of live CBOR encoders, and how symbolic names resolve to them.

use vstd::prelude::*;

verus! {

/// One of the live CBOR encoders that encoded data can be written to.
#[derive(Clone, Copy, Debug, PartialEq, Eq, Structural)]
pub enum EncoderHandle {
    /// The global encoder that the whole payload is written through.
    Global,
    /// The encoder of the root map.
    RootMap,
    /// The encoder of the current `values` array.
    Values,
}

/// The encoder that the name `key` with `suffix` stands for, if any: `root`
/// with `_map` is the root map, and `values` with any suffix is the current
/// array. Only one such array is live at a time.
pub open spec fn resolves(key: Seq<char>, suffix: Seq<char>) -> Option<EncoderHandle> {
    if key == "root"@ && suffix == "_map"@ {
        Some(EncoderHandle::RootMap)
    } else if key == "values"@ {
        Some(EncoderHandle::Values)
    } else {
        None
    }
}

/// Returns true when `a` and `b` hold the same characters.
pub fn str_eq(a: &str, b: &str) -> (r: bool)
    ensures
        r == (a@ == b@),
{
    let n = a.unicode_len();
    if n != b.unicode_len() {
        return false;
    }
    let mut i: usize = 0;
    while i < n
        invariant
            n == a@.len(),
            n == b@.len(),
            i <= n,
            forall|j: int| 0 <= j < i ==> a@[j] == b@[j],
        decreases n - i,
    {
        if a.get_char(i) != b.get_char(i) {
            return false;
        }
        i = i + 1;
    }
    assert(a@ =~= b@);
    true
}

/// Resolves the encoder named `key` with `suffix`, or returns `None` when
/// no live encoder has that name.
pub fn lookup_encoder(key: &str, suffix: &str) -> (r: Option<EncoderHandle>)
    ensures
        r == resolves(key@, suffix@),
{
    if str_eq(key, "root") && str_eq(suffix, "_map") {
        Some(EncoderHandle::RootMap)
    } else if str_eq(key, "values") {
        Some(EncoderHandle::Values)
    } else {
        None
    }
}

/// Resolving `root` with `_map`, and `values` with any suffix, gives two
/// distinct handles.
pub proof fn lemma_registry_handles_distinct(suffix: Seq<char>)
    ensures
        resolves("root"@, "_map"@) == Some(EncoderHandle::RootMap),
        resolves("values"@, suffix) == Some(EncoderHandle::Values),
        resolves("root"@, "_map"@) != resolves("values"@, suffix),
{
    reveal_strlit("root");
    reveal_strlit("values");
    assert("values"@ != "root"@) by {
        assert("values"@.len() != "root"@.len());
    }
}

/// Any name other than `root` with `_map` and `values` resolves to no
/// encoder, so `encoder` does not accept it.
pub proof fn lemma_registry_rejects_unknown(key: Seq<char>, suffix: Seq<char>)
    requires
        !(key == "root"@ && suffix == "_map"@),
        key != "values"@,
    ensures
        resolves(key, suffix) is None,
{
}

/// Two resolutions of the same name and suffix give the same handle.
pub proof fn lemma_registry_handles_stable(
    key: Seq<char>,
    suffix: Seq<char>,
    first: EncoderHandle,
    second: EncoderHandle,
)
    requires
        Some(first) == resolves(key, suffix),
        Some(second) == resolves(key, suffix),
    ensures
        first == second,
{
}

} // verus!
