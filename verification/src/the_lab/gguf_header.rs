//! Reading the metadata of a GGUF file from its leading bytes.
//!
//! Layout: magic `GGUF` (u32), version (u32), tensor count (u64), metadata
//! count (u64), then key/value pairs: a key string (u64 length + bytes), a
//! value type (u32) and the value. All integers are little-endian. Positions
//! past the end of the bytes can be reached by skipping (as a seek would);
//! reading there fails.

use crate::text::{ends_with, lowercase, uppercase};
use crate::the_lab::gguf::{
    centibits, format_of, infer_quant_from_filename, quant_of_upper_name, u64_cap,
    GgufModelInfo, ModelInfoView, PromptFormat,
};
use vstd::prelude::*;
use vstd::string::StringSliceAdditionalSpecFns;
use vstd::utf8::{decode_utf8, valid_utf8};

verus! {

/// The magic number at the start of every GGUF file (`GGUF` in ASCII).
pub const GGUF_MAGIC: u32 = 0x46554747;

/// Longest string the reader accepts.
pub const MAX_STRING_LEN: u64 = 1000000;

/// Largest file offset a skip may reach.
pub const MAX_OFFSET: u64 = 0x7fff_ffff_ffff_ffff;

/// At most this many metadata entries are read.
pub const MAX_ENTRIES: u64 = 500;

/// Why a GGUF header could not be read.
#[derive(Debug, Clone, Copy, PartialEq, Eq, Structural)]
pub enum GgufError {
    /// A read went past the end of the bytes.
    Truncated,
    /// The file does not start with the GGUF magic; the value found.
    NotGguf(u32),
    /// A string announced more than `MAX_STRING_LEN` bytes.
    StringTooLong(u64),
    /// A metadata value has a type the format does not define.
    UnknownValueType(u32),
    /// A skip would move past `MAX_OFFSET`.
    OffsetOverflow,
}

/// The little-endian `u32` at `p`, if four bytes are there.
pub open spec fn u32_at(s: Seq<u8>, p: int) -> Option<u32> {
    if 0 <= p && p + 4 <= s.len() {
        Some((s[p] + 256 * s[p + 1] + 65536 * s[p + 2] + 16777216 * s[p + 3]) as u32)
    } else {
        None
    }
}

/// The little-endian `u64` at `p`, if eight bytes are there.
pub open spec fn u64_at(s: Seq<u8>, p: int) -> Option<u64> {
    if 0 <= p && p + 8 <= s.len() {
        Some(
            (s[p] + 0x100 * s[p + 1] + 0x10000 * s[p + 2] + 0x1000000 * s[p + 3] + 0x100000000 * s[p
                + 4] + 0x10000000000 * s[p + 5] + 0x1000000000000 * s[p + 6] + 0x100000000000000
                * s[p + 7]) as u64,
        )
    } else {
        None
    }
}

/// The string at `p` (a `u64` length, then the bytes) and the position after it.
pub open spec fn string_at(s: Seq<u8>, p: int) -> Result<(Seq<u8>, int), GgufError> {
    match u64_at(s, p) {
        None => Err(GgufError::Truncated),
        Some(n) => if n > MAX_STRING_LEN {
            Err(GgufError::StringTooLong(n))
        } else if p + 8 + n > s.len() {
            Err(GgufError::Truncated)
        } else {
            Ok((s.subrange(p + 8, p + 8 + n), p + 8 + n))
        },
    }
}

/// Size in bytes of a value of a fixed-size type; `None` for strings (8),
/// arrays (9) and undefined types.
pub open spec fn fixed_size(t: u32) -> Option<nat> {
    if t == 0 || t == 1 || t == 7 {
        Some(1)
    } else if t == 2 || t == 3 {
        Some(2)
    } else if t == 4 || t == 5 || t == 6 {
        Some(4)
    } else if t == 10 || t == 11 || t == 12 {
        Some(8)
    } else {
        None
    }
}

/// The position after a value of type `t` at `p`.
pub open spec fn skip_value(s: Seq<u8>, p: int, t: u32) -> Result<int, GgufError>
    decreases s.len() - p, 0int,
{
    if fixed_size(t) is Some {
        if p + fixed_size(t)->0 > MAX_OFFSET {
            Err(GgufError::OffsetOverflow)
        } else {
            Ok(p + fixed_size(t)->0)
        }
    } else if t == 8 {
        match string_at(s, p) {
            Err(e) => Err(e),
            Ok((_, q)) => Ok(q),
        }
    } else if t == 9 {
        match u32_at(s, p) {
            None => Err(GgufError::Truncated),
            Some(et) => match u64_at(s, p + 4) {
                None => Err(GgufError::Truncated),
                Some(n) => skip_elems(s, p + 12, et, n as nat),
            },
        }
    } else {
        Err(GgufError::UnknownValueType(t))
    }
}

/// The position after `n` values of type `t` starting at `p`.
pub open spec fn skip_elems(s: Seq<u8>, p: int, t: u32, n: nat) -> Result<int, GgufError>
    decreases s.len() - p, 1int,
{
    if n == 0 {
        Ok(p)
    } else if fixed_size(t) is Some {
        if p + n * fixed_size(t)->0 > MAX_OFFSET {
            Err(GgufError::OffsetOverflow)
        } else {
            Ok(p + n * fixed_size(t)->0)
        }
    } else {
        match skip_value(s, p, t) {
            Err(e) => Err(e),
            Ok(q) => if n == 1 {
                Ok(q)
            } else if q <= p || q > s.len() {
                Err(GgufError::Truncated)
            } else {
                skip_elems(s, q, t, (n - 1) as nat)
            },
        }
    }
}

/// The metadata fields the reader keeps.
pub struct Meta {
    pub architecture: Seq<char>,
    pub context_length: u32,
    pub embedding_dim: u32,
    pub head_count: u32,
    pub head_count_kv: u32,
    pub layer_count: u32,
}

/// What `String::from_utf8_lossy` makes of some bytes.
pub uninterp spec fn utf8_lossy(b: Seq<u8>) -> Seq<char>;

/// The fields before any entry is read: context 4096, all else zero or empty.
pub open spec fn meta_init() -> Meta {
    Meta {
        architecture: Seq::empty(),
        context_length: 4096,
        embedding_dim: 0,
        head_count: 0,
        head_count_kv: 0,
        layer_count: 0,
    }
}

/// The numeric fields read from `u32` values, by key suffix.
#[derive(Debug, Clone, Copy, PartialEq, Eq, Structural)]
pub enum Field {
    ContextLength,
    EmbeddingLength,
    HeadCount,
    HeadCountKv,
    BlockCount,
}

/// The numeric field a key names, by its suffix.
pub open spec fn field_of_key(key: Seq<u8>) -> Option<Field> {
    if ends_with(key, ".context_length".spec_bytes()) {
        Some(Field::ContextLength)
    } else if ends_with(key, ".embedding_length".spec_bytes()) {
        Some(Field::EmbeddingLength)
    } else if ends_with(key, ".attention.head_count".spec_bytes()) {
        Some(Field::HeadCount)
    } else if ends_with(key, ".attention.head_count_kv".spec_bytes()) {
        Some(Field::HeadCountKv)
    } else if ends_with(key, ".block_count".spec_bytes()) {
        Some(Field::BlockCount)
    } else {
        None
    }
}

/// `st` with field `f` set to `x`.
pub open spec fn set_field(st: Meta, f: Field, x: u32) -> Meta {
    match f {
        Field::ContextLength => Meta { context_length: x, ..st },
        Field::EmbeddingLength => Meta { embedding_dim: x, ..st },
        Field::HeadCount => Meta { head_count: x, ..st },
        Field::HeadCountKv => Meta { head_count_kv: x, ..st },
        Field::BlockCount => Meta { layer_count: x, ..st },
    }
}

/// Reads one entry at `p`: `Ok(None)` ends the reading (a key or type that
/// cannot be read, or a value that cannot be skipped); `Ok(Some((q, st2)))`
/// goes on at `q`; an error is a wanted value that cannot be read.
pub open spec fn meta_step(s: Seq<u8>, p: int, st: Meta) -> Result<Option<(int, Meta)>, GgufError> {
    match string_at(s, p) {
        Err(_) => Ok(None),
        Ok((key, p1)) => match u32_at(s, p1) {
            None => Ok(None),
            Some(vt) => {
                let p2 = p1 + 4;
                if key == "general.architecture".spec_bytes() && vt == 8 {
                    match string_at(s, p2) {
                        Err(e) => Err(e),
                        Ok((v, p3)) => Ok(Some((p3, Meta { architecture: utf8_lossy(v), ..st }))),
                    }
                } else if vt == 4 && field_of_key(key) is Some {
                    match u32_at(s, p2) {
                        None => Err(GgufError::Truncated),
                        Some(x) => Ok(Some((p2 + 4, set_field(st, field_of_key(key)->0, x)))),
                    }
                } else {
                    match skip_value(s, p2, vt) {
                        Err(_) => Ok(None),
                        Ok(p3) => Ok(Some((p3, st))),
                    }
                }
            },
        },
    }
}

/// Reads up to `n` entries from `p`.
pub open spec fn meta_loop(s: Seq<u8>, p: int, n: nat, st: Meta) -> Result<Meta, GgufError>
    decreases n,
{
    if n == 0 {
        Ok(st)
    } else {
        match meta_step(s, p, st) {
            Err(e) => Err(e),
            Ok(None) => Ok(st),
            Ok(Some((q, st2))) => meta_loop(s, q, (n - 1) as nat, st2),
        }
    }
}

/// Parameter estimate: file bits over bits per weight, capped at `u64::MAX`.
pub open spec fn param_estimate(file_size: u64, cb: nat) -> u64 {
    u64_cap((file_size * 800) as int / (cb as int)) as u64
}

/// The model description built from the gathered fields.
pub open spec fn info_of(path: Seq<char>, filename: Seq<char>, file_size: u64, st: Meta) -> ModelInfoView {
    let q = quant_of_upper_name(uppercase(filename));
    ModelInfoView {
        path: path,
        filename: filename,
        file_size_bytes: file_size,
        architecture: if st.architecture.len() == 0 {
            "unknown"@
        } else {
            st.architecture
        },
        param_count: param_estimate(file_size, centibits(q)),
        quant_type: q,
        prompt_format: format_of(lowercase(st.architecture), lowercase(filename)),
        context_length: st.context_length,
        embedding_dim: st.embedding_dim,
        head_count: st.head_count,
        head_count_kv: st.head_count_kv,
        layer_count: st.layer_count,
    }
}

/// What reading a header gives: the magic must match; version, tensor
/// count and metadata count must be present; then up to 500 entries.
pub open spec fn header_spec(path: Seq<char>, filename: Seq<char>, file_size: u64, s: Seq<u8>) -> Result<
    ModelInfoView,
    GgufError,
> {
    match u32_at(s, 0) {
        None => Err(GgufError::Truncated),
        Some(magic) => if magic != GGUF_MAGIC {
            Err(GgufError::NotGguf(magic))
        } else if u32_at(s, 4) is None || u64_at(s, 8) is None || u64_at(s, 16) is None {
            Err(GgufError::Truncated)
        } else {
            let count = u64_at(s, 16)->0;
            let n = if count < MAX_ENTRIES {
                count
            } else {
                MAX_ENTRIES
            };
            match meta_loop(s, 24, n as nat, meta_init()) {
                Err(e) => Err(e),
                Ok(st) => Ok(info_of(path, filename, file_size, st)),
            }
        },
    }
}

/// Calls `String::from_utf8_lossy`: valid UTF-8 is decoded as it is; other
/// input is named `utf8_lossy` (invalid sequences become U+FFFD), and nothing
/// more is stated of it.
#[verifier::external_body]
fn lossy_string(b: &[u8]) -> (r: String)
    ensures
        r@ == utf8_lossy(b@),
        valid_utf8(b@) ==> r@ == decode_utf8(b@),
{
    String::from_utf8_lossy(b).into_owned()
}

fn read_u32_at(data: &[u8], p: u64) -> (r: Option<u32>)
    ensures
        r == u32_at(data@, p as int),
{
    if p > data.len() as u64 || data.len() as u64 - p < 4 {
        return None;
    }
    let i = p as usize;
    let v: u32 = (data[i] as u32) + 256 * (data[i + 1] as u32) + 65536 * (data[i + 2] as u32)
        + 16777216 * (data[i + 3] as u32);
    Some(v)
}

fn read_u64_at(data: &[u8], p: u64) -> (r: Option<u64>)
    ensures
        r == u64_at(data@, p as int),
{
    if p > data.len() as u64 || data.len() as u64 - p < 8 {
        return None;
    }
    let i = p as usize;
    let v: u64 = (data[i] as u64) + 0x100 * (data[i + 1] as u64) + 0x10000 * (data[i + 2] as u64)
        + 0x1000000 * (data[i + 3] as u64) + 0x100000000 * (data[i + 4] as u64) + 0x10000000000 * (
    data[i + 5] as u64) + 0x1000000000000 * (data[i + 6] as u64) + 0x100000000000000 * (data[i
        + 7] as u64);
    Some(v)
}

/// The bounds `[start, end)` of the string at `p`.
fn read_string_at(data: &[u8], p: u64) -> (r: Result<(usize, usize), GgufError>)
    ensures
        r matches Ok((a, b)) ==> string_at(data@, p as int) == Ok::<(Seq<u8>, int), GgufError>(
            (data@.subrange(a as int, b as int), b as int),
        ) && a <= b <= data@.len(),
        r matches Err(e) ==> string_at(data@, p as int) == Err::<(Seq<u8>, int), GgufError>(e),
{
    match read_u64_at(data, p) {
        None => Err(GgufError::Truncated),
        Some(n) => {
            if n > MAX_STRING_LEN {
                return Err(GgufError::StringTooLong(n));
            }
            if data.len() as u64 - p - 8 < n {
                return Err(GgufError::Truncated);
            }
            let a = (p + 8) as usize;
            let b = (p + 8 + n) as usize;
            Ok((a, b))
        },
    }
}

fn fixed_size_exec(t: u32) -> (r: Option<u64>)
    ensures
        r matches Some(z) ==> fixed_size(t) == Some(z as nat),
        r is None ==> fixed_size(t) is None,
        r matches Some(z) ==> 1 <= z <= 8,
{
    if t == 0 || t == 1 || t == 7 {
        Some(1)
    } else if t == 2 || t == 3 {
        Some(2)
    } else if t == 4 || t == 5 || t == 6 {
        Some(4)
    } else if t == 10 || t == 11 || t == 12 {
        Some(8)
    } else {
        None
    }
}

/// Skipped positions stay within the larger of the bytes and `MAX_OFFSET`,
/// and move forward.
pub proof fn lemma_skip_bounds(s: Seq<u8>, p: int, t: u32)
    requires
        0 <= p,
    ensures
        skip_value(s, p, t) matches Ok(q) ==> p < q && (q <= s.len() || q <= MAX_OFFSET),
    decreases s.len() - p, 0int,
{
    if fixed_size(t) is Some {
    } else if t == 8 {
    } else if t == 9 {
        match u32_at(s, p) {
            None => {},
            Some(et) => match u64_at(s, p + 4) {
                None => {},
                Some(n) => {
                    lemma_skip_elems_bounds(s, p + 12, et, n as nat);
                },
            },
        }
    }
}

proof fn lemma_skip_elems_bounds(s: Seq<u8>, p: int, t: u32, n: nat)
    requires
        0 <= p,
    ensures
        skip_elems(s, p, t, n) matches Ok(q) ==> p <= q && (q <= s.len() || q <= MAX_OFFSET || (n
            == 0 && q == p)),
    decreases s.len() - p, 1int,
{
    if n == 0 {
    } else if fixed_size(t) is Some {
    } else {
        lemma_skip_bounds(s, p, t);
        match skip_value(s, p, t) {
            Err(_) => {},
            Ok(q) => if n == 1 {
            } else if q <= p || q > s.len() {
            } else {
                lemma_skip_elems_bounds(s, q, t, (n - 1) as nat);
            },
        }
    }
}

fn skip_value_exec(data: &[u8], p: u64, t: u32) -> (r: Result<u64, GgufError>)
    requires
        p <= MAX_OFFSET || p <= data@.len(),
    ensures
        r matches Ok(q) ==> skip_value(data@, p as int, t) == Ok::<int, GgufError>(q as int),
        r matches Err(e) ==> skip_value(data@, p as int, t) == Err::<int, GgufError>(e),
    decreases data@.len() - p, 0int,
{
    match fixed_size_exec(t) {
        Some(z) => {
            if p > MAX_OFFSET - z {
                return Err(GgufError::OffsetOverflow);
            }
            return Ok(p + z);
        },
        None => {},
    }
    if t == 8 {
        match read_string_at(data, p) {
            Err(e) => Err(e),
            Ok((_, b)) => Ok(b as u64),
        }
    } else if t == 9 {
        match read_u32_at(data, p) {
            None => Err(GgufError::Truncated),
            Some(et) => {
                let len = data.len();
                assert(p + 4 <= len);
                match read_u64_at(data, p + 4) {
                    None => Err(GgufError::Truncated),
                    Some(n) => {
                        assert(p + 12 <= len);
                        skip_elems_exec(data, p + 12, et, n)
                    },
                }
            },
        }
    } else {
        Err(GgufError::UnknownValueType(t))
    }
}

fn skip_elems_exec(data: &[u8], p: u64, t: u32, n: u64) -> (r: Result<u64, GgufError>)
    requires
        p <= data@.len(),
    ensures
        r matches Ok(q) ==> skip_elems(data@, p as int, t, n as nat) == Ok::<int, GgufError>(
            q as int,
        ),
        r matches Err(e) ==> skip_elems(data@, p as int, t, n as nat) == Err::<int, GgufError>(e),
    decreases data@.len() - p, 1int,
{
    if n == 0 {
        return Ok(p);
    }
    match fixed_size_exec(t) {
        Some(z) => {
            let end: u128 = (p as u128) + (n as u128) * (z as u128);
            if end > MAX_OFFSET as u128 {
                return Err(GgufError::OffsetOverflow);
            }
            return Ok(end as u64);
        },
        None => {},
    }
    let mut q = p;
    let mut k = n;
    while k > 0
        invariant
            p <= q <= data@.len(),
            1 <= k <= n,
            fixed_size(t) is None,
            skip_elems(data@, p as int, t, n as nat) == skip_elems(data@, q as int, t, k as nat),
        decreases data@.len() - q,
    {
        match skip_value_exec(data, q, t) {
            Err(e) => {
                return Err(e);
            },
            Ok(r) => {
                if k == 1 {
                    return Ok(r);
                }
                if r <= q || r > data.len() as u64 {
                    return Err(GgufError::Truncated);
                }
                q = r;
                k = k - 1;
            },
        }
    }
    Ok(q)
}

fn bytes_eq(a: &[u8], b: &[u8]) -> (r: bool)
    ensures
        r == (a@ == b@),
{
    if a.len() != b.len() {
        return false;
    }
    let mut i: usize = 0;
    while i < a.len()
        invariant
            a@.len() == b@.len(),
            i <= a@.len(),
            forall|j: int| 0 <= j < i ==> a@[j] == b@[j],
        decreases a@.len() - i,
    {
        if a[i] != b[i] {
            return false;
        }
        i = i + 1;
    }
    assert(a@ =~= b@);
    true
}

fn bytes_ends_with(a: &[u8], b: &[u8]) -> (r: bool)
    ensures
        r == ends_with(a@, b@),
{
    if b.len() > a.len() {
        return false;
    }
    let off = a.len() - b.len();
    let mut i: usize = 0;
    while i < b.len()
        invariant
            off + b@.len() == a@.len(),
            a@.len() == a.len(),
            i <= b@.len(),
            forall|j: int| 0 <= j < i ==> a@[off + j] == b@[j],
        decreases b@.len() - i,
    {
        if a[off + i] != b[i] {
            assert(a@.subrange(off as int, a@.len() as int)[i as int] != b@[i as int]);
            return false;
        }
        i = i + 1;
    }
    assert(a@.subrange(off as int, a@.len() as int) =~= b@);
    true
}

struct MetaExec {
    architecture: String,
    context_length: u32,
    embedding_dim: u32,
    head_count: u32,
    head_count_kv: u32,
    layer_count: u32,
}

impl View for MetaExec {
    type V = Meta;

    closed spec fn view(&self) -> Meta {
        Meta {
            architecture: self.architecture@,
            context_length: self.context_length,
            embedding_dim: self.embedding_dim,
            head_count: self.head_count,
            head_count_kv: self.head_count_kv,
            layer_count: self.layer_count,
        }
    }
}

fn field_of_key_exec(key: &[u8]) -> (r: Option<Field>)
    ensures
        r == field_of_key(key@),
{
    if bytes_ends_with(key, ".context_length".as_bytes()) {
        Some(Field::ContextLength)
    } else if bytes_ends_with(key, ".embedding_length".as_bytes()) {
        Some(Field::EmbeddingLength)
    } else if bytes_ends_with(key, ".attention.head_count".as_bytes()) {
        Some(Field::HeadCount)
    } else if bytes_ends_with(key, ".attention.head_count_kv".as_bytes()) {
        Some(Field::HeadCountKv)
    } else if bytes_ends_with(key, ".block_count".as_bytes()) {
        Some(Field::BlockCount)
    } else {
        None
    }
}

/// One entry: `Ok(Err(st))` hands the state back when reading ends here;
/// `Ok(Ok((q, st2)))` goes on.
fn read_entry(data: &[u8], pos: u64, st: MetaExec) -> (r: Result<
    Result<(u64, MetaExec), MetaExec>,
    GgufError,
>)
    requires
        pos <= MAX_OFFSET || pos <= data@.len(),
    ensures
        r matches Err(e) ==> meta_step(data@, pos as int, st@) == Err::<Option<(int, Meta)>, GgufError>(e),
        r matches Ok(Err(back)) ==> meta_step(data@, pos as int, st@) == Ok::<Option<(int, Meta)>, GgufError>(None)
            && back@ == st@,
        r matches Ok(Ok((q, next))) ==> meta_step(data@, pos as int, st@) == Ok::<
            Option<(int, Meta)>,
            GgufError,
        >(Some((q as int, next@))) && (q <= MAX_OFFSET || q <= data@.len()),
{
    let ghost s = data@;
    let (ks, ke) = match read_string_at(data, pos) {
        Err(_) => {
            return Ok(Err(st));
        },
        Ok(x) => x,
    };
    let vt = match read_u32_at(data, ke as u64) {
        None => {
            return Ok(Err(st));
        },
        Some(v) => v,
    };
    let len = data.len();
    assert(ke + 4 <= len);
    let p2: u64 = ke as u64 + 4;
    let key = &data[ks..ke];
    if bytes_eq(key, "general.architecture".as_bytes()) && vt == 8 {
        match read_string_at(data, p2) {
            Err(e) => Err(e),
            Ok((vs, ve)) => {
                let mut next = st;
                next.architecture = lossy_string(&data[vs..ve]);
                Ok(Ok((ve as u64, next)))
            },
        }
    } else {
        let f = field_of_key_exec(key);
        if vt == 4 && f.is_some() {
            match read_u32_at(data, p2) {
                None => Err(GgufError::Truncated),
                Some(x) => {
                    let mut next = st;
                    match f {
                        Some(Field::ContextLength) => {
                            next.context_length = x;
                        },
                        Some(Field::EmbeddingLength) => {
                            next.embedding_dim = x;
                        },
                        Some(Field::HeadCount) => {
                            next.head_count = x;
                        },
                        Some(Field::HeadCountKv) => {
                            next.head_count_kv = x;
                        },
                        _ => {
                            next.layer_count = x;
                        },
                    }
                    Ok(Ok((p2 + 4, next)))
                },
            }
        } else {
            match skip_value_exec(data, p2, vt) {
                Err(_) => Ok(Err(st)),
                Ok(q) => {
                    proof {
                        lemma_skip_bounds(s, p2 as int, vt);
                    }
                    Ok(Ok((q, st)))
                },
            }
        }
    }
}

fn finish(
    path: &str,
    filename: &str,
    file_size: u64,
    architecture: String,
    context_length: u32,
    embedding_dim: u32,
    head_count: u32,
    head_count_kv: u32,
    layer_count: u32,
) -> (m: GgufModelInfo)
    ensures
        m@ == info_of(
            path@,
            filename@,
            file_size,
            Meta {
                architecture: architecture@,
                context_length,
                embedding_dim,
                head_count,
                head_count_kv,
                layer_count,
            },
        ),
{
    let quant_type = infer_quant_from_filename(filename);
    let cb = quant_type.bits_per_weight_centi();
    let exact: u128 = (file_size as u128) * 800 / (cb as u128);
    let param_count: u64 = if exact > u64::MAX as u128 {
        u64::MAX
    } else {
        exact as u64
    };
    let prompt_format = PromptFormat::detect(architecture.as_str(), filename);
    let architecture = if architecture.as_str().is_empty() {
        String::from_str("unknown")
    } else {
        architecture
    };
    GgufModelInfo {
        path: String::from_str(path),
        filename: String::from_str(filename),
        file_size_bytes: file_size,
        architecture,
        param_count,
        quant_type,
        prompt_format,
        context_length,
        embedding_dim,
        head_count,
        head_count_kv,
        layer_count,
    }
}

/// Reads the model description from the leading bytes `data` of the GGUF
/// file at `path` (named `filename`, of `file_size` bytes in all).
pub fn parse_gguf_header(path: &str, filename: &str, file_size: u64, data: &[u8]) -> (r: Result<
    GgufModelInfo,
    GgufError,
>)
    ensures
        r matches Ok(m) ==> header_spec(path@, filename@, file_size, data@) == Ok::<
            ModelInfoView,
            GgufError,
        >(m@),
        r matches Err(e) ==> header_spec(path@, filename@, file_size, data@) == Err::<
            ModelInfoView,
            GgufError,
        >(e),
{
    let magic = match read_u32_at(data, 0) {
        None => {
            return Err(GgufError::Truncated);
        },
        Some(m) => m,
    };
    if magic != GGUF_MAGIC {
        return Err(GgufError::NotGguf(magic));
    }
    if read_u32_at(data, 4).is_none() || read_u64_at(data, 8).is_none() {
        return Err(GgufError::Truncated);
    }
    let count = match read_u64_at(data, 16) {
        None => {
            return Err(GgufError::Truncated);
        },
        Some(c) => c,
    };
    let total: u64 = if count < MAX_ENTRIES {
        count
    } else {
        MAX_ENTRIES
    };
    let ghost s = data@;
    let mut pos: u64 = 24;
    let mut remaining: u64 = total;
    let mut st = MetaExec {
        architecture: String::new(),
        context_length: 4096,
        embedding_dim: 0,
        head_count: 0,
        head_count_kv: 0,
        layer_count: 0,
    };
    assert(st@ == meta_init());
    while remaining > 0
        invariant
            remaining <= total,
            pos <= MAX_OFFSET || pos <= s.len(),
            u32_at(s, 0) == Some(GGUF_MAGIC),
            u32_at(s, 4) is Some,
            u64_at(s, 8) is Some,
            u64_at(s, 16) == Some(count),
            total == (if count < MAX_ENTRIES {
                count
            } else {
                MAX_ENTRIES
            }),
            s == data@,
            meta_loop(s, 24, total as nat, meta_init()) == meta_loop(
                s,
                pos as int,
                remaining as nat,
                st@,
            ),
        decreases remaining,
    {
        match read_entry(data, pos, st) {
            Err(e) => {
                return Err(e);
            },
            Ok(Err(back)) => {
                st = back;
                remaining = 0;
            },
            Ok(Ok((q, next))) => {
                pos = q;
                st = next;
                remaining = remaining - 1;
            },
        }
    }
    Ok(
        finish(
            path,
            filename,
            file_size,
            st.architecture,
            st.context_length,
            st.embedding_dim,
            st.head_count,
            st.head_count_kv,
            st.layer_count,
        ),
    )
}

} // verus!
