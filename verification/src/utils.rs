use vstd::prelude::*;
use vstd::utf8::{
    char_is_scalar, char_u32_cast, decode_utf8, encode_scalar, encode_utf8, valid_utf8,
};

verus! {

/// The value of `v` bounded to the interval from `lo` to `hi`.
pub open spec fn clamped(v: u32, lo: u32, hi: u32) -> u32 {
    if v < lo {
        lo
    } else if v > hi {
        hi
    } else {
        v
    }
}

/// Calls `num::clamp` on three `u32` values. Trusted: for `lo <= hi` the
/// outside function returns `lo` when the input lies below it, `hi` when the
/// input lies above it, and the input otherwise. It may panic when
/// `lo > hi`, which the precondition leaves out.
#[verifier::external_body]
pub(crate) fn clamp_u32(v: u32, lo: u32, hi: u32) -> (r: u32)
    requires
        lo <= hi,
    ensures
        r == clamped(v, lo, hi),
{
    num::clamp(v, lo, hi)
}

/// The error of `String::from_utf8`, of which nothing is read.
#[verifier::external_type_specification]
#[verifier::external_body]
pub struct ExFromUtf8Error(std::string::FromUtf8Error);

/// Calls `String::from_utf8`. Trusted: the standard function gives the text
/// that the bytes encode where they are valid UTF-8, and an error otherwise.
#[verifier::external_body]
pub(crate) fn string_from_utf8(bytes: Vec<u8>) -> (r: Result<String, std::string::FromUtf8Error>)
    ensures
        match r {
            Ok(text) => valid_utf8(bytes@) && text@ == decode_utf8(bytes@),
            Err(_) => !valid_utf8(bytes@),
        },
{
    String::from_utf8(bytes)
}

/// The byte is zero.
pub open spec fn is_nul() -> spec_fn(u8) -> bool {
    |b: u8| b == 0
}

/// The bytes of `buffer` before its first zero byte; all of them where none
/// is zero.
pub open spec fn until_nul(buffer: Seq<u8>) -> Seq<u8> {
    match first_index(buffer, is_nul()) {
        Some(end) => buffer.take(end),
        None => buffer,
    }
}

/// Reads the text in a buffer that the driver filled: the bytes before the
/// first zero byte, as UTF-8. `None` where they are not valid UTF-8.
pub fn vk_str_to_string(vk_str_buffer: &[u8]) -> (r: Option<String>)
    ensures
        match r {
            Some(text) => valid_utf8(until_nul(vk_str_buffer@)) && text@ == decode_utf8(
                until_nul(vk_str_buffer@),
            ),
            None => !valid_utf8(until_nul(vk_str_buffer@)),
        },
{
    let mut bytes: Vec<u8> = Vec::new();
    let mut i: usize = 0;
    while i < vk_str_buffer.len() && vk_str_buffer[i] != 0
        invariant
            i <= vk_str_buffer@.len(),
            bytes@ == vk_str_buffer@.take(i as int),
            none_before(vk_str_buffer@, is_nul(), i as int),
        decreases vk_str_buffer@.len() - i,
    {
        bytes.push(vk_str_buffer[i]);
        i += 1;
    }
    proof {
        if i < vk_str_buffer@.len() {
            lemma_first_index_is(vk_str_buffer@, is_nul(), i as int);
        } else {
            assert(vk_str_buffer@.take(i as int) =~= vk_str_buffer@);
        }
    }
    match string_from_utf8(bytes) {
        Ok(text) => Some(text),
        Err(_) => None,
    }
}

/// A zero byte is among `bytes`.
pub open spec fn has_nul(bytes: Seq<u8>) -> bool {
    exists|i: int| 0 <= i < bytes.len() && bytes[i] == 0
}

/// The name holds the character zero, so that the driver, which reads a name
/// up to the first zero byte, would read another name.
pub open spec fn name_has_nul(name: Seq<char>) -> bool {
    name.contains('\0')
}

/// The UTF-8 form of a character holds a zero byte only where the character
/// is zero.
pub proof fn lemma_scalar_nul(scalar: u32)
    ensures
        has_nul(encode_scalar(scalar)) <==> scalar == 0,
{
    let bytes = encode_scalar(scalar);
    assert(scalar <= 0x7F ==> (((scalar & 0x7F) as u8 == 0u8) <==> scalar == 0)) by (bit_vector);
    assert((0xC0u8 | ((scalar >> 6) & 0x1F) as u8) != 0) by (bit_vector);
    assert((0xE0u8 | ((scalar >> 12) & 0x0F) as u8) != 0) by (bit_vector);
    assert((0xF0u8 | ((scalar >> 18) & 0x7) as u8) != 0) by (bit_vector);
    assert((0x80u8 | (scalar & 0x3F) as u8) != 0) by (bit_vector);
    assert((0x80u8 | ((scalar >> 6) & 0x3F) as u8) != 0) by (bit_vector);
    assert((0x80u8 | ((scalar >> 12) & 0x3F) as u8) != 0) by (bit_vector);
    if scalar == 0 {
        assert(bytes[0] == 0);
    }
}

/// The UTF-8 form of a name holds a zero byte exactly where the name holds
/// the character zero.
pub proof fn lemma_nul_byte_iff_nul_char(name: Seq<char>)
    ensures
        has_nul(encode_utf8(name)) <==> name_has_nul(name),
    decreases name.len(),
{
    if name.len() > 0 {
        char_is_scalar(name[0]);
        char_u32_cast(name[0], name[0] as u32);
        let head = encode_scalar(name[0] as u32);
        let rest = name.drop_first();
        let tail = encode_utf8(rest);
        lemma_scalar_nul(name[0] as u32);
        lemma_nul_byte_iff_nul_char(rest);
        if has_nul(head) {
            let i = choose|i: int| 0 <= i < head.len() && head[i] == 0;
            assert((head + tail)[i] == 0);
        }
        if has_nul(tail) {
            let i = choose|i: int| 0 <= i < tail.len() && tail[i] == 0;
            assert((head + tail)[i + head.len()] == 0);
        }
        if name.contains('\0') {
            let i = choose|i: int| 0 <= i < name.len() && name[i] == '\0';
            if i > 0 {
                assert(rest[i - 1] == '\0');
            }
        }
    }
}

/// One of `names` holds the character zero.
pub open spec fn names_have_nul(names: Seq<String>) -> bool {
    exists|i: int| 0 <= i < names.len() && name_has_nul(#[trigger] names[i]@)
}

/// Whether a zero byte is among `bytes`.
pub fn contains_nul(bytes: &[u8]) -> (r: bool)
    ensures
        r == has_nul(bytes@),
{
    let mut i: usize = 0;
    while i < bytes.len()
        invariant
            i <= bytes@.len(),
            forall|k: int| 0 <= k < i ==> bytes@[k] != 0,
        decreases bytes@.len() - i,
    {
        if bytes[i] == 0 {
            return true;
        }
        i += 1;
    }
    false
}

/// Whether the name holds the character zero.
pub fn is_name_with_nul(name: &str) -> (r: bool)
    ensures
        r == name_has_nul(name@),
{
    proof {
        lemma_nul_byte_iff_nul_char(name@);
    }
    contains_nul(name.as_bytes())
}

/// Whether one of the names holds the character zero.
pub fn any_name_with_nul(names: &Vec<String>) -> (r: bool)
    ensures
        r == names_have_nul(names@),
{
    let mut i: usize = 0;
    while i < names.len()
        invariant
            i <= names@.len(),
            forall|k: int| 0 <= k < i ==> !name_has_nul(#[trigger] names@[k]@),
        decreases names@.len() - i,
    {
        if is_name_with_nul(names[i].as_str()) {
            return true;
        }
        i += 1;
    }
    false
}

/// A copy of a list of names.
pub fn clone_names(names: &Vec<String>) -> (r: Vec<String>)
    ensures
        r@ == names@,
{
    let mut copy: Vec<String> = Vec::new();
    let mut i: usize = 0;
    while i < names.len()
        invariant
            i <= names@.len(),
            copy@ == names@.take(i as int),
        decreases names@.len() - i,
    {
        copy.push(names[i].clone());
        i += 1;
    }
    copy
}

/// Whether `i` is the first place in `s` whose entry satisfies `p`.
pub open spec fn is_first<T>(s: Seq<T>, p: spec_fn(T) -> bool, i: int) -> bool {
    &&& 0 <= i < s.len()
    &&& p(s[i])
    &&& forall|j: int| 0 <= j < i ==> !p(#[trigger] s[j])
}

/// Whether no entry of `s` before place `n` satisfies `p`.
pub open spec fn none_before<T>(s: Seq<T>, p: spec_fn(T) -> bool, n: int) -> bool {
    forall|j: int| 0 <= j < n && j < s.len() ==> !p(#[trigger] s[j])
}

/// The first place in `s` whose entry satisfies `p`, if there is one.
pub open spec fn first_index<T>(s: Seq<T>, p: spec_fn(T) -> bool) -> Option<int> {
    if exists|i: int| is_first(s, p, i) {
        Some(choose|i: int| is_first(s, p, i))
    } else {
        None
    }
}

/// A place that is first is the one `first_index` names.
pub proof fn lemma_first_index_is<T>(s: Seq<T>, p: spec_fn(T) -> bool, i: int)
    requires
        is_first(s, p, i),
    ensures
        first_index(s, p) == Some(i),
{
}

/// What `first_index` names is first, and nothing satisfies `p` where it
/// names none.
pub proof fn lemma_first_index_sound<T>(s: Seq<T>, p: spec_fn(T) -> bool)
    ensures
        match first_index(s, p) {
            Some(i) => is_first(s, p, i),
            None => none_before(s, p, s.len() as int),
        },
{
    if exists|i: int| is_first(s, p, i) {
    } else {
        assert forall|j: int| 0 <= j < s.len() implies !p(#[trigger] s[j]) by {
            if p(s[j]) {
                lemma_some_is_first(s, p, j);
            }
        }
    }
}

/// Below any place that satisfies `p` there is a first one.
pub proof fn lemma_some_is_first<T>(s: Seq<T>, p: spec_fn(T) -> bool, j: int)
    requires
        0 <= j < s.len(),
        p(s[j]),
    ensures
        exists|i: int| is_first(s, p, i) && i <= j,
    decreases j,
{
    if exists|k: int| 0 <= k < j && p(#[trigger] s[k]) {
        let k = choose|k: int| 0 <= k < j && p(#[trigger] s[k]);
        lemma_some_is_first(s, p, k);
    } else {
        assert(is_first(s, p, j));
    }
}

} // verus!
