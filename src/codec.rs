//! Reversible text form of arbitrary bytes (STFU-8): printable UTF-8 passes
//! through, every other byte is written as a backslash escape.
use vstd::prelude::*;
use vstd::string::StringSliceAdditionalSpecFns;
use vstd::utf8::encode_utf8;

verus! {

/// The byte that starts every escape.
pub const BACKSLASH: u8 = 0x5c;

/// Byte `i` of `b` starts a character, or is the end of `b`.
pub open spec fn at_char_start(b: Seq<u8>, i: int) -> bool {
    i == b.len() || (0 <= i < b.len() && (b[i] < 0x80 || b[i] >= 0xc0))
}

/// The escapes of the UTF-8 text `b` can be cut out of it: after `\x` two
/// bytes and after `\u` six bytes are taken at fixed offsets, and each such
/// piece ends at the start of a character (or at the end). Escapes are found
/// from left to right, `\\` standing for one backslash.
pub open spec fn escapes_sliceable(b: Seq<u8>) -> bool
    decreases b.len(),
{
    if b.len() == 0 {
        true
    } else if b[0] != BACKSLASH {
        escapes_sliceable(b.drop_first())
    } else if b.len() < 2 {
        true
    } else if b[1] == 0x74 || b[1] == 0x6e || b[1] == 0x72 || b[1] == BACKSLASH {
        escapes_sliceable(b.subrange(2, b.len() as int))
    } else if b[1] == 0x78 {
        b.len() < 4 || (at_char_start(b, 4) && escapes_sliceable(b.subrange(4, b.len() as int)))
    } else if b[1] == 0x75 {
        b.len() < 8 || (at_char_start(b, 8) && escapes_sliceable(b.subrange(8, b.len() as int)))
    } else {
        true
    }
}

/// The text `s` can be handed to `stfu8::decode_u8`, which cuts escapes out
/// of its UTF-8 bytes at fixed offsets.
pub open spec fn sliceable(s: Seq<char>) -> bool {
    escapes_sliceable(encode_utf8(s))
}

/// Text that `stfu8::encode_u8` produces for the bytes `b`.
pub uninterp spec fn stfu8_text(b: Seq<u8>) -> Seq<char>;

/// Text that `stfu8::encode_u8_pretty` produces for the bytes `b`.
pub uninterp spec fn stfu8_pretty_text(b: Seq<u8>) -> Seq<char>;

/// Bytes that `stfu8::decode_u8` reads from the text `s`, or `None` where it
/// reports a malformed escape.
pub uninterp spec fn stfu8_bytes(s: Seq<char>) -> Option<Seq<u8>>;

#[verifier::external_type_specification]
#[verifier::external_body]
pub struct ExDecodeError(stfu8::DecodeError);

/// Why a text could not be read back as bytes.
#[derive(Debug, Clone, Copy, PartialEq, Eq, Structural)]
pub enum CodecError {
    /// An escape is truncated, has invalid digits, or denotes a value that is
    /// not a single byte. `index` is the byte offset of its backslash.
    Malformed { index: usize },
}

/// Relies on `stfu8::encode_u8`: the text depends on the bytes alone, no
/// bytes give no text, and its only escapes are `\\`, `\t`, `\n`, `\r` and
/// `\x` with two hex digits, so `decode_u8` can take it.
#[verifier::external_body]
fn stfu8_encode(b: &[u8]) -> (r: String)
    ensures
        r@ == stfu8_text(b@),
        sliceable(r@),
        b@.len() == 0 ==> r@.len() == 0,
{
    stfu8::encode_u8(b)
}

/// Relies on `stfu8::encode_u8_pretty`: like `encode_u8`, but tabs, line
/// feeds and carriage returns stay as they are.
#[verifier::external_body]
fn stfu8_encode_pretty(b: &[u8]) -> (r: String)
    ensures
        r@ == stfu8_pretty_text(b@),
        sliceable(r@),
        b@.len() == 0 ==> r@.len() == 0,
{
    stfu8::encode_u8_pretty(b)
}

/// Relies on `stfu8::decode_u8`, which is documented to decode the output of
/// `encode_u8` and of `encode_u8_pretty` back to the bytes encoded. It slices
/// `s` at byte offsets after `\x` and `\u`, and panics where a slice ends
/// inside a character: such texts are left out.
#[verifier::external_body]
fn stfu8_decode(s: &str) -> (r: Result<Vec<u8>, stfu8::DecodeError>)
    requires
        sliceable(s@),
    ensures
        r is Ok <==> stfu8_bytes(s@) is Some,
        r is Ok ==> r->Ok_0@ == stfu8_bytes(s@)->0,
        forall|b: Seq<u8>|
            #![trigger stfu8_text(b)]
            s@ == stfu8_text(b) ==> r is Ok && r->Ok_0@ == b,
        forall|b: Seq<u8>|
            #![trigger stfu8_pretty_text(b)]
            s@ == stfu8_pretty_text(b) ==> r is Ok && r->Ok_0@ == b,
{
    stfu8::decode_u8(s)
}

/// Relies on `stfu8::DecodeError::index`: where the malformed escape starts.
#[verifier::external_body]
fn decode_error_index(e: &stfu8::DecodeError) -> (r: usize) {
    e.index
}

/// Every byte that is not printable UTF-8 becomes an escape; the text decodes
/// back to `b`.
pub fn encode(b: &[u8]) -> (r: String)
    ensures
        r@ == stfu8_text(b@),
        decodes_to(r@, b@),
        b@.len() == 0 ==> r@.len() == 0,
{
    stfu8_encode(b)
}

/// As `encode`, but tabs and line breaks stay literal so that multi-line
/// content reads as such; the text still decodes back to `b`.
pub fn encode_pretty(b: &[u8]) -> (r: String)
    ensures
        r@ == stfu8_pretty_text(b@),
        decodes_to(r@, b@),
        b@.len() == 0 ==> r@.len() == 0,
{
    stfu8_encode_pretty(b)
}

/// `decode` reads bytes out of `s`.
pub open spec fn decodable(s: Seq<char>) -> bool {
    sliceable(s) && stfu8_bytes(s) is Some
}

/// `s` is an encoding of `b`, plain or pretty, that `decode` takes.
pub open spec fn decodes_to(s: Seq<char>, b: Seq<u8>) -> bool {
    (s == stfu8_text(b) || s == stfu8_pretty_text(b)) && sliceable(s)
}

/// Where `b` holds an escape that cannot be cut out whole (see
/// `escapes_sliceable`), the position of its backslash.
fn first_unsliceable(b: &[u8]) -> (r: Option<usize>)
    ensures
        r is None <==> escapes_sliceable(b@),
        r is Some ==> r->0 < b@.len(),
{
    let n = b.len();
    let mut i: usize = 0;
    assert(b@.subrange(0, n as int) =~= b@);
    while i < n
        invariant
            i <= n,
            n == b@.len(),
            escapes_sliceable(b@) == escapes_sliceable(b@.subrange(i as int, n as int)),
        decreases n - i,
    {
        let ghost rest = b@.subrange(i as int, n as int);
        if b[i] != BACKSLASH {
            assert(rest.drop_first() =~= b@.subrange(i + 1, n as int));
            i = i + 1;
        } else if n - i < 2 {
            return None;
        } else {
            let c = b[i + 1];
            if c == 0x74 || c == 0x6e || c == 0x72 || c == BACKSLASH {
                assert(rest.subrange(2, rest.len() as int) =~= b@.subrange(i + 2, n as int));
                i = i + 2;
            } else if c == 0x78 || c == 0x75 {
                let width: usize = if c == 0x78 { 4 } else { 8 };
                if n - i < width {
                    return None;
                }
                if !(i + width == n || b[i + width] < 0x80 || b[i + width] >= 0xc0) {
                    return Some(i);
                }
                assert(rest.subrange(width as int, rest.len() as int) =~= b@.subrange(i + width, n as int));
                i = i + width;
            } else {
                return None;
            }
        }
    }
    assert(b@.subrange(n as int, n as int) =~= Seq::<u8>::empty());
    None
}

/// Reads escaped text back as bytes. Fails exactly on malformed text, an
/// escape cut short by a multi-byte character included; the text of any
/// encoding of `b` gives `b`.
pub fn decode(s: &str) -> (r: Result<Vec<u8>, CodecError>)
    ensures
        r is Ok <==> decodable(s@),
        r is Ok ==> r->Ok_0@ == stfu8_bytes(s@)->0,
        forall|b: Seq<u8>| decodes_to(s@, b) ==> r is Ok && r->Ok_0@ == b,
{
    if let Some(index) = first_unsliceable(s.as_bytes()) {
        return Err(CodecError::Malformed { index });
    }
    match stfu8_decode(s) {
        Ok(v) => Ok(v),
        Err(e) => Err(CodecError::Malformed { index: decode_error_index(&e) }),
    }
}

} // verus!
