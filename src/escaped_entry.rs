//! A key and a value as the user edits them: two escaped texts.
use vstd::prelude::*;

use crate::codec::{decodable, decode, decodes_to, encode_pretty, stfu8_bytes, stfu8_pretty_text, CodecError};

verus! {

/// An entry of a table in its textual form. Each text is read back as bytes
/// with `decode`; an entry copied from a row decodes to that row exactly.
#[derive(Debug)]
pub struct EscapedEntry {
    pub key: String,
    pub data: String,
}

impl Default for EscapedEntry {
    fn default() -> (r: EscapedEntry)
        ensures
            r.key@ == Seq::<char>::empty(),
            r.data@ == Seq::<char>::empty(),
    {
        EscapedEntry { key: String::new(), data: String::new() }
    }
}

impl EscapedEntry {
    /// Both texts become empty.
    pub fn clear(&mut self)
        ensures
            final(self).key@ == Seq::<char>::empty(),
            final(self).data@ == Seq::<char>::empty(),
    {
        self.key = String::new();
        self.data = String::new();
    }

    /// The pretty escaped form of a stored row, ready to be edited.
    pub fn from_row(key: &[u8], data: &[u8]) -> (r: EscapedEntry)
        ensures
            r.key@ == stfu8_pretty_text(key@),
            r.data@ == stfu8_pretty_text(data@),
            decodes_to(r.key@, key@),
            decodes_to(r.data@, data@),
    {
        EscapedEntry { key: encode_pretty(key), data: encode_pretty(data) }
    }

    /// The key's bytes, or the error that its text holds.
    pub fn decoded_key(&self) -> (r: Result<Vec<u8>, CodecError>)
        ensures
            r is Ok <==> decodable(self.key@),
            r is Ok ==> r->Ok_0@ == stfu8_bytes(self.key@)->0,
            forall|b: Seq<u8>| decodes_to(self.key@, b) ==> r is Ok && r->Ok_0@ == b,
    {
        decode(self.key.as_str())
    }

    /// The value's bytes, or the error that its text holds.
    pub fn decoded_data(&self) -> (r: Result<Vec<u8>, CodecError>)
        ensures
            r is Ok <==> decodable(self.data@),
            r is Ok ==> r->Ok_0@ == stfu8_bytes(self.data@)->0,
            forall|b: Seq<u8>| decodes_to(self.data@, b) ==> r is Ok && r->Ok_0@ == b,
    {
        decode(self.data.as_str())
    }
}

} // verus!
