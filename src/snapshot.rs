use vstd::prelude::*;
use vstd::utf8::encode_utf8;

verus! {

/// The encoded size of a varint holding `v`: seven bits per byte.
pub open spec fn varint_size(v: nat) -> nat
    decreases v,
{
    if v < 128 {
        1
    } else {
        1 + varint_size(v / 128)
    }
}

/// The encoded size of a string field, which proto3 leaves out when empty:
/// tag, length prefix and UTF-8 bytes.
pub open spec fn string_field_size(field: nat, s: Seq<char>) -> nat {
    if s.len() == 0 {
        0
    } else {
        varint_size(field * 8 + 1) + varint_size(encode_utf8(s).len()) + encode_utf8(s).len()
    }
}

/// The largest string, in bytes, whose field size is computed here.
pub open spec fn fits_field(s: Seq<char>) -> bool {
    encode_utf8(s).len() <= 0x3fff_ffff
}

/// The varint encoding of `v`: seven bits per byte, low bits first, the high
/// bit set on every byte but the last.
pub open spec fn varint_bytes(v: nat) -> Seq<u8>
    decreases v,
{
    if v < 128 {
        seq![v as u8]
    } else {
        seq![(v % 128 + 128) as u8] + varint_bytes(v / 128)
    }
}

/// The wire encoding of a string field: its length-delimited tag, the
/// length of its UTF-8 bytes, then the bytes. An empty field is left out.
pub open spec fn string_field_bytes(field: nat, s: Seq<char>) -> Seq<u8> {
    if s.len() == 0 {
        Seq::empty()
    } else {
        varint_bytes(field * 8 + 2) + varint_bytes(encode_utf8(s).len()) + encode_utf8(s)
    }
}

proof fn lemma_varint_bytes_len(v: nat)
    ensures
        varint_bytes(v).len() == varint_size(v),
    decreases v,
{
    if v >= 128 {
        lemma_varint_bytes_len(v / 128);
    }
}

/// The encoded size is the length of the encoding, for each field.
pub proof fn lemma_field_size_is_encoded_len(field: nat, s: Seq<char>)
    requires
        1 <= field <= 15,
    ensures
        string_field_bytes(field, s).len() == string_field_size(field, s),
{
    if s.len() > 0 {
        lemma_varint_bytes_len(field * 8 + 2);
        lemma_varint_bytes_len(field * 8 + 1);
        lemma_varint_bytes_len(encode_utf8(s).len());
        reveal_with_fuel(varint_size, 2);
    }
}

/// Relies on protobuf's `CodedOutputStream` over a `Vec` (`vec`,
/// `write_string`, `flush`): the field's encoding is appended. Over a `Vec`
/// none of these calls fails: the buffer grows as needed.
#[verifier::external_body]
fn append_string_field(out: &mut Vec<u8>, field_number: u32, s: &str)
    requires
        1 <= field_number < 0x2000_0000,
        fits_field(s@),
    ensures
        final(out)@ == old(out)@ + varint_bytes(field_number as nat * 8 + 2)
            + varint_bytes(encode_utf8(s@).len()) + encode_utf8(s@),
{
    let mut os = protobuf::CodedOutputStream::vec(out);
    let _ = os.write_string(field_number, s);
    let _ = os.flush();
}

/// Appends a field unless it is empty.
fn write_field(out: &mut Vec<u8>, field_number: u32, s: &String)
    requires
        1 <= field_number <= 15,
        fits_field(s@),
    ensures
        final(out)@ == old(out)@ + string_field_bytes(field_number as nat, s@),
{
    if s.as_str().unicode_len() == 0 {
        assert(old(out)@ + string_field_bytes(field_number as nat, s@) =~= old(out)@);
    } else {
        append_string_field(out, field_number, s.as_str());
        assert(final(out)@ =~= old(out)@ + string_field_bytes(field_number as nat, s@));
    }
}

proof fn lemma_varint_size_small(v: nat)
    requires
        v < 0x8_0000_0000,
    ensures
        varint_size(v) <= 5,
{
    reveal_with_fuel(varint_size, 6);
}

/// Relies on protobuf's `rt::string_size`: the size of the tag, then of the
/// varint length prefix, then of the UTF-8 bytes.
#[verifier::external_body]
fn encoded_string_size(field_number: u32, s: &str) -> (r: u32)
    requires
        1 <= field_number < 0x2000_0000,
        fits_field(s@),
    ensures
        r == varint_size(field_number as nat * 8 + 1) + varint_size(encode_utf8(s@).len()) + encode_utf8(s@).len(),
{
    protobuf::rt::string_size(field_number, s)
}

fn field_size(field_number: u32, s: &String) -> (r: u32)
    requires
        1 <= field_number <= 15,
        fits_field(s@),
    ensures
        r == string_field_size(field_number as nat, s@),
        r <= 0x4000_0006,
{
    if s.as_str().unicode_len() == 0 {
        0
    } else {
        proof {
            lemma_varint_size_small(field_number as nat * 8 + 1);
            assert(varint_size(field_number as nat * 8 + 1) == 1) by {
                reveal_with_fuel(varint_size, 2);
            }
            lemma_varint_size_small(encode_utf8(s@).len());
        }
        encoded_string_size(field_number, s.as_str())
    }
}
/// A snapshot is being prepared: its key and the key of its parent.
#[derive(Debug, Clone, PartialEq, Eq)]
pub struct SnapshotPrepare {
    pub key: String,
    pub parent: String,
}
impl Default for SnapshotPrepare {
    fn default() -> (r: SnapshotPrepare)
        ensures
            r.key@.len() == 0,
            r.parent@.len() == 0,
    {
        SnapshotPrepare::new()
    }
}
impl SnapshotPrepare {
    /// A message with every field empty.
    pub fn new() -> (r: SnapshotPrepare)
        ensures
            r.key@.len() == 0,
            r.parent@.len() == 0,
    {
        SnapshotPrepare { key: String::new(), parent: String::new() }
    }

    pub fn get_key(&self) -> (r: &str)
        ensures
            r@ == self.key@,
    {
        self.key.as_str()
    }

    pub fn clear_key(&mut self)
        ensures
            final(self).key@.len() == 0,
            final(self).parent == old(self).parent,
    {
        self.key = String::new();
    }

    pub fn set_key(&mut self, v: String)
        ensures
            final(self).key == v,
            final(self).parent == old(self).parent,
    {
        self.key = v;
    }

    /// The field itself, for changing it in place.
    pub fn mut_key(&mut self) -> (r: &mut String)
        ensures
            *r == old(self).key,
            final(self).key == *final(r),
            final(self).parent == old(self).parent,
    {
        &mut self.key
    }

    /// Moves the field out, leaving it empty.
    pub fn take_key(&mut self) -> (r: String)
        ensures
            r == old(self).key,
            final(self).key@.len() == 0,
            final(self).parent == old(self).parent,
    {
        let mut v = String::new();
        std::mem::swap(&mut v, &mut self.key);
        v
    }

    pub fn get_parent(&self) -> (r: &str)
        ensures
            r@ == self.parent@,
    {
        self.parent.as_str()
    }

    pub fn clear_parent(&mut self)
        ensures
            final(self).parent@.len() == 0,
            final(self).key == old(self).key,
    {
        self.parent = String::new();
    }

    pub fn set_parent(&mut self, v: String)
        ensures
            final(self).parent == v,
            final(self).key == old(self).key,
    {
        self.parent = v;
    }

    /// The field itself, for changing it in place.
    pub fn mut_parent(&mut self) -> (r: &mut String)
        ensures
            *r == old(self).parent,
            final(self).parent == *final(r),
            final(self).key == old(self).key,
    {
        &mut self.parent
    }

    /// Moves the field out, leaving it empty.
    pub fn take_parent(&mut self) -> (r: String)
        ensures
            r == old(self).parent,
            final(self).parent@.len() == 0,
            final(self).key == old(self).key,
    {
        let mut v = String::new();
        std::mem::swap(&mut v, &mut self.parent);
        v
    }

    /// The size of the message's wire encoding. Only the
    /// fields that are not empty are encoded.
    pub fn compute_size(&self) -> (r: u32)
        requires
            fits_field(self.key@) && fits_field(self.parent@),
        ensures
            r == string_field_size(1, self.key@) + string_field_size(2, self.parent@),
    {
        let mut size: u32 = 0;
        size = size + field_size(1, &self.key);
        size = size + field_size(2, &self.parent);
        size
    }

    /// The message's wire encoding: its non-empty fields in field order.
    pub fn write_to_bytes(&self) -> (r: Vec<u8>)
        requires
            fits_field(self.key@) && fits_field(self.parent@),
        ensures
            r@ == string_field_bytes(1, self.key@) + string_field_bytes(2, self.parent@),
    {
        let mut out: Vec<u8> = Vec::new();
        write_field(&mut out, 1, &self.key);
        write_field(&mut out, 2, &self.parent);
        assert(out@ =~= string_field_bytes(1, self.key@) + string_field_bytes(2, self.parent@));
        out
    }
}

/// A prepared snapshot was committed under a name.
#[derive(Debug, Clone, PartialEq, Eq)]
pub struct SnapshotCommit {
    pub key: String,
    pub name: String,
}
impl Default for SnapshotCommit {
    fn default() -> (r: SnapshotCommit)
        ensures
            r.key@.len() == 0,
            r.name@.len() == 0,
    {
        SnapshotCommit::new()
    }
}
impl SnapshotCommit {
    /// A message with every field empty.
    pub fn new() -> (r: SnapshotCommit)
        ensures
            r.key@.len() == 0,
            r.name@.len() == 0,
    {
        SnapshotCommit { key: String::new(), name: String::new() }
    }

    pub fn get_key(&self) -> (r: &str)
        ensures
            r@ == self.key@,
    {
        self.key.as_str()
    }

    pub fn clear_key(&mut self)
        ensures
            final(self).key@.len() == 0,
            final(self).name == old(self).name,
    {
        self.key = String::new();
    }

    pub fn set_key(&mut self, v: String)
        ensures
            final(self).key == v,
            final(self).name == old(self).name,
    {
        self.key = v;
    }

    /// The field itself, for changing it in place.
    pub fn mut_key(&mut self) -> (r: &mut String)
        ensures
            *r == old(self).key,
            final(self).key == *final(r),
            final(self).name == old(self).name,
    {
        &mut self.key
    }

    /// Moves the field out, leaving it empty.
    pub fn take_key(&mut self) -> (r: String)
        ensures
            r == old(self).key,
            final(self).key@.len() == 0,
            final(self).name == old(self).name,
    {
        let mut v = String::new();
        std::mem::swap(&mut v, &mut self.key);
        v
    }

    pub fn get_name(&self) -> (r: &str)
        ensures
            r@ == self.name@,
    {
        self.name.as_str()
    }

    pub fn clear_name(&mut self)
        ensures
            final(self).name@.len() == 0,
            final(self).key == old(self).key,
    {
        self.name = String::new();
    }

    pub fn set_name(&mut self, v: String)
        ensures
            final(self).name == v,
            final(self).key == old(self).key,
    {
        self.name = v;
    }

    /// The field itself, for changing it in place.
    pub fn mut_name(&mut self) -> (r: &mut String)
        ensures
            *r == old(self).name,
            final(self).name == *final(r),
            final(self).key == old(self).key,
    {
        &mut self.name
    }

    /// Moves the field out, leaving it empty.
    pub fn take_name(&mut self) -> (r: String)
        ensures
            r == old(self).name,
            final(self).name@.len() == 0,
            final(self).key == old(self).key,
    {
        let mut v = String::new();
        std::mem::swap(&mut v, &mut self.name);
        v
    }

    /// The size of the message's wire encoding. Only the
    /// fields that are not empty are encoded.
    pub fn compute_size(&self) -> (r: u32)
        requires
            fits_field(self.key@) && fits_field(self.name@),
        ensures
            r == string_field_size(1, self.key@) + string_field_size(2, self.name@),
    {
        let mut size: u32 = 0;
        size = size + field_size(1, &self.key);
        size = size + field_size(2, &self.name);
        size
    }

    /// The message's wire encoding: its non-empty fields in field order.
    pub fn write_to_bytes(&self) -> (r: Vec<u8>)
        requires
            fits_field(self.key@) && fits_field(self.name@),
        ensures
            r@ == string_field_bytes(1, self.key@) + string_field_bytes(2, self.name@),
    {
        let mut out: Vec<u8> = Vec::new();
        write_field(&mut out, 1, &self.key);
        write_field(&mut out, 2, &self.name);
        assert(out@ =~= string_field_bytes(1, self.key@) + string_field_bytes(2, self.name@));
        out
    }
}

/// A snapshot was removed.
#[derive(Debug, Clone, PartialEq, Eq)]
pub struct SnapshotRemove {
    pub key: String,
}
impl Default for SnapshotRemove {
    fn default() -> (r: SnapshotRemove)
        ensures
            r.key@.len() == 0,
    {
        SnapshotRemove::new()
    }
}
impl SnapshotRemove {
    /// A message with every field empty.
    pub fn new() -> (r: SnapshotRemove)
        ensures
            r.key@.len() == 0,
    {
        SnapshotRemove { key: String::new() }
    }

    pub fn get_key(&self) -> (r: &str)
        ensures
            r@ == self.key@,
    {
        self.key.as_str()
    }

    pub fn clear_key(&mut self)
        ensures
            final(self).key@.len() == 0,
    {
        self.key = String::new();
    }

    pub fn set_key(&mut self, v: String)
        ensures
            final(self).key == v,
    {
        self.key = v;
    }

    /// The field itself, for changing it in place.
    pub fn mut_key(&mut self) -> (r: &mut String)
        ensures
            *r == old(self).key,
            final(self).key == *final(r),
    {
        &mut self.key
    }

    /// Moves the field out, leaving it empty.
    pub fn take_key(&mut self) -> (r: String)
        ensures
            r == old(self).key,
            final(self).key@.len() == 0,
    {
        let mut v = String::new();
        std::mem::swap(&mut v, &mut self.key);
        v
    }

    /// The size of the message's wire encoding. Only the
    /// fields that are not empty are encoded.
    pub fn compute_size(&self) -> (r: u32)
        requires
            fits_field(self.key@),
        ensures
            r == string_field_size(1, self.key@),
    {
        let mut size: u32 = 0;
        size = size + field_size(1, &self.key);
        size
    }

    /// The message's wire encoding: its non-empty fields in field order.
    pub fn write_to_bytes(&self) -> (r: Vec<u8>)
        requires
            fits_field(self.key@),
        ensures
            r@ == string_field_bytes(1, self.key@),
    {
        let mut out: Vec<u8> = Vec::new();
        write_field(&mut out, 1, &self.key);
        assert(out@ =~= string_field_bytes(1, self.key@));
        out
    }
}

/// A message's computed size is the length of its encoding.
pub proof fn lemma_size_matches_encoding(key: Seq<char>, parent: Seq<char>, name: Seq<char>)
    ensures
        (string_field_bytes(1, key) + string_field_bytes(2, parent)).len()
            == string_field_size(1, key) + string_field_size(2, parent),
        (string_field_bytes(1, key) + string_field_bytes(2, name)).len()
            == string_field_size(1, key) + string_field_size(2, name),
        string_field_bytes(1, key).len() == string_field_size(1, key),
{
    lemma_field_size_is_encoded_len(1, key);
    lemma_field_size_is_encoded_len(2, parent);
    lemma_field_size_is_encoded_len(2, name);
}

} // verus!
