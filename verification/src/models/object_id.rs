use vstd::prelude::*;

verus! {

/// The twelve-byte identifier of a stored record: `high` holds its first four
/// bytes and `low` its last eight, both most significant byte first.
#[derive(Clone, Copy, Debug, PartialEq, Eq, Hash, Structural)]
pub struct ObjectId {
    pub high: u32,
    pub low: u64,
}

/// The twelve bytes of an identifier.
pub type IdBytes = [u8; 12];

/// Whether a character is a hexadecimal digit, in either case.
pub open spec fn is_hex_digit(c: char) -> bool {
    ('0' <= c && c <= '9') || ('a' <= c && c <= 'f') || ('A' <= c && c <= 'F')
}

/// What a hexadecimal digit counts.
pub open spec fn hex_value(c: char) -> int {
    if '0' <= c && c <= '9' {
        c as int - '0' as int
    } else if 'a' <= c && c <= 'f' {
        c as int - 'a' as int + 10
    } else {
        c as int - 'A' as int + 10
    }
}

/// Whether a text is made of hexadecimal digits only.
pub open spec fn all_hex(s: Seq<char>) -> bool {
    forall|i: int| 0 <= i && i < s.len() ==> is_hex_digit(#[trigger] s[i])
}

/// Whether a text writes an identifier: 24 hexadecimal digits.
pub open spec fn is_id_text(s: Seq<char>) -> bool {
    s.len() == 24 && all_hex(s)
}

/// The byte that the two digits at the places `2 * k` and `2 * k + 1` write.
pub open spec fn hex_byte(s: Seq<char>, k: int) -> int {
    hex_value(s[2 * k]) * 16 + hex_value(s[2 * k + 1])
}

/// The twelve bytes that 24 hexadecimal digits write, two digits for a byte.
pub open spec fn hex_bytes(s: Seq<char>) -> Seq<u8> {
    Seq::new(12, |k: int| hex_byte(s, k) as u8)
}

/// The identifier with the given twelve bytes.
pub open spec fn id_of_bytes(b: Seq<u8>) -> ObjectId {
    ObjectId {
        high: (b[0] * 0x100_0000 + b[1] * 0x1_0000 + b[2] * 0x100 + b[3]) as u32,
        low: (b[4] * 0x100_0000_0000_0000 + b[5] * 0x1_0000_0000_0000 + b[6] * 0x100_0000_0000
            + b[7] * 0x1_0000_0000 + b[8] * 0x100_0000 + b[9] * 0x1_0000 + b[10] * 0x100
            + b[11]) as u64,
    }
}

/// The identifier that a text writes: 24 hexadecimal digits, two for each
/// byte.
pub open spec fn object_id_of_hex(s: Seq<char>) -> Option<ObjectId> {
    if is_id_text(s) {
        Some(id_of_bytes(hex_bytes(s)))
    } else {
        None
    }
}

/// `bson::oid::ObjectId::parse_str`, then `bytes`: the twelve bytes that a
/// text of 24 hexadecimal digits writes, upper or lower case; nothing for
/// any other text.
#[verifier::external_body]
fn parse_hex(s: &str) -> (r: Option<IdBytes>)
    ensures
        r is Some <==> is_id_text(s@),
        r matches Some(bytes) ==> bytes@ == hex_bytes(s@),
{
    bson::oid::ObjectId::parse_str(s).ok().map(|id| id.bytes())
}

impl ObjectId {
    /// The twelve bytes of the identifier.
    pub open spec fn spec_bytes(self) -> Seq<u8> {
        seq![
            (self.high / 0x100_0000) as u8,
            (self.high / 0x1_0000 % 0x100) as u8,
            (self.high / 0x100 % 0x100) as u8,
            (self.high % 0x100) as u8,
            (self.low / 0x100_0000_0000_0000) as u8,
            (self.low / 0x1_0000_0000_0000 % 0x100) as u8,
            (self.low / 0x100_0000_0000 % 0x100) as u8,
            (self.low / 0x1_0000_0000 % 0x100) as u8,
            (self.low / 0x100_0000 % 0x100) as u8,
            (self.low / 0x1_0000 % 0x100) as u8,
            (self.low / 0x100 % 0x100) as u8,
            (self.low % 0x100) as u8,
        ]
    }

    pub fn new(high: u32, low: u64) -> (id: ObjectId)
        ensures
            id == (ObjectId { high, low }),
    {
        ObjectId { high, low }
    }

    /// The identifier with the given twelve bytes.
    pub fn from_bytes(bytes: IdBytes) -> (id: ObjectId)
        ensures
            id == id_of_bytes(bytes@),
    {
        let high = bytes[0] as u32 * 0x100_0000 + bytes[1] as u32 * 0x1_0000 + bytes[2] as u32
            * 0x100 + bytes[3] as u32;
        let low = bytes[4] as u64 * 0x100_0000_0000_0000 + bytes[5] as u64 * 0x1_0000_0000_0000
            + bytes[6] as u64 * 0x100_0000_0000 + bytes[7] as u64 * 0x1_0000_0000 + bytes[8] as u64
            * 0x100_0000 + bytes[9] as u64 * 0x1_0000 + bytes[10] as u64 * 0x100 + bytes[11] as u64;
        ObjectId { high, low }
    }

    /// The twelve bytes of the identifier, the most significant first.
    pub fn to_bytes(&self) -> (bytes: IdBytes)
        ensures
            bytes@ == self.spec_bytes(),
    {
        let h = self.high;
        let l = self.low;
        let bytes = [
            (h / 0x100_0000) as u8,
            (h / 0x1_0000 % 0x100) as u8,
            (h / 0x100 % 0x100) as u8,
            (h % 0x100) as u8,
            (l / 0x100_0000_0000_0000) as u8,
            (l / 0x1_0000_0000_0000 % 0x100) as u8,
            (l / 0x100_0000_0000 % 0x100) as u8,
            (l / 0x1_0000_0000 % 0x100) as u8,
            (l / 0x100_0000 % 0x100) as u8,
            (l / 0x1_0000 % 0x100) as u8,
            (l / 0x100 % 0x100) as u8,
            (l % 0x100) as u8,
        ];
        assert(bytes@ =~= self.spec_bytes());
        bytes
    }

    /// Reads an identifier from 24 hexadecimal digits.
    pub fn parse_str(s: &str) -> (r: Option<ObjectId>)
        ensures
            r == object_id_of_hex(s@),
    {
        match parse_hex(s) {
            Some(bytes) => Some(ObjectId::from_bytes(bytes)),
            None => None,
        }
    }
}

/// The bytes of an identifier give the identifier back.
pub proof fn lemma_bytes_round_trip(id: ObjectId)
    ensures
        id_of_bytes(id.spec_bytes()) == id,
{
    let h = id.high;
    let l = id.low;
    assert((h / 0x100_0000) * 0x100_0000 + (h / 0x1_0000 % 0x100) * 0x1_0000 + (h / 0x100 % 0x100)
        * 0x100 + h % 0x100 == h) by (bit_vector);
    assert(h / 0x100_0000 < 0x100) by (bit_vector);
    assert((l / 0x100_0000_0000_0000) * 0x100_0000_0000_0000 + (l / 0x1_0000_0000_0000 % 0x100)
        * 0x1_0000_0000_0000 + (l / 0x100_0000_0000 % 0x100) * 0x100_0000_0000 + (l
        / 0x1_0000_0000 % 0x100) * 0x1_0000_0000 + (l / 0x100_0000 % 0x100) * 0x100_0000 + (l
        / 0x1_0000 % 0x100) * 0x1_0000 + (l / 0x100 % 0x100) * 0x100 + l % 0x100 == l)
        by (bit_vector);
    assert(l / 0x100_0000_0000_0000 < 0x100) by (bit_vector);
}

} // verus!
