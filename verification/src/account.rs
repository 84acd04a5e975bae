use vstd::prelude::*;
use vstd::assert_seqs_equal;

verus! {

/// Number of header bytes that open every persisted counter record.
pub const HEADER_LEN: usize = 8;

/// Total size of the persisted record: the header plus one count byte.
pub const RECORD_LEN: usize = 9;

/// The fixed eight-byte tag that marks a stored record as a counter
/// record (the ASCII bytes of "counter" and a version byte "1").
pub open spec fn spec_header() -> Seq<u8> {
    seq![0x63u8, 0x6fu8, 0x75u8, 0x6eu8, 0x74u8, 0x65u8, 0x72u8, 0x31u8]
}

/// The counter record itself: a single 8-bit count. The count can never
/// leave [0, 255]; its type already says so, and the ledger operations
/// refuse any step that would push it past either end.
#[derive(Clone, Copy, Debug, PartialEq, Eq, Structural)]
pub struct Stakingfrontend {
    pub count: u8,
}

/// The record a byte sequence describes, if any: a sequence decodes
/// exactly when it has the record's length and opens with the header,
/// and its last byte is then the count.
pub open spec fn spec_decode_record(bytes: Seq<u8>) -> Option<Stakingfrontend> {
    if bytes.len() == RECORD_LEN && bytes.subrange(0, HEADER_LEN as int) == spec_header() {
        Some((Stakingfrontend { count: bytes[HEADER_LEN as int] }))
    } else {
        None
    }
}

impl Stakingfrontend {
    /// A freshly allocated record holds a count of zero.
    pub fn new() -> (r: Stakingfrontend)
        ensures
            r.count == 0,
    {
        Stakingfrontend { count: 0 }
    }

    /// The bytes this record occupies in storage: the header, then the count.
    pub open spec fn spec_record_bytes(self) -> Seq<u8> {
        spec_header().push(self.count)
    }

    /// Serializes the record into its fixed nine-byte storage form.
    pub fn to_record_bytes(&self) -> (r: Vec<u8>)
        ensures
            r@ == self.spec_record_bytes(),
    {
        let mut bytes: Vec<u8> = Vec::new();
        bytes.push(0x63);
        bytes.push(0x6f);
        bytes.push(0x75);
        bytes.push(0x6e);
        bytes.push(0x74);
        bytes.push(0x65);
        bytes.push(0x72);
        bytes.push(0x31);
        bytes.push(self.count);
        proof {
            assert_seqs_equal!(bytes@ == self.spec_record_bytes());
        }
        bytes
    }

    /// Reads a record back from storage bytes; `None` when the bytes do
    /// not have the record's length or do not open with the header.
    pub fn from_record_bytes(bytes: &Vec<u8>) -> (r: Option<Stakingfrontend>)
        ensures
            r == spec_decode_record(bytes@),
    {
        if bytes.len() != RECORD_LEN {
            return None;
        }
        if bytes[0] != 0x63 || bytes[1] != 0x6f || bytes[2] != 0x75 || bytes[3] != 0x6e
            || bytes[4] != 0x74 || bytes[5] != 0x65 || bytes[6] != 0x72 || bytes[7] != 0x31
        {
            proof {
                assert(bytes@.subrange(0, HEADER_LEN as int) != spec_header()) by {
                    if bytes@.subrange(0, HEADER_LEN as int) == spec_header() {
                        assert(forall|i: int| 0 <= i < HEADER_LEN
                            ==> bytes@[i] == spec_header()[i]);
                    }
                };
            }
            return None;
        }
        proof {
            assert_seqs_equal!(bytes@.subrange(0, HEADER_LEN as int) == spec_header());
        }
        Some(Stakingfrontend { count: bytes[8] })
    }
}

/// Serializing a record and reading it back yields the record unchanged.
pub proof fn lemma_record_round_trip(a: Stakingfrontend)
    ensures
        spec_decode_record(a.spec_record_bytes()) == Some(a),
{
    assert_seqs_equal!(a.spec_record_bytes().subrange(0, HEADER_LEN as int) == spec_header());
}

} // verus!
