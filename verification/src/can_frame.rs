//! CAN 2.0 frames: an 11-bit or 29-bit identifier and at most eight data
//! bytes.

use vstd::prelude::*;

verus! {

/// A CAN 2.0 frame carries at most this many data bytes.
pub const MAX_FRAME_LEN: usize = 8;

/// The largest 11-bit (standard) identifier.
pub const MAX_STANDARD_ID: u16 = 0x7FF;

/// The largest 29-bit (extended) identifier.
pub const MAX_EXTENDED_ID: u32 = 0x1FFF_FFFF;

/// Identifier of a CAN 2.0 frame, tagged standard (11-bit) or extended
/// (29-bit).
#[derive(Clone, Copy, Debug, PartialEq, Eq, Hash, Structural)]
pub enum CanId {
    Standard(u16),
    Extended(u32),
}

impl CanId {
    /// The identifier fits the width its tag announces.
    pub open spec fn wf(self) -> bool {
        match self {
            CanId::Standard(raw) => raw <= MAX_STANDARD_ID,
            CanId::Extended(raw) => raw <= MAX_EXTENDED_ID,
        }
    }

    /// The identifier as a flat 32-bit number, the tag forgotten.
    pub open spec fn spec_raw(self) -> u32 {
        match self {
            CanId::Standard(raw) => raw as u32,
            CanId::Extended(raw) => raw,
        }
    }

    /// Build a standard identifier; rejects numbers above 11 bits.
    pub fn standard(raw: u16) -> (r: Option<CanId>)
        ensures
            r == if raw <= MAX_STANDARD_ID {
                Some(CanId::Standard(raw))
            } else {
                None::<CanId>
            },
    {
        if raw <= MAX_STANDARD_ID {
            Some(CanId::Standard(raw))
        } else {
            None
        }
    }

    /// Build an extended identifier; rejects numbers above 29 bits.
    pub fn extended(raw: u32) -> (r: Option<CanId>)
        ensures
            r == if raw <= MAX_EXTENDED_ID {
                Some(CanId::Extended(raw))
            } else {
                None::<CanId>
            },
    {
        if raw <= MAX_EXTENDED_ID {
            Some(CanId::Extended(raw))
        } else {
            None
        }
    }

    /// Classify a flat number: standard when it fits 11 bits, extended when
    /// it fits 29, rejected beyond that.
    pub fn from_raw(raw: u32) -> (r: Option<CanId>)
        ensures
            r == if raw <= MAX_STANDARD_ID as u32 {
                Some(CanId::Standard(raw as u16))
            } else if raw <= MAX_EXTENDED_ID {
                Some(CanId::Extended(raw))
            } else {
                None::<CanId>
            },
            r matches Some(id) ==> id.wf() && id.spec_raw() == raw,
    {
        if raw <= MAX_STANDARD_ID as u32 {
            Some(CanId::Standard(raw as u16))
        } else if raw <= MAX_EXTENDED_ID {
            Some(CanId::Extended(raw))
        } else {
            None
        }
    }

    /// The identifier as a flat 32-bit number.
    pub fn raw(self) -> (r: u32)
        ensures
            r == self.spec_raw(),
    {
        match self {
            CanId::Standard(raw) => raw as u32,
            CanId::Extended(raw) => raw,
        }
    }
}

/// CAN frame consisting of ID and data.
#[derive(Clone, Debug, PartialEq, Eq)]
pub struct CanFrame {
    /// The ID of the frame.
    pub id: CanId,
    /// The payload of the frame.
    pub data: Vec<u8>,
}

impl CanFrame {
    /// The identifier is well formed and the payload fits a CAN 2.0 frame.
    pub open spec fn wf(self) -> bool {
        self.id.wf() && self.data@.len() <= MAX_FRAME_LEN
    }

    /// Wrap an already encoded CAN frame.
    ///
    /// Building a frame from more than eight bytes is a programming error,
    /// ruled out here rather than handled at run time.
    pub fn from_encoded(id: CanId, data: &[u8]) -> (r: CanFrame)
        requires
            id.wf(),
            data@.len() <= MAX_FRAME_LEN,
        ensures
            r.id == id,
            r.data@ == data@,
            r.wf(),
    {
        CanFrame { id, data: vstd::slice::slice_to_vec(data) }
    }

    /// Render the frame for logs: the identifier as four hex digits when
    /// standard and eight when extended, then each data byte as two hex
    /// digits.
    pub fn debug_string(&self) -> (r: String)
        ensures
            r@ == spec_debug_string(*self),
    {
        let mut s = String::from_str("CanFrame { id: ");
        match self.id {
            CanId::Standard(raw) => {
                s.append("0x");
                push_hex4(&mut s, raw);
            },
            CanId::Extended(raw) => {
                s.append("0x");
                push_hex8(&mut s, raw);
            },
        }
        s.append(", data: [");
        proof {
            assert(s@ =~= spec_head(*self) + spec_data_debug(self.data@.take(0)));
        }
        let n = self.data.len();
        let mut i: usize = 0;
        while i < n
            invariant
                n == self.data@.len(),
                i <= n,
                s@ == spec_head(*self) + spec_data_debug(self.data@.take(i as int)),
            decreases n - i,
        {
            if i == 0 {
                s.append("0x");
            } else {
                s.append(", 0x");
            }
            push_hex2(&mut s, self.data[i]);
            proof {
                let t = self.data@.take(i + 1);
                if i == 0 {
                    assert(t.len() == 1 && t[0] == self.data@[0]);
                } else {
                    assert(t.drop_last() =~= self.data@.take(i as int));
                    assert(t.last() == self.data@[i as int]);
                }
                assert(s@ =~= spec_head(*self) + spec_data_debug(t));
            }
            i = i + 1;
        }
        s.append("] }");
        proof {
            assert(self.data@.take(n as int) =~= self.data@);
            assert(s@ =~= spec_debug_string(*self));
        }
        s
    }
}

/// Everything of the rendered frame before the data bytes.
pub open spec fn spec_head(f: CanFrame) -> Seq<char> {
    "CanFrame { id: "@ + spec_id_debug(f.id) + ", data: ["@
}

/// The rendered frame: identifier, then data bytes in brackets.
pub open spec fn spec_debug_string(f: CanFrame) -> Seq<char> {
    spec_head(f) + spec_data_debug(f.data@) + "] }"@
}

/// The rendered identifier: four hex digits when standard, eight when
/// extended.
pub open spec fn spec_id_debug(id: CanId) -> Seq<char> {
    match id {
        CanId::Standard(raw) => "0x"@ + spec_hex4(raw),
        CanId::Extended(raw) => "0x"@ + spec_hex8(raw),
    }
}

/// The rendered data bytes, two hex digits each, comma-separated.
pub open spec fn spec_data_debug(data: Seq<u8>) -> Seq<char>
    decreases data.len(),
{
    if data.len() == 0 {
        Seq::empty()
    } else if data.len() == 1 {
        "0x"@ + spec_hex2(data[0])
    } else {
        spec_data_debug(data.drop_last()) + ", 0x"@ + spec_hex2(data.last())
    }
}

/// The one-character text of a hex digit, upper case.
pub open spec fn spec_hex_digit(n: u8) -> Seq<char> {
    if n == 0 {
        "0"@
    } else if n == 1 {
        "1"@
    } else if n == 2 {
        "2"@
    } else if n == 3 {
        "3"@
    } else if n == 4 {
        "4"@
    } else if n == 5 {
        "5"@
    } else if n == 6 {
        "6"@
    } else if n == 7 {
        "7"@
    } else if n == 8 {
        "8"@
    } else if n == 9 {
        "9"@
    } else if n == 10 {
        "A"@
    } else if n == 11 {
        "B"@
    } else if n == 12 {
        "C"@
    } else if n == 13 {
        "D"@
    } else if n == 14 {
        "E"@
    } else {
        "F"@
    }
}

/// A byte as two hex digits.
pub open spec fn spec_hex2(b: u8) -> Seq<char> {
    spec_hex_digit(b / 16) + spec_hex_digit(b % 16)
}

/// A 16-bit word as four hex digits.
pub open spec fn spec_hex4(x: u16) -> Seq<char> {
    spec_hex2((x / 0x100) as u8) + spec_hex2((x % 0x100) as u8)
}

/// A 32-bit word as eight hex digits.
pub open spec fn spec_hex8(x: u32) -> Seq<char> {
    spec_hex4((x / 0x1_0000) as u16) + spec_hex4((x % 0x1_0000) as u16)
}

/// The one-character text of a hex digit, upper case.
fn hex_digit_str(n: u8) -> (r: &'static str)
    ensures
        r@ == spec_hex_digit(n),
{
    if n == 0 {
        "0"
    } else if n == 1 {
        "1"
    } else if n == 2 {
        "2"
    } else if n == 3 {
        "3"
    } else if n == 4 {
        "4"
    } else if n == 5 {
        "5"
    } else if n == 6 {
        "6"
    } else if n == 7 {
        "7"
    } else if n == 8 {
        "8"
    } else if n == 9 {
        "9"
    } else if n == 10 {
        "A"
    } else if n == 11 {
        "B"
    } else if n == 12 {
        "C"
    } else if n == 13 {
        "D"
    } else if n == 14 {
        "E"
    } else {
        "F"
    }
}

/// Append a byte as two hex digits.
fn push_hex2(s: &mut String, b: u8)
    ensures
        final(s)@ == old(s)@ + spec_hex2(b),
{
    s.append(hex_digit_str(b / 16));
    s.append(hex_digit_str(b % 16));
    proof {
        assert(s@ =~= old(s)@ + spec_hex2(b));
    }
}

/// Append a 16-bit word as four hex digits.
fn push_hex4(s: &mut String, x: u16)
    ensures
        final(s)@ == old(s)@ + spec_hex4(x),
{
    proof {
        assert(x / 0x100 < 0x100) by (bit_vector);
    }
    push_hex2(s, (x / 0x100) as u8);
    push_hex2(s, (x % 0x100) as u8);
    proof {
        assert(s@ =~= old(s)@ + spec_hex4(x));
    }
}

/// Append a 32-bit word as eight hex digits.
fn push_hex8(s: &mut String, x: u32)
    ensures
        final(s)@ == old(s)@ + spec_hex8(x),
{
    proof {
        assert(x / 0x1_0000 < 0x1_0000) by (bit_vector);
    }
    push_hex4(s, (x / 0x1_0000) as u16);
    push_hex4(s, (x % 0x1_0000) as u16);
    proof {
        assert(s@ =~= old(s)@ + spec_hex8(x));
    }
}

} // verus!
