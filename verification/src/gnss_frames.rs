//! Building the GNSS CAN frames that the receiver-side decoder reads.
//!
//! A host program polls a GNSS daemon and broadcasts the position fix on
//! the bus as frames 0x200-0x204. The payload assembly is verified here,
//! and each builder's contract is a round trip: decoding the built frame
//! yields exactly the values put in.

use vstd::prelude::*;

use crate::can_frame::CanFrame;
use crate::can_frame::CanId;
use crate::codec::spec_parse;
use crate::codec::EoiCanData;
use crate::codec::GnssData;
use crate::codec::GnssDateTime;
use crate::codec::GnssStatus;

verus! {

/// Identifier of the GNSS status frame.
pub const GNSS_STATUS_ID: u16 = 0x200;

/// Identifier of the GNSS speed-and-heading frame.
pub const GNSS_SPEED_HEADING_ID: u16 = 0x201;

/// Identifier of the GNSS latitude frame.
pub const GNSS_LATITUDE_ID: u16 = 0x202;

/// Identifier of the GNSS longitude frame.
pub const GNSS_LONGITUDE_ID: u16 = 0x203;

/// Identifier of the GNSS date-and-time frame.
pub const GNSS_DATE_TIME_ID: u16 = 0x204;

/// A 16-bit word is its low byte plus its high byte shifted.
proof fn lemma_u16_byte_split(x: u16)
    by (bit_vector)
    ensures
        (x % 0x100) + 0x100 * (x / 0x100) == x,
        x / 0x100 < 0x100,
{
}

/// A 32-bit word is the sum of its four bytes shifted.
proof fn lemma_u32_byte_split(x: u32)
    by (bit_vector)
    ensures
        (x % 0x100) + 0x100 * ((x / 0x100) % 0x100) + 0x1_0000 * ((x / 0x1_0000) % 0x100)
            + 0x100_0000 * ((x / 0x100_0000) % 0x100) == x,
        (x / 0x100_0000) % 0x100 == x / 0x100_0000,
{
}

/// A 64-bit word is its low half plus its high half shifted.
proof fn lemma_u64_half_split(x: u64)
    by (bit_vector)
    ensures
        (x % 0x1_0000_0000) + 0x1_0000_0000 * (x / 0x1_0000_0000) == x,
        x / 0x1_0000_0000 < 0x1_0000_0000,
{
}

/// Append a 32-bit word little-endian.
fn push_le_u32(payload: &mut Vec<u8>, x: u32)
    ensures
        final(payload)@ == old(payload)@ + seq![
            (x % 0x100) as u8,
            ((x / 0x100) % 0x100) as u8,
            ((x / 0x1_0000) % 0x100) as u8,
            ((x / 0x100_0000) % 0x100) as u8,
        ],
{
    payload.push((x % 0x100) as u8);
    payload.push(((x / 0x100) % 0x100) as u8);
    payload.push(((x / 0x1_0000) % 0x100) as u8);
    payload.push(((x / 0x100_0000) % 0x100) as u8);
    proof {
        assert(payload@ =~= old(payload)@ + seq![
            (x % 0x100) as u8,
            ((x / 0x100) % 0x100) as u8,
            ((x / 0x1_0000) % 0x100) as u8,
            ((x / 0x100_0000) % 0x100) as u8,
        ]);
    }
}

/// The fix state and satellite counts as frame 0x200.
pub fn encode_gnss_status(status: GnssStatus) -> (r: CanFrame)
    ensures
        r.wf(),
        spec_parse(r.id.spec_raw(), r.data@) == Some(
            EoiCanData::Gnss(GnssData::GnssStatus(status)),
        ),
{
    let mut payload: Vec<u8> = Vec::new();
    payload.push(status.fix);
    payload.push(status.sats);
    payload.push(status.sats_used);
    let r = CanFrame { id: CanId::Standard(GNSS_STATUS_ID), data: payload };
    proof {
        assert(r.data@ =~= seq![status.fix, status.sats, status.sats_used]);
    }
    r
}

/// Speed over ground and heading, both IEEE-754 single-precision bit
/// patterns, as frame 0x201.
pub fn encode_gnss_speed_and_heading(speed_bits: u32, heading_bits: u32) -> (r: CanFrame)
    ensures
        r.wf(),
        spec_parse(r.id.spec_raw(), r.data@) == Some(
            EoiCanData::Gnss(GnssData::GnssSpeedAndHeading(speed_bits, heading_bits)),
        ),
{
    let mut payload: Vec<u8> = Vec::new();
    push_le_u32(&mut payload, speed_bits);
    push_le_u32(&mut payload, heading_bits);
    let r = CanFrame { id: CanId::Standard(GNSS_SPEED_HEADING_ID), data: payload };
    proof {
        lemma_payload_le_u32_pair(r.data@, speed_bits, heading_bits);
    }
    r
}

/// Two words appended little-endian read back as themselves.
proof fn lemma_payload_le_u32_pair(b: Seq<u8>, x: u32, y: u32)
    requires
        b =~= seq![
            (x % 0x100) as u8,
            ((x / 0x100) % 0x100) as u8,
            ((x / 0x1_0000) % 0x100) as u8,
            ((x / 0x100_0000) % 0x100) as u8,
        ] + seq![
            (y % 0x100) as u8,
            ((y / 0x100) % 0x100) as u8,
            ((y / 0x1_0000) % 0x100) as u8,
            ((y / 0x100_0000) % 0x100) as u8,
        ],
    ensures
        b.len() == 8,
        crate::codec::spec_le_u32(b, 0) == x,
        crate::codec::spec_le_u32(b, 4) == y,
{
    lemma_u32_byte_split(x);
    lemma_u32_byte_split(y);
}

/// A latitude or longitude, an IEEE-754 double-precision bit pattern, as
/// frame 0x202 or 0x203.
fn encode_le_u64_frame(id: u16, x: u64) -> (r: CanFrame)
    requires
        id <= crate::can_frame::MAX_STANDARD_ID,
    ensures
        r.id == CanId::Standard(id),
        r.data@.len() == 8,
        r.wf(),
        crate::codec::spec_le_u64(r.data@, 0) == x,
{
    let mut payload: Vec<u8> = Vec::new();
    push_le_u32(&mut payload, (x % 0x1_0000_0000) as u32);
    push_le_u32(&mut payload, (x / 0x1_0000_0000) as u32);
    let r = CanFrame { id: CanId::Standard(id), data: payload };
    proof {
        lemma_u64_half_split(x);
        let lo = (x % 0x1_0000_0000) as u32;
        let hi = (x / 0x1_0000_0000) as u32;
        lemma_payload_le_u32_pair(r.data@, lo, hi);
        assert(crate::codec::spec_le_u64(r.data@, 0) == x);
    }
    r
}

/// The latitude, an IEEE-754 double-precision bit pattern, as frame 0x202.
pub fn encode_gnss_latitude(latitude_bits: u64) -> (r: CanFrame)
    ensures
        r.wf(),
        spec_parse(r.id.spec_raw(), r.data@) == Some(
            EoiCanData::Gnss(GnssData::GnssLatitude(latitude_bits)),
        ),
{
    encode_le_u64_frame(GNSS_LATITUDE_ID, latitude_bits)
}

/// The longitude, an IEEE-754 double-precision bit pattern, as frame 0x203.
pub fn encode_gnss_longitude(longitude_bits: u64) -> (r: CanFrame)
    ensures
        r.wf(),
        spec_parse(r.id.spec_raw(), r.data@) == Some(
            EoiCanData::Gnss(GnssData::GnssLongitude(longitude_bits)),
        ),
{
    encode_le_u64_frame(GNSS_LONGITUDE_ID, longitude_bits)
}

/// The civil date and time as frame 0x204.
pub fn encode_gnss_date_time(dt: GnssDateTime) -> (r: CanFrame)
    ensures
        r.wf(),
        spec_parse(r.id.spec_raw(), r.data@) == Some(
            EoiCanData::Gnss(GnssData::GnssDateTime(dt)),
        ),
{
    let mut payload: Vec<u8> = Vec::new();
    payload.push((dt.year % 0x100) as u8);
    payload.push((dt.year / 0x100) as u8);
    payload.push(dt.month);
    payload.push(dt.day);
    payload.push(dt.hours);
    payload.push(dt.minutes);
    payload.push(dt.seconds);
    let r = CanFrame { id: CanId::Standard(GNSS_DATE_TIME_ID), data: payload };
    proof {
        assert(r.data@ =~= seq![
            (dt.year % 0x100) as u8,
            (dt.year / 0x100) as u8,
            dt.month,
            dt.day,
            dt.hours,
            dt.minutes,
            dt.seconds,
        ]);
        lemma_u16_byte_split(dt.year);
        assert(crate::codec::spec_le_u16(r.data@, 0) == dt.year);
    }
    r
}

} // verus!
