//! The fixed-layout binary wire frame.
//!
//! Every datagram the gateway emits is one 22-byte frame: a signature byte,
//! a source-type tag with a beacon flag, the asset number (low byte before
//! high byte — an intentional quirk of the layout, not a general endianness
//! rule), a 12-byte identifier taken verbatim, and the UTC timestamp as
//! bit-packed BCD digit pairs with an `is_utc` marker. Padding bits are
//! always zero. Serialization is an explicit byte writer driven by the
//! layout, so the encoding is guaranteed rather than incidental.

use vstd::prelude::*;

use crate::bcd::{oneths_time, spec_ones, spec_tens, tenths_time};
use crate::timestamp::Timestamp;

verus! {

/// Serialized length of every frame, in bytes.
pub const FRAME_LEN: usize = 22;

/// One telemetry frame before serialization. Each `ten_*`/ones pair holds
/// the two decimal digits of a timestamp unit, sized to the bit width the
/// wire layout grants that unit.
pub struct IncomingMessageProtocol {
    pub signature: u8,
    pub source_identifier_type: u8,
    pub has_ibeacon: u8,
    pub padding1: u8,
    pub low_byte_asset_number: u8,
    pub high_byte_asset_number: u8,
    pub source_identifier: Vec<u8>,
    pub padding2: u8,
    pub ten_seconds: u8,
    pub seconds: u8,
    pub padding3: u8,
    pub ten_minutes: u8,
    pub minutes: u8,
    pub padding4: u8,
    pub ten_hour: u8,
    pub hours: u8,
    pub padding5: u8,
    pub ten_date: u8,
    pub date: u8,
    pub is_utc: u8,
    pub padding6: u8,
    pub ten_month: u8,
    pub month: u8,
    pub ten_year: u8,
    pub year: u8,
}

/// The two-digit year stored in a frame: the calendar year relative to 2000.
pub open spec fn year_rem(ts: Timestamp) -> u8 {
    (ts.year - 2000) as u8
}

/// The byte that packs the two BCD digits of one timestamp unit, tens in
/// the high nibble and ones in the low nibble.
pub open spec fn bcd_byte(v: u8) -> u8 {
    (spec_tens(v) as int * 16 + spec_ones(v) as int) as u8
}

/// The exact 22-byte serialization of a frame built from the given inputs.
pub open spec fn frame_bytes_for(asset: u16, id: Seq<u8>, ts: Timestamp, beacon: bool) -> Seq<
    u8,
> {
    seq![
        0xEEu8,
        (240 + (if beacon { 2int } else { 0int })) as u8,
        (asset as int % 256) as u8,
        (asset as int / 256) as u8,
    ] + id + seq![
        bcd_byte(ts.second),
        bcd_byte(ts.minute),
        bcd_byte(ts.hour),
        bcd_byte(ts.day),
        (128 + bcd_byte(ts.month) as int) as u8,
        bcd_byte(year_rem(ts)),
    ]
}

/// The exact bytes `to_bytes` emits for a frame, from its fields alone:
/// each packed byte places its fields most significant bits first.
pub open spec fn spec_frame_bytes(f: IncomingMessageProtocol) -> Seq<u8> {
    seq![
        f.signature,
        (f.source_identifier_type as int * 4 + f.has_ibeacon as int * 2
            + f.padding1 as int) as u8,
        f.low_byte_asset_number,
        f.high_byte_asset_number,
    ] + f.source_identifier@ + seq![
        (f.padding2 as int * 128 + f.ten_seconds as int * 16 + f.seconds as int) as u8,
        (f.padding3 as int * 128 + f.ten_minutes as int * 16 + f.minutes as int) as u8,
        (f.padding4 as int * 64 + f.ten_hour as int * 16 + f.hours as int) as u8,
        (f.padding5 as int * 64 + f.ten_date as int * 16 + f.date as int) as u8,
        (f.is_utc as int * 128 + f.padding6 as int * 32 + f.ten_month as int * 16
            + f.month as int) as u8,
        (f.ten_year as int * 16 + f.year as int) as u8,
    ]
}

/// The frame's fields are exactly those a frame built from the given
/// inputs carries.
pub open spec fn is_frame_for(
    f: IncomingMessageProtocol,
    asset: u16,
    id: Seq<u8>,
    ts: Timestamp,
    beacon: bool,
) -> bool {
    &&& f.signature == 0xEEu8
    &&& f.source_identifier_type == 60u8
    &&& f.has_ibeacon == (if beacon {
        1u8
    } else {
        0u8
    })
    &&& f.padding1 == 0u8
    &&& f.low_byte_asset_number as int == asset as int % 256
    &&& f.high_byte_asset_number as int == asset as int / 256
    &&& f.source_identifier@ == id
    &&& f.padding2 == 0u8
    &&& f.ten_seconds == spec_tens(ts.second)
    &&& f.seconds == spec_ones(ts.second)
    &&& f.padding3 == 0u8
    &&& f.ten_minutes == spec_tens(ts.minute)
    &&& f.minutes == spec_ones(ts.minute)
    &&& f.padding4 == 0u8
    &&& f.ten_hour == spec_tens(ts.hour)
    &&& f.hours == spec_ones(ts.hour)
    &&& f.padding5 == 0u8
    &&& f.ten_date == spec_tens(ts.day)
    &&& f.date == spec_ones(ts.day)
    &&& f.is_utc == 1u8
    &&& f.padding6 == 0u8
    &&& f.ten_month == spec_tens(ts.month)
    &&& f.month == spec_ones(ts.month)
    &&& f.ten_year == spec_tens(year_rem(ts))
    &&& f.year == spec_ones(year_rem(ts))
}

impl IncomingMessageProtocol {
    /// Every digit and flag fits the bit width its field occupies on the
    /// wire, and the identifier is exactly 12 bytes.
    pub open spec fn well_formed(self) -> bool {
        &&& self.source_identifier_type < 64
        &&& self.has_ibeacon <= 1
        &&& self.padding1 == 0
        &&& self.source_identifier@.len() == 12
        &&& self.padding2 == 0
        &&& self.ten_seconds <= 7
        &&& self.seconds <= 15
        &&& self.padding3 == 0
        &&& self.ten_minutes <= 7
        &&& self.minutes <= 15
        &&& self.padding4 == 0
        &&& self.ten_hour <= 3
        &&& self.hours <= 15
        &&& self.padding5 == 0
        &&& self.ten_date <= 3
        &&& self.date <= 15
        &&& self.is_utc <= 1
        &&& self.padding6 == 0
        &&& self.ten_month <= 1
        &&& self.month <= 15
        &&& self.ten_year <= 15
        &&& self.year <= 15
    }

    /// Builds the frame for one event: asset number, 12-byte identifier
    /// taken verbatim, timestamp, and the beacon flag.
    pub fn new(
        asset_number: u16,
        mac_address: Vec<u8>,
        timestamp: &Timestamp,
        has_ibeacon: bool,
    ) -> (r: IncomingMessageProtocol)
        requires
            mac_address@.len() == 12,
            timestamp.well_formed(),
        ensures
            r.well_formed(),
            is_frame_for(r, asset_number, mac_address@, *timestamp, has_ibeacon),
    {
        let rem: u8 = (timestamp.year - 2000) as u8;
        IncomingMessageProtocol {
            signature: 0xEE,
            source_identifier_type: 60,
            has_ibeacon: if has_ibeacon {
                1
            } else {
                0
            },
            padding1: 0,
            low_byte_asset_number: (asset_number % 256) as u8,
            high_byte_asset_number: (asset_number / 256) as u8,
            source_identifier: mac_address,
            padding2: 0,
            ten_seconds: tenths_time(timestamp.second),
            seconds: oneths_time(timestamp.second),
            padding3: 0,
            ten_minutes: tenths_time(timestamp.minute),
            minutes: oneths_time(timestamp.minute),
            padding4: 0,
            ten_hour: tenths_time(timestamp.hour),
            hours: oneths_time(timestamp.hour),
            padding5: 0,
            ten_date: tenths_time(timestamp.day),
            date: oneths_time(timestamp.day),
            is_utc: 1,
            padding6: 0,
            ten_month: tenths_time(timestamp.month),
            month: oneths_time(timestamp.month),
            ten_year: tenths_time(rem),
            year: oneths_time(rem),
        }
    }

    /// Serializes the frame into its exact 22-byte wire form, byte by byte,
    /// most significant bits first within each packed byte.
    pub fn to_bytes(&self) -> (r: Vec<u8>)
        requires
            self.well_formed(),
        ensures
            r@.len() == FRAME_LEN,
            r@ == spec_frame_bytes(*self),
    {
        let mut out: Vec<u8> = Vec::new();
        out.push(self.signature);
        out.push(self.source_identifier_type * 4 + self.has_ibeacon * 2 + self.padding1);
        out.push(self.low_byte_asset_number);
        out.push(self.high_byte_asset_number);
        let ghost header: Seq<u8> = out@;
        let mut i: usize = 0;
        while i < 12
            invariant
                i <= 12,
                self.source_identifier@.len() == 12,
                header.len() == 4,
                out@ == header + self.source_identifier@.take(i as int),
            decreases 12 - i,
        {
            out.push(self.source_identifier[i]);
            proof {
                assert(out@ =~= header + self.source_identifier@.take(i as int + 1));
            }
            i += 1;
        }
        proof {
            assert(self.source_identifier@.take(12) =~= self.source_identifier@);
        }
        out.push(self.padding2 * 128 + self.ten_seconds * 16 + self.seconds);
        out.push(self.padding3 * 128 + self.ten_minutes * 16 + self.minutes);
        out.push(self.padding4 * 64 + self.ten_hour * 16 + self.hours);
        out.push(self.padding5 * 64 + self.ten_date * 16 + self.date);
        out.push(self.is_utc * 128 + self.padding6 * 32 + self.ten_month * 16 + self.month);
        out.push(self.ten_year * 16 + self.year);
        proof {
            assert(out@ =~= spec_frame_bytes(*self));
        }
        out
    }
}

/// A well-formed frame that carries the given inputs serializes to exactly
/// the bytes the wire layout prescribes for them.
pub proof fn lemma_frame_bytes_agree(
    f: IncomingMessageProtocol,
    asset: u16,
    id: Seq<u8>,
    ts: Timestamp,
    beacon: bool,
)
    requires
        ts.well_formed(),
        id.len() == 12,
        f.well_formed(),
        is_frame_for(f, asset, id, ts, beacon),
    ensures
        spec_frame_bytes(f) == frame_bytes_for(asset, id, ts, beacon),
{
    assert(spec_frame_bytes(f) =~= frame_bytes_for(asset, id, ts, beacon));
}

/// What a receiver reads back out of the serialized bytes, bit for bit.
pub open spec fn decoded_asset_number(b: Seq<u8>) -> int {
    b[3] as int * 256 + b[2] as int
}

pub open spec fn decoded_source_type(b: Seq<u8>) -> int {
    b[1] as int / 4
}

pub open spec fn decoded_has_ibeacon(b: Seq<u8>) -> bool {
    (b[1] as int / 2) % 2 == 1
}

pub open spec fn decoded_identifier(b: Seq<u8>) -> Seq<u8> {
    b.subrange(4, 16)
}

pub open spec fn decoded_second(b: Seq<u8>) -> int {
    ((b[16] as int / 16) % 8) * 10 + b[16] as int % 16
}

pub open spec fn decoded_minute(b: Seq<u8>) -> int {
    ((b[17] as int / 16) % 8) * 10 + b[17] as int % 16
}

pub open spec fn decoded_hour(b: Seq<u8>) -> int {
    ((b[18] as int / 16) % 4) * 10 + b[18] as int % 16
}

pub open spec fn decoded_day(b: Seq<u8>) -> int {
    ((b[19] as int / 16) % 4) * 10 + b[19] as int % 16
}

pub open spec fn decoded_month(b: Seq<u8>) -> int {
    ((b[20] as int / 16) % 2) * 10 + b[20] as int % 16
}

pub open spec fn decoded_is_utc(b: Seq<u8>) -> bool {
    b[20] as int / 128 == 1
}

pub open spec fn decoded_year(b: Seq<u8>) -> int {
    2000 + (b[21] as int / 16) * 10 + b[21] as int % 16
}

/// The high nibble of a packed BCD byte is the tens digit and the low
/// nibble the ones digit, and the pair reconstructs the two-digit value.
pub proof fn lemma_bcd_byte_digits(v: u8)
    requires
        v <= 99,
    ensures
        bcd_byte(v) as int / 16 == spec_tens(v) as int,
        bcd_byte(v) as int % 16 == spec_ones(v) as int,
        spec_tens(v) as int * 10 + spec_ones(v) as int == v as int,
        bcd_byte(v) < 160,
{
    let t = spec_tens(v) as int;
    let o = spec_ones(v) as int;
    assert(0 <= t <= 9 && 0 <= o <= 9);
    assert((t * 16 + o) / 16 == t && (t * 16 + o) % 16 == o) by (nonlinear_arith)
        requires
            0 <= t <= 9,
            0 <= o <= 9,
    {
    }
    assert(bcd_byte(v) as int == t * 16 + o);
}

/// Round trip of the wire layout: for every valid asset number, 12-byte
/// identifier and timestamp, the serialized frame is exactly 22 bytes, and
/// reading the layout back bit for bit recovers the asset number, the
/// identifier and every decimal timestamp field, together with the beacon
/// flag, the source-type tag and the `is_utc` marker.
pub proof fn lemma_frame_round_trip(asset: u16, id: Seq<u8>, ts: Timestamp, beacon: bool)
    requires
        id.len() == 12,
        ts.well_formed(),
    ensures
        ({
            let b = frame_bytes_for(asset, id, ts, beacon);
            &&& b.len() == FRAME_LEN
            &&& decoded_asset_number(b) == asset
            &&& decoded_source_type(b) == 60
            &&& decoded_has_ibeacon(b) == beacon
            &&& decoded_identifier(b) == id
            &&& decoded_second(b) == ts.second
            &&& decoded_minute(b) == ts.minute
            &&& decoded_hour(b) == ts.hour
            &&& decoded_day(b) == ts.day
            &&& decoded_month(b) == ts.month
            &&& decoded_is_utc(b)
            &&& decoded_year(b) == ts.year
        }),
{
    let b = frame_bytes_for(asset, id, ts, beacon);
    assert(b.len() == 22);
    assert(decoded_identifier(b) =~= id);
    assert(decoded_asset_number(b) == asset) by {
        assert(b[2] as int == asset as int % 256 && b[3] as int == asset as int / 256);
    }
    assert(decoded_source_type(b) == 60 && decoded_has_ibeacon(b) == beacon) by {
        assert(b[1] as int == 240 + (if beacon {
            2int
        } else {
            0int
        }));
    }
    assert(decoded_second(b) == ts.second) by {
        assert(b[16] == bcd_byte(ts.second));
        lemma_bcd_byte_digits(ts.second);
        assert(spec_tens(ts.second) <= 5);
    }
    assert(decoded_minute(b) == ts.minute) by {
        assert(b[17] == bcd_byte(ts.minute));
        lemma_bcd_byte_digits(ts.minute);
        assert(spec_tens(ts.minute) <= 5);
    }
    assert(decoded_hour(b) == ts.hour) by {
        assert(b[18] == bcd_byte(ts.hour));
        lemma_bcd_byte_digits(ts.hour);
        assert(spec_tens(ts.hour) <= 2);
    }
    assert(decoded_day(b) == ts.day) by {
        assert(b[19] == bcd_byte(ts.day));
        lemma_bcd_byte_digits(ts.day);
        assert(spec_tens(ts.day) <= 3);
    }
    assert(decoded_month(b) == ts.month && decoded_is_utc(b)) by {
        assert(b[20] as int == 128 + bcd_byte(ts.month) as int);
        lemma_bcd_byte_digits(ts.month);
        assert(spec_tens(ts.month) <= 1);
        assert((128 + bcd_byte(ts.month) as int) / 16 == 8 + bcd_byte(ts.month) as int / 16);
        assert((128 + bcd_byte(ts.month) as int) % 16 == bcd_byte(ts.month) as int % 16);
    }
    assert(decoded_year(b) == ts.year) by {
        assert(b[21] == bcd_byte(year_rem(ts)));
        lemma_bcd_byte_digits(year_rem(ts));
        assert(year_rem(ts) as int == ts.year as int - 2000);
    }
}

} // verus!
