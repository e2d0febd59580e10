//! The consumer side of the telemetry pipeline.
//!
//! A producer (interrupt handler or socket reader task) stores raw frames in
//! a [`CanCollector`]; a periodic consumer drains it with
//! [`ingest_collected_frames`], folding every stored frame into the
//! [`DisplayData`] snapshot and clearing the collector for the next burst.
//! The render tick is independent of frame arrival: on a quiet bus fields
//! simply expire instead of stalling the consumer.

use vstd::prelude::*;

use crate::can_frame::CanFrame;
use crate::codec::parse_eoi_can_data;
use crate::codec::spec_parse;
use crate::collector::CanCollector;
use crate::snapshot::spec_ingest;
use crate::snapshot::DisplayData;

verus! {

/// The snapshot after the frames of `frames` are decoded and folded in,
/// front to back; unrecognized frames are skipped.
pub open spec fn spec_ingest_all(d: DisplayData, frames: Seq<CanFrame>, now: u64) -> DisplayData
    decreases frames.len(),
{
    if frames.len() == 0 {
        d
    } else {
        let d1 = match spec_parse(frames[0].id.spec_raw(), frames[0].data@) {
            Some(m) => spec_ingest(d, m, now),
            None => d,
        };
        spec_ingest_all(d1, frames.drop_first(), now)
    }
}

/// One consumer tick of the shared-collector topology: decode and ingest
/// every collected frame in stored order, then clear the collector for the
/// next burst.
pub fn ingest_collected_frames(collector: &mut CanCollector, data: &mut DisplayData, now: u64)
    ensures
        *final(data) == spec_ingest_all(*old(data), old(collector)@, now),
        final(collector)@.len() == 0,
        final(collector).spec_dropped() == 0,
        final(collector).wf(),
{
    let n = collector.iter().len();
    let mut i: usize = 0;
    proof {
        assert(old(collector)@.skip(0) =~= old(collector)@);
    }
    while i < n
        invariant
            *collector == *old(collector),
            n == collector@.len(),
            i <= n,
            spec_ingest_all(*old(data), old(collector)@, now) == spec_ingest_all(
                *data,
                old(collector)@.skip(i as int),
                now,
            ),
        decreases n - i,
    {
        let frame = &collector.iter()[i];
        proof {
            assert(old(collector)@.skip(i as int)[0] == collector@[i as int]);
            assert(old(collector)@.skip(i as int).drop_first() =~= old(collector)@.skip(i + 1));
        }
        match parse_eoi_can_data(frame) {
            Some(parsed_data) => {
                data.ingest_eoi_can_data(parsed_data, now);
            },
            None => {},
        }
        i = i + 1;
    }
    proof {
        assert(old(collector)@.skip(n as int) =~= Seq::<CanFrame>::empty());
    }
    collector.clear();
}

} // verus!
