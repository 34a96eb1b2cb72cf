//! Ranging measurements between devices and the notifications that carry them.
use crate::packets::{RangingMeasurement, UciPacket};
use vstd::prelude::*;

verus! {

/// Computes the measurement between two devices, if one can be had.
///
/// Implementations must not depend on engine state: they may read positions
/// that they keep themselves.
pub trait RangingEstimator {
    /// What the implementation promises of its answer `r` for `(left, right)`;
    /// by default nothing.
    open spec fn estimate_post(
        &self,
        left: usize,
        right: usize,
        r: Option<RangingMeasurement>,
    ) -> bool {
        true
    }

    fn estimate(&self, left: usize, right: usize) -> (r: Option<RangingMeasurement>)
        ensures
            self.estimate_post(left, right, r),
    ;
}

/// The estimator used when no device positions are known: it always gives
/// the default, empty measurement.
pub struct MockRangingEstimator;

impl RangingEstimator for MockRangingEstimator {
    open spec fn estimate_post(
        &self,
        left: usize,
        right: usize,
        r: Option<RangingMeasurement>,
    ) -> bool {
        r == Some(RangingMeasurement { range: 0, azimuth: 0, elevation: 0 })
    }

    fn estimate(&self, _left: usize, _right: usize) -> (r: Option<RangingMeasurement>)
        ensures
            r == Some(RangingMeasurement { range: 0, azimuth: 0, elevation: 0 }),
    {
        Some(RangingMeasurement { range: 0, azimuth: 0, elevation: 0 })
    }
}

/// The peers of `ps` that are in `connected`, in order.
pub open spec fn connected_peers(ps: Seq<usize>, connected: Set<usize>) -> Seq<usize>
    decreases ps.len(),
{
    if ps.len() == 0 {
        seq![]
    } else {
        let rest = connected_peers(ps.drop_last(), connected);
        if connected.contains(ps.last()) {
            rest.push(ps.last())
        } else {
            rest
        }
    }
}

/// One Range-Data notification for each peer whose estimate is present, in
/// peer order.
pub open spec fn range_data(
    session_id: u32,
    peers: Seq<usize>,
    estimates: Seq<Option<RangingMeasurement>>,
) -> Seq<UciPacket>
    decreases peers.len(),
{
    if peers.len() == 0 {
        seq![]
    } else {
        let rest = range_data(session_id, peers.drop_last(), estimates.drop_last());
        match estimates.last() {
            Some(m) => rest.push(
                UciPacket::RangeDataNtf { session_id, peer: peers.last(), measurement: m },
            ),
            None => rest,
        }
    }
}

/// The Range-Data notifications of session `session_id` for `peers`, given
/// the estimate obtained for each of them.
pub fn range_data_notifications(
    session_id: u32,
    peers: &Vec<usize>,
    estimates: &Vec<Option<RangingMeasurement>>,
) -> (r: Vec<UciPacket>)
    requires
        peers.len() == estimates.len(),
    ensures
        r@ == range_data(session_id, peers@, estimates@),
{
    let mut out: Vec<UciPacket> = Vec::new();
    let mut i: usize = 0;
    while i < peers.len()
        invariant
            i <= peers.len(),
            peers.len() == estimates.len(),
            out@ == range_data(
                session_id,
                peers@.subrange(0, i as int),
                estimates@.subrange(0, i as int),
            ),
        decreases peers.len() - i,
    {
        match estimates[i] {
            Some(m) => out.push(UciPacket::RangeDataNtf { session_id, peer: peers[i], measurement: m }),
            None => {},
        }
        assert(peers@.subrange(0, i + 1).drop_last() =~= peers@.subrange(0, i as int));
        assert(estimates@.subrange(0, i + 1).drop_last() =~= estimates@.subrange(0, i as int));
        i = i + 1;
    }
    assert(peers@.subrange(0, peers.len() as int) =~= peers@);
    assert(estimates@.subrange(0, estimates.len() as int) =~= estimates@);
    out
}

} // verus!
