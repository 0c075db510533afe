//! Time-windowed queue of encoded packets with a side index of keyframe
//! timestamps.
//!
//! The queue keeps the packets whose timestamps lie within a fixed distance of
//! the newest one. Keyframe timestamps are recorded separately so that a clip
//! can be cut at the oldest keyframe still covered by the queue.

use vstd::prelude::*;
use std::collections::VecDeque;

verus! {

/// Mathematical value of a [`Packet`].
pub struct PacketView {
    pub pts_ms: u64,
    pub data: Seq<u8>,
}

/// One encoded chunk of the muxed stream with its presentation timestamp.
#[derive(Debug)]
pub struct Packet {
    pub pts_ms: u64,
    pub data: Vec<u8>,
}

impl View for Packet {
    type V = PacketView;

    open spec fn view(&self) -> PacketView {
        PacketView { pts_ms: self.pts_ms, data: self.data@ }
    }
}

impl Clone for Packet {
    fn clone(&self) -> (out: Self)
        ensures
            out@ == self@,
    {
        Packet { pts_ms: self.pts_ms, data: self.data.clone() }
    }
}

/// The values of a sequence of packets, in the same order.
pub open spec fn packet_views(s: Seq<Packet>) -> Seq<PacketView> {
    s.map_values(|p: Packet| p@)
}

/// Distance in milliseconds from the first to the last timestamp of `s`,
/// zero where there is no packet or the last one is not later than the first.
pub open spec fn span_ms(s: Seq<PacketView>) -> int {
    if s.len() == 0 || s.last().pts_ms < s[0].pts_ms {
        0
    } else {
        s.last().pts_ms - s[0].pts_ms
    }
}

/// Number of leading packets of `s` that lie more than `window` before
/// `newest`.
pub open spec fn stale_prefix_len(s: Seq<PacketView>, newest: u64, window: u64) -> nat
    decreases s.len(),
{
    if s.len() > 0 && newest - s[0].pts_ms > window {
        1 + stale_prefix_len(s.drop_first(), newest, window)
    } else {
        0
    }
}

/// What remains of `s` once the packets too far before its last one are
/// dropped from the front.
pub open spec fn evict(s: Seq<PacketView>, window: u64) -> Seq<PacketView> {
    if s.len() == 0 {
        s
    } else {
        s.skip(stale_prefix_len(s, s.last().pts_ms, window) as int)
    }
}

/// Number of leading timestamps of `k` that are below `bound`.
pub open spec fn low_prefix_len(k: Seq<u64>, bound: u64) -> nat
    decreases k.len(),
{
    if k.len() > 0 && k[0] < bound {
        1 + low_prefix_len(k.drop_first(), bound)
    } else {
        0
    }
}

/// What remains of `k` once the leading timestamps below `bound` are dropped.
pub open spec fn trim(k: Seq<u64>, bound: u64) -> Seq<u64> {
    k.skip(low_prefix_len(k, bound) as int)
}

/// The stale prefix is never longer than the sequence.
pub proof fn lemma_stale_prefix_bound(s: Seq<PacketView>, newest: u64, window: u64)
    ensures
        stale_prefix_len(s, newest, window) <= s.len(),
    decreases s.len(),
{
    if s.len() > 0 && newest - s[0].pts_ms > window {
        lemma_stale_prefix_bound(s.drop_first(), newest, window);
    }
}

/// The low prefix is never longer than the sequence.
pub proof fn lemma_low_prefix_bound(k: Seq<u64>, bound: u64)
    ensures
        low_prefix_len(k, bound) <= k.len(),
    decreases k.len(),
{
    if k.len() > 0 && k[0] < bound {
        lemma_low_prefix_bound(k.drop_first(), bound);
    }
}

/// Each timestamp is greater than the one before it.
pub open spec fn strictly_increasing(k: Seq<u64>) -> bool {
    forall|i: int, j: int| 0 <= i < j < k.len() ==> k[i] < k[j]
}

/// No timestamp of `k` is below `bound`.
pub open spec fn none_below(k: Seq<u64>, bound: u64) -> bool {
    forall|i: int| 0 <= i < k.len() ==> k[i] >= bound
}

/// The keyframe record is covered by the packets: empty where there is no
/// packet, otherwise without a timestamp older than the oldest packet.
pub open spec fn covered(packets: Seq<PacketView>, keyframes: Seq<u64>) -> bool {
    if packets.len() == 0 {
        keyframes.len() == 0
    } else {
        none_below(keyframes, packets[0].pts_ms)
    }
}

/// The keyframe record after `ts` is offered to it: appended when it is later
/// than the last recorded timestamp, ignored otherwise.
pub open spec fn record_keyframe(k: Seq<u64>, ts: u64) -> Seq<u64> {
    if k.len() == 0 || k.last() < ts {
        k.push(ts)
    } else {
        k
    }
}

/// Selects the packets stamped at or after `start`.
pub open spec fn at_or_after(start: u64) -> spec_fn(PacketView) -> bool {
    |p: PacketView| p.pts_ms >= start
}

/// The packets a clip is made of: those from the oldest recorded keyframe on,
/// or all of them where no keyframe is recorded or the newest packet lies
/// before it.
pub open spec fn clip_of(packets: Seq<PacketView>, keyframes: Seq<u64>) -> Seq<PacketView> {
    if keyframes.len() > 0 && packets.len() > 0 && packets.last().pts_ms >= keyframes[0] {
        packets.filter(at_or_after(keyframes[0]))
    } else {
        packets
    }
}

/// Eviction keeps a tail of the sequence: the packets that remain are the last
/// ones, each at the place it had relative to the others.
pub proof fn law_evict_keeps_order(s: Seq<PacketView>, window: u64)
    ensures
        evict(s, window).len() <= s.len(),
        forall|i: int|
            0 <= i < evict(s, window).len() ==> evict(s, window)[i] == s[i + s.len() - evict(
                s,
                window,
            ).len()],
{
    if s.len() > 0 {
        lemma_stale_prefix_bound(s, s.last().pts_ms, window);
    }
}

/// While nothing is evicted, a push whose timestamp is not earlier than the
/// newest one buffered never shortens the buffered duration.
pub proof fn law_duration_monotone(s: Seq<PacketView>, p: PacketView, window: u64)
    requires
        s.len() > 0 ==> s.last().pts_ms <= p.pts_ms,
        evict(s.push(p), window).len() == s.len() + 1,
    ensures
        span_ms(s) <= span_ms(evict(s.push(p), window)),
{
    let t = s.push(p);
    lemma_stale_prefix_bound(t, p.pts_ms, window);
    assert(t.skip(0) =~= t);
}

/// After eviction the first and the last packet are at most `window` apart,
/// and the last packet is still the last.
pub proof fn law_evict_bounds_span(s: Seq<PacketView>, window: u64)
    requires
        s.len() > 0,
    ensures
        evict(s, window).len() > 0,
        evict(s, window).last() == s.last(),
        span_ms(evict(s, window)) <= window,
{
    let newest = s.last().pts_ms;
    lemma_stale_front(s, newest, window);
}

/// A keyframe that is not older than the oldest packet leaves the keyframe
/// record covered by the packets.
pub proof fn law_keyframe_keeps_cover(packets: Seq<PacketView>, keyframes: Seq<u64>, ts: u64)
    requires
        covered(packets, keyframes),
        packets.len() > 0,
        ts >= packets[0].pts_ms,
    ensures
        covered(packets, record_keyframe(keyframes, ts)),
{
}

/// Offering a keyframe keeps the record strictly increasing.
pub proof fn law_keyframes_stay_ordered(keyframes: Seq<u64>, ts: u64)
    requires
        strictly_increasing(keyframes),
    ensures
        strictly_increasing(record_keyframe(keyframes, ts)),
{
}

/// The packet that follows the stale prefix, if any, is within the window;
/// the prefix never swallows a packet stamped `newest`.
proof fn lemma_stale_front(s: Seq<PacketView>, newest: u64, window: u64)
    requires
        s.len() > 0,
        s.last().pts_ms == newest,
    ensures
        stale_prefix_len(s, newest, window) < s.len(),
        newest - s[stale_prefix_len(s, newest, window) as int].pts_ms <= window,
    decreases s.len(),
{
    if newest - s[0].pts_ms > window {
        assert(s.len() > 1);
        let rest = s.drop_first();
        assert(rest.last() == s.last());
        lemma_stale_front(rest, newest, window);
        assert(rest[stale_prefix_len(rest, newest, window) as int] == s[1 + stale_prefix_len(
            rest,
            newest,
            window,
        ) as int]);
    }
}

/// Rolling buffer of the most recent packets.
pub struct RingBuffer {
    max_duration_ms: u64,
    packets: VecDeque<Packet>,
    keyframes: VecDeque<u64>,
}

impl RingBuffer {
    /// Largest distance kept between the oldest and the newest packet.
    pub closed spec fn window_ms(&self) -> u64 {
        self.max_duration_ms
    }

    /// The buffered packets, oldest first.
    pub closed spec fn packets(&self) -> Seq<PacketView> {
        packet_views(self.packets@)
    }

    /// The recorded keyframe timestamps, oldest first.
    pub closed spec fn keyframes(&self) -> Seq<u64> {
        self.keyframes@
    }

    /// The keyframe record is strictly increasing.
    pub open spec fn wf(&self) -> bool {
        strictly_increasing(self.keyframes())
    }

    pub fn new(max_duration_ms: u64) -> (rb: Self)
        ensures
            rb.wf(),
            rb.window_ms() == max_duration_ms,
            rb.packets() == Seq::<PacketView>::empty(),
            rb.keyframes() == Seq::<u64>::empty(),
            covered(rb.packets(), rb.keyframes()),
    {
        let rb = RingBuffer {
            max_duration_ms,
            packets: VecDeque::new(),
            keyframes: VecDeque::new(),
        };
        assert(rb.packets() =~= Seq::<PacketView>::empty());
        rb
    }

    /// Appends `packet`, then drops from the front what has fallen out of the
    /// window and the keyframes older than the new front.
    pub fn push(&mut self, packet: Packet)
        requires
            old(self).wf(),
        ensures
            final(self).wf(),
            final(self).window_ms() == old(self).window_ms(),
            final(self).packets() == evict(
                old(self).packets().push(packet@),
                old(self).window_ms(),
            ),
            final(self).packets().len() > 0,
            final(self).packets().last() == packet@,
            final(self).keyframes() == trim(
                old(self).keyframes(),
                final(self).packets()[0].pts_ms,
            ),
            span_ms(final(self).packets()) <= final(self).window_ms(),
            covered(final(self).packets(), final(self).keyframes()),
    {
        proof {
            assert(packet_views(self.packets@.push(packet)) =~= packet_views(self.packets@).push(
                packet@,
            ));
        }
        self.packets.push_back(packet);
        self.evict_old_packets();
    }

    /// Records a keyframe at `pts_ms` unless it is not later than the last one
    /// recorded.
    pub fn push_keyframe_pts(&mut self, pts_ms: u64)
        requires
            old(self).wf(),
        ensures
            final(self).wf(),
            final(self).window_ms() == old(self).window_ms(),
            final(self).packets() == old(self).packets(),
            final(self).keyframes() == record_keyframe(old(self).keyframes(), pts_ms),
    {
        let n = self.keyframes.len();
        if n == 0 || self.keyframes[n - 1] < pts_ms {
            self.keyframes.push_back(pts_ms);
        }
    }

    fn evict_old_packets(&mut self)
        requires
            old(self).wf(),
        ensures
            final(self).wf(),
            final(self).window_ms() == old(self).window_ms(),
            final(self).packets() == evict(old(self).packets(), old(self).window_ms()),
            old(self).packets().len() > 0 ==> {
                &&& final(self).packets().len() > 0
                &&& final(self).packets().last() == old(self).packets().last()
                &&& final(self).keyframes() == trim(
                    old(self).keyframes(),
                    final(self).packets()[0].pts_ms,
                )
                &&& span_ms(final(self).packets()) <= final(self).window_ms()
                &&& none_below(final(self).keyframes(), final(self).packets()[0].pts_ms)
            },
            old(self).packets().len() == 0 ==> final(self).keyframes() == old(self).keyframes(),
    {
        let count = self.packets.len();
        if count == 0 {
            return ;
        }
        let newest_pts = self.packets[count - 1].pts_ms;
        let ghost start = self.packets();
        let ghost window = self.max_duration_ms;

        while self.packets.len() > 0 && newest_pts.saturating_sub(self.packets[0].pts_ms)
            > self.max_duration_ms
            invariant
                self.max_duration_ms == window,
                self.keyframes@ == old(self).keyframes@,
                start == old(self).packets(),
                start.len() > 0,
                newest_pts == start.last().pts_ms,
                self.packets().len() > 0,
                self.packets().last() == start.last(),
                evict(start, window) == self.packets().skip(
                    stale_prefix_len(self.packets(), newest_pts, window) as int,
                ),
            decreases self.packets.len(),
        {
            let ghost before = self.packets();
            proof {
                assert(before.len() > 1) by {
                    if before.len() == 1 {
                        assert(before[0] == before.last());
                    }
                }
                assert(self.packets@.drop_first().map_values(|p: Packet| p@)
                    =~= before.drop_first());
                lemma_stale_prefix_bound(before.drop_first(), newest_pts, window);
                assert(before.skip(
                    1 + stale_prefix_len(before.drop_first(), newest_pts, window) as int,
                ) =~= before.drop_first().skip(
                    stale_prefix_len(before.drop_first(), newest_pts, window) as int,
                ));
            }
            let _ = self.packets.pop_front();
            proof {
                assert(self.packets@ =~= old(self).packets@.subrange(0, 0) + self.packets@);
            }
        }

        proof {
            assert(stale_prefix_len(self.packets(), newest_pts, window) == 0);
            assert(self.packets().skip(0) =~= self.packets());
        }

        let oldest_pts = self.packets[0].pts_ms;
        let ghost keys = self.keyframes@;

        while self.keyframes.len() > 0 && self.keyframes[0] < oldest_pts
            invariant
                self.max_duration_ms == window,
                self.packets() == evict(start, window),
                self.packets().len() > 0,
                oldest_pts == self.packets()[0].pts_ms,
                keys == old(self).keyframes@,
                strictly_increasing(self.keyframes@),
                trim(keys, oldest_pts) == self.keyframes@.skip(
                    low_prefix_len(self.keyframes@, oldest_pts) as int,
                ),
            decreases self.keyframes.len(),
        {
            let ghost before = self.keyframes@;
            proof {
                lemma_low_prefix_bound(before.drop_first(), oldest_pts);
                assert(before.skip(1 + low_prefix_len(before.drop_first(), oldest_pts) as int)
                    =~= before.drop_first().skip(
                    low_prefix_len(before.drop_first(), oldest_pts) as int,
                ));
            }
            let _ = self.keyframes.pop_front();
            proof {
                assert(self.keyframes@ =~= before.drop_first());
            }
        }

        proof {
            assert(low_prefix_len(self.keyframes@, oldest_pts) == 0);
            assert(self.keyframes@.skip(0) =~= self.keyframes@);
        }
    }

    /// Copies of the buffered packets, oldest first.
    pub fn snapshot(&self) -> (out: Vec<Packet>)
        ensures
            packet_views(out@) == self.packets(),
    {
        let mut out: Vec<Packet> = Vec::new();
        let n = self.packets.len();
        let mut i: usize = 0;
        while i < n
            invariant
                n == self.packets@.len(),
                i <= n,
                packet_views(out@) == self.packets().take(i as int),
            decreases n - i,
        {
            let copy = self.packets[i].clone();
            proof {
                assert(copy@ == self.packets@[i as int]@);
                assert(packet_views(self.packets@)[i as int] == self.packets@[i as int]@);
                assert(packet_views(out@.push(copy)) =~= packet_views(out@).push(copy@));
                assert(packet_views(out@.push(copy)) =~= self.packets().take(i + 1));
            }
            out.push(copy);
            i = i + 1;
        }
        proof {
            assert(self.packets().take(n as int) =~= self.packets());
        }
        out
    }

    /// The recorded keyframe timestamps, oldest first.
    pub fn keyframe_timestamps(&self) -> (out: Vec<u64>)
        ensures
            out@ == self.keyframes(),
    {
        let mut out: Vec<u64> = Vec::new();
        let n = self.keyframes.len();
        let mut i: usize = 0;
        while i < n
            invariant
                n == self.keyframes@.len(),
                i <= n,
                out@ == self.keyframes@.take(i as int),
            decreases n - i,
        {
            let ts = self.keyframes[i];
            proof {
                assert(out@.push(ts) =~= self.keyframes@.take(i + 1));
            }
            out.push(ts);
            i = i + 1;
        }
        proof {
            assert(self.keyframes@.take(n as int) =~= self.keyframes@);
        }
        out
    }

    pub fn len(&self) -> (n: usize)
        ensures
            n == self.packets().len(),
    {
        self.packets.len()
    }

    pub fn is_empty(&self) -> (empty: bool)
        ensures
            empty == (self.packets().len() == 0),
    {
        self.packets.len() == 0
    }

    /// Distance from the oldest to the newest buffered packet.
    pub fn duration_ms(&self) -> (d: u64)
        ensures
            d == span_ms(self.packets()),
    {
        let n = self.packets.len();
        if n == 0 {
            0
        } else {
            self.packets[n - 1].pts_ms.saturating_sub(self.packets[0].pts_ms)
        }
    }

    /// Empties the buffer and hands out the packets of a clip.
    pub fn drain_from_keyframe(&mut self) -> (out: Vec<Packet>)
        requires
            old(self).wf(),
        ensures
            final(self).wf(),
            final(self).window_ms() == old(self).window_ms(),
            final(self).packets() == Seq::<PacketView>::empty(),
            final(self).keyframes() == Seq::<u64>::empty(),
            covered(final(self).packets(), final(self).keyframes()),
            packet_views(out@) == clip_of(old(self).packets(), old(self).keyframes()),
    {
        let n = self.packets.len();
        let from_keyframe = self.keyframes.len() > 0 && n > 0 && self.packets[n - 1].pts_ms
            >= self.keyframes[0];
        let start: u64 = if from_keyframe {
            self.keyframes[0]
        } else {
            0
        };
        let ghost all = self.packets();
        let mut out: Vec<Packet> = Vec::new();
        let mut taken: usize = 0;
        while self.packets.len() > 0
            invariant
                self.max_duration_ms == old(self).max_duration_ms,
                all == old(self).packets(),
                n == all.len(),
                taken <= n,
                self.packets() == all.skip(taken as int),
                from_keyframe ==> packet_views(out@) == all.take(taken as int).filter(
                    at_or_after(start),
                ),
                !from_keyframe ==> packet_views(out@) == all.take(taken as int),
            decreases self.packets.len(),
        {
            let ghost rest = self.packets@;
            let front = self.packets.pop_front();
            match front {
                Some(packet) => {
                    proof {
                        assert(packet == rest[0]);
                        assert(packet_views(rest) == all.skip(taken as int));
                        assert(packet_views(rest)[0] == rest[0]@);
                        assert(all.skip(taken as int).len() == rest.len());
                        assert(taken < n);
                        assert(all.skip(taken as int)[0] == all[taken as int]);
                        assert(packet@ == all[taken as int]);
                        assert(packet_views(self.packets@) =~= all.skip(taken + 1)) by {
                            assert(self.packets@ =~= rest.drop_first());
                            assert(packet_views(rest.drop_first()) =~= packet_views(
                                rest,
                            ).drop_first());
                        }
                        assert(all.take(taken + 1).drop_last() =~= all.take(taken as int));
                        reveal(Seq::filter);
                    }
                    if !from_keyframe || packet.pts_ms >= start {
                        proof {
                            assert(packet_views(out@.push(packet)) =~= packet_views(out@).push(
                                packet@,
                            ));
                            assert(all.take(taken + 1) =~= all.take(taken as int).push(
                                packet@,
                            ));
                        }
                        out.push(packet);
                    }
                    taken = taken + 1;
                },
                None => {},
            }
        }
        proof {
            assert(all.take(n as int) =~= all);
        }
        self.keyframes.clear();
        out
    }

    /// Drops every packet and every keyframe timestamp.
    pub fn clear(&mut self)
        ensures
            final(self).wf(),
            final(self).window_ms() == old(self).window_ms(),
            final(self).packets() == Seq::<PacketView>::empty(),
            final(self).keyframes() == Seq::<u64>::empty(),
            covered(final(self).packets(), final(self).keyframes()),
    {
        self.packets.clear();
        self.keyframes.clear();
        proof {
            assert(self.packets() =~= Seq::<PacketView>::empty());
        }
    }
}

} // verus!
