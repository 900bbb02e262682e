//! Packets, their timestamps, and the streams that a demuxer passes on.
use std::collections::BTreeSet;
use crate::time::Duration;
use vstd::prelude::*;

verus! {

/// The flag of a packet that starts a decodable run.
pub const PACKET_FLAG_KEY: i32 = 1;

/// The flag of a packet whose data is damaged.
pub const PACKET_FLAG_CORRUPT: i32 = 2;

/// The flag of a packet whose frame is not to be shown.
pub const PACKET_FLAG_DISCARD: i32 = 4;

/// The number of seconds in one tick of a stream.
#[derive(Clone, Copy, Debug, PartialEq, Eq, Structural)]
pub struct TimeBase {
    pub num: i32,
    pub den: i32,
}

impl TimeBase {
    /// The time base of a ratio; a ratio over zero counts no time.
    pub fn from_ratio(num: i32, den: i32) -> (r: Self)
        ensures
            r == (if den == 0 {
                TimeBase { num: 0, den: 1 }
            } else {
                TimeBase { num, den }
            }),
    {
        if den == 0 {
            return TimeBase { num: 0, den: 1 };
        }
        TimeBase { num, den }
    }
}

/// A number of ticks of a stream.
#[derive(Clone, Copy, Debug, PartialEq, Eq, Structural)]
pub struct PacketTimestamp {
    pub raw: i64,
    pub time_base: TimeBase,
}

impl PacketTimestamp {
    /// Whether an odd number of the three factors is below zero.
    pub open spec fn negative(self) -> bool {
        (self.raw < 0) != ((self.time_base.num < 0) != (self.time_base.den < 0))
    }

    /// Whether the timestamp lies on the media timeline at all.
    pub open spec fn on_timeline(self) -> bool {
        self.time_base.den != 0 && !self.negative()
    }

    /// The timestamp as a span from the start of the timeline; `magnitude` is the timestamp's
    /// distance from the start, rounded to whole nanoseconds.
    pub fn as_duration(self, magnitude: Duration) -> (r: Option<Duration>)
        ensures
            r == (if self.on_timeline() {
                Some(magnitude)
            } else {
                None
            }),
    {
        let negative = (self.raw < 0) != ((self.time_base.num < 0) != (self.time_base.den < 0));
        if self.time_base.den == 0 || negative {
            return None;
        }
        Some(magnitude)
    }

    /// The timestamp in nanoseconds, rounded towards zero, where it fits.
    pub fn as_nanos(self) -> (r: Option<i64>)
        ensures
            r == nanos_of_timestamp(self),
    {
        if self.time_base.den == 0 {
            return None;
        }
        let ticks: i128 = self.raw as i128;
        let num: i128 = self.time_base.num as i128;
        let den: i128 = self.time_base.den as i128;
        proof {
            lemma_product_bound(self.raw as int, self.time_base.num as int);
        }
        let product: i128 = ticks * num * 1_000_000_000;
        let size: u128 = if product < 0 {
            (-product) as u128
        } else {
            product as u128
        };
        let divisor: u128 = if den < 0 {
            (-den) as u128
        } else {
            den as u128
        };
        let quotient: u128 = size / divisor;
        if quotient != 0 && (product < 0) != (den < 0) {
            if quotient > 9_223_372_036_854_775_808 {
                None
            } else {
                Some((-(quotient as i128)) as i64)
            }
        } else if quotient > 9_223_372_036_854_775_807 {
            None
        } else {
            Some(quotient as i64)
        }
    }
}

proof fn lemma_product_bound(a: int, b: int)
    requires
        i64::MIN <= a <= i64::MAX,
        i32::MIN <= b <= i32::MAX,
    ensures
        -0x4000_0000_0000_0000_0000_0000 <= a * b <= 0x4000_0000_0000_0000_0000_0000,
{
    assert(-0x4000_0000_0000_0000_0000_0000 <= a * b <= 0x4000_0000_0000_0000_0000_0000)
        by (nonlinear_arith)
        requires
            -0x8000_0000_0000_0000 <= a <= 0x8000_0000_0000_0000,
            -0x8000_0000 <= b <= 0x8000_0000,
    ;
}

/// The size of a number.
pub open spec fn size_of_int(n: int) -> int {
    if n < 0 { -n } else { n }
}

/// A quotient rounded towards zero.
pub open spec fn toward_zero(a: int, b: int) -> int {
    let q = size_of_int(a) / size_of_int(b);
    if (a < 0) != (b < 0) { -q } else { q }
}

/// A timestamp in nanoseconds, rounded towards zero, where it fits.
pub open spec fn nanos_of_timestamp(timestamp: PacketTimestamp) -> Option<i64> {
    let nanos = toward_zero(
        timestamp.raw * timestamp.time_base.num * 1_000_000_000,
        timestamp.time_base.den as int,
    );
    if timestamp.time_base.den == 0 || nanos < i64::MIN || nanos > i64::MAX {
        None
    } else {
        Some(nanos as i64)
    }
}

/// The flags of a packet.
#[derive(Clone, Copy, Debug, PartialEq, Eq, Structural)]
pub struct PacketFlags {
    pub bits: i32,
}

impl PacketFlags {
    pub fn bits(self) -> (r: i32)
        ensures
            r == self.bits,
    {
        self.bits
    }

    pub fn is_key(self) -> (r: bool)
        ensures
            r == (self.bits & PACKET_FLAG_KEY != 0),
    {
        self.bits & PACKET_FLAG_KEY != 0
    }

    pub fn is_corrupt(self) -> (r: bool)
        ensures
            r == (self.bits & PACKET_FLAG_CORRUPT != 0),
    {
        self.bits & PACKET_FLAG_CORRUPT != 0
    }

    pub fn is_discard(self) -> (r: bool)
        ensures
            r == (self.bits & PACKET_FLAG_DISCARD != 0),
    {
        self.bits & PACKET_FLAG_DISCARD != 0
    }
}

/// The value of a timestamp field, where it is set.
pub open spec fn set_timestamp(value: i64) -> Option<i64> {
    if value == i64::MIN { None } else { Some(value) }
}

pub fn timestamp_value(value: i64) -> (r: Option<i64>)
    ensures
        r == set_timestamp(value),
{
    if value == i64::MIN {
        None
    } else {
        Some(value)
    }
}

/// A difference cut off at the ends of `i64`.
pub open spec fn cut_off(n: int) -> i64 {
    if n < i64::MIN {
        i64::MIN
    } else if n > i64::MAX {
        i64::MAX
    } else {
        n as i64
    }
}

fn cut_off_to_i64(n: i128) -> (r: i64)
    ensures
        r == cut_off(n as int),
{
    if n < i64::MIN as i128 {
        i64::MIN
    } else if n > i64::MAX as i128 {
        i64::MAX
    } else {
        n as i64
    }
}

/// Where a seek to `relative_target` lands on a timeline that starts at
/// `timeline_origin_micros`.
pub fn absolute_seek_target_micros(relative_target: i64, timeline_origin_micros: i64) -> (r: i64)
    ensures
        r == cut_off(timeline_origin_micros + relative_target),
{
    cut_off_to_i64(timeline_origin_micros as i128 + relative_target as i128)
}

/// A packet of a demuxed stream.
#[derive(Clone, Debug, PartialEq, Eq)]
pub struct Packet {
    pub stream_index: i32,
    pub flags: PacketFlags,
    /// The position in the source, below zero where it is not known.
    pub position: i64,
    /// The ticks at which the packet is shown, or `i64::MIN`.
    pub pts: i64,
    /// The ticks at which the packet is decoded, or `i64::MIN`.
    pub dts: i64,
    /// The length in ticks, zero or below where it is not known.
    pub duration: i64,
    pub time_base: Option<TimeBase>,
    pub data: Vec<u8>,
}

impl Packet {
    /// Whether the packet starts a decodable run.
    pub open spec fn key(self) -> bool {
        self.flags.bits & PACKET_FLAG_KEY != 0
    }

    /// A field moved to the timeline that starts at `origin` ticks.
    pub open spec fn shifted(value: i64, origin: i64) -> i64 {
        if value == i64::MIN { value } else { cut_off(value - origin) }
    }

    /// Moves the packet to a timeline that starts at zero. `origin` is the timeline's start in
    /// ticks of the packet's stream.
    pub fn normalize_timeline(&mut self, timeline_origin_micros: i64, origin: i64)
        ensures
            final(self).stream_index == old(self).stream_index,
            final(self).flags == old(self).flags,
            final(self).position == old(self).position,
            final(self).duration == old(self).duration,
            final(self).time_base == old(self).time_base,
            final(self).data@ == old(self).data@,
            old(self).time_base is None || timeline_origin_micros == 0 ==> final(self).pts
                == old(self).pts && final(self).dts == old(self).dts,
            old(self).time_base is Some && timeline_origin_micros != 0 ==> final(self).pts
                == Packet::shifted(old(self).pts, origin) && final(self).dts == Packet::shifted(
                old(self).dts,
                origin,
            ),
    {
        if self.time_base.is_none() || timeline_origin_micros == 0 {
            return;
        }
        if timestamp_value(self.pts).is_some() {
            self.pts = cut_off_to_i64(self.pts as i128 - origin as i128);
        }
        if timestamp_value(self.dts).is_some() {
            self.dts = cut_off_to_i64(self.dts as i128 - origin as i128);
        }
    }

    pub fn stream_index(&self) -> (r: i32)
        ensures
            r == self.stream_index,
    {
        self.stream_index
    }

    pub fn size(&self) -> (r: usize)
        ensures
            r == self.data@.len(),
    {
        self.data.len()
    }

    pub fn data(&self) -> (r: &[u8])
        ensures
            r@ == self.data@,
    {
        self.data.as_slice()
    }

    pub fn flags(&self) -> (r: PacketFlags)
        ensures
            r == self.flags,
    {
        self.flags
    }

    pub fn is_key(&self) -> (r: bool)
        ensures
            r == self.key(),
    {
        self.flags.is_key()
    }

    pub fn pos(&self) -> (r: Option<i64>)
        ensures
            r == (if self.position < 0 {
                None
            } else {
                Some(self.position)
            }),
    {
        if self.position < 0 {
            None
        } else {
            Some(self.position)
        }
    }

    pub fn raw_pts(&self) -> (r: Option<i64>)
        ensures
            r == set_timestamp(self.pts),
    {
        timestamp_value(self.pts)
    }

    pub fn raw_dts(&self) -> (r: Option<i64>)
        ensures
            r == set_timestamp(self.dts),
    {
        timestamp_value(self.dts)
    }

    pub fn raw_duration(&self) -> (r: Option<i64>)
        ensures
            r == (if self.duration <= 0 {
                None
            } else {
                Some(self.duration)
            }),
    {
        if self.duration <= 0 {
            None
        } else {
            Some(self.duration)
        }
    }

    pub fn time_base(&self) -> (r: Option<TimeBase>)
        ensures
            r == self.time_base,
    {
        self.time_base
    }

    pub fn pts(&self) -> (r: Option<PacketTimestamp>)
        ensures
            r == stamped(self.pts, self.time_base),
    {
        timestamp_in(self.pts, self.time_base)
    }

    pub fn dts(&self) -> (r: Option<PacketTimestamp>)
        ensures
            r == stamped(self.dts, self.time_base),
    {
        timestamp_in(self.dts, self.time_base)
    }
}

/// A timestamp field in its time base, where both are set.
pub open spec fn stamped(value: i64, time_base: Option<TimeBase>) -> Option<PacketTimestamp> {
    if value == i64::MIN || time_base is None {
        None
    } else {
        Some(PacketTimestamp { raw: value, time_base: time_base->0 })
    }
}

pub(crate) fn timestamp_in(value: i64, time_base: Option<TimeBase>) -> (r: Option<PacketTimestamp>)
    ensures
        r == stamped(value, time_base),
{
    match time_base {
        Some(time_base) => match timestamp_value(value) {
            Some(raw) => Some(PacketTimestamp { raw, time_base }),
            None => None,
        },
        None => None,
    }
}

fn insert_stream(streams: &mut BTreeSet<i32>, stream_index: i32)
    ensures
        final(streams)@ == old(streams)@.insert(stream_index),
{
    broadcast use vstd::std_specs::btree::group_btree_axioms;
    broadcast use vstd::laws_cmp::group_laws_cmp;

    streams.insert(stream_index);
}

fn holds_stream(streams: &BTreeSet<i32>, stream_index: i32) -> (r: bool)
    ensures
        r == streams@.contains(stream_index),
{
    broadcast use vstd::std_specs::btree::group_btree_axioms;
    broadcast use vstd::laws_cmp::group_laws_cmp;

    streams.contains(&stream_index)
}

fn listed_streams(streams: &BTreeSet<i32>) -> (r: Vec<i32>)
    ensures
        forall|s: i32| #[trigger] r@.contains(s) <==> streams@.contains(s),
{
    broadcast use vstd::laws_cmp::group_laws_cmp;
    broadcast use vstd::std_specs::btree::group_btree_axioms;

    let mut list: Vec<i32> = Vec::new();
    let ghost all = vstd::std_specs::iter::IteratorSpec::remaining(
        &vstd::std_specs::btree::spec_btree_keys_iter(streams),
    ).unref();
    assert(all.to_set() == streams@);
    for stream in it: streams.iter()
        invariant
            it.seq().unref() == all,
            list@.len() == it.index(),
            list@ == all.take(it.index()),
    {
        assert(all.take(it.index() + 1) =~= all.take(it.index()).push(*stream));
        list.push(*stream);
    }
    assert(list@ =~= all);
    assert forall|s: i32| #[trigger] list@.contains(s) <==> streams@.contains(s) by {
        assert(all.contains(s) <==> all.to_set().contains(s));
    }
    list
}

/// The streams whose packets a demuxer passes on.
#[derive(Clone, Debug, PartialEq, Eq)]
pub enum StreamSelection {
    All,
    Only(BTreeSet<i32>),
}

impl StreamSelection {
    /// Whether packets of a stream are passed on.
    pub open spec fn passes(self, stream_index: i32) -> bool {
        match self {
            StreamSelection::All => true,
            StreamSelection::Only(streams) => streams@.contains(stream_index),
        }
    }

    pub fn all() -> (r: Self)
        ensures
            r == StreamSelection::All,
            forall|i: i32| r.passes(i),
    {
        StreamSelection::All
    }

    pub fn only(stream_indices: Vec<i32>) -> (r: Self)
        ensures
            r is Only,
            forall|i: i32| #[trigger] r.passes(i) <==> stream_indices@.contains(i),
    {
        let mut streams: BTreeSet<i32> = BTreeSet::new();
        assert(stream_indices@.subrange(0, 0) =~= Seq::empty());
        let mut i: usize = 0;
        while i < stream_indices.len()
            invariant
                i <= stream_indices@.len(),
                forall|s: i32| #[trigger] streams@.contains(s) <==> stream_indices@.subrange(
                    0,
                    i as int,
                ).contains(s),
            decreases stream_indices@.len() - i,
        {
            let next: i32 = stream_indices[i];
            let ghost before = streams@;
            insert_stream(&mut streams, next);
            proof {
                let seen = stream_indices@.subrange(0, i as int);
                let seen_next = stream_indices@.subrange(0, i + 1);
                assert(seen_next =~= seen.push(next));
                assert(seen_next[i as int] == next);
                assert forall|s: i32| #[trigger] streams@.contains(s) <==> seen_next.contains(s) by {
                    if seen.contains(s) {
                        let k = choose|k: int| 0 <= k < seen.len() && seen[k] == s;
                        assert(seen_next[k] == s);
                    }
                    if seen_next.contains(s) && s != next {
                        let k = choose|k: int| 0 <= k < seen_next.len() && seen_next[k] == s;
                        assert(seen[k] == s);
                    }
                }
            }
            i = i + 1;
        }
        assert(stream_indices@.subrange(0, stream_indices@.len() as int) =~= stream_indices@);
        StreamSelection::Only(streams)
    }

    /// The streams that are named, in no particular order; none where every stream passes.
    pub fn named_streams(&self) -> (r: Option<Vec<i32>>)
        ensures
            r is None <==> self is All,
            r is Some ==> forall|s: i32| #[trigger] r->0@.contains(s) <==> self.passes(s),
    {
        match self {
            StreamSelection::All => None,
            StreamSelection::Only(streams) => Some(listed_streams(streams)),
        }
    }

    pub fn duplicate(&self) -> (r: Self)
        ensures
            self is All ==> r is All,
            self is Only ==> r is Only,
            forall|s: i32| #[trigger] r.passes(s) <==> self.passes(s),
    {
        match self {
            StreamSelection::All => StreamSelection::All,
            StreamSelection::Only(streams) => StreamSelection::only(listed_streams(streams)),
        }
    }

    pub fn accepts(&self, stream_index: i32) -> (r: bool)
        ensures
            r == self.passes(stream_index),
    {
        match self {
            StreamSelection::All => true,
            StreamSelection::Only(streams) => holds_stream(streams, stream_index),
        }
    }
}

/// Moving a packet to a timeline that starts at zero keeps the distance of any two timestamps
/// that stay within range.
pub proof fn law_normalizing_keeps_distances(a: i64, b: i64, origin: i64)
    requires
        a != i64::MIN,
        b != i64::MIN,
        i64::MIN <= a - origin <= i64::MAX,
        i64::MIN <= b - origin <= i64::MAX,
    ensures
        Packet::shifted(a, origin) - Packet::shifted(b, origin) == a - b,
{
}

/// Seeking to a position relative to the start of the timeline and moving the packet that is
/// found there back to a timeline that starts at zero gives the position.
pub proof fn law_seek_and_normalize_are_inverse(relative_target: i64, origin: i64)
    requires
        i64::MIN < origin + relative_target <= i64::MAX,
    ensures
        Packet::shifted(cut_off(origin + relative_target), origin) == relative_target,
{
}

/// The nanoseconds of a timestamp are the whole ones: their product with the divisor of the time base
/// comes closest to the ticks from below.
pub proof fn law_nanoseconds_are_rounded_down(timestamp: PacketTimestamp)
    requires
        timestamp.raw >= 0,
        timestamp.time_base.num >= 0,
        timestamp.time_base.den > 0,
    ensures
        ({
            let ticks = timestamp.raw * timestamp.time_base.num * 1_000_000_000;
            let den = timestamp.time_base.den as int;
            match nanos_of_timestamp(timestamp) {
                Some(nanos) => nanos >= 0 && nanos * den <= ticks < (nanos + 1) * den,
                None => ticks >= (i64::MAX + 1) * den,
            }
        }),
        timestamp.on_timeline(),
{
    let product = timestamp.raw * timestamp.time_base.num;
    assert(product >= 0) by (nonlinear_arith)
        requires
            product == timestamp.raw * timestamp.time_base.num,
            timestamp.raw >= 0,
            timestamp.time_base.num >= 0,
    ;
    let ticks = product * 1_000_000_000;
    let den = timestamp.time_base.den as int;
    let q = ticks / den;
    assert(q >= 0 && q * den <= ticks && ticks < (q + 1) * den) by (nonlinear_arith)
        requires
            ticks >= 0,
            den > 0,
            q == ticks / den,
    ;
    if q > i64::MAX {
        assert(ticks >= (i64::MAX + 1) * den) by (nonlinear_arith)
            requires
                q * den <= ticks,
                q >= i64::MAX + 1,
                den > 0,
        ;
    }
}

/// A timestamp before the start of the timeline mirrors the one behind it.
pub proof fn law_the_timeline_is_symmetric(raw: i64, time_base: TimeBase)
    requires
        raw > i64::MIN,
        time_base.num > 0,
        time_base.den > 0,
    ensures
        ({
            let ahead = nanos_of_timestamp(PacketTimestamp { raw, time_base });
            let behind = nanos_of_timestamp(PacketTimestamp { raw: (-raw) as i64, time_base });
            ahead is Some && behind is Some ==> behind->0 == -ahead->0
        }),
        (PacketTimestamp { raw, time_base }).on_timeline() <==> raw >= 0,
{
    let num = time_base.num as int;
    assert((-raw) * num * 1_000_000_000 == -(raw * num * 1_000_000_000)) by (nonlinear_arith);
    assert(raw < 0 ==> raw * num < 0) by (nonlinear_arith)
        requires
            num > 0,
    ;
    assert(raw > 0 ==> raw * num > 0) by (nonlinear_arith)
        requires
            num > 0,
    ;
    assert(raw == 0 ==> raw * num == 0) by (nonlinear_arith);
}

/// A time that is not set stays unset, and one that is set moves by the origin, as far as the type
/// reaches.
pub proof fn law_only_set_times_are_moved(value: i64, origin: i64, time_base: Option<TimeBase>)
    ensures
        Packet::shifted(i64::MIN, origin) == i64::MIN,
        value != i64::MIN && i64::MIN <= value - origin <= i64::MAX ==> Packet::shifted(
            value,
            origin,
        ) == value - origin,
        value != i64::MIN && value - origin > i64::MAX ==> Packet::shifted(value, origin)
            == i64::MAX,
        set_timestamp(value) == (if value == i64::MIN { None } else { Some(value) }),
        stamped(value, time_base) is Some <==> (value != i64::MIN && time_base is Some),
        stamped(value, time_base) is Some ==> stamped(value, time_base)->0.raw == value && stamped(
            value,
            time_base,
        )->0.time_base == time_base->0,
{
}

/// A packet is a key packet exactly when its lowest flag is set.
pub proof fn law_the_lowest_flag_marks_a_key(packet: Packet)
    ensures
        packet.key() <==> packet.flags.bits % 2 == 1,
{
    let bits = packet.flags.bits;
    assert((bits & 1 != 0) == (bits % 2 == 1)) by (bit_vector);
}

/// All streams pass where none was chosen, else the chosen ones and no other.
pub proof fn law_chosen_streams_pass(streams: BTreeSet<i32>, stream_index: i32)
    ensures
        StreamSelection::All.passes(stream_index),
        StreamSelection::Only(streams).passes(stream_index) <==> streams@.contains(stream_index),
{
}

} // verus!
