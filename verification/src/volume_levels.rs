//! Channel volume levels of a PulseAudio device and the conversion from a
//! requested percentage to a PulseAudio volume value.
use vstd::prelude::*;

use crate::audio_output::AudioOutput;

verus! {

/// PulseAudio's "normal" volume (100%), `PA_VOLUME_NORM`.
pub const VOLUME_NORMAL: u32 = 0x10000;

/// PulseAudio's muted volume (0%), `PA_VOLUME_MUTED`.
pub const VOLUME_MUTED: u32 = 0;

/// One whole percent of the span between muted and normal volume, rounded
/// down to a whole volume unit.
pub const VOLUME_STEP: u32 = 655;

/// The volume used for every request of 150% or more: one and a half times
/// the normal volume.
pub const VOLUME_CEILING: u32 = 0x18000;

/// The most channels a PulseAudio channel volume set holds,
/// `PA_CHANNELS_MAX`.
pub const CHANNELS_MAX: u8 = 32;

/// The levels read from a channel volume set: the values of its first
/// `channels` channels.
pub open spec fn levels_of_channels(values: Seq<u32>, channels: u8) -> Seq<u32> {
    values.take(channels as int)
}

/// Levels written to a channel volume set and read back are the same levels,
/// channel by channel, for every set of at most `CHANNELS_MAX` channels.
pub proof fn lemma_channels_round_trip(levels: Seq<u32>)
    requires
        levels.len() <= CHANNELS_MAX,
    ensures
        levels_of_channels(levels, levels.len() as u8) == levels,
{
    assert(levels.take(levels.len() as int) =~= levels);
}

/// The PulseAudio volume that a request for `whole_percent` percent is turned
/// into. Below 100% each whole percent adds one step above muted; from 100%
/// on each whole percent adds one step above normal; from 150% on the volume
/// stays at the ceiling.
pub open spec fn volume_for_percent(whole_percent: nat) -> nat {
    if whole_percent < 100 {
        (VOLUME_MUTED + whole_percent * VOLUME_STEP) as nat
    } else if whole_percent < 150 {
        (VOLUME_NORMAL + (whole_percent - 100) * VOLUME_STEP) as nat
    } else {
        VOLUME_CEILING as nat
    }
}

/// Converts a requested percentage, given by its whole part, into a Pulse
/// volume value, which can be used for setting channel volumes.
pub fn percent_to_volume(whole_percent: u32) -> (volume: u32)
    ensures
        volume == volume_for_percent(whole_percent as nat),
{
    if whole_percent < 100 {
        VOLUME_MUTED + whole_percent * VOLUME_STEP
    } else if whole_percent < 150 {
        VOLUME_NORMAL + (whole_percent - 100) * VOLUME_STEP
    } else {
        VOLUME_CEILING
    }
}

/// A louder request never gives a lower volume.
pub proof fn lemma_percent_to_volume_monotonic(p: nat, q: nat)
    requires
        p <= q,
    ensures
        volume_for_percent(p) <= volume_for_percent(q),
{
    if q < 100 {
        assert(p * VOLUME_STEP <= q * VOLUME_STEP) by (nonlinear_arith)
            requires
                p <= q,
        ;
    } else if q < 150 {
        if p >= 100 {
            assert((p - 100) as nat * VOLUME_STEP <= (q - 100) as nat * VOLUME_STEP)
                by (nonlinear_arith)
                requires
                    p <= q,
                    100 <= p,
            ;
        } else {
            assert(p * VOLUME_STEP <= 99 * VOLUME_STEP) by (nonlinear_arith)
                requires
                    p <= 99,
            ;
        }
    } else {
        if p < 100 {
            assert(p * VOLUME_STEP <= 99 * VOLUME_STEP) by (nonlinear_arith)
                requires
                    p <= 99,
            ;
        } else if p < 150 {
            assert((p - 100) as nat * VOLUME_STEP <= 49 * VOLUME_STEP) by (nonlinear_arith)
                requires
                    100 <= p < 150,
            ;
        }
    }
}

/// Every request gives a volume between muted and the ceiling; 0% is muted
/// and 100% is the normal volume.
pub proof fn lemma_percent_to_volume_range(p: nat)
    ensures
        VOLUME_MUTED <= volume_for_percent(p) <= VOLUME_CEILING,
        volume_for_percent(0) == VOLUME_MUTED,
        volume_for_percent(100) == VOLUME_NORMAL,
        p >= 150 ==> volume_for_percent(p) == VOLUME_CEILING,
{
    if p < 150 {
        lemma_percent_to_volume_monotonic(p, 150);
    }
}

/// The sum of a sequence of channel volumes.
pub open spec fn sum_levels(levels: Seq<u32>) -> nat
    decreases levels.len(),
{
    if levels.len() == 0 {
        0
    } else {
        sum_levels(levels.drop_last()) + levels.last() as nat
    }
}

/// The volume of each channel of a device.
#[derive(Debug)]
pub struct VolumeLevels(Vec<u32>);

impl View for VolumeLevels {
    type V = Seq<u32>;

    closed spec fn view(&self) -> Seq<u32> {
        self.0@
    }
}

impl Clone for VolumeLevels {
    fn clone(&self) -> (res: VolumeLevels)
        ensures
            res@ == self@,
    {
        let levels = self.0.clone();
        proof {
            assert(levels@ =~= self.0@);
        }
        VolumeLevels(levels)
    }
}

impl VolumeLevels {
    /// Levels with the given channel volumes.
    pub fn new(levels: Vec<u32>) -> (res: VolumeLevels)
        ensures
            res@ == levels@,
    {
        VolumeLevels(levels)
    }

    /// The channel volumes.
    pub fn levels(&self) -> (res: &Vec<u32>)
        ensures
            res@ == self@,
    {
        &self.0
    }

    /// The number of channels.
    pub fn len(&self) -> (res: usize)
        ensures
            res == self@.len(),
    {
        self.0.len()
    }

    /// The levels of the first `channels` entries of a channel volume array.
    pub fn from_channels(values: &[u32], channels: u8) -> (res: VolumeLevels)
        requires
            channels <= values@.len(),
        ensures
            res@ == levels_of_channels(values@, channels),
    {
        let mut levels: Vec<u32> = Vec::new();
        let count: usize = channels as usize;
        let mut i: usize = 0;
        while i < count
            invariant
                count == channels,
                count <= values@.len(),
                i <= count,
                levels@ == values@.take(i as int),
            decreases count - i,
        {
            levels.push(values[i]);
            i = i + 1;
            assert(levels@ =~= values@.take(i as int));
        }
        VolumeLevels(levels)
    }

    /// What a channel volume set made from these levels holds: the number of
    /// channels, and the value of each channel in order.
    pub fn to_channels(&self) -> (res: (u8, Vec<u32>))
        requires
            self@.len() <= CHANNELS_MAX,
        ensures
            res.0 == self@.len(),
            res.1@ == self@,
    {
        let values = self.0.clone();
        proof {
            assert(values@ =~= self.0@);
        }
        (self.0.len() as u8, values)
    }

    /// The mean of the channel volumes, rounded down: their sum divided by
    /// the number of channels taken as a `u32` (that is, modulo 2^32).
    pub fn average_level(&self) -> (avg: u32)
        requires
            self@.len() % 0x1_0000_0000 != 0,
            sum_levels(self@) <= u32::MAX,
        ensures
            avg == sum_levels(self@) / (self@.len() % 0x1_0000_0000),
    {
        let n: usize = self.0.len();
        let mut total: u32 = 0;
        let mut i: usize = 0;
        while i < n
            invariant
                n == self@.len(),
                i <= n,
                sum_levels(self@) <= u32::MAX,
                total == sum_levels(self@.take(i as int)),
            decreases n - i,
        {
            proof {
                lemma_sum_prefix_le(self@, (i + 1) as int);
                assert(self@.take((i + 1) as int).drop_last() =~= self@.take(i as int));
            }
            total = total + self.0[i];
            i = i + 1;
        }
        proof {
            assert(self@.take(n as int) =~= self@);
        }
        let divisor: u32 = (n as u64 % 0x1_0000_0000u64) as u32;
        total / divisor
    }

    /// Sets every channel to the volume of the requested percentage.
    pub fn set_percent(&mut self, whole_percent: u32)
        ensures
            final(self)@.len() == old(self)@.len(),
            forall|i: int|
                0 <= i < final(self)@.len() ==> #[trigger] final(self)@[i] == volume_for_percent(
                    whole_percent as nat,
                ),
    {
        let volume = percent_to_volume(whole_percent);
        self.fill(volume);
    }

    /// Sets every channel to `volume`.
    pub fn fill(&mut self, volume: u32)
        ensures
            final(self)@.len() == old(self)@.len(),
            forall|i: int| 0 <= i < final(self)@.len() ==> #[trigger] final(self)@[i] == volume,
    {
        let n: usize = self.0.len();
        let mut i: usize = 0;
        while i < n
            invariant
                n == self@.len(),
                i <= n,
                forall|j: int| 0 <= j < i ==> #[trigger] self@[j] == volume,
            decreases n - i,
        {
            self.0.set(i, volume);
            i = i + 1;
        }
    }
}

/// The sum of a prefix never exceeds the sum of the whole sequence.
pub proof fn lemma_sum_prefix_le(levels: Seq<u32>, k: int)
    requires
        0 <= k <= levels.len(),
    ensures
        sum_levels(levels.take(k)) <= sum_levels(levels),
    decreases levels.len() - k,
{
    if k < levels.len() {
        lemma_sum_prefix_le(levels, k + 1);
        assert(levels.take(k + 1).drop_last() =~= levels.take(k));
    } else {
        assert(levels.take(k) =~= levels);
    }
}

/// An audio output together with the channel levels of each device, by
/// device name.
pub struct OutputWithLevels {
    pub inner: AudioOutput,
    pub levels: std::collections::HashMap<String, VolumeLevels>,
}

} // verus!
