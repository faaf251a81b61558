//! The input snapshot that the sampling side keeps up to date.

use vstd::prelude::*;

verus! {

/// One consistent copy of the sampled inputs. Voltages are in millivolts,
/// the current in milliamperes and temperatures in millikelvin.
#[derive(Clone, Copy, Debug, PartialEq, Eq, Structural)]
pub struct Inputs {
    /// External supply voltage.
    pub vin_mv: u32,
    /// Supercapacitor voltage.
    pub vscap_mv: u32,
    /// Input current.
    pub iin_ma: u32,
    /// The host signals that it is powered.
    pub cm_on: bool,
    /// Controller temperature.
    pub mcu_temp_mk: u32,
    /// Board temperature.
    pub pcb_temp_mk: u32,
    pub led_pwr: bool,
    pub led_active: bool,
    /// The host's main rail is good.
    pub pg_5v: bool,
    /// Level of the power button line; low while pressed.
    pub pwr_btn: bool,
    /// Level of the user button line; low while pressed.
    pub user_btn: bool,
}

impl Inputs {
    /// The snapshot before anything has been sampled: all readings zero, all
    /// signals low, both buttons released.
    pub fn new() -> (inputs: Inputs)
        ensures
            inputs == (Inputs {
                vin_mv: 0,
                vscap_mv: 0,
                iin_ma: 0,
                cm_on: false,
                mcu_temp_mk: 0,
                pcb_temp_mk: 0,
                led_pwr: false,
                led_active: false,
                pg_5v: false,
                pwr_btn: true,
                user_btn: true,
            }),
    {
        Inputs {
            vin_mv: 0,
            vscap_mv: 0,
            iin_ma: 0,
            cm_on: false,
            mcu_temp_mk: 0,
            pcb_temp_mk: 0,
            led_pwr: false,
            led_active: false,
            pg_5v: false,
            pwr_btn: true,
            user_btn: true,
        }
    }
}

/// The temperature that a reading of the board's sensor stands for, in
/// millikelvin. The upper twelve bits of the two bytes count sixteenths of
/// a degree above freezing.
pub open spec fn sensor_millikelvin(high: u8, low: u8) -> u32 {
    (((high * 256 + low) / 16) * 125 / 2 + 273_150) as u32
}

/// Computes [`sensor_millikelvin`].
pub fn pcb_temperature_mk(high: u8, low: u8) -> (temp_mk: u32)
    ensures
        temp_mk == sensor_millikelvin(high, low),
{
    let raw: u32 = ((high as u32) * 256 + (low as u32)) / 16;
    raw * 125 / 2 + 273_150
}

/// Number of samples that an averaged input looks back on.
pub const AVERAGE_SAMPLES: usize = 10;

/// A moving average over the latest samples of one input.
#[derive(Clone, Copy, Debug)]
pub struct AveragedInput {
    samples: [u32; AVERAGE_SAMPLES],
    index: usize,
    sum: u64,
    count: usize,
}

/// The sum of the given samples.
pub open spec fn sample_sum(samples: Seq<u32>) -> int
    decreases samples.len(),
{
    if samples.len() == 0 {
        0
    } else {
        sample_sum(samples.drop_last()) + samples.last()
    }
}

/// The samples after `value` has arrived: the oldest one is forgotten once
/// the window is full.
pub open spec fn window_after(window: Seq<u32>, value: u32) -> Seq<u32> {
    if window.len() < AVERAGE_SAMPLES {
        window.push(value)
    } else {
        window.drop_first().push(value)
    }
}

/// The average of the given samples, rounded down; zero without samples.
pub open spec fn window_average(window: Seq<u32>) -> u32 {
    if window.len() == 0 {
        0
    } else {
        (sample_sum(window) / (window.len() as int)) as u32
    }
}

/// Dropping the first sample lowers the sum by it.
proof fn sum_without_first(samples: Seq<u32>)
    requires
        samples.len() > 0,
    ensures
        sample_sum(samples.drop_first()) == sample_sum(samples) - samples[0],
    decreases samples.len(),
{
    if samples.len() == 1 {
        assert(samples.drop_first() =~= Seq::<u32>::empty());
        assert(samples.drop_last() =~= Seq::<u32>::empty());
    } else {
        let shorter = samples.drop_last();
        sum_without_first(shorter);
        assert(samples.drop_first().drop_last() =~= shorter.drop_first());
        assert(samples.drop_first().last() == samples.last());
        assert(shorter[0] == samples[0]);
    }
}

/// A sum of samples is at most as many times the largest 32-bit number.
proof fn sum_is_bounded(samples: Seq<u32>)
    ensures
        0 <= sample_sum(samples) <= samples.len() * 0xffff_ffff,
    decreases samples.len(),
{
    if samples.len() > 0 {
        sum_is_bounded(samples.drop_last());
    }
}

impl AveragedInput {
    /// The slot that holds the sample which arrived `age` samples before
    /// the next one is due.
    spec fn slot(self, age: int) -> int {
        (self.index + AVERAGE_SAMPLES - age) % (AVERAGE_SAMPLES as int)
    }

    #[verifier::type_invariant]
    spec fn well_formed(self) -> bool {
        &&& self.index < AVERAGE_SAMPLES
        &&& self.count <= AVERAGE_SAMPLES
        &&& self.count < AVERAGE_SAMPLES ==> self.index == self.count
        &&& self.sum == sample_sum(self.window())
    }

    /// The samples that the average looks back on, oldest first.
    pub closed spec fn window(self) -> Seq<u32> {
        Seq::new(
            self.count as nat,
            |i: int| self.samples@[self.slot(self.count as int - i)],
        )
    }

    /// An average without samples.
    pub fn new() -> (input: AveragedInput)
        ensures
            input.window() == Seq::<u32>::empty(),
    {
        let input = AveragedInput { samples: [0;AVERAGE_SAMPLES], index: 0, sum: 0, count: 0 };
        assert(input.window() =~= Seq::<u32>::empty());
        input
    }

    /// Takes in a sample.
    pub fn add_sample(&mut self, value: u32)
        ensures
            final(self).window() == window_after(old(self).window(), value),
    {
        proof {
            use_type_invariant(&*self);
            sum_is_bounded(self.window());
        }
        let ghost before = self.window();
        let ghost old_self = *self;
        let mut samples = self.samples;
        let index = self.index;
        let next_index = (index + 1) % AVERAGE_SAMPLES;
        if self.count < AVERAGE_SAMPLES {
            samples[index] = value;
            proof {
                let updated = AveragedInput {
                    samples,
                    index: next_index,
                    sum: (self.sum + value) as u64,
                    count: (self.count + 1) as usize,
                };
                let after = updated.window();
                assert(after.len() == before.len() + 1);
                assert forall|i: int| 0 <= i < before.len() implies after[i] == before[i] by {
                    assert(updated.slot(updated.count as int - i) == i);
                    assert(old_self.slot(old_self.count as int - i) == i);
                }
                assert(updated.slot(1) == old_self.index);
                assert(after =~= before.push(value));
                assert(after.drop_last() =~= before);
            }
            *self =
            AveragedInput {
                samples,
                index: next_index,
                sum: self.sum + value as u64,
                count: self.count + 1,
            };
        } else {
            let oldest = samples[index];
            proof {
                assert(old_self.slot(AVERAGE_SAMPLES as int) == old_self.index);
                assert(before[0] == oldest);
                sum_without_first(before);
                sum_is_bounded(before.drop_first());
            }
            samples[index] = value;
            proof {
                let updated = AveragedInput {
                    samples,
                    index: next_index,
                    sum: (self.sum - oldest + value) as u64,
                    count: self.count,
                };
                let after = updated.window();
                let shifted = before.drop_first();
                assert forall|i: int| 0 <= i < shifted.len() implies after[i] == shifted[i] by {
                    assert(updated.slot(updated.count as int - i) == old_self.slot(
                        old_self.count as int - (i + 1),
                    ));
                    assert(updated.slot(updated.count as int - i) != old_self.index);
                }
                assert(updated.slot(1) == old_self.index);
                assert(after =~= shifted.push(value));
                assert(after.drop_last() =~= shifted);
            }
            *self =
            AveragedInput {
                samples,
                index: next_index,
                sum: self.sum - oldest as u64 + value as u64,
                count: self.count,
            };
        }
    }

    /// The average of the samples, rounded down; zero without samples.
    pub fn average(&self) -> (mean: u32)
        ensures
            mean == window_average(self.window()),
    {
        proof {
            use_type_invariant(self);
            sum_is_bounded(self.window());
        }
        if self.count == 0 {
            0
        } else {
            let mean = self.sum / (self.count as u64);
            assert(mean <= 0xffff_ffff) by (nonlinear_arith)
                requires
                    mean == self.sum / (self.count as u64),
                    self.sum <= self.count * 0xffff_ffff,
                    self.count > 0,
            ;
            mean as u32
        }
    }
}

} // verus!
