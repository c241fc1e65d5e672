//! GPU metrics provider.
//!
//! The sampler only ever sees the [`GpuProvider`] trait, so native readers stay
//! isolated and [`NoGpu`] is always a safe fallback. Every reading is optional:
//! an unavailable value is `None` (shown as "GPU N/A"), never a fake `0`. The
//! utilization's numeric type is a parameter; readers report it as a float.

use vstd::prelude::*;

verus! {

/// A single GPU reading. Each field is `None` when the underlying metric is
/// unavailable on this machine / OS.
#[derive(Debug, Clone)]
pub struct GpuSample<F> {
    /// GPU utilization, 0..=100 percent.
    pub utilization: Option<F>,
    /// GPU memory in use, in bytes.
    pub mem_used: Option<u64>,
    /// Total VRAM in bytes. `None` on unified-memory machines (no separate VRAM
    /// total).
    pub vram_total: Option<u64>,
}

/// A source of GPU samples. `&mut self` because a real provider may hold an
/// open OS handle that it reuses across ticks.
pub trait GpuProvider<F> {
    fn sample(&mut self) -> GpuSample<F>;
}

/// Fallback provider used when no GPU metrics are available. Always returns an
/// all-`None` sample.
pub struct NoGpu;

/// An all-`None` sample: no reading is available.
pub fn empty_sample<F>() -> (s: GpuSample<F>)
    ensures
        s.utilization is None,
        s.mem_used is None,
        s.vram_total is None,
{
    GpuSample { utilization: None, mem_used: None, vram_total: None }
}

impl<F> GpuProvider<F> for NoGpu {
    fn sample(&mut self) -> (s: GpuSample<F>)
        ensures
            ({
                let got: GpuSample<F> = s;
                got.utilization is None && got.mem_used is None && got.vram_total is None
            }),
    {
        empty_sample()
    }
}

/// Memory in use as reported by a signed byte counter: a negative count is not
/// a usable reading.
pub open spec fn mem_used_of(in_use_bytes: Option<i64>) -> Option<u64> {
    match in_use_bytes {
        Some(b) => if b >= 0 {
            Some(b as u64)
        } else {
            None
        },
        None => None,
    }
}

/// The sample read from one accelerator's performance counters: its
/// utilization reading and its signed in-use memory counter. `None` when
/// neither yields a usable value, so the caller moves on to the next device.
/// Unified memory has no separate VRAM total, so `vram_total` is always
/// `None`.
pub fn sample_from_counters<F>(utilization: Option<F>, in_use_bytes: Option<i64>) -> (r: Option<
    GpuSample<F>,
>)
    ensures
        r is None <==> (utilization is None && mem_used_of(in_use_bytes) is None),
        r matches Some(s) ==> {
            &&& s.utilization == utilization
            &&& s.mem_used == mem_used_of(in_use_bytes)
            &&& s.vram_total is None
        },
        in_use_bytes is Some && in_use_bytes.unwrap() >= 0 ==> {
            &&& r is Some
            &&& r.unwrap().mem_used is Some
            &&& r.unwrap().mem_used.unwrap() as int == in_use_bytes.unwrap() as int
        },
        r is Some && r.unwrap().mem_used is Some ==> {
            &&& in_use_bytes is Some
            &&& r.unwrap().mem_used.unwrap() as int == in_use_bytes.unwrap() as int
        },
{
    let mem_used = match in_use_bytes {
        Some(b) => if b >= 0 {
            Some(b as u64)
        } else {
            None
        },
        None => None,
    };
    match (utilization, mem_used) {
        (None, None) => None,
        (utilization, mem_used) => Some(GpuSample { utilization, mem_used, vram_total: None }),
    }
}

/// A usable memory counter is reported as the same number of bytes, unscaled
/// and uncut: every non-negative count `b` gives exactly `b` bytes in use, and
/// only a negative count or a missing counter gives no reading.
pub proof fn lemma_mem_used_keeps_count(in_use_bytes: Option<i64>)
    ensures
        mem_used_of(in_use_bytes) is None <==> (in_use_bytes is None || in_use_bytes.unwrap()
            < 0),
        mem_used_of(in_use_bytes) is Some ==> {
            &&& in_use_bytes is Some
            &&& mem_used_of(in_use_bytes).unwrap() as int == in_use_bytes.unwrap() as int
        },
{
}

} // verus!
