//! The progress reporter: a pure function of elapsed whole seconds, the
//! shared uploaded-byte counter, and the total size. It is called on every
//! buffered chunk, so it keeps no state of its own.

use vstd::prelude::*;
use vstd::arithmetic::div_mod::lemma_basic_div;
use vstd::arithmetic::div_mod::lemma_div_is_ordered;
use vstd::arithmetic::div_mod::lemma_div_multiples_vanish;

verus! {

/// One progress reading, recomputed on every chunk and never persisted.
#[derive(Clone, Copy, Debug, PartialEq, Eq, Structural)]
pub struct ProgressSample {
    pub uploaded_bytes: u64,
    pub total_bytes: u64,
    /// Fraction complete in thousandths, zero to one thousand.
    pub fraction_permille: u32,
    pub bytes_per_sec: u64,
    pub eta_seconds: u64,
}

/// The throughput rule: uploaded bytes divided by elapsed whole seconds,
/// the seconds floored at one so the first second never divides by zero,
/// and the rate floored at one so neither the fraction nor the ETA blows
/// up early.
pub open spec fn spec_rate(elapsed_seconds: int, uploaded: int) -> int {
    let e = if elapsed_seconds < 1 {
        1int
    } else {
        elapsed_seconds
    };
    let r = uploaded / e;
    if r < 1 {
        1int
    } else {
        r
    }
}

/// Fraction complete in thousandths; an empty file counts as complete.
pub open spec fn spec_fraction_permille(uploaded: int, total: int) -> int {
    if total == 0 {
        1000int
    } else {
        uploaded * 1000 / total
    }
}

/// Derives one progress sample. The remaining-byte estimate divides by the
/// same floored rate as the throughput.
pub fn progress_sample(elapsed_seconds: u64, uploaded_bytes: u64, total_bytes: u64) -> (r:
    ProgressSample)
    requires
        uploaded_bytes <= total_bytes,
    ensures
        r.uploaded_bytes == uploaded_bytes,
        r.total_bytes == total_bytes,
        r.bytes_per_sec == spec_rate(elapsed_seconds as int, uploaded_bytes as int),
        r.eta_seconds == (total_bytes - uploaded_bytes) / spec_rate(
            elapsed_seconds as int,
            uploaded_bytes as int,
        ),
        r.fraction_permille == spec_fraction_permille(uploaded_bytes as int, total_bytes as int),
        r.bytes_per_sec >= 1,
        r.fraction_permille <= 1000,
        uploaded_bytes == total_bytes ==> r.fraction_permille == 1000 && r.eta_seconds == 0,
{
    let e: u64 = if elapsed_seconds < 1 {
        1
    } else {
        elapsed_seconds
    };
    let r0: u64 = uploaded_bytes / e;
    let rate: u64 = if r0 < 1 {
        1
    } else {
        r0
    };
    let eta: u64 = (total_bytes - uploaded_bytes) / rate;
    let fraction: u32 = if total_bytes == 0 {
        1000
    } else {
        proof {
            assert(uploaded_bytes as int * 1000 <= total_bytes as int * 1000) by (nonlinear_arith)
                requires
                    uploaded_bytes <= total_bytes,
            ;
            lemma_div_is_ordered(
                uploaded_bytes as int * 1000,
                total_bytes as int * 1000,
                total_bytes as int,
            );
            lemma_div_multiples_vanish(1000int, total_bytes as int);
            assert(total_bytes as int * 1000 / total_bytes as int == 1000);
            assert(uploaded_bytes as int * 1000 / total_bytes as int <= 1000);
            assert(uploaded_bytes as int * 1000 >= 0) by (nonlinear_arith)
                requires
                    uploaded_bytes >= 0,
            ;
            if uploaded_bytes == total_bytes {
                assert(uploaded_bytes as int * 1000 / total_bytes as int == 1000);
            }
        }
        ((uploaded_bytes as u128 * 1000) / (total_bytes as u128)) as u32
    };
    proof {
        if uploaded_bytes == total_bytes {
            lemma_basic_div(0int, rate as int);
        }
    }
    ProgressSample {
        uploaded_bytes,
        total_bytes,
        fraction_permille: fraction,
        bytes_per_sec: rate,
        eta_seconds: eta,
    }
}

} // verus!
