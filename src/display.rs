//! Refresh-rate choices.

use vstd::prelude::*;

verus! {

/// The lowest refresh rate the utility sets, in Hz.
pub const MIN_REFRESH_RATE: u32 = 60;

pub open spec fn strictly_increasing(s: Seq<u32>) -> bool {
    forall|a: int, b: int| 0 <= a < b < s.len() ==> s[a] < s[b]
}

/// The distinct refresh rates of the display modes, in increasing order.
pub fn distinct_sorted(freqs: &Vec<u32>) -> (r: Vec<u32>)
    ensures
        strictly_increasing(r@),
        forall|x: u32| r@.contains(x) <==> freqs@.contains(x),
{
    let mut r: Vec<u32> = Vec::new();
    let mut i: usize = 0;
    while i < freqs.len()
        invariant
            i <= freqs.len(),
            strictly_increasing(r@),
            forall|x: u32| r@.contains(x) <==> freqs@.take(i as int).contains(x),
        decreases freqs.len() - i,
    {
        let f = freqs[i];
        let mut p: usize = 0;
        while p < r.len() && r[p] < f
            invariant
                p <= r.len(),
                forall|q: int| 0 <= q < p ==> r@[q] < f,
            decreases r.len() - p,
        {
            p = p + 1;
        }
        let ghost before = r@;
        if p == r.len() || r[p] != f {
            r.insert(p, f);
            assert forall|a: int, b: int| 0 <= a < b < r.len() implies r@[a] < r@[b] by {
                if b < p {
                } else if b == p {
                } else if a < p {
                    assert(r@[b] == before[b - 1]);
                } else if a == p {
                    assert(r@[b] == before[b - 1]);
                    assert(before[p as int] >= f);
                } else {
                    assert(r@[a] == before[a - 1]);
                    assert(r@[b] == before[b - 1]);
                }
            }
        }
        proof {
            let t0 = freqs@.take(i as int);
            let t1 = freqs@.take(i + 1);
            assert(t1 =~= t0.push(f));
            assert forall|x: u32| r@.contains(x) <==> t1.contains(x) by {
                if r@.contains(x) {
                    let k = choose|k: int| 0 <= k < r.len() && r@[k] == x;
                    if x != f {
                        if r.len() != before.len() {
                            if k < p {
                                assert(before[k] == x);
                            } else {
                                assert(before[k - 1] == x);
                            }
                        }
                        assert(before.contains(x));
                        assert(t0.contains(x));
                        let m = choose|m: int| 0 <= m < t0.len() && t0[m] == x;
                        assert(t1[m] == x);
                    } else {
                        assert(t1[i as int] == f);
                    }
                }
                if t1.contains(x) {
                    let m = choose|m: int| 0 <= m < t1.len() && t1[m] == x;
                    if x == f {
                        if r.len() != before.len() {
                            assert(r@[p as int] == f);
                        } else {
                            assert(r@[p as int] == f);
                        }
                    } else {
                        assert(m < i);
                        assert(t0[m] == x);
                        assert(before.contains(x));
                        let k = choose|k: int| 0 <= k < before.len() && before[k] == x;
                        if r.len() != before.len() {
                            if k < p {
                                assert(r@[k] == x);
                            } else {
                                assert(r@[k + 1] == x);
                            }
                        } else {
                            assert(r@[k] == x);
                        }
                    }
                }
            }
        }
        i = i + 1;
    }
    assert(freqs@.take(freqs.len() as int) =~= freqs@);
    r
}

/// A requested refresh rate brought into range: at least 60 Hz, and at most
/// the highest rate the display offers, which wins where the two conflict.
pub fn clamp_frequency(frequency: u32, max_frequency: u32) -> (r: u32)
    ensures
        r == if frequency < MIN_REFRESH_RATE {
            if MIN_REFRESH_RATE > max_frequency {
                max_frequency
            } else {
                MIN_REFRESH_RATE
            }
        } else if frequency > max_frequency {
            max_frequency
        } else {
            frequency
        },
{
    let mut f = frequency;
    if f < MIN_REFRESH_RATE {
        f = MIN_REFRESH_RATE;
    }
    if f > max_frequency {
        f = max_frequency;
    }
    f
}

/// The refresh rate a click of the tray item moves to: from 60 Hz to the
/// highest rate, from anything else to 60 Hz.
pub fn next_refresh_rate(current: u32, max_frequency: u32) -> (r: u32)
    ensures
        r == if current == MIN_REFRESH_RATE {
            max_frequency
        } else {
            MIN_REFRESH_RATE
        },
{
    if current == MIN_REFRESH_RATE {
        max_frequency
    } else {
        MIN_REFRESH_RATE
    }
}

} // verus!
