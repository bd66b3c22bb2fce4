//! Population counting for conformance runs over the simulator contract: the
//! measured bit strings of many repeated runs are tallied so a test can
//! compare the distribution against what the contract promises.

use vstd::prelude::*;

verus! {

/// Two tallies over repeated runs of one circuit: the bit strings measured
/// by the circuit itself before the tested stage, and the bit strings the
/// test's own measurements produced. Each vector has one slot per possible
/// bit string, indexed with the first measured qubit as the least
/// significant bit.
pub struct PopulationResult {
    pub circuit_measurements: Vec<u64>,
    pub test_measurements: Vec<u64>,
}

/// 2 to the `n`-th power.
pub open spec fn pow2(n: nat) -> nat
    decreases n,
{
    if n == 0 {
        1
    } else {
        2 * pow2((n - 1) as nat)
    }
}

/// Build a zeroed tally with one slot per `n`-bit string.
fn zeroed_tally(n: u64) -> (r: Vec<u64>)
    requires
        n <= 32,
    ensures
        r@ == Seq::new(pow2(n as nat), |i: int| 0u64),
{
    let mut size: u64 = 1;
    let mut k: u64 = 0;
    while k < n
        invariant
            k <= n,
            n <= 32,
            size == pow2(k as nat),
            size <= 0x100000000,
        decreases n - k,
    {
        proof {
            lemma_pow2_monotone(k as nat + 1, 32);
            lemma_pow2_32();
        }
        size = size * 2;
        k = k + 1;
    }
    let mut r: Vec<u64> = Vec::new();
    let mut i: u64 = 0;
    while i < size
        invariant
            i <= size,
            r@ =~= Seq::new(i as nat, |j: int| 0u64),
        decreases size - i,
    {
        r.push(0);
        i = i + 1;
    }
    proof {
        assert(r@ =~= Seq::new(pow2(n as nat), |i: int| 0u64));
    }
    r
}

/// Powers of two grow with the exponent.
proof fn lemma_pow2_monotone(a: nat, b: nat)
    requires
        a <= b,
    ensures
        pow2(a) <= pow2(b),
    decreases b,
{
    if a < b {
        lemma_pow2_monotone(a, (b - 1) as nat);
    }
}

/// The concrete value of the largest tally size.
proof fn lemma_pow2_32()
    ensures
        pow2(32) == 0x100000000,
{
    reveal_with_fuel(pow2, 33);
}

impl PopulationResult {
    /// Fresh zero tallies for `n_circuit_measurements`-bit circuit strings
    /// and `n_test_qubits_to_measure`-bit test strings.
    pub fn new(n_circuit_measurements: u64, n_test_qubits_to_measure: u64) -> (r: PopulationResult)
        requires
            n_circuit_measurements <= 32,
            n_test_qubits_to_measure <= 32,
        ensures
            r.circuit_measurements@ == Seq::new(pow2(n_circuit_measurements as nat), |i: int| 0u64),
            r.test_measurements@ == Seq::new(pow2(n_test_qubits_to_measure as nat), |i: int| 0u64),
    {
        PopulationResult {
            circuit_measurements: zeroed_tally(n_circuit_measurements),
            test_measurements: zeroed_tally(n_test_qubits_to_measure),
        }
    }

    /// Count one observed circuit bit string.
    pub fn add_circuit_measurements(&mut self, measurements: u64)
        requires
            measurements < old(self).circuit_measurements@.len(),
            old(self).circuit_measurements@[measurements as int] < u64::MAX,
        ensures
            final(self).circuit_measurements@ == old(self).circuit_measurements@.update(
                measurements as int,
                (old(self).circuit_measurements@[measurements as int] + 1) as u64,
            ),
            final(self).test_measurements@ == old(self).test_measurements@,
    {
        let n = self.circuit_measurements.len();
        let i = measurements as usize;
        let c = self.circuit_measurements[i];
        self.circuit_measurements.set(i, c + 1);
    }

    /// Count one observed test bit string.
    pub fn add_test_measurements(&mut self, measurements: u64)
        requires
            measurements < old(self).test_measurements@.len(),
            old(self).test_measurements@[measurements as int] < u64::MAX,
        ensures
            final(self).test_measurements@ == old(self).test_measurements@.update(
                measurements as int,
                (old(self).test_measurements@[measurements as int] + 1) as u64,
            ),
            final(self).circuit_measurements@ == old(self).circuit_measurements@,
    {
        let n = self.test_measurements.len();
        let i = measurements as usize;
        let c = self.test_measurements[i];
        self.test_measurements.set(i, c + 1);
    }
}

} // verus!
