//! An infinite-in-spirit producer driven once per value: yields the Fibonacci
//! numbers `0, 1, 1, 2, 3, ...` for a requested number of steps, then
//! completes with a closing message.

use vstd::prelude::*;

use crate::coroutine::CoroutineState;

verus! {

/// The Fibonacci numbers.
pub open spec fn fib(n: nat) -> nat
    decreases n,
{
    if n == 0 {
        0
    } else if n == 1 {
        1
    } else {
        fib((n - 2) as nat) + fib((n - 1) as nat)
    }
}

/// Fibonacci numbers never shrink as the index grows.
pub proof fn lemma_fib_nondecreasing(i: nat, j: nat)
    requires
        i <= j,
    ensures
        fib(i) <= fib(j),
    decreases j - i,
{
    if i < j {
        lemma_fib_nondecreasing(i, (j - 1) as nat);
    }
}

/// `fib(93)` is the largest Fibonacci number a `u64` can hold.
pub proof fn lemma_fib_93_fits_u64()
    ensures
        fib(93) == 12200160415121876738,
{
    assert(fib(0) == 0) by {
        reveal_with_fuel(fib, 1);
    }
    assert(fib(1) == 1) by {
        reveal_with_fuel(fib, 1);
    }
    assert(fib(93) == 12200160415121876738) by {
        reveal_with_fuel(fib, 2);
        assert(fib(2) == 1);
        assert(fib(3) == 2);
        assert(fib(4) == 3);
        assert(fib(5) == 5);
        assert(fib(6) == 8);
        assert(fib(7) == 13);
        assert(fib(8) == 21);
        assert(fib(9) == 34);
        assert(fib(10) == 55);
        assert(fib(11) == 89);
        assert(fib(12) == 144);
        assert(fib(13) == 233);
        assert(fib(14) == 377);
        assert(fib(15) == 610);
        assert(fib(16) == 987);
        assert(fib(17) == 1597);
        assert(fib(18) == 2584);
        assert(fib(19) == 4181);
        assert(fib(20) == 6765);
        assert(fib(21) == 10946);
        assert(fib(22) == 17711);
        assert(fib(23) == 28657);
        assert(fib(24) == 46368);
        assert(fib(25) == 75025);
        assert(fib(26) == 121393);
        assert(fib(27) == 196418);
        assert(fib(28) == 317811);
        assert(fib(29) == 514229);
        assert(fib(30) == 832040);
        assert(fib(31) == 1346269);
        assert(fib(32) == 2178309);
        assert(fib(33) == 3524578);
        assert(fib(34) == 5702887);
        assert(fib(35) == 9227465);
        assert(fib(36) == 14930352);
        assert(fib(37) == 24157817);
        assert(fib(38) == 39088169);
        assert(fib(39) == 63245986);
        assert(fib(40) == 102334155);
        assert(fib(41) == 165580141);
        assert(fib(42) == 267914296);
        assert(fib(43) == 433494437);
        assert(fib(44) == 701408733);
        assert(fib(45) == 1134903170);
        assert(fib(46) == 1836311903);
        assert(fib(47) == 2971215073);
        assert(fib(48) == 4807526976);
        assert(fib(49) == 7778742049);
        assert(fib(50) == 12586269025);
        assert(fib(51) == 20365011074);
        assert(fib(52) == 32951280099);
        assert(fib(53) == 53316291173);
        assert(fib(54) == 86267571272);
        assert(fib(55) == 139583862445);
        assert(fib(56) == 225851433717);
        assert(fib(57) == 365435296162);
        assert(fib(58) == 591286729879);
        assert(fib(59) == 956722026041);
        assert(fib(60) == 1548008755920);
        assert(fib(61) == 2504730781961);
        assert(fib(62) == 4052739537881);
        assert(fib(63) == 6557470319842);
        assert(fib(64) == 10610209857723);
        assert(fib(65) == 17167680177565);
        assert(fib(66) == 27777890035288);
        assert(fib(67) == 44945570212853);
        assert(fib(68) == 72723460248141);
        assert(fib(69) == 117669030460994);
        assert(fib(70) == 190392490709135);
        assert(fib(71) == 308061521170129);
        assert(fib(72) == 498454011879264);
        assert(fib(73) == 806515533049393);
        assert(fib(74) == 1304969544928657);
        assert(fib(75) == 2111485077978050);
        assert(fib(76) == 3416454622906707);
        assert(fib(77) == 5527939700884757);
        assert(fib(78) == 8944394323791464);
        assert(fib(79) == 14472334024676221);
        assert(fib(80) == 23416728348467685);
        assert(fib(81) == 37889062373143906);
        assert(fib(82) == 61305790721611591);
        assert(fib(83) == 99194853094755497);
        assert(fib(84) == 160500643816367088);
        assert(fib(85) == 259695496911122585);
        assert(fib(86) == 420196140727489673);
        assert(fib(87) == 679891637638612258);
        assert(fib(88) == 1100087778366101931);
        assert(fib(89) == 1779979416004714189);
        assert(fib(90) == 2880067194370816120);
        assert(fib(91) == 4660046610375530309);
        assert(fib(92) == 7540113804746346429);
        assert(fib(93) == 12200160415121876738);
    }
}

/// The suspended state of the Fibonacci producer: `current` and `upcoming`
/// hold the pair of consecutive Fibonacci numbers around the suspension point.
pub struct FibonacciCoroutine {
    count: usize,
    steps: usize,
    current: u64,
    upcoming: u64,
    done: bool,
}

impl FibonacciCoroutine {
    /// The state is exactly what a suspended Fibonacci computation holds after
    /// `steps` resumes.
    pub closed spec fn wf(self) -> bool {
        &&& self.count <= 92
        &&& self.steps <= self.count
        &&& self.current == fib(self.steps as nat)
        &&& self.upcoming == fib(self.steps as nat + 1)
        &&& self.done ==> self.steps == self.count
    }

    pub closed spec fn spec_count(self) -> usize {
        self.count
    }

    pub closed spec fn spec_steps(self) -> usize {
        self.steps
    }

    pub closed spec fn spec_done(self) -> bool {
        self.done
    }

    /// Drive the producer one step. While fewer than `count` values have been
    /// produced it yields the next Fibonacci number; the resume after the last
    /// yield completes with the closing message. Resuming after completion is
    /// a protocol violation and is ruled out statically.
    pub fn resume(&mut self) -> (r: CoroutineState<u64, &'static str>)
        requires
            old(self).wf(),
            !old(self).spec_done(),
        ensures
            final(self).wf(),
            final(self).spec_count() == old(self).spec_count(),
            old(self).spec_steps() < old(self).spec_count() ==> {
                &&& r matches CoroutineState::Yielded(v) && v == fib(old(self).spec_steps() as nat)
                &&& final(self).spec_steps() == old(self).spec_steps() + 1
                &&& !final(self).spec_done()
            },
            old(self).spec_steps() == old(self).spec_count() ==> {
                &&& r matches CoroutineState::Completed(m) && m@ == "Fibonacci sequence complete"@
                &&& final(self).spec_done()
            },
    {
        if self.steps == self.count {
            self.done = true;
            CoroutineState::Completed("Fibonacci sequence complete")
        } else {
            let value = self.current;
            proof {
                lemma_fib_93_fits_u64();
                lemma_fib_nondecreasing(self.steps as nat + 2, 93);
            }
            let sum = self.current + self.upcoming;
            self.current = self.upcoming;
            self.upcoming = sum;
            self.steps = self.steps + 1;
            CoroutineState::Yielded(value)
        }
    }
}

/// A fresh, not-yet-started Fibonacci producer that will yield `count`
/// values. `count` is capped at 92 so that every number the computation
/// touches fits a `u64`.
pub fn fibonacci_coroutine(count: usize) -> (r: FibonacciCoroutine)
    requires
        count <= 92,
    ensures
        r.wf(),
        r.spec_count() == count,
        r.spec_steps() == 0,
        !r.spec_done(),
{
    FibonacciCoroutine { count, steps: 0, current: 0, upcoming: 1, done: false }
}

} // verus!
