use vstd::prelude::*;
use crate::memorybus::MemoryBus;

verus! {

/// Serial-control value that asks for a byte to be sent.
pub const SERIAL_START: u8 = 0x81;

/// Text that test programs send over the serial port, collected by the
/// trace hook; it belongs to the hook, not to the engine.
pub struct TestRomLog {
    pub message: Vec<u8>,
}

/// `pat` occurs in `text` starting at `i`.
pub open spec fn occurs_at(text: Seq<u8>, pat: Seq<u8>, i: int) -> bool {
    0 <= i && i + pat.len() <= text.len() && text.subrange(i, i + pat.len()) == pat
}

pub open spec fn contains(text: Seq<u8>, pat: Seq<u8>) -> bool {
    exists|i: int| occurs_at(text, pat, i)
}

impl TestRomLog {
    pub fn new() -> (r: TestRomLog)
        ensures
            r.message@.len() == 0,
    {
        TestRomLog { message: Vec::new() }
    }

    /// Takes the byte a program sends over the serial port, if it started
    /// a transfer, and acknowledges it by clearing the serial control.
    pub fn update_testrom_message(&mut self, bus: &mut MemoryBus)
        requires
            old(bus).wf(),
        ensures
            final(bus).wf(),
            old(bus).serial[1] == SERIAL_START ==> final(self).message@ == old(self).message@.push(old(bus).serial[0]) && final(bus).serial[1] == 0 && final(bus).serial[0] == old(bus).serial[0],
            old(bus).serial[1] != SERIAL_START ==> final(self).message@ == old(self).message@
                && *final(bus) == *old(bus),
    {
        if bus.read(0xFF02) == SERIAL_START {
            let c = bus.read(0xFF01);
            self.message.push(c);
            bus.write(0xFF02, 0);
        }
    }

    /// The collected text reports a result: it holds "Passed" or "Failed".
    pub fn should_print(&self) -> (r: bool)
        ensures
            r == (contains(self.message@, seq![80u8, 97, 115, 115, 101, 100]) || contains(
                self.message@,
                seq![70u8, 97, 105, 108, 101, 100],
            )),
    {
        let passed: Vec<u8> = vec![80u8, 97, 115, 115, 101, 100];
        let failed: Vec<u8> = vec![70u8, 97, 105, 108, 101, 100];
        assert(passed@ =~= seq![80u8, 97, 115, 115, 101, 100]);
        assert(failed@ =~= seq![70u8, 97, 105, 108, 101, 100]);
        find(&self.message, &passed) || find(&self.message, &failed)
    }
}

/// Whether `pat` occurs in `text`.
pub fn find(text: &Vec<u8>, pat: &Vec<u8>) -> (r: bool)
    ensures
        r == contains(text@, pat@),
{
    if pat.len() > text.len() {
        proof {
            assert forall|i: int| !occurs_at(text@, pat@, i) by {}
        }
        return false;
    }
    let last = text.len() - pat.len();
    let mut i: usize = 0;
    while i < last
        invariant
            last == text.len() - pat.len(),
            pat.len() <= text.len(),
            i <= last,
            forall|k: int| 0 <= k < i ==> !occurs_at(text@, pat@, k),
        decreases last - i,
    {
        if matches_at(text, pat, i) {
            return true;
        }
        i = i + 1;
    }
    let r = matches_at(text, pat, last);
    proof {
        if !r {
            assert forall|k: int| !occurs_at(text@, pat@, k) by {
                if 0 <= k && k + pat@.len() <= text@.len() {
                    assert(k <= last);
                }
            }
        }
    }
    r
}

fn matches_at(text: &Vec<u8>, pat: &Vec<u8>, i: usize) -> (r: bool)
    requires
        i + pat.len() <= text.len(),
    ensures
        r == occurs_at(text@, pat@, i as int),
{
    let mut j: usize = 0;
    while j < pat.len()
        invariant
            i + pat.len() <= text.len(),
            j <= pat.len(),
            forall|k: int| 0 <= k < j ==> text@[i + k] == pat@[k],
        decreases pat.len() - j,
    {
        if text[i + j] != pat[j] {
            proof {
                assert(text@.subrange(i as int, i + pat@.len())[j as int] != pat@[j as int]);
            }
            return false;
        }
        j = j + 1;
    }
    proof {
        assert(text@.subrange(i as int, i + pat@.len()) =~= pat@);
    }
    true
}

} // verus!
