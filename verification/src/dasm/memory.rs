use vstd::prelude::*;

verus! {

/// Word-addressed memory the disassembler reads from and the assembler
/// writes to: address `pc` falls in word `pc / 2`.
pub trait Memory {
    /// The memory as a sequence of 16-bit words.
    spec fn words(&self) -> Seq<u16>;

    fn read_word(&self, pc: u32) -> (w: u16)
        requires
            (pc / 2) < self.words().len(),
        ensures
            w == self.words()[(pc / 2) as int],
    ;

    /// Stores `word` at `pc` and gives back the word it replaced.
    fn write_word(&mut self, pc: u32, word: u16) -> (prev: u16)
        requires
            (pc / 2) < old(self).words().len(),
        ensures
            final(self).words() == old(self).words().update((pc / 2) as int, word),
            prev == old(self).words()[(pc / 2) as int],
    ;
}

/// `words` with `s` written over it from index `at` on.
pub open spec fn write_words(words: Seq<u16>, at: int, s: Seq<u16>) -> Seq<u16> {
    Seq::new(words.len(), |i: int| if at <= i < at + s.len() { s[i - at] } else { words[i] })
}

/// Memory held in a vector of words.
#[derive(Debug)]
pub struct MemoryVec {
    pub mem: Vec<u16>,
}

impl Memory for MemoryVec {
    open spec fn words(&self) -> Seq<u16> {
        self.mem@
    }

    fn read_word(&self, pc: u32) -> (w: u16) {
        self.mem[(pc / 2) as usize]
    }

    fn write_word(&mut self, pc: u32, word: u16) -> (prev: u16) {
        let at = (pc / 2) as usize;
        let old_word = self.mem[at];
        self.mem.set(at, word);
        old_word
    }
}

} // verus!
