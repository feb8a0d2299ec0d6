//! The right-stick history: the Classic Controller's right stick over the
//! last samples, newest first, from which sword swings are read.
use vstd::prelude::*;

verus! {

/// Number of samples the history keeps.
pub const RSTICK_HISTORY_LEN: usize = 120;

/// The history position of the sample that a swing is compared against.
pub const SWING_SAMPLES_AGO: usize = 6;

/// The last right-stick samples, newest at index 0; each sample is the bit
/// pattern of the two `f32` axes.
pub struct RstickHistory {
    entries: [[u32; 2]; RSTICK_HISTORY_LEN],
}

impl View for RstickHistory {
    type V = Seq<Seq<u32>>;

    closed spec fn view(&self) -> Seq<Seq<u32>> {
        Seq::new(RSTICK_HISTORY_LEN as nat, |i: int| self.entries@[i]@)
    }
}

/// The history `h` after `n` new samples have moved every entry `n` places
/// back; the first `n` entries keep their old values until they are written.
pub open spec fn shifted_back(h: Seq<Seq<u32>>, n: int) -> Seq<Seq<u32>> {
    Seq::new(h.len(), |j: int| if j >= n { h[j - n] } else { h[j] })
}

impl RstickHistory {
    /// A history of zero samples (`0.0f32` on both axes).
    pub fn new() -> (h: Self)
        ensures
            h@ == Seq::new(RSTICK_HISTORY_LEN as nat, |i: int| seq![0u32, 0u32]),
    {
        let h = RstickHistory { entries: [[0u32; 2]; RSTICK_HISTORY_LEN] };
        assert forall|i: int| 0 <= i < RSTICK_HISTORY_LEN implies h@[i] == seq![0u32, 0u32] by {
            assert(h.entries@[i]@ =~= seq![0u32, 0u32]);
        }
        assert(h@ =~= Seq::new(RSTICK_HISTORY_LEN as nat, |i: int| seq![0u32, 0u32]));
        h
    }

    /// The history holds `RSTICK_HISTORY_LEN` samples of two words each.
    pub proof fn lemma_shape(&self)
        ensures
            self@.len() == RSTICK_HISTORY_LEN,
            forall|i: int| 0 <= i < RSTICK_HISTORY_LEN ==> #[trigger] self@[i].len() == 2,
    {
    }

    /// The sample at position `i` (0 is the newest).
    pub fn get(&self, i: usize) -> (s: [u32; 2])
        requires
            i < RSTICK_HISTORY_LEN,
        ensures
            s@ == self@[i as int],
    {
        self.entries[i]
    }

    /// Moves every sample `n` places back, dropping those that fall off the
    /// end; the first `n` places keep their values.
    pub fn shift_back(&mut self, n: usize)
        ensures
            final(self)@ == shifted_back(old(self)@, n as int),
            final(self)@.len() == RSTICK_HISTORY_LEN,
            forall|j: int|
                n <= j < RSTICK_HISTORY_LEN ==> #[trigger] final(self)@[j] == old(self)@[j - n],
            forall|j: int| 0 <= j < n && j < RSTICK_HISTORY_LEN ==> #[trigger] final(self)@[j] == old(self)@[j],
    {
        let ghost h = old(self)@;
        let mut i: usize = RSTICK_HISTORY_LEN;
        while i > n
            invariant
                i <= RSTICK_HISTORY_LEN,
                n <= i || i == RSTICK_HISTORY_LEN,
                h == old(self)@,
                forall|j: int| 0 <= j < i ==> #[trigger] self.entries@[j]@ == h[j],
                forall|j: int| i <= j < RSTICK_HISTORY_LEN ==> #[trigger] self.entries@[j]@ == h[j - n],
            decreases i,
        {
            i = i - 1;
            let s = self.entries[i - n];
            self.entries[i] = s;
        }
        assert(self@ =~= shifted_back(h, n as int));
        proof {
            lemma_shifted_back_ages(h, n as int);
        }
    }

    /// Writes the sample at position `i`.
    pub fn record(&mut self, i: usize, s: [u32; 2])
        requires
            i < RSTICK_HISTORY_LEN,
        ensures
            final(self)@ == old(self)@.update(i as int, s@),
    {
        self.entries[i] = s;
        assert(self@ =~= old(self)@.update(i as int, s@));
    }
}

/// Moving back by `n >= 0` samples: every sample from position `n` on is the
/// one that stood `n` places earlier, and the first `n` keep theirs.
pub proof fn lemma_shifted_back_ages(h: Seq<Seq<u32>>, n: int)
    requires
        n >= 0,
    ensures
        shifted_back(h, n).len() == h.len(),
        forall|j: int| n <= j < h.len() ==> #[trigger] shifted_back(h, n)[j] == h[j - n],
        forall|j: int| 0 <= j < n && j < h.len() ==> #[trigger] shifted_back(h, n)[j] == h[j],
{
}

/// Two reads that move the history back by `a` and then `b` samples leave
/// every older sample where a single read of `a + b` samples puts it.
pub proof fn lemma_shifts_compose(h: Seq<Seq<u32>>, a: int, b: int)
    requires
        0 <= a,
        0 <= b,
    ensures
        shifted_back(shifted_back(h, a), b).len() == h.len(),
        forall|j: int|
            a + b <= j < h.len() ==> #[trigger] shifted_back(shifted_back(h, a), b)[j]
                == shifted_back(h, a + b)[j],
{
}

/// Moving the history back by no samples leaves it as it was.
pub proof fn lemma_shift_by_zero(h: Seq<Seq<u32>>)
    ensures
        shifted_back(h, 0) == h,
{
    assert(shifted_back(h, 0) =~= h);
}

} // verus!
