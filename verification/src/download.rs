//! The bookkeeping around downloads: the queue of links that come in, the
//! history of the total bandwidth, and what each download needs at each frame.

use vstd::prelude::*;

verus! {

/// What to do once a download is complete.
#[derive(Debug, Clone, Copy, PartialEq, Eq, Structural)]
pub enum Actions {
    Nothing,
    Reboot,
    Shutdown,
    Open,
}

impl Default for Actions {
    fn default() -> (r: Self)
        ensures
            r == Actions::Nothing,
    {
        Actions::Nothing
    }
}

/// Taking the items of a list from the front, one at a time.
pub trait ConsumingIterator<T> {
    fn next(&mut self) -> Option<T>;
}

impl<T> ConsumingIterator<T> for Vec<T> {
    /// Removes and returns the first item; `None` when the list is empty.
    fn next(&mut self) -> (r: Option<T>)
        ensures
            old(self)@.len() == 0 ==> r is None && final(self)@ == old(self)@,
            old(self)@.len() > 0 ==> r == Some(old(self)@[0]) && final(self)@ == old(self)@.drop_first(),
    {
        if self.len() > 0 {
            let x = self.remove(0);
            assert(self@ =~= old(self)@.drop_first());
            Some(x)
        } else {
            None
        }
    }
}

/// How many samples of the total bandwidth are kept.
pub const HISTORY_LIMIT: usize = 100;

/// The sum of a list of speeds.
pub open spec fn sum(s: Seq<usize>) -> nat
    decreases s.len(),
{
    if s.len() == 0 {
        0
    } else {
        sum(s.drop_last()) + s.last() as nat
    }
}

/// The history after recording `total`: appended at the end, and the oldest sample
/// dropped when the history would otherwise exceed `HISTORY_LIMIT` samples.
pub open spec fn recorded(history: Seq<usize>, total: usize) -> Seq<usize> {
    let h = history.push(total);
    if h.len() > HISTORY_LIMIT {
        h.drop_first()
    } else {
        h
    }
}

/// The total bandwidth of all downloads and its recent history.
pub struct Bandwidth {
    pub total_bandwidth: usize,
    pub history: Vec<usize>,
}

impl Default for Bandwidth {
    fn default() -> (r: Self)
        ensures
            r.total_bandwidth == 0,
            r.history@ == Seq::<usize>::empty(),
    {
        Bandwidth { total_bandwidth: 0, history: Vec::new() }
    }
}

/// Adds up the speeds of all downloads.
pub fn total_speed(speeds: &Vec<usize>) -> (r: usize)
    requires
        sum(speeds@) <= usize::MAX,
    ensures
        r == sum(speeds@),
{
    let n = speeds.len();
    let mut acc: usize = 0;
    let mut i: usize = 0;
    while i < n
        invariant
            n == speeds@.len(),
            i <= n,
            acc == sum(speeds@.subrange(0, i as int)),
            sum(speeds@) <= usize::MAX,
        decreases n - i,
    {
        proof {
            assert(speeds@.subrange(0, i + 1).drop_last() =~= speeds@.subrange(0, i as int));
            lemma_sum_prefix_le(speeds@, i + 1);
        }
        acc = acc + speeds[i];
        i = i + 1;
    }
    assert(speeds@.subrange(0, n as int) =~= speeds@);
    acc
}

/// The sum of a prefix is at most the sum of the whole.
proof fn lemma_sum_prefix_le(s: Seq<usize>, k: int)
    requires
        0 <= k <= s.len(),
    ensures
        sum(s.subrange(0, k)) <= sum(s),
    decreases s.len() - k,
{
    if k < s.len() {
        lemma_sum_prefix_le(s, k + 1);
        assert(s.subrange(0, k + 1).drop_last() =~= s.subrange(0, k));
    } else {
        assert(s.subrange(0, k) =~= s);
    }
}

impl Bandwidth {
    /// Sets the total to the sum of the speeds and records it in the history.
    pub fn set_total(&mut self, speeds: &Vec<usize>)
        requires
            sum(speeds@) <= usize::MAX,
        ensures
            final(self).total_bandwidth == sum(speeds@),
            final(self).history@ == recorded(old(self).history@, final(self).total_bandwidth),
    {
        self.total_bandwidth = total_speed(speeds);
        self.update_history();
    }

    /// Records the current total in the history.
    pub fn update_history(&mut self)
        ensures
            final(self).total_bandwidth == old(self).total_bandwidth,
            final(self).history@ == recorded(old(self).history@, old(self).total_bandwidth),
    {
        self.history.push(self.total_bandwidth);
        if self.history.len() > HISTORY_LIMIT {
            self.history.remove(0);
            assert(self.history@ =~= old(self).history@.push(old(self).total_bandwidth).drop_first());
        }
    }
}

/// The history never holds more than `HISTORY_LIMIT` samples once it starts within that
/// bound, and the newest sample is the total just recorded.
pub proof fn law_history_bounded(history: Seq<usize>, total: usize)
    requires
        history.len() <= HISTORY_LIMIT,
    ensures
        recorded(history, total).len() <= HISTORY_LIMIT,
        recorded(history, total).last() == total,
        recorded(history, total).len() == if history.len() < HISTORY_LIMIT { history.len() + 1 } else { HISTORY_LIMIT as nat },
{
}

} // verus!
