use vstd::prelude::*;

verus! {

/// How far a transfer of a declared size has come.
pub struct Progress {
    total: u64,
    transferred: u64,
}

/// The whole percents of `total` that `transferred` makes up, rounded down.
pub open spec fn spec_percent(transferred: nat, total: nat) -> nat
    recommends
        total > 0,
{
    transferred * 100 / total
}

impl Progress {
    /// The declared size of the transfer, in bytes.
    pub closed spec fn spec_total(&self) -> u64 {
        self.total
    }

    /// The bytes transferred so far.
    pub closed spec fn spec_progress(&self) -> u64 {
        self.transferred
    }

    /// A transfer of `total` bytes of which none has arrived.
    pub fn new(total: u64) -> (progress: Progress)
        ensures
            progress.spec_total() == total,
            progress.spec_progress() == 0,
    {
        Progress { total, transferred: 0 }
    }

    /// The declared size of the transfer, in bytes.
    pub fn total(&self) -> (total: u64)
        ensures
            total == self.spec_total(),
    {
        self.total
    }

    /// The bytes transferred so far.
    pub fn progress(&self) -> (transferred: u64)
        ensures
            transferred == self.spec_progress(),
    {
        self.transferred
    }

    /// Counts `bytes` more bytes as transferred. The count stops at the
    /// largest number it can hold.
    pub fn incr(&mut self, bytes: usize)
        ensures
            final(self).spec_total() == old(self).spec_total(),
            final(self).spec_progress() == if old(self).spec_progress() + bytes <= u64::MAX {
                old(self).spec_progress() + bytes
            } else {
                u64::MAX as int
            },
    {
        self.transferred = self.transferred.saturating_add(bytes as u64);
    }

    /// The part of the declared size that has arrived, in whole percents
    /// rounded down. Of a declared size of zero no part can be named.
    pub fn percent(&self) -> (percent: Option<u128>)
        ensures
            self.spec_total() == 0 ==> percent is None,
            self.spec_total() > 0 ==> percent == Some(
                spec_percent(self.spec_progress() as nat, self.spec_total() as nat) as u128,
            ),
    {
        if self.total == 0 {
            None
        } else {
            let scaled: u128 = self.transferred as u128 * 100;
            Some(scaled / (self.total as u128))
        }
    }
}

/// How many characters of a file's name are shown beside its indicator on
/// a terminal that is `width` characters wide: half the width less the room
/// of the indicator itself, and none where that leaves nothing.
pub fn label_room(width: usize) -> (room: usize)
    ensures
        room == if width / 2 >= 17 {
            width / 2 - 17
        } else {
            0
        },
{
    let half = width / 2;
    if half >= 17 {
        half - 17
    } else {
        0
    }
}

/// The progress of the transfers that are in flight side by side: one
/// indicator for each, in the order in which they were added. It is the one
/// thing that such transfers share.
pub struct Aggregator {
    bars: Vec<Progress>,
}

impl Aggregator {
    /// For each indicator its declared size and the bytes counted so far.
    pub closed spec fn view(&self) -> Seq<(u64, u64)> {
        Seq::new(
            self.bars.len() as nat,
            |at: int| (self.bars[at].spec_total(), self.bars[at].spec_progress()),
        )
    }

    /// An aggregator without indicators.
    pub fn new() -> (aggregator: Aggregator)
        ensures
            aggregator@ == Seq::<(u64, u64)>::empty(),
    {
        Aggregator { bars: Vec::new() }
    }

    /// Adds an indicator for a transfer of `total` bytes and gives its
    /// number. The other indicators stay as they are.
    pub fn bar(&mut self, total: u64) -> (number: usize)
        ensures
            number == old(self)@.len(),
            final(self)@ == old(self)@.push((total, 0u64)),
    {
        let number = self.bars.len();
        self.bars.push(Progress::new(total));
        number
    }

    /// Counts `bytes` more bytes for the indicator of this number, and for
    /// no other. A number that no indicator has changes nothing.
    pub fn inc(&mut self, number: usize, bytes: usize)
        ensures
            number >= old(self)@.len() ==> final(self)@ == old(self)@,
            number < old(self)@.len() ==> final(self)@ == old(self)@.update(
                number as int,
                (
                    old(self)@[number as int].0,
                    if old(self)@[number as int].1 + bytes <= u64::MAX {
                        (old(self)@[number as int].1 + bytes) as u64
                    } else {
                        u64::MAX
                    },
                ),
            ),
    {
        if number < self.bars.len() {
            let mut bar = Progress {
                total: self.bars[number].total,
                transferred: self.bars[number].transferred,
            };
            bar.incr(bytes);
            self.bars.set(number, bar);
        }
    }

    /// The part of its declared size that the indicator of this number has
    /// counted, in whole percents rounded down; nothing for a number that no
    /// indicator has and for a declared size of zero.
    pub fn percent(&self, number: usize) -> (percent: Option<u128>)
        ensures
            number >= self@.len() || self@[number as int].0 == 0 ==> percent is None,
            number < self@.len() && self@[number as int].0 > 0 ==> percent == Some(
                spec_percent(self@[number as int].1 as nat, self@[number as int].0 as nat) as u128,
            ),
    {
        if number < self.bars.len() {
            self.bars[number].percent()
        } else {
            None
        }
    }
}

} // verus!
