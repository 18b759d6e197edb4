//! The play queue and the rule that picks the next track.

use crate::file_utils::texts;
use vstd::arithmetic::div_mod::{
    lemma_fundamental_div_mod, lemma_fundamental_div_mod_converse_mod, lemma_mod_pos_bound,
};
use vstd::prelude::*;

verus! {

/// A play queue as a mathematical value.
pub struct QueueView {
    /// Paths of the queued tracks, in playing order.
    pub files: Seq<Seq<char>>,
    /// Position of the selected track in `files`; `-1` while none has been
    /// selected since the queue was filled.
    pub index: int,
}

impl QueueView {
    /// The position is the sentinel `-1` or points into the queue.
    pub open spec fn well_formed(self) -> bool {
        self.index == -1 || 0 <= self.index < self.files.len()
    }

    /// A draw that random selection can use: any position of the queue.
    /// Nothing is asked of the draw where it is not looked at.
    pub open spec fn valid_roll(self, random: bool, roll: int) -> bool {
        random && self.files.len() > 0 ==> 0 <= roll < self.files.len()
    }

    /// The position that advancing selects, if it selects one.
    ///
    /// An empty queue offers nothing. In random mode the draw is taken as it
    /// is, whatever was played before and whether or not `repeat` is set. In
    /// sequential mode the position moves one step on, starting at the front;
    /// past the last track it goes back to the front if `repeat` is set and
    /// selects nothing otherwise.
    pub open spec fn next_index(self, random: bool, repeat: bool, roll: int) -> Option<int> {
        if self.files.len() == 0 {
            None
        } else if random {
            Some(roll)
        } else if self.index + 1 < self.files.len() {
            Some(self.index + 1)
        } else if repeat {
            Some(0)
        } else {
            None
        }
    }

    /// The queue with its position moved to what advancing selects; the queue
    /// itself where advancing selects nothing.
    pub open spec fn advanced(self, random: bool, repeat: bool, roll: int) -> QueueView {
        match self.next_index(random, repeat, roll) {
            Some(i) => QueueView { index: i, ..self },
            None => self,
        }
    }

    /// The path that advancing asks the player to start, if any.
    pub open spec fn next_track(self, random: bool, repeat: bool, roll: int) -> Option<Seq<char>> {
        match self.next_index(random, repeat, roll) {
            Some(i) => Some(self.files[i]),
            None => None,
        }
    }
}

/// A queue that was just filled with `files`: nothing is selected yet.
pub open spec fn fresh_queue(files: Seq<Seq<char>>) -> QueueView {
    QueueView { files, index: -1 }
}

/// The text of a path that may be there.
pub open spec fn text_of(path: Option<String>) -> Option<Seq<char>> {
    match path {
        Some(p) => Some(p@),
        None => None,
    }
}

/// One call to advance: the modes in force at that moment, and the draw.
pub struct Advance {
    pub random: bool,
    pub repeat: bool,
    pub roll: int,
}

/// The queue after the first `n` of `steps` have advanced it in turn.
pub open spec fn advanced_through(queue: QueueView, steps: Seq<Advance>, n: nat) -> QueueView
    decreases n,
{
    if n == 0 {
        queue
    } else {
        let step = steps[n - 1];
        advanced_through(queue, steps, (n - 1) as nat).advanced(step.random, step.repeat, step.roll)
    }
}

/// One of the first `n` of `steps` selected a track.
pub open spec fn selected_within(queue: QueueView, steps: Seq<Advance>, n: nat) -> bool {
    exists|k: nat|
        k < n && (#[trigger] advanced_through(queue, steps, k)).next_index(
            steps[k as int].random,
            steps[k as int].repeat,
            steps[k as int].roll,
        ) is Some
}

/// Every draw that random mode looks at points into a queue of `len` tracks.
pub open spec fn rolls_fit(steps: Seq<Advance>, len: nat) -> bool {
    forall|k: int|
        0 <= k < steps.len() && (#[trigger] steps[k]).random && len > 0 ==> 0 <= steps[k].roll
            < len
}

/// Advancing keeps the position well formed, and never puts the sentinel
/// back: afterwards the position is `-1` exactly if it was `-1` before and
/// this call selected no track, which on an unplayed queue happens only when
/// the queue is empty.
pub proof fn lemma_advance_keeps_position(queue: QueueView, random: bool, repeat: bool, roll: int)
    requires
        queue.well_formed(),
        queue.valid_roll(random, roll),
    ensures
        queue.advanced(random, repeat, roll).well_formed(),
        queue.advanced(random, repeat, roll).files == queue.files,
        queue.advanced(random, repeat, roll).index == -1 <==> queue.index == -1
            && queue.next_index(random, repeat, roll) is None,
        queue.index == -1 ==> (queue.next_index(random, repeat, roll) is None
            <==> queue.files.len() == 0),
{
}

/// From the moment a queue is filled, through any number of calls to
/// advance under any modes: the position is `-1` exactly as long as no call
/// has selected a track, and it points into the queue from then on.
pub proof fn lemma_sentinel_until_first_selection(
    files: Seq<Seq<char>>,
    steps: Seq<Advance>,
    n: nat,
)
    requires
        n <= steps.len(),
        rolls_fit(steps, files.len()),
    ensures
        advanced_through(fresh_queue(files), steps, n).files == files,
        advanced_through(fresh_queue(files), steps, n).well_formed(),
        advanced_through(fresh_queue(files), steps, n).index == -1 <==> !selected_within(
            fresh_queue(files),
            steps,
            n,
        ),
    decreases n,
{
    let start = fresh_queue(files);
    if n > 0 {
        let m = (n - 1) as nat;
        let step = steps[m as int];
        let before = advanced_through(start, steps, m);
        lemma_sentinel_until_first_selection(files, steps, m);
        lemma_advance_keeps_position(before, step.random, step.repeat, step.roll);
        if selected_within(start, steps, m) {
            let k = choose|k: nat|
                k < m && (#[trigger] advanced_through(start, steps, k)).next_index(
                    steps[k as int].random,
                    steps[k as int].repeat,
                    steps[k as int].roll,
                ) is Some;
            assert(k < n);
            assert(selected_within(start, steps, n));
        } else if before.next_index(step.random, step.repeat, step.roll) is Some {
            assert(m < n);
            assert(selected_within(start, steps, n));
        } else {
            assert forall|k: nat| k < n implies !((#[trigger] advanced_through(
                start,
                steps,
                k,
            )).next_index(steps[k as int].random, steps[k as int].repeat, steps[k as int].roll)
                is Some) by {
                if k < m {
                } else {
                    assert(k == m);
                }
            }
        }
    }
}

/// Every one of `steps` runs in sequential mode, with `repeat` as given.
pub open spec fn all_sequential(steps: Seq<Advance>, repeat: bool) -> bool {
    forall|k: int|
        0 <= k < steps.len() ==> !(#[trigger] steps[k]).random && steps[k].repeat == repeat
}

/// Where sequential play stands after `n` calls to advance on a queue of
/// `len` tracks that was just filled: on track `n - 1` while the queue lasts;
/// after that on the last track, or with `repeat` once more round the queue.
pub open spec fn sequential_position(len: int, repeat: bool, n: int) -> int {
    if n <= 0 {
        -1
    } else if repeat {
        (n - 1) % len
    } else if n <= len {
        n - 1
    } else {
        len - 1
    }
}

/// Sequential play goes through the queue in order, one track per call. Once
/// the last track has been selected, further calls select nothing and leave
/// the position on it, unless `repeat` is set: then the queue starts over.
pub proof fn lemma_sequential_play_keeps_order(
    files: Seq<Seq<char>>,
    steps: Seq<Advance>,
    repeat: bool,
    n: nat,
)
    requires
        files.len() > 0,
        n <= steps.len(),
        all_sequential(steps, repeat),
    ensures
        advanced_through(fresh_queue(files), steps, n).files == files,
        advanced_through(fresh_queue(files), steps, n).index == sequential_position(
            files.len() as int,
            repeat,
            n as int,
        ),
        !repeat && n >= files.len() ==> forall|roll: int|
            (#[trigger] advanced_through(fresh_queue(files), steps, n).next_track(
                false,
                false,
                roll,
            )) is None,
    decreases n,
{
    if n > 0 {
        let len = files.len() as int;
        let m = (n - 1) as nat;
        lemma_sequential_play_keeps_order(files, steps, repeat, m);
        assert(!steps[m as int].random && steps[m as int].repeat == repeat);
        if repeat && m > 0 {
            let before = (m - 1) % len;
            lemma_fundamental_div_mod(m - 1, len);
            lemma_mod_pos_bound(m - 1, len);
            let q = (m - 1) / len;
            assert(len * q == q * len) by (nonlinear_arith);
            if before + 1 < len {
                lemma_fundamental_div_mod_converse_mod(m as int, len, q, before + 1);
            } else {
                assert((q + 1) * len + 0 == q * len + len) by (nonlinear_arith);
                lemma_fundamental_div_mod_converse_mod(m as int, len, q + 1, 0);
            }
        } else if repeat {
            lemma_fundamental_div_mod_converse_mod(0, len, 0, 0);
        }
    }
}

/// The queued tracks and the position of the one that was selected last.
pub struct PlayQueue {
    files: Vec<String>,
    index: i64,
}

impl View for PlayQueue {
    type V = QueueView;

    closed spec fn view(&self) -> QueueView {
        QueueView { files: texts(self.files@), index: self.index as int }
    }
}

impl PlayQueue {
    #[verifier::type_invariant]
    spec fn position_fits(&self) -> bool {
        &&& self.files@.len() <= i64::MAX
        &&& -1 <= self.index < self.files@.len()
    }

    /// An empty queue.
    pub fn new() -> (queue: PlayQueue)
        ensures
            queue@ == fresh_queue(Seq::empty()),
    {
        let queue = PlayQueue { files: Vec::new(), index: -1 };
        assert(queue@.files =~= Seq::<Seq<char>>::empty());
        queue
    }

    /// Replaces the queue by `files`, with nothing selected. A list too long
    /// for positions to be numbered is refused, and the queue stays as it is.
    pub fn replace(&mut self, files: Vec<String>) -> (taken: bool)
        ensures
            taken == (files@.len() <= i64::MAX),
            final(self)@ == if taken {
                fresh_queue(texts(files@))
            } else {
                old(self)@
            },
    {
        proof {
            use_type_invariant(&*self);
        }
        if files.len() as u64 > i64::MAX as u64 {
            return false;
        }
        self.index = -1;
        self.files = files;
        true
    }

    /// The position of the selected track, `-1` while there is none. It never
    /// points outside the queue.
    pub fn position(&self) -> (index: i64)
        ensures
            index == self@.index,
            self@.well_formed(),
    {
        proof {
            use_type_invariant(self);
        }
        self.index
    }

    /// The queued tracks, in playing order.
    pub fn files(&self) -> (files: &Vec<String>)
        ensures
            texts(files@) == self@.files,
    {
        &self.files
    }

    /// The number of queued tracks.
    pub fn len(&self) -> (len: usize)
        ensures
            len == self@.files.len(),
    {
        self.files.len()
    }

    /// Moves on to the next track, with `roll` as the draw for random mode,
    /// and returns its path. Where no track is selected the queue stays as it
    /// is and nothing is returned.
    pub fn advance(&mut self, random: bool, repeat: bool, roll: usize) -> (track: Option<String>)
        requires
            old(self)@.valid_roll(random, roll as int),
        ensures
            final(self)@ == old(self)@.advanced(random, repeat, roll as int),
            text_of(track) == old(self)@.next_track(random, repeat, roll as int),
    {
        proof {
            use_type_invariant(&*self);
        }
        let len: usize = self.files.len();
        if len == 0 {
            return None;
        }
        let next: usize;
        if random {
            next = roll;
        } else {
            let after: u64 = (self.index + 1) as u64;
            if after < len as u64 {
                next = after as usize;
            } else if repeat {
                next = 0;
            } else {
                return None;
            }
        }
        self.index = next as i64;
        Some(self.files[next].clone())
    }
}

} // verus!
