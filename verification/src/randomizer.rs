//! Piece randomizers: infinite streams of piece identities with a
//! bounded preview buffer.
//!
//! All variants share `preview` and `next`; they differ only in how a
//! fresh piece is generated.  Randomness comes from a [`Rng`] value,
//! which either draws from the process entropy source or advances a
//! deterministic seeded generator, so a seeded randomizer is fully
//! reproducible.

use vstd::prelude::*;
use vstd::pervasive::VecAdditionalExecFns;
use vstd::multiset::Multiset;
use vstd::seq_lib::group_to_multiset_ensures;

use crate::block::Id;
use crate::Error;

verus! {

/// A source of bounded random draws: either the process entropy source
/// or a small deterministic linear-congruential generator.
#[derive(Clone, Copy, Debug)]
pub struct Rng {
    /// Draw from the thread's entropy source instead of the seeded state.
    thread: bool,
    /// The state of the seeded generator.
    state: u32,
}

/// Relies on `rand::thread_rng` and `rand::Rng::gen_range`: a uniform
/// draw from `0..n`, which is always below `n`.
#[verifier::external_body]
fn thread_below(n: u32) -> (r: u32)
    requires
        1 <= n,
    ensures
        r < n,
{
    rand::Rng::gen_range(&mut rand::thread_rng(), 0..n)
}

impl Rng {
    /// A generator backed by the process entropy source.
    pub fn from_entropy() -> Rng {
        Rng { thread: true, state: 0 }
    }

    /// A deterministic generator with the given seed.
    pub fn from_seed(seed: u32) -> Rng {
        Rng { thread: false, state: seed }
    }

    /// Draw a value below `n`.
    pub fn below(&mut self, n: u32) -> (r: u32)
        requires
            1 <= n,
        ensures
            r < n,
    {
        if self.thread {
            thread_below(n)
        } else {
            let s: u64 = self.state as u64;
            let next: u64 = (1664525u64 * s + 1013904223u64) % 0x1_0000_0000u64;
            self.state = next as u32;
            let bits: u64 = next >> 16;
            (bits % (n as u64)) as u32
        }
    }
}

/// The piece identity at a given index of the variant list is real.
pub(crate) proof fn lemma_variants_real(i: int)
    requires
        0 <= i < 7,
    ensures
        Id::variants_spec()[i] != Id::Empty,
{
    lemma_variants_nonempty();
}

/// Each of the seven listed piece identities is a real piece.
proof fn lemma_variants_nonempty()
    ensures
        forall|i: int| 0 <= i < 7 ==> #[trigger] Id::variants_spec()[i] != Id::Empty,
{
    let v = Id::variants_spec();
    assert forall|i: int| 0 <= i < 7 implies #[trigger] v[i] != Id::Empty by {
        if i == 0 {
            assert(v[0] == Id::I);
        } else if i == 1 {
            assert(v[1] == Id::T);
        } else if i == 2 {
            assert(v[2] == Id::L);
        } else if i == 3 {
            assert(v[3] == Id::J);
        } else if i == 4 {
            assert(v[4] == Id::S);
        } else if i == 5 {
            assert(v[5] == Id::Z);
        } else {
            assert(v[6] == Id::O);
        }
    }
}

/// The multiset holding each of the seven piece identities once.
pub open spec fn full_bag() -> Multiset<Id> {
    Id::variants_spec().to_multiset()
}

/// The variant-specific generation rule of a randomizer.
#[derive(Clone, Copy, Debug, Hash, PartialEq, Eq, Structural)]
pub enum RandomizerKind {
    /// A shuffled 7-piece bag, reshuffled when exhausted.
    Bag,
    /// A uniform choice on every draw.
    Memoryless,
    /// The Gameboy stepping rule over the previous index.
    Gameboy,
    /// History-of-4 with rerolls, history seeded with Z.
    Tgm1,
    /// History-of-4 with rerolls, history seeded with S and Z.
    Tgm2,
}

/// A piece randomizer: a generation rule, its state, and a bounded
/// lookahead buffer serving previews.
#[derive(Debug)]
pub struct Randomizer {
    /// Which generation rule this randomizer follows.
    pub kind: RandomizerKind,
    /// The maximum preview length.
    pub lookahead: usize,
    /// The buffered upcoming pieces, front first.
    pub buffer: Vec<Id>,
    /// The randomness source.
    pub rng: Rng,
    /// The bag contents (7-bag only).
    pub bag_data: Vec<Id>,
    /// The next position in the bag (7-bag only).
    pub bag_head: usize,
    /// The previous piece index (Gameboy only).
    pub prev: usize,
    /// The four most recent pieces, newest first (TGM only).
    pub history: Vec<Id>,
    /// The reroll bound for the first piece (TGM only).
    pub rolls: usize,
    /// Is the next piece the first one drawn (TGM only)?
    pub first: bool,
}


/// The gameboy stepping rule: from the previous index, a roll advances
/// by `roll / 5 + 1`, modulo the seven pieces.
pub open spec fn gb_step(prev: int, roll: int) -> int {
    (prev + roll / 5 + 1) % 7
}

/// What one fresh draw does to a randomizer, stated over every random
/// outcome.  The buffer and the other variants' state are untouched;
/// the drawing variant advances by its own rule:
/// - bag: the head entry is served and the head advances; an exhausted
///   bag reshuffles into a permutation of the seven pieces;
/// - memoryless: some real piece is served;
/// - gameboy: the previous index steps by `roll / 5 + 1` modulo seven
///   for some roll below 39, and that entry is served;
/// - tgm: the drawn piece is pushed onto the four-slot history and the
///   first-piece flag is spent.
pub open spec fn next_block_post(pre: Randomizer, post: Randomizer, id: Id) -> bool {
    &&& post.kind == pre.kind
    &&& post.lookahead == pre.lookahead
    &&& post.buffer@ == pre.buffer@
    &&& post.rolls == pre.rolls
    &&& id != Id::Empty
    &&& match pre.kind {
        RandomizerKind::Bag => {
            &&& id == pre.bag_data@[pre.bag_head as int]
            &&& post.prev == pre.prev
            &&& post.history@ == pre.history@
            &&& post.first == pre.first
            &&& if pre.bag_head < 6 {
                post.bag_head == pre.bag_head + 1 && post.bag_data@ == pre.bag_data@
            } else {
                post.bag_head == 0 && post.bag_data@.len() == 7 && post.bag_data@.to_multiset()
                    == full_bag()
            }
        },
        RandomizerKind::Memoryless => {
            &&& post.bag_data@ == pre.bag_data@
            &&& post.bag_head == pre.bag_head
            &&& post.prev == pre.prev
            &&& post.history@ == pre.history@
            &&& post.first == pre.first
            &&& Id::variants_spec().contains(id)
        },
        RandomizerKind::Gameboy => {
            &&& post.bag_data@ == pre.bag_data@
            &&& post.bag_head == pre.bag_head
            &&& post.history@ == pre.history@
            &&& post.first == pre.first
            &&& exists|roll: int|
                0 <= roll < 39 && post.prev == #[trigger] gb_step(pre.prev as int, roll)
            &&& id == Id::variants_spec()[post.prev as int]
        },
        RandomizerKind::Tgm1 | RandomizerKind::Tgm2 => {
            &&& post.bag_data@ == pre.bag_data@
            &&& post.bag_head == pre.bag_head
            &&& post.prev == pre.prev
            &&& post.history@ == seq![id] + pre.history@.take(3)
            &&& !post.first
            &&& Id::variants_spec().contains(id)
        },
    }
}

impl Randomizer {
    /// The state matches the variant's needs and no buffered or stored
    /// piece is the empty sentinel.
    pub open spec fn wf(self) -> bool {
        &&& forall|i: int| 0 <= i < self.buffer@.len() ==> self.buffer@[i] != Id::Empty
        &&& self.buffer@.len() <= self.lookahead
        &&& self.bag_data@.len() == 7
        &&& self.bag_head < 7
        &&& self.bag_data@.to_multiset() == full_bag()
        &&& forall|i: int| 0 <= i < 7 ==> self.bag_data@[i] != Id::Empty
        &&& self.prev < 7
        &&& self.history@.len() == 4
        &&& forall|i: int| 0 <= i < 4 ==> self.history@[i] != Id::Empty
        &&& 1 <= self.rolls
    }

    /// The pieces waiting in the preview buffer, front first.
    pub open spec fn buffered(self) -> Seq<Id> {
        self.buffer@
    }

    /// The bag contents and position (7-bag only).
    pub open spec fn bag(self) -> (Seq<Id>, int) {
        (self.bag_data@, self.bag_head as int)
    }

    /// Construct a randomizer of the given kind with an explicit
    /// randomness source; `lookahead` bounds the preview length.
    pub fn with_rng(kind: RandomizerKind, lookahead: usize, rng: Rng) -> (rz: Randomizer)
        ensures
            rz.wf(),
            rz.kind == kind,
            rz.lookahead == lookahead,
            rz.buffered().len() == 0,
    {
        let mut rng = rng;
        let mut bag_data = Id::variants();
        shuffle(&mut bag_data, &mut rng);
        proof {
            lemma_variants_nonempty();
            assert forall|i: int| 0 <= i < bag_data@.len() implies bag_data@[i]
                != Id::Empty by {
                assert(bag_data@.contains(bag_data@[i]));
                assert(Id::variants_spec().contains(bag_data@[i]));
                let j = choose|j: int|
                    0 <= j < Id::variants_spec().len() && Id::variants_spec()[j] == bag_data@[i];
            }
        }
        let prev = rng.below(7) as usize;
        let history = match kind {
            RandomizerKind::Tgm2 => vec![Id::S, Id::Z, Id::S, Id::Z],
            _ => vec![Id::Z, Id::Z, Id::Z, Id::Z],
        };
        let rolls: usize = match kind {
            RandomizerKind::Tgm2 => 6,
            _ => 4,
        };
        proof {
            assert(history@.len() == 4 && forall|i: int| 0 <= i < 4 ==> history@[i] != Id::Empty);
        }
        Randomizer {
            kind,
            lookahead,
            buffer: Vec::new(),
            rng,
            bag_data,
            bag_head: 0,
            prev,
            history,
            rolls,
            first: true,
        }
    }

    /// Generate one fresh piece according to the variant's rule.
    fn next_block(&mut self) -> (id: Id)
        requires
            old(self).wf(),
        ensures
            final(self).wf(),
            id != Id::Empty,
            final(self).kind == old(self).kind,
            final(self).lookahead == old(self).lookahead,
            final(self).buffered() == old(self).buffered(),
            next_block_post(*old(self), *final(self), id),
    {
        match self.kind {
            RandomizerKind::Bag => {
                let id = self.bag_data[self.bag_head];
                self.bag_head = self.bag_head + 1;
                if self.bag_head == 7 {
                    shuffle(&mut self.bag_data, &mut self.rng);
                    proof {
                        lemma_variants_nonempty();
                        assert forall|i: int| 0 <= i < self.bag_data@.len() implies self
                            .bag_data@[i] != Id::Empty by {
                            assert(self.bag_data@.contains(self.bag_data@[i]));
                            assert(Id::variants_spec().contains(self.bag_data@[i]));
                            let j = choose|j: int|
                                0 <= j < Id::variants_spec().len() && Id::variants_spec()[j]
                                    == self.bag_data@[i];
                        }
                    }
                    self.bag_head = 0;
                }
                id
            },
            RandomizerKind::Memoryless => {
                let variants = Id::variants();
                let i = self.rng.below(7) as usize;
                proof {
                    lemma_variants_nonempty();
                }
                variants[i]
            },
            RandomizerKind::Gameboy => {
                let variants = Id::variants();
                let roll = self.rng.below(39);
                let step = ((roll / 5) + 1) as usize;
                let ghost prev0 = self.prev;
                self.prev = (self.prev + step) % 7;
                proof {
                    lemma_variants_nonempty();
                    assert(self.prev as int == gb_step(prev0 as int, roll as int));
                    assert(exists|r2: int|
                        0 <= r2 < 39 && self.prev as int == gb_step(prev0 as int, r2));
                }
                variants[self.prev]
            },
            RandomizerKind::Tgm1 | RandomizerKind::Tgm2 => {
                let variants = Id::variants();
                let mut rng = self.rng;
                let mut piece: Id = variants[rng.below(7) as usize];
                proof {
                    lemma_variants_nonempty();
                }
                let rolls = self.rolls;
                let ghost pre = *self;
                if self.first {
                    // Reroll a bounded number of times while the draw is
                    // one of S, Z or O.
                    let mut tries: usize = 1;
                    while tries < rolls && (piece == Id::S || piece == Id::Z || piece == Id::O)
                        invariant
                            piece != Id::Empty,
                            *self == pre,
                        decreases rolls - tries,
                    {
                        let variants2 = Id::variants();
                        let k = rng.below(7) as usize;
                        proof {
                            lemma_variants_nonempty();
                        }
                        piece = variants2[k];
                        tries += 1;
                    }
                    self.first = false;
                } else {
                    // Reroll while the draw repeats the recent history;
                    // the retry count is capped so the draw always ends.
                    let mut tries: usize = 1;
                    while tries < 6 && self.history_contains(piece)
                        invariant
                            piece != Id::Empty,
                            pre.wf(),
                            *self == pre,
                        decreases 6 - tries,
                    {
                        let variants2 = Id::variants();
                        let k = rng.below(7) as usize;
                        proof {
                            lemma_variants_nonempty();
                        }
                        piece = variants2[k];
                        tries += 1;
                    }
                }
                self.rng = rng;
                self.history.set(3, self.history[2]);
                self.history.set(2, self.history[1]);
                self.history.set(1, self.history[0]);
                self.history.set(0, piece);
                proof {
                    assert(self.history@ =~= seq![piece] + old(self).history@.take(3));
                }
                piece
            },
        }
    }

    /// Does the TGM history contain this piece?
    fn history_contains(&self, id: Id) -> (r: bool)
        requires
            self.wf(),
        ensures
            r == self.history@.contains(id),
    {
        let r = self.history[0] == id || self.history[1] == id || self.history[2] == id
            || self.history[3] == id;
        proof {
            if r {
                assert(self.history@.contains(id));
            } else {
                if self.history@.contains(id) {
                    let i = choose|i: int|
                        0 <= i < self.history@.len() && self.history@[i] == id;
                }
            }
        }
        r
    }

    /// Return the next piece of the stream: the buffer head if the
    /// buffer is non-empty, else a fresh piece.
    pub fn next(&mut self) -> (id: Id)
        requires
            old(self).wf(),
        ensures
            final(self).wf(),
            id != Id::Empty,
            final(self).kind == old(self).kind,
            final(self).lookahead == old(self).lookahead,
            old(self).buffered().len() > 0 ==> id == old(self).buffered()[0] && *final(self) == (
            Randomizer { buffer: final(self).buffer, ..*old(self) }) && final(self).buffered()
                == old(self).buffered().drop_first(),
            old(self).buffered().len() == 0 ==> next_block_post(*old(self), *final(self), id),
    {
        if self.buffer.len() == 0 {
            self.next_block()
        } else {
            let id = self.buffer.remove(0);
            proof {
                assert(self.buffer@ =~= old(self).buffer@.drop_first());
            }
            id
        }
    }

    /// Return the next `n` pieces of the stream without consuming them,
    /// growing the buffer to length `n` first.
    ///
    /// A request beyond the lookahead bound is refused with
    /// [`Error::PreviewTooLarge`].
    pub fn preview(&mut self, n: usize) -> (r: Result<Vec<Id>, Error>)
        requires
            old(self).wf(),
        ensures
            final(self).wf(),
            final(self).kind == old(self).kind,
            final(self).lookahead == old(self).lookahead,
            n <= old(self).lookahead <==> r is Ok,
            r matches Err(e) ==> e == Error::PreviewTooLarge && *final(self) == *old(self),
            r matches Ok(out) ==> {
                &&& out@.len() == n
                &&& final(self).buffered().len() >= n
                &&& out@ == final(self).buffered().take(n as int)
                &&& forall|i: int| 0 <= i < n ==> out@[i] != Id::Empty
            },
    {
        if n > self.lookahead {
            return Err(Error::PreviewTooLarge);
        }
        while self.buffer.len() < n
            invariant
                self.wf(),
                self.kind == old(self).kind,
                self.lookahead == old(self).lookahead,
                n <= self.lookahead,
            decreases n - self.buffer.len(),
        {
            let id = self.next_block();
            self.buffer.push(id);
        }
        let mut out: Vec<Id> = Vec::new();
        let mut i: usize = 0;
        while i < n
            invariant
                self.wf(),
                i <= n,
                n <= self.buffer@.len(),
                out@.len() == i,
                forall|j: int| 0 <= j < i ==> out@[j] == self.buffer@[j],
            decreases n - i,
        {
            out.push(self.buffer[i]);
            i += 1;
        }
        proof {
            assert(out@ =~= self.buffer@.take(n as int));
        }
        Ok(out)
    }
}

/// Permute `v` in place with a Fisher-Yates walk driven by `rng`.  The
/// multiset of elements is preserved exactly.
fn shuffle(v: &mut Vec<Id>, rng: &mut Rng)
    requires
        old(v)@.len() < 0x1_0000_0000,
    ensures
        final(v)@.len() == old(v)@.len(),
        final(v)@.to_multiset() == old(v)@.to_multiset(),
        forall|x: Id| final(v)@.contains(x) ==> old(v)@.contains(x),
{
    let ghost orig = old(v)@;
    proof {
        broadcast use group_to_multiset_ensures;

    }
    let mut i: usize = v.len();
    while i > 1
        invariant
            v@.len() == orig.len(),
            orig.len() < 0x1_0000_0000,
            i <= v@.len() || i <= 1,
            v@.to_multiset() == orig.to_multiset(),
        decreases i,
    {
        let j = rng.below(i as u32) as usize;
        let a = v[i - 1];
        let b = v[j];
        let ghost before = v@;
        v.set(i - 1, b);
        v.set(j, a);
        proof {
            lemma_swap_multiset(before, i - 1, j as int);
            assert(v@ == before.update(i - 1, before[j as int]).update(
                j as int,
                before[i - 1],
            ));
        }
        i = i - 1;
    }
    proof {
        broadcast use group_to_multiset_ensures;

        assert forall|x: Id| final(v)@.contains(x) implies orig.contains(x) by {
            assert(final(v)@.to_multiset().count(x) > 0);
            assert(orig.to_multiset().count(x) > 0);
        }
    }
}

/// Updating one position replaces the old element by the new one in the
/// multiset of a sequence.
proof fn lemma_update_multiset(s: Seq<Id>, i: int, x: Id)
    requires
        0 <= i < s.len(),
    ensures
        s.update(i, x).to_multiset() =~= s.to_multiset().remove(s[i]).insert(x),
{
    broadcast use group_to_multiset_ensures;

    let u = s.update(i, x);
    assert(u.remove(i) =~= s.remove(i));
    assert(u.remove(i).to_multiset() == u.to_multiset().remove(x));
    assert(s.remove(i).to_multiset() == s.to_multiset().remove(s[i]));
    assert(u.contains(x)) by {
        assert(u[i] == x);
    }
    assert(u.to_multiset().count(x) > 0);
    assert forall|y: Id| u.to_multiset().count(y) == s.to_multiset().remove(s[i]).insert(
        x,
    ).count(y) by {
        assert(u.to_multiset().remove(x).count(y) == s.to_multiset().remove(s[i]).count(y));
        if y == x {
            assert(u.to_multiset().remove(x).count(y) == u.to_multiset().count(y) - 1);
        }
    }
}

/// Swapping two positions of a sequence preserves its multiset.
proof fn lemma_swap_multiset(s: Seq<Id>, i: int, j: int)
    requires
        0 <= i < s.len(),
        0 <= j < s.len(),
    ensures
        s.update(i, s[j]).update(j, s[i]).to_multiset() == s.to_multiset(),
{
    broadcast use group_to_multiset_ensures;

    if i == j {
        assert(s.update(i, s[j]).update(j, s[i]) =~= s);
    } else {
        let u1 = s.update(i, s[j]);
        let u2 = u1.update(j, s[i]);
        lemma_update_multiset(s, i, s[j]);
        lemma_update_multiset(u1, j, s[i]);
        assert(u1[j] == s[j]);
        assert(u2.to_multiset() =~= u1.to_multiset().remove(s[j]).insert(s[i]));
        assert(s.to_multiset().count(s[i]) > 0) by {
            assert(s.contains(s[i]));
        }
        assert(s.to_multiset().count(s[j]) > 0) by {
            assert(s.contains(s[j]));
        }
        assert(u2.to_multiset() =~= s.to_multiset());
    }
}


/// Law: the bag randomizer is fair over any full bag.  Starting at a
/// refill boundary (head zero), seven successive fresh draws — each
/// related to the next state by [`next_block_post`] — return each of
/// the seven piece identities exactly once, whatever the shuffles did.
pub proof fn lemma_bag_window(s: Seq<Randomizer>, ids: Seq<Id>)
    requires
        s.len() == 8,
        ids.len() == 7,
        s[0].wf(),
        s[0].kind == RandomizerKind::Bag,
        s[0].bag_head == 0,
        forall|i: int| 0 <= i < 7 ==> next_block_post(#[trigger] s[i], s[i + 1], ids[i]),
    ensures
        ids.to_multiset() == full_bag(),
{
    assert(next_block_post(s[0], s[1], ids[0]));
    assert(next_block_post(s[1], s[2], ids[1]));
    assert(next_block_post(s[2], s[3], ids[2]));
    assert(next_block_post(s[3], s[4], ids[3]));
    assert(next_block_post(s[4], s[5], ids[4]));
    assert(next_block_post(s[5], s[6], ids[5]));
    assert(next_block_post(s[6], s[7], ids[6]));
    assert(s[1].bag_head == 1 && s[1].bag_data@ == s[0].bag_data@);
    assert(s[2].bag_head == 2 && s[2].bag_data@ == s[0].bag_data@);
    assert(s[3].bag_head == 3 && s[3].bag_data@ == s[0].bag_data@);
    assert(s[4].bag_head == 4 && s[4].bag_data@ == s[0].bag_data@);
    assert(s[5].bag_head == 5 && s[5].bag_data@ == s[0].bag_data@);
    assert(s[6].bag_head == 6 && s[6].bag_data@ == s[0].bag_data@);
    assert(ids =~= s[0].bag_data@);
}

/// Law: the bag randomizer is fair.  In every well-formed state the
/// seven bag entries are exactly the seven piece identities, once each;
/// since `next` serves `bag_data[bag_head]` and advances (reshuffling
/// into a permutation again at the end of the bag), any seven
/// consecutive draws aligned with a refill yield each identity exactly
/// once.
pub proof fn lemma_bag_fairness(rz: Randomizer)
    requires
        rz.wf(),
        rz.kind == RandomizerKind::Bag,
    ensures
        rz.bag().0.to_multiset() == full_bag(),
        rz.bag().0.len() == 7,
        forall|id: Id| id != Id::Empty ==> rz.bag().0.to_multiset().count(id) == 1,
        rz.bag().0.to_multiset().count(Id::Empty) == 0,
{
    broadcast use group_to_multiset_ensures;

    let v = Id::variants_spec();
    assert(v == seq![Id::I, Id::T, Id::L, Id::J, Id::S, Id::Z, Id::O]);
    assert forall|id: Id| id != Id::Empty implies v.to_multiset().count(id) == 1 by {
        lemma_variants_counts();
    }
    assert(v.to_multiset().count(Id::Empty) == 0) by {
        lemma_variants_counts();
    }
}

/// The multiset of the seven piece identities holds each once and the
/// empty sentinel not at all.
proof fn lemma_variants_counts()
    ensures
        forall|id: Id| #[trigger] Id::variants_spec().to_multiset().count(id) == (
        if id == Id::Empty {
            0int
        } else {
            1int
        }),
{
    broadcast use group_to_multiset_ensures;

    let s0 = Seq::<Id>::empty();
    let s1 = s0.push(Id::I);
    let s2 = s1.push(Id::T);
    let s3 = s2.push(Id::L);
    let s4 = s3.push(Id::J);
    let s5 = s4.push(Id::S);
    let s6 = s5.push(Id::Z);
    let s7 = s6.push(Id::O);
    assert(s7 =~= Id::variants_spec());
    assert(s0.to_multiset() =~= Multiset::<Id>::empty());
    assert forall|id: Id| #[trigger] s7.to_multiset().count(id) == (if id == Id::Empty {
        0int
    } else {
        1int
    }) by {
        assert(s1.to_multiset() =~= s0.to_multiset().insert(Id::I));
        assert(s2.to_multiset() =~= s1.to_multiset().insert(Id::T));
        assert(s3.to_multiset() =~= s2.to_multiset().insert(Id::L));
        assert(s4.to_multiset() =~= s3.to_multiset().insert(Id::J));
        assert(s5.to_multiset() =~= s4.to_multiset().insert(Id::S));
        assert(s6.to_multiset() =~= s5.to_multiset().insert(Id::Z));
        assert(s7.to_multiset() =~= s6.to_multiset().insert(Id::O));
    }
}

/// Which names the factory recognises, and the kind each denotes.
pub open spec fn randomizer_of_name(name: Seq<char>) -> Option<RandomizerKind> {
    if name == "bag"@ {
        Some(RandomizerKind::Bag)
    } else if name == "memoryless"@ {
        Some(RandomizerKind::Memoryless)
    } else if name == "gameboy"@ {
        Some(RandomizerKind::Gameboy)
    } else if name == "tgm1"@ {
        Some(RandomizerKind::Tgm1)
    } else if name == "tgm2"@ {
        Some(RandomizerKind::Tgm2)
    } else {
        None
    }
}

/// Factory function for generating randomizers, drawing from the
/// process entropy source.
///
/// The recognised names are `bag`, `memoryless`, `gameboy`, `tgm1` and
/// `tgm2`; any other name is refused with [`Error::UnknownName`].
pub fn new(name: &str, lookahead: usize) -> (r: Result<Randomizer, Error>)
    ensures
        match randomizer_of_name(name@) {
            Some(kind) => r matches Ok(rz) && rz.wf() && rz.kind == kind && rz.lookahead
                == lookahead && rz.buffered().len() == 0,
            None => r matches Err(e) && e == Error::UnknownName,
        },
{
    let kind = if crate::str_eq(name, "bag") {
        RandomizerKind::Bag
    } else if crate::str_eq(name, "memoryless") {
        RandomizerKind::Memoryless
    } else if crate::str_eq(name, "gameboy") {
        RandomizerKind::Gameboy
    } else if crate::str_eq(name, "tgm1") {
        RandomizerKind::Tgm1
    } else if crate::str_eq(name, "tgm2") {
        RandomizerKind::Tgm2
    } else {
        return Err(Error::UnknownName);
    };
    Ok(Randomizer::with_rng(kind, lookahead, Rng::from_entropy()))
}

} // verus!
