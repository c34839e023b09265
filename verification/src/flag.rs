//! The liveness flag: one atomic word holding two independent, sticky,
//! monotonically clearable bits. The owner bit is written only by the owner
//! handle's destruction, the worker bit only by the worker handle's
//! destruction, so each bit has a single writer for its whole life. A bit,
//! once cleared, never becomes set again.

use vstd::prelude::*;

use crate::inner::drop_inner;
use crate::outer::drop_outer;
use std::sync::atomic::AtomicUsize;
use std::sync::atomic::Ordering;

verus! {

/// The owner handle is still alive in this flag word: its bit is set.
pub open spec fn owner_live(flag: usize) -> bool {
    flag & 0b01 != 0
}

/// The worker handle is still alive in this flag word: its bit is set.
pub open spec fn worker_live(flag: usize) -> bool {
    flag & 0b10 != 0
}

/// The word both sides start from: both bits set.
pub open spec fn both_live() -> usize {
    0b11
}

/// The transition the owner's release applies to the flag word: the owner
/// bit is forced clear, the worker bit keeps whatever its own writer set.
pub open spec fn after_owner_release(flag: usize) -> usize {
    flag & 0b10
}

/// The transition the worker's release applies to the flag word,
/// symmetrically.
pub open spec fn after_worker_release(flag: usize) -> usize {
    flag & 0b01
}

/// One of the two releases, as an event in an interleaving.
pub enum ReleaseEvent {
    ByOwner,
    ByWorker,
}

/// The flag word after one release event.
pub open spec fn apply_release(e: ReleaseEvent, flag: usize) -> usize {
    match e {
        ReleaseEvent::ByOwner => after_owner_release(flag),
        ReleaseEvent::ByWorker => after_worker_release(flag),
    }
}

/// The flag word after a whole sequence of release events, applied in order.
pub open spec fn run_releases(es: Seq<ReleaseEvent>, flag: usize) -> usize
    decreases es.len(),
{
    if es.len() == 0 {
        flag
    } else {
        run_releases(es.drop_first(), apply_release(es[0], flag))
    }
}

/// The owner's release clears the owner bit and leaves the worker bit as it
/// was; the resulting word signals "destroy now" exactly when the worker bit
/// was already clear.
pub proof fn lemma_owner_release(flag: usize)
    ensures
        !owner_live(after_owner_release(flag)),
        worker_live(after_owner_release(flag)) == worker_live(flag),
        (after_owner_release(flag) == 0) == !worker_live(flag),
        after_owner_release(after_owner_release(flag)) == after_owner_release(flag),
{
    assert((flag & 0b10) & 0b01 == 0) by (bit_vector);
    assert(((flag & 0b10) & 0b10 != 0) == (flag & 0b10 != 0)) by (bit_vector);
    assert((flag & 0b10) & 0b10 == flag & 0b10) by (bit_vector);
}

/// The worker's release clears the worker bit and leaves the owner bit as it
/// was; the resulting word signals "destroy now" exactly when the owner bit
/// was already clear.
pub proof fn lemma_worker_release(flag: usize)
    ensures
        !worker_live(after_worker_release(flag)),
        owner_live(after_worker_release(flag)) == owner_live(flag),
        (after_worker_release(flag) == 0) == !owner_live(flag),
        after_worker_release(after_worker_release(flag)) == after_worker_release(flag),
{
    assert((flag & 0b01) & 0b10 == 0) by (bit_vector);
    assert(((flag & 0b01) & 0b01 != 0) == (flag & 0b01 != 0)) by (bit_vector);
    assert((flag & 0b01) & 0b01 == flag & 0b01) by (bit_vector);
}

/// In every interleaving of the two destructions — owner first or worker
/// first — the release that comes second, and only that one, observes the
/// all-clear word that triggers destruction of the shared cell. The value's
/// destructor therefore runs exactly once: never zero times, never twice.
pub proof fn lemma_destroyed_exactly_once(owner_first: bool)
    ensures
        owner_first ==> after_owner_release(both_live()) != 0
            && after_worker_release(after_owner_release(both_live())) == 0,
        !owner_first ==> after_worker_release(both_live()) != 0
            && after_owner_release(after_worker_release(both_live())) == 0,
{
    assert(0b11usize & 0b10 == 0b10) by (bit_vector);
    assert(0b10usize & 0b01 == 0) by (bit_vector);
    assert(0b11usize & 0b01 == 0b01) by (bit_vector);
    assert(0b01usize & 0b10 == 0) by (bit_vector);
}

/// Liveness as the worker observes it is monotone: starting from any word,
/// the owner bit keeps its value for as long as no owner release has
/// occurred, and is clear from the first owner release on, whatever the
/// worker's own release does and wherever in the order it lands. A sequence
/// of polls therefore shows a prefix of "present" answers followed by a
/// suffix of "absent" ones, never "absent" before "present" again.
pub proof fn lemma_owner_liveness_monotone(es: Seq<ReleaseEvent>, flag: usize)
    ensures
        owner_live(run_releases(es, flag)) == (owner_live(flag)
            && !es.contains(ReleaseEvent::ByOwner)),
    decreases es.len(),
{
    if es.len() == 0 {
        assert(!es.contains(ReleaseEvent::ByOwner));
    } else {
        let rest = es.drop_first();
        let f1 = apply_release(es[0], flag);
        match es[0] {
            ReleaseEvent::ByOwner => {
                lemma_owner_release(flag);
                assert(es.contains(ReleaseEvent::ByOwner));
            },
            ReleaseEvent::ByWorker => {
                lemma_worker_release(flag);
                if es.contains(ReleaseEvent::ByOwner) {
                    let i = choose|i: int|
                        0 <= i < es.len() && es[i] == ReleaseEvent::ByOwner;
                    assert(rest[i - 1] == ReleaseEvent::ByOwner);
                    assert(rest.contains(ReleaseEvent::ByOwner));
                }
                if rest.contains(ReleaseEvent::ByOwner) {
                    let j = choose|j: int|
                        0 <= j < rest.len() && rest[j] == ReleaseEvent::ByOwner;
                    assert(es[j + 1] == ReleaseEvent::ByOwner);
                    assert(es.contains(ReleaseEvent::ByOwner));
                }
            },
        }
        lemma_owner_liveness_monotone(rest, f1);
    }
}

/// The flag word itself: one atomic word, read with acquire ordering and
/// transitioned by a single atomic and-with-mask step, so the bit-clear and
/// the value the destroy decision is taken from can never come from two
/// different moments. Each bit has exactly one writer for its whole life,
/// and a clear is the only write, so a cleared bit never becomes set again.
pub struct LivenessFlag {
    word: AtomicUsize,
}

impl LivenessFlag {
    /// A fresh flag with both bits set: the state every launch starts from.
    pub fn new_both_set() -> Self {
        LivenessFlag { word: AtomicUsize::new(0b11) }
    }

    /// Acquire-ordered load of the current bit pair. Which word comes back
    /// depends on what the other side has done meanwhile, so nothing is
    /// promised of it; callers decide from whatever word they observe.
    pub fn read(&self) -> usize
        opens_invariants none
        no_unwind
    {
        read_word(&self.word)
    }

    /// Atomically force the owner bit to zero, leaving the worker bit to its
    /// own writer, and hand back the post-transition word. The caller is to
    /// destroy the shared state exactly when that word is all clear — a
    /// decision derived from the one word the atomic transition itself
    /// returned, never from a separate later read, so no gap exists between
    /// checking the other side's bit and acting on it.
    pub fn clear_owner(&self) -> (r: usize)
        ensures
            !owner_live(r),
            r == after_owner_release(r),
            (r == 0) == !worker_live(r),
        opens_invariants none
        no_unwind
    {
        let old: usize = fetch_and_word(&self.word, 0b10);
        let r: usize = drop_outer(old);
        proof {
            lemma_owner_release(old);
        }
        r
    }

    /// The symmetric transition: atomically force the worker bit to zero,
    /// leaving the owner bit to its own writer, and hand back the
    /// post-transition word, with the same destroy-on-all-clear reading.
    pub fn clear_worker(&self) -> (r: usize)
        ensures
            !worker_live(r),
            r == after_worker_release(r),
            (r == 0) == !owner_live(r),
        opens_invariants none
        no_unwind
    {
        let old: usize = fetch_and_word(&self.word, 0b01);
        let r: usize = drop_inner(old);
        proof {
            lemma_worker_release(old);
        }
        r
    }
}

/// Relies on `core::sync::atomic::AtomicUsize::load` with acquire ordering:
/// returns the word's current value and never panics. Nothing is promised of
/// the value: it depends on what the other handle has done concurrently.
#[verifier::external_body]
fn read_word(word: &AtomicUsize) -> usize
    opens_invariants none
    no_unwind
{
    word.load(Ordering::Acquire)
}

/// Relies on `core::sync::atomic::AtomicUsize::fetch_and` with
/// acquire-release ordering: atomically replaces the word with the bitwise
/// AND of the word and `mask`, and returns the value the word held just
/// before, in one indivisible step; never panics. Nothing is promised of
/// that previous value itself: it depends on what the other handle has done
/// concurrently. The post-transition word is `mask` AND the returned value,
/// which the verified callers recompute to take their destroy decision from
/// the very transition that cleared their bit.
#[verifier::external_body]
fn fetch_and_word(word: &AtomicUsize, mask: usize) -> usize
    opens_invariants none
    no_unwind
{
    word.fetch_and(mask, Ordering::AcqRel)
}

} // verus!
