//! Several handlings that extend the stored list of one user at the same
//! time.  The model has the object that holds the list, the lock of the user,
//! and the tasks; a task reads the object and writes it back only while it
//! holds the lock.  What is shown is that no addition is lost, given that the
//! storage hands back the bytes last written to it and that the bytes of each
//! list that is written read back as that list.

use vstd::prelude::*;
use crate::error::BotErrorView;
use crate::handlers::youtube2rss::metadata::{VideoMetadataView, list_from_object, prepend, reads_back};
use crate::handlers::EffectView;
use crate::handlers::youtube2rss::{PodcastStateView, lemma_stored_list_is_the_read_list_extended, podcast_after_load, prepend_all};
use crate::outside::msgpack_of_episodes;

verus! {

/// Where a task stands with its addition.
pub enum Phase {
    /// It has not asked for the lock yet, or waits for it.
    Waiting,
    /// It holds the lock and has read nothing yet.
    Holding,
    /// It holds the lock and has read this list.
    Loaded(Seq<VideoMetadataView>),
    /// It holds the lock and has written the list with its record in front.
    Stored,
    /// It holds the lock, and its read or its write has failed.
    Failing,
    /// It has given the lock back; `added` says whether its record was
    /// written.
    Done { added: bool },
}

/// One task and the record it is to add.
pub struct Task {
    pub record: VideoMetadataView,
    pub phase: Phase,
}

/// The object of a user, the lock of the user, and the tasks at work.
pub struct Shared {
    /// The bytes in storage, or `None` while there is no object.
    pub object: Option<Seq<u8>>,
    /// The task that holds the lock, if one does.
    pub holder: Option<int>,
    pub tasks: Seq<Task>,
    /// The tasks whose record was written, in the order of the writes.
    pub added: Seq<int>,
}

/// What a task does next.  A read or a write either comes through or fails;
/// a write that fails leaves the object as it was.
pub enum Move {
    Acquire,
    Load { came_through: bool },
    Store { came_through: bool },
    Release,
}

/// The state with the task `i` in another phase.
pub open spec fn with_phase(s: Shared, i: int, phase: Phase) -> Shared {
    Shared { tasks: s.tasks.update(i, Task { phase, ..s.tasks[i] }), ..s }
}

/// Whether the task `i` can make the move: the lock is taken only when it is
/// free, and the object is read and written only by the holder of the lock.
pub open spec fn enabled(s: Shared, i: int, m: Move) -> bool {
    &&& 0 <= i < s.tasks.len()
    &&& match m {
        Move::Acquire => s.holder is None && s.tasks[i].phase is Waiting,
        Move::Load { .. } => s.holder == Some(i) && s.tasks[i].phase is Holding,
        Move::Store { .. } => s.holder == Some(i) && s.tasks[i].phase is Loaded,
        Move::Release => s.holder == Some(i) && (s.tasks[i].phase is Stored
            || s.tasks[i].phase is Failing),
    }
}

/// The state after the task `i` made the move.
pub open spec fn after(s: Shared, i: int, m: Move) -> Shared {
    match m {
        Move::Acquire => Shared { holder: Some(i), ..with_phase(s, i, Phase::Holding) },
        Move::Load { came_through } => match list_from_object(s.object) {
            Ok(list) => if came_through {
                with_phase(s, i, Phase::Loaded(list))
            } else {
                with_phase(s, i, Phase::Failing)
            },
            Err(_) => with_phase(s, i, Phase::Failing),
        },
        Move::Store { came_through } => if came_through {
            Shared {
                object: Some(
                    msgpack_of_episodes(prepend(s.tasks[i].phase->Loaded_0, s.tasks[i].record)),
                ),
                added: s.added.push(i),
                ..with_phase(s, i, Phase::Stored)
            }
        } else {
            with_phase(s, i, Phase::Failing)
        },
        Move::Release => Shared {
            holder: None,
            ..with_phase(s, i, Phase::Done { added: s.tasks[i].phase is Stored })
        },
    }
}

/// The state after a run of moves, each by the task named with it, in any
/// interleaving.  A move that its task cannot make changes nothing.
pub open spec fn run(s: Shared, moves: Seq<(int, Move)>) -> Shared
    decreases moves.len(),
{
    if moves.len() == 0 {
        s
    } else {
        let before = run(s, moves.drop_last());
        let (i, m) = moves.last();
        if enabled(before, i, m) {
            after(before, i, m)
        } else {
            before
        }
    }
}

/// The state before any task has moved.
pub open spec fn at_start(s: Shared) -> bool {
    &&& s.holder is None
    &&& s.added.len() == 0
    &&& forall|j: int| 0 <= j < s.tasks.len() ==> (#[trigger] s.tasks[j]).phase is Waiting
}

/// The records of the tasks whose record was written, in the order of the
/// writes.
pub open spec fn records_added(s: Shared) -> Seq<VideoMetadataView> {
    Seq::new(s.added.len(), |j: int| s.tasks[s.added[j]].record)
}

/// Whether the record of the task `i` was written.
pub open spec fn has_added(s: Shared, i: int) -> bool {
    s.tasks[i].phase is Stored || s.tasks[i].phase == (Phase::Done { added: true })
}

/// Whether the task `i` is outside the lock.
pub open spec fn outside_lock(s: Shared, i: int) -> bool {
    s.tasks[i].phase is Waiting || s.tasks[i].phase is Done
}

/// The list that the task `i` writes with its store move: the list it has
/// read, with its record in front.
pub open spec fn list_to_write(s: Shared, i: int) -> Seq<VideoMetadataView> {
    prepend(s.tasks[i].phase->Loaded_0, s.tasks[i].record)
}

/// Whether the move is a write that comes through.
pub open spec fn is_write(m: Move) -> bool {
    m == (Move::Store { came_through: true })
}

/// That the bytes of each list written in the run read back as that list.
pub open spec fn writes_read_back(s: Shared, moves: Seq<(int, Move)>) -> bool
    decreases moves.len(),
{
    if moves.len() == 0 {
        true
    } else {
        let before = run(s, moves.drop_last());
        let (i, m) = moves.last();
        &&& writes_read_back(s, moves.drop_last())
        &&& enabled(before, i, m) && is_write(m) ==> reads_back(list_to_write(before, i))
    }
}

/// What holds of every state that a run reaches from a start with the list
/// `first` in storage.
pub open spec fn consistent(s: Shared, first: Seq<VideoMetadataView>) -> bool {
    let stored = prepend_all(first, records_added(s));
    &&& list_from_object(s.object) == Ok::<Seq<VideoMetadataView>, BotErrorView>(stored)
    &&& s.added.no_duplicates()
    &&& forall|j: int| 0 <= j < s.added.len() ==> 0 <= #[trigger] s.added[j] < s.tasks.len()
    &&& forall|i: int| 0 <= i < s.tasks.len() ==> (s.added.contains(i) <==> #[trigger] has_added(s, i))
    &&& match s.holder {
        Some(h) => {
            &&& 0 <= h < s.tasks.len()
            &&& !outside_lock(s, h)
            &&& forall|j: int| 0 <= j < s.tasks.len() && j != h ==> #[trigger] outside_lock(s, j)
            &&& s.tasks[h].phase matches Phase::Loaded(list) ==> list == stored
        },
        None => forall|j: int| 0 <= j < s.tasks.len() ==> #[trigger] outside_lock(s, j),
    }
}

proof fn lemma_records_stay(s: Shared, i: int, phase: Phase)
    requires
        0 <= i < s.tasks.len(),
        forall|j: int| 0 <= j < s.added.len() ==> 0 <= #[trigger] s.added[j] < s.tasks.len(),
    ensures
        records_added(with_phase(s, i, phase)) == records_added(s),
{
    assert(records_added(with_phase(s, i, phase)) =~= records_added(s));
}

proof fn lemma_move_keeps_consistency(s: Shared, first: Seq<VideoMetadataView>, i: int, m: Move)
    requires
        is_write(m) ==> reads_back(list_to_write(s, i)),
        consistent(s, first),
        enabled(s, i, m),
    ensures
        consistent(after(s, i, m), first),
{
    let t = after(s, i, m);
    let stored = prepend_all(first, records_added(s));
    assert(t.tasks.len() == s.tasks.len());
    assert forall|j: int| 0 <= j < s.tasks.len() && j != i implies (#[trigger] t.tasks[j])
        == s.tasks[j] by {}
    assert(t.tasks[i].record == s.tasks[i].record);
    match m {
        Move::Store { came_through: true } => {
            lemma_records_stay(s, i, Phase::Stored);
            assert(!s.added.contains(i)) by {
                assert(!has_added(s, i));
            }
            assert(records_added(t) =~= records_added(s).push(s.tasks[i].record)) by {
                assert forall|j: int| 0 <= j < s.added.len() implies t.tasks[t.added[j]].record
                    == s.tasks[s.added[j]].record by {
                    assert(t.added[j] == s.added[j]);
                }
            }
            assert(records_added(t).drop_last() =~= records_added(s));
            assert(prepend_all(first, records_added(t)) == prepend(stored, s.tasks[i].record));
            assert(s.tasks[i].phase->Loaded_0 == stored);
            assert(t.added.no_duplicates()) by {
                assert forall|a: int, b: int|
                    0 <= a < t.added.len() && 0 <= b < t.added.len() && a != b implies t.added[a]
                    != t.added[b] by {
                    if a < s.added.len() && b < s.added.len() {
                        assert(s.added[a] != s.added[b]);
                    } else if a < s.added.len() {
                        assert(s.added.contains(s.added[a]));
                    } else {
                        assert(s.added.contains(s.added[b]));
                    }
                }
            }
            assert forall|k: int| 0 <= k < t.tasks.len() implies (t.added.contains(k)
                <==> #[trigger] has_added(t, k)) by {
                if k == i {
                    assert(t.added[s.added.len() as int] == i);
                } else {
                    assert(has_added(t, k) == has_added(s, k));
                    if s.added.contains(k) {
                        let w = choose|w: int| 0 <= w < s.added.len() && s.added[w] == k;
                        assert(t.added[w] == k);
                    }
                    if t.added.contains(k) {
                        let w = choose|w: int| 0 <= w < t.added.len() && t.added[w] == k;
                        assert(w < s.added.len());
                        assert(s.added[w] == k);
                    }
                }
            }
            assert forall|j: int| 0 <= j < t.tasks.len() && j != i implies #[trigger] outside_lock(
                t,
                j,
            ) by {
                assert(outside_lock(s, j));
            }
        },
        _ => {
            lemma_records_stay(s, i, t.tasks[i].phase);
            assert(t.added == s.added);
            assert(records_added(t) == records_added(s)) by {
                assert(t.tasks =~= with_phase(s, i, t.tasks[i].phase).tasks);
                assert(records_added(t) =~= records_added(with_phase(s, i, t.tasks[i].phase)));
            }
            assert(t.object == s.object);
            assert forall|k: int| 0 <= k < t.tasks.len() implies (t.added.contains(k)
                <==> #[trigger] has_added(t, k)) by {
                assert(has_added(t, k) == has_added(s, k));
            }
            assert forall|j: int| 0 <= j < t.tasks.len() && j != i implies #[trigger] outside_lock(
                t,
                j,
            ) by {
                assert(outside_lock(s, j));
            }
        },
    }
}

/// Every state that a run reaches is consistent.
pub proof fn lemma_runs_stay_consistent(
    s: Shared,
    first: Seq<VideoMetadataView>,
    moves: Seq<(int, Move)>,
)
    requires
        writes_read_back(s, moves),
        at_start(s),
        list_from_object(s.object) == Ok::<Seq<VideoMetadataView>, BotErrorView>(first),
    ensures
        consistent(run(s, moves), first),
    decreases moves.len(),
{
    if moves.len() == 0 {
        assert(records_added(s) =~= Seq::<VideoMetadataView>::empty());
        assert forall|i: int| 0 <= i < s.tasks.len() implies (s.added.contains(i)
            <==> #[trigger] has_added(s, i)) by {
            assert(s.tasks[i].phase is Waiting);
        }
        assert forall|j: int| 0 <= j < s.tasks.len() implies #[trigger] outside_lock(s, j) by {
            assert(s.tasks[j].phase is Waiting);
        }
    } else {
        lemma_runs_stay_consistent(s, first, moves.drop_last());
        let before = run(s, moves.drop_last());
        let (i, m) = moves.last();
        if enabled(before, i, m) {
            lemma_move_keeps_consistency(before, first, i, m);
        }
    }
}

/// No addition is lost, however the tasks interleave.  After any run from a
/// start with the list `first` in storage, the object holds `first` with the
/// records of exactly those tasks in front whose write came through, each
/// once and the latest first; so the list is longer than `first` by the
/// number of these tasks.  This holds given that the bytes of each list
/// written in the run read back as that list.
pub proof fn lemma_no_update_is_lost(
    s: Shared,
    first: Seq<VideoMetadataView>,
    moves: Seq<(int, Move)>,
)
    requires
        writes_read_back(s, moves),
        at_start(s),
        list_from_object(s.object) == Ok::<Seq<VideoMetadataView>, BotErrorView>(first),
    ensures
        ({
            let end = run(s, moves);
            let stored = prepend_all(first, records_added(end));
            &&& list_from_object(end.object) == Ok::<Seq<VideoMetadataView>, BotErrorView>(stored)
            &&& stored.len() == first.len() + end.added.len()
            &&& end.added.no_duplicates()
            &&& forall|i: int|
                0 <= i < end.tasks.len() ==> (end.added.contains(i) <==> #[trigger] has_added(
                    end,
                    i,
                ))
            &&& forall|j: int|
                0 <= j < end.added.len() ==> #[trigger] stored[end.added.len() - 1 - j]
                    == end.tasks[end.added[j]].record
        }),
{
    lemma_runs_stay_consistent(s, first, moves);
    let end = run(s, moves);
    crate::handlers::youtube2rss::lemma_no_addition_is_lost(first, records_added(end));
    let stored = prepend_all(first, records_added(end));
    assert forall|j: int| 0 <= j < end.added.len() implies #[trigger] stored[end.added.len() - 1
        - j] == end.tasks[end.added[j]].record by {
        assert(stored[records_added(end).len() - 1 - j] == records_added(end)[j]);
    }
}

/// The read and the write of the model are the handler's step under the lock.
/// Where a task may read and the object holds a list, the handler, on the
/// report of the same object, asks for exactly the bytes to be written that
/// the model's read and write leave in the object, and keeps the list that
/// they stand for: the list read, with the record in front.
pub proof fn lemma_store_move_is_the_handlers_step(s: Shared, i: int, job: PodcastStateView)
    requires
        enabled(s, i, Move::Load { came_through: true }),
        list_from_object(s.object) is Ok,
        job.record == s.tasks[i].record,
    ensures
        ({
            let read = after(s, i, Move::Load { came_through: true });
            let written = after(read, i, Move::Store { came_through: true });
            &&& enabled(read, i, Move::Store { came_through: true })
            &&& written.object is Some
            &&& podcast_after_load(job, s.object).1 == (EffectView::UploadBytes {
                key: job.username + "/metadata.mp"@,
                bytes: written.object->0,
            })
            &&& podcast_after_load(job, s.object).0.list == list_to_write(read, i)
        }),
{
    lemma_stored_list_is_the_read_list_extended(job, s.object, list_from_object(s.object)->Ok_0);
}

} // verus!
