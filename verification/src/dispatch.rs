//! The dispatch loop: it owns the watermark of the update stream, asks for the
//! updates after it, hands every update of a batch on to the handlers, and
//! moves the watermark to the greatest identifier of the batch.

use vstd::prelude::*;
use crate::error::BotError;
use crate::handlers::HandlerKind;
use crate::http::HttpRequest;
use crate::number::{parse_i32, parse_trimmed_i32, trimmed};
use crate::telegram_api::{TelegramClient, Update, UpdateView};
use crate::text::{decimal, i64_to_decimal};

verus! {

/// The greatest identifier among the updates of a batch that is not empty.
pub open spec fn max_update_id(batch: Seq<UpdateView>) -> int
    recommends
        batch.len() > 0,
    decreases batch.len(),
{
    if batch.len() <= 1 {
        batch[0].update_id
    } else {
        let rest = max_update_id(batch.drop_last());
        if batch.last().update_id > rest {
            batch.last().update_id
        } else {
            rest
        }
    }
}

/// The watermark after a batch: the greatest identifier of the batch, or the
/// watermark before it when the batch is empty.
pub open spec fn watermark_after(before: int, batch: Seq<UpdateView>) -> int {
    if batch.len() == 0 {
        before
    } else {
        max_update_id(batch)
    }
}

/// The greatest identifier of a batch is the identifier of one of its updates,
/// and none of its updates has a greater one.
pub proof fn lemma_max_update_id_is_the_maximum(batch: Seq<UpdateView>)
    requires
        batch.len() > 0,
    ensures
        exists|i: int| 0 <= i < batch.len() && #[trigger] batch[i].update_id == max_update_id(batch),
        forall|i: int| 0 <= i < batch.len() ==> #[trigger] batch[i].update_id <= max_update_id(batch),
    decreases batch.len(),
{
    if batch.len() == 1 {
        assert(batch[0].update_id == max_update_id(batch));
    } else {
        let shorter = batch.drop_last();
        lemma_max_update_id_is_the_maximum(shorter);
        let w = choose|i: int| 0 <= i < shorter.len() && #[trigger] shorter[i].update_id
            == max_update_id(shorter);
        assert(shorter[w] == batch[w]);
        if batch.last().update_id > max_update_id(shorter) {
            assert(batch[batch.len() - 1].update_id == max_update_id(batch));
        } else {
            assert(batch[w].update_id == max_update_id(batch));
        }
        assert forall|i: int| 0 <= i < batch.len() implies #[trigger] batch[i].update_id
            <= max_update_id(batch) by {
            if i < shorter.len() {
                assert(shorter[i] == batch[i]);
            }
        }
    }
}

/// One handing of an update to a handler: the place of the update in its
/// batch, and the handler.
#[derive(Clone, Copy, Debug, PartialEq, Eq, Structural)]
pub struct Assignment {
    pub update: usize,
    pub handler: HandlerKind,
}

/// The handings of a batch of `updates` updates to the handlers: update by
/// update in the order of the batch, and for each update handler by handler.
pub open spec fn assignments(updates: nat, handlers: Seq<HandlerKind>) -> Seq<Assignment>
    decreases updates,
{
    if updates == 0 {
        Seq::empty()
    } else {
        assignments((updates - 1) as nat, handlers) + Seq::new(
            handlers.len(),
            |j: int| Assignment { update: (updates - 1) as usize, handler: handlers[j] },
        )
    }
}

/// Every update of a batch is handed to every handler, once: the handing of
/// the update at place `i` to the handler at place `j` stands at place
/// `i * handlers + j` of the plan, and the plan holds nothing else.
pub proof fn lemma_every_update_meets_every_handler(updates: nat, handlers: Seq<HandlerKind>)
    requires
        updates <= usize::MAX,
    ensures
        assignments(updates, handlers).len() == updates * handlers.len(),
        forall|i: int, j: int|
            0 <= i < updates && 0 <= j < handlers.len() ==> 0 <= i * handlers.len() + j
                < assignments(updates, handlers).len() && (#[trigger] assignments(
                updates,
                handlers,
            )[i * handlers.len() + j]) == (Assignment { update: i as usize, handler: handlers[j] }),
    decreases updates,
{
    let k = handlers.len() as int;
    if updates > 0 {
        let before = (updates - 1) as nat;
        lemma_every_update_meets_every_handler(before, handlers);
        assert(before * k + k == updates * k) by (nonlinear_arith)
            requires
                before + 1 == updates,
        ;
        assert forall|i: int, j: int| 0 <= i < updates && 0 <= j < k implies 0 <= i * k + j
            < assignments(updates, handlers).len() && (#[trigger] assignments(updates, handlers)[i
            * k + j]) == (Assignment { update: i as usize, handler: handlers[j] }) by {
            assert(0 <= i * k && i * k + k <= updates * k) by (nonlinear_arith)
                requires
                    0 <= i < updates,
                    0 <= k,
            ;
            if i < before {
                assert(i * k + k <= before * k) by (nonlinear_arith)
                    requires
                        0 <= i < before,
                        0 <= k,
                ;
            } else {
                assert(i * k + j - before * k == j);
            }
        }
    } else {
        assert(updates * k == 0) by (nonlinear_arith)
            requires
                updates == 0,
        ;
    }
}

/// Plans the handing of a batch of `updates` updates to the handlers.
pub fn fan_out(updates: usize, handlers: &Vec<HandlerKind>) -> (r: Vec<Assignment>)
    ensures
        r@ == assignments(updates as nat, handlers@),
{
    let mut plan: Vec<Assignment> = Vec::new();
    let mut i: usize = 0;
    while i < updates
        invariant
            i <= updates,
            plan@ == assignments(i as nat, handlers@),
        decreases updates - i,
    {
        let ghost before = plan@;
        let mut j: usize = 0;
        while j < handlers.len()
            invariant
                j <= handlers.len(),
                i < updates,
                plan@ == before + Seq::new(
                    j as nat,
                    |k: int| Assignment { update: i, handler: handlers@[k] },
                ),
            decreases handlers.len() - j,
        {
            plan.push(Assignment { update: i, handler: handlers[j] });
            j += 1;
        }
        i += 1;
    }
    plan
}

/// What one cycle of the loop asks of its surroundings.
#[derive(Clone, Debug, PartialEq, Eq)]
pub struct Cycle {
    /// The updates to hand to every handler, in the order they came.  They
    /// are to be handed on before the watermark is saved.
    pub dispatch: Vec<Update>,
    /// The text to save as the new state; `None` when nothing is to be saved.
    pub persist: Option<String>,
    /// The failure to log, when the updates could not be fetched.
    pub report: Option<BotError>,
}

/// The dispatch loop.
#[derive(Clone, Copy, Debug, PartialEq, Eq, Structural)]
pub struct DispatchLoop {
    pub last_processed: i32,
}

/// The text under which a watermark is saved: the number in decimal.
pub fn save_update_id(update_id: i32) -> (r: String)
    ensures
        r@ == decimal(update_id as int),
{
    i64_to_decimal(update_id as i64)
}

/// Finds the greatest identifier of a batch, or `before` for an empty batch.
pub fn next_watermark(before: i32, batch: &Vec<Update>) -> (r: i32)
    ensures
        r == watermark_after(before as int, batch.deep_view()),
{
    let n = batch.len();
    if n == 0 {
        return before;
    }
    let ghost views = batch.deep_view();
    assert(views[0] == batch@[0]@);
    assert(views.subrange(0, 1).len() == 1);
    assert(views.subrange(0, 1)[0] == views[0]);
    let mut best = batch[0].update_id;
    let mut i: usize = 1;
    while i < n
        invariant
            1 <= i <= n,
            n == batch@.len(),
            views == batch.deep_view(),
            best == max_update_id(views.subrange(0, i as int)),
        decreases n - i,
    {
        assert(views[i as int] == batch@[i as int]@);
        let ghost longer = views.subrange(0, i + 1);
        assert(longer.drop_last() =~= views.subrange(0, i as int));
        assert(longer.last() == views[i as int]);
        if batch[i].update_id > best {
            best = batch[i].update_id;
        }
        i += 1;
    }
    assert(views.subrange(0, n as int) =~= views);
    best
}

impl DispatchLoop {
    pub fn new(last_processed: i32) -> (r: DispatchLoop)
        ensures
            r.last_processed == last_processed,
    {
        DispatchLoop { last_processed }
    }

    /// Starts the loop from the saved state: a whole number in decimal, white
    /// space around it left aside.  Any other content is refused.
    pub fn from_saved(contents: &str) -> (r: Option<DispatchLoop>)
        ensures
            r == match parse_i32(trimmed(contents@)) {
                Some(id) => Some(DispatchLoop { last_processed: id }),
                None => None,
            },
    {
        match parse_trimmed_i32(contents) {
            Some(id) => Some(DispatchLoop { last_processed: id }),
            None => None,
        }
    }

    /// The identifier from which to ask for updates: the one after the
    /// watermark.  There is none after the greatest number an identifier can
    /// be.
    pub fn poll_offset(&self) -> (r: Option<i32>)
        ensures
            r == if self.last_processed < i32::MAX {
                Some((self.last_processed + 1) as i32)
            } else {
                None
            },
    {
        self.last_processed.checked_add(1)
    }

    /// Ends a cycle.  After a fetch that succeeded, every update of the batch
    /// is handed on, the watermark becomes the greatest identifier of the
    /// batch, or stays for an empty batch, and is saved.  After a fetch that
    /// failed, nothing is handed on, the watermark stays, and nothing is
    /// saved.
    pub fn complete(&mut self, fetched: Result<Vec<Update>, BotError>) -> (r: Cycle)
        ensures
            match fetched {
                Ok(batch) => {
                    &&& final(self).last_processed == watermark_after(
                        old(self).last_processed as int,
                        batch.deep_view(),
                    )
                    &&& r.dispatch == batch
                    &&& r.persist.deep_view() == Some(decimal(final(self).last_processed as int))
                    &&& r.report is None
                },
                Err(e) => {
                    &&& final(self).last_processed == old(self).last_processed
                    &&& r.dispatch@.len() == 0
                    &&& r.persist is None
                    &&& r.report == Some(e)
                },
            },
    {
        match fetched {
            Ok(batch) => {
                self.last_processed = next_watermark(self.last_processed, &batch);
                Cycle {
                    dispatch: batch,
                    persist: Some(save_update_id(self.last_processed)),
                    report: None,
                }
            },
            Err(e) => Cycle { dispatch: Vec::new(), persist: None, report: Some(e) },
        }
    }
}

/// The request for the updates after the watermark, if there can be any.
pub fn poll_request(state: &DispatchLoop, client: &TelegramClient) -> (r: Option<HttpRequest>)
    ensures
        r is Some <==> state.last_processed < i32::MAX,
        r matches Some(request) ==> request@ == crate::http::plain_request(
            crate::http::Verb::Get,
            crate::telegram_api::api_url_spec(
                client.token(),
                "getUpdates?offset="@ + decimal(state.last_processed + 1),
            ),
        ),
{
    match state.poll_offset() {
        Some(offset) => Some(client.get_updates(offset)),
        None => None,
    }
}

/// After a cycle whose fetch succeeded, the saved watermark is the greatest
/// identifier seen in the cycle: it is the identifier of an update of the
/// batch, and no update of the batch has a greater one.  After a cycle with an
/// empty batch it is the watermark from before.
pub proof fn lemma_watermark_is_the_greatest_seen(before: int, batch: Seq<UpdateView>)
    ensures
        batch.len() == 0 ==> watermark_after(before, batch) == before,
        batch.len() > 0 ==> exists|i: int|
            0 <= i < batch.len() && #[trigger] batch[i].update_id == watermark_after(before, batch),
        forall|i: int|
            0 <= i < batch.len() ==> #[trigger] batch[i].update_id <= watermark_after(before, batch),
{
    if batch.len() > 0 {
        lemma_max_update_id_is_the_maximum(batch);
    }
}

} // verus!
