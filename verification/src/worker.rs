use vstd::prelude::*;

use crate::adjustments::PhotoAdjustments;

verus! {

/// A request sent from the interface to the background edit worker: a new base image
/// (`I`, the decoded photo) or a new slider state together with the handle (`C`) used
/// to wake the interface once the edit is rendered.
pub enum WorkerMessage<I, C> {
    LoadImage(I),
    Adjust(PhotoAdjustments, C),
}

/// The decisions of the edit worker. The worker blocks for one message, then drains
/// every message already queued, feeding each to `receive`; afterwards
/// `take_render_request` says whether to render, and with which sliders. Only the base
/// image outlives a batch; slider states that were superseded inside a batch are never
/// rendered.
pub struct WorkerState<I, C> {
    pub current_image: Option<I>,
    pub latest_adjustment: Option<(PhotoAdjustments, C)>,
}

impl<I, C> WorkerState<I, C> {
    /// The state after one more message of the current batch.
    pub open spec fn after(self, msg: WorkerMessage<I, C>) -> Self {
        match msg {
            WorkerMessage::LoadImage(img) => WorkerState {
                current_image: Some(img),
                latest_adjustment: self.latest_adjustment,
            },
            WorkerMessage::Adjust(adj, ctx) => WorkerState {
                current_image: self.current_image,
                latest_adjustment: Some((adj, ctx)),
            },
        }
    }

    /// The state after a whole sequence of messages, received in order.
    pub open spec fn after_all(self, msgs: Seq<WorkerMessage<I, C>>) -> Self
        decreases msgs.len(),
    {
        if msgs.len() == 0 {
            self
        } else {
            self.after_all(msgs.drop_last()).after(msgs.last())
        }
    }

    /// What a batch that ends in this state renders: the latest slider state, provided a
    /// base image is loaded.
    pub open spec fn render_request(self) -> Option<(PhotoAdjustments, C)> {
        if self.current_image.is_some() {
            self.latest_adjustment
        } else {
            None
        }
    }

    /// The worker before its first message: no image, no pending adjustment.
    pub fn new() -> (s: Self)
        ensures
            s.current_image.is_none(),
            s.latest_adjustment.is_none(),
    {
        WorkerState { current_image: None, latest_adjustment: None }
    }

    /// Takes one message of the current batch: a new image replaces the base image, a new
    /// slider state replaces the pending one.
    pub fn receive(&mut self, msg: WorkerMessage<I, C>)
        ensures
            *final(self) == old(self).after(msg),
    {
        match msg {
            WorkerMessage::LoadImage(img) => {
                self.current_image = Some(img);
            },
            WorkerMessage::Adjust(adj, ctx) => {
                self.latest_adjustment = Some((adj, ctx));
            },
        }
    }

    /// Ends the batch: returns the slider state to render (the latest of the batch, when a
    /// base image is loaded) and clears the pending adjustment; the base image stays.
    pub fn take_render_request(&mut self) -> (r: Option<(PhotoAdjustments, C)>)
        ensures
            r == old(self).render_request(),
            final(self).current_image == old(self).current_image,
            final(self).latest_adjustment.is_none(),
    {
        let pending = self.latest_adjustment.take();
        if self.current_image.is_some() {
            pending
        } else {
            None
        }
    }
}

/// The last base image among a sequence of messages, if any.
pub open spec fn last_image<I, C>(msgs: Seq<WorkerMessage<I, C>>) -> Option<I>
    decreases msgs.len(),
{
    if msgs.len() == 0 {
        None
    } else {
        match msgs.last() {
            WorkerMessage::LoadImage(img) => Some(img),
            WorkerMessage::Adjust(..) => last_image(msgs.drop_last()),
        }
    }
}

/// The last slider state (with its wake-up handle) among a sequence of messages, if any.
pub open spec fn last_adjustment<I, C>(msgs: Seq<WorkerMessage<I, C>>) -> Option<
    (PhotoAdjustments, C),
>
    decreases msgs.len(),
{
    if msgs.len() == 0 {
        None
    } else {
        match msgs.last() {
            WorkerMessage::LoadImage(..) => last_adjustment(msgs.drop_last()),
            WorkerMessage::Adjust(adj, ctx) => Some((adj, ctx)),
        }
    }
}

/// Only the latest counts: after a batch of messages the worker holds the last image sent
/// (or keeps the one it had) and, as pending adjustment, the last slider state sent (or the
/// one it had).
pub proof fn lemma_latest_message_wins<I, C>(s: WorkerState<I, C>, msgs: Seq<WorkerMessage<I, C>>)
    ensures
        s.after_all(msgs).current_image == (match last_image(msgs) {
            Some(img) => Some(img),
            None => s.current_image,
        }),
        s.after_all(msgs).latest_adjustment == (match last_adjustment(msgs) {
            Some(a) => Some(a),
            None => s.latest_adjustment,
        }),
    decreases msgs.len(),
{
    if msgs.len() > 0 {
        lemma_latest_message_wins(s, msgs.drop_last());
    }
}

/// A fresh batch (no adjustment pending) renders exactly the last slider state it received,
/// and only if an image is loaded by its end; a batch with no slider state renders nothing.
pub proof fn lemma_batch_renders_latest<I, C>(s: WorkerState<I, C>, msgs: Seq<WorkerMessage<I, C>>)
    requires
        s.latest_adjustment.is_none(),
    ensures
        s.after_all(msgs).render_request() == (if last_image(msgs).is_some()
            || s.current_image.is_some() {
            last_adjustment(msgs)
        } else {
            None
        }),
{
    lemma_latest_message_wins(s, msgs);
}

} // verus!
