use vstd::prelude::*;

use crate::adjustments::PhotoAdjustments;

verus! {

/// The outcome of one look at the sliders: the state to send to the edit worker (if the
/// sliders differ from the state last sent) and the state last sent afterwards.
pub open spec fn spec_slider_change(current: PhotoAdjustments, last_sent: PhotoAdjustments) -> (
    Option<PhotoAdjustments>,
    PhotoAdjustments,
) {
    if current != last_sent {
        (Some(current), current)
    } else {
        (None, last_sent)
    }
}

/// Once per frame the interface compares the panel's sliders with the state it last sent to
/// the edit worker. When they differ it records the new state as sent and returns it, to be
/// sent for rendering; otherwise nothing is sent.
pub fn take_slider_change(current: &PhotoAdjustments, last_sent: &mut PhotoAdjustments) -> (r: Option<
    PhotoAdjustments,
>)
    ensures
        (r, *final(last_sent)) == spec_slider_change(*current, *old(last_sent)),
{
    if *current != *last_sent {
        *last_sent = *current;
        Some(*current)
    } else {
        None
    }
}

/// The sliders are sent once per change: after one look, the state last sent is the panel's
/// state, and a second look with the same sliders sends nothing.
pub proof fn lemma_change_sent_once(current: PhotoAdjustments, last_sent: PhotoAdjustments)
    ensures
        spec_slider_change(current, last_sent).1 == current,
        spec_slider_change(current, spec_slider_change(current, last_sent).1).0.is_none(),
{
}


/// A state is sent exactly when the sliders differ from the state last sent, and then it is
/// the panel's state that is sent and recorded: any change of any slider reaches the worker,
/// and an unchanged panel sends nothing and leaves the record alone.
pub proof fn lemma_change_sent_iff_moved(current: PhotoAdjustments, last_sent: PhotoAdjustments)
    ensures
        current != last_sent ==> spec_slider_change(current, last_sent) == (Some(current), current),
        current == last_sent ==> spec_slider_change(current, last_sent) == (
            None::<PhotoAdjustments>,
            last_sent,
        ),
        spec_slider_change(current, last_sent).0.is_some() <==> current != last_sent,
{
}

} // verus!
