//! What holds of a reading thread over all that it learns.
use crate::feed::{FeedAction, FeedEvent};
use vstd::prelude::*;

verus! {

/// Whether the thread has ended.
pub open spec fn over(events: Seq<FeedEvent<Seq<u8>>>) -> bool {
    exists|i: int| 0 <= i < events.len() && crate::feed::feed_step(#[trigger] events[i]) is Exit
}

/// What the thread read, one piece for each writer that came and went.
pub open spec fn read(events: Seq<FeedEvent<Seq<u8>>>) -> Seq<Seq<u8>>
    decreases events.len(),
{
    if events.len() == 0 {
        Seq::empty()
    } else {
        let before = read(events.drop_last());
        match events.last() {
            FeedEvent::Read(data) if !over(events.drop_last()) => before.push(data),
            _ => before,
        }
    }
}

/// What the thread passed on.
pub open spec fn sent(events: Seq<FeedEvent<Seq<u8>>>) -> Seq<Seq<u8>>
    decreases events.len(),
{
    if events.len() == 0 {
        Seq::empty()
    } else {
        let before = sent(events.drop_last());
        match crate::feed::feed_step(events.last()) {
            FeedAction::Send(data) if !over(events.drop_last()) => before.push(data),
            _ => before,
        }
    }
}

/// Those messages that are not empty.
pub open spec fn not_empty(messages: Seq<Seq<u8>>) -> Seq<Seq<u8>> {
    messages.filter(|m: Seq<u8>| m.len() > 0)
}

/// A reading thread passes on what it reads, whole and in order, and passes over nothing but
/// writers that wrote nothing.
pub proof fn all_that_is_not_empty_is_passed_on(events: Seq<FeedEvent<Seq<u8>>>)
    ensures
        sent(events) == not_empty(read(events)),
    decreases events.len(),
{
    reveal(Seq::filter);
    if events.len() > 0 {
        let earlier = events.drop_last();
        all_that_is_not_empty_is_passed_on(earlier);
        if let FeedEvent::Read(data) = events.last() {
            if !over(earlier) {
                assert(read(events).drop_last() =~= read(earlier));
            }
        }
    }
}

/// What a reading thread does, and when: it opens the FIFO exactly when it is not asked to stop,
/// reads exactly when a writer has come, passes on exactly what a writer wrote that wrote
/// something, begins again exactly when that was taken or there was nothing to pass on, and
/// ends exactly when it is asked to, when the FIFO fails it, or when nobody wants what it has.
pub proof fn a_reading_thread_goes_round(event: FeedEvent<Seq<u8>>, data: Seq<u8>)
    ensures
        crate::feed::feed_step(event) is Open <==> event == (FeedEvent::<Seq<u8>>::Turn {
            stop: false,
        }),
        crate::feed::feed_step(event) is Read <==> event is Opened,
        crate::feed::feed_step(event) == FeedAction::Send(data) <==> event == FeedEvent::Read(data)
            && data.len() > 0,
        crate::feed::feed_step(event) is Turn <==> event is Sent || (event matches FeedEvent::Read(
            read,
        ) && read.len() == 0),
        crate::feed::feed_step(event) is Exit <==> event == (FeedEvent::<Seq<u8>>::Turn {
            stop: true,
        }) || event is OpenFailed || event is ReadFailed || event is Unwanted,
        crate::feed::feed_step(event).busy() <==> event is Opened || (event matches FeedEvent::Read(
            read,
        ) && read.len() > 0),
{
}

/// What a reading thread learns and does is taken as it stands: what it read with all of its
/// bytes.
pub proof fn feed_events_are_taken_as_they_are(data: Vec<u8>, stop: bool)
    ensures
        (FeedEvent::<Vec<u8>>::Turn { stop })@ == (FeedEvent::<Seq<u8>>::Turn { stop }),
        FeedEvent::Read(data)@ == FeedEvent::Read(data@),
        FeedEvent::<Vec<u8>>::Opened@ is Opened,
        FeedEvent::<Vec<u8>>::OpenFailed@ is OpenFailed,
        FeedEvent::<Vec<u8>>::ReadFailed@ is ReadFailed,
        FeedEvent::<Vec<u8>>::Sent@ is Sent,
        FeedEvent::<Vec<u8>>::Unwanted@ is Unwanted,
        FeedAction::Send(data)@ == FeedAction::Send(data@),
        FeedAction::<Vec<u8>>::Open@ is Open,
        FeedAction::<Vec<u8>>::Read@ is Read,
        FeedAction::<Vec<u8>>::Turn@ is Turn,
        FeedAction::<Vec<u8>>::Exit@ is Exit,
{
}

} // verus!
