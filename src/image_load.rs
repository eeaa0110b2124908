//! A pending image load: holds the host's image object until the host
//! reports it complete, then hands it over exactly once. Each poll takes the
//! host's completion flag and says what the awaiting task must do.
use vstd::prelude::*;

verus! {

/// What one poll of a pending load yields.
pub enum LoadPoll<I> {
    /// The image is loaded; it now belongs to the caller.
    Ready(I),
    /// Still loading: the caller registers a one-shot callback that wakes
    /// the awaiting task when the host signals completion, and yields.
    Waiting,
    /// The image was already handed over: this load is over.
    Failed,
}

/// The state after a poll of a load holding `image`, given the host's
/// completion flag, and what the poll yields.
pub open spec fn poll_step<I>(image: Option<I>, complete: bool) -> (Option<I>, LoadPoll<I>) {
    match image {
        Some(i) => if complete {
            (None, LoadPoll::Ready(i))
        } else {
            (Some(i), LoadPoll::Waiting)
        },
        None => (None, LoadPoll::Failed),
    }
}

/// A load in progress: zero or one host image object.
pub struct PendingImageLoad<I> {
    image: Option<I>,
}

impl<I> View for PendingImageLoad<I> {
    type V = Option<I>;

    /// The image object still held, if any.
    closed spec fn view(&self) -> Option<I> {
        self.image
    }
}

impl<I> PendingImageLoad<I> {
    /// Starts waiting on `image`, whose load the host has already begun.
    pub fn new(image: I) -> (r: PendingImageLoad<I>)
        ensures
            r@ == Some(image),
    {
        PendingImageLoad { image: Some(image) }
    }

    /// The image object still held, so that the host can read its
    /// completion flag or register a callback on it.
    pub fn image(&self) -> (r: Option<&I>)
        ensures
            r is None <==> self@ is None,
            r matches Some(i) ==> self@ == Some(*i),
    {
        match &self.image {
            Some(i) => Some(i),
            None => None,
        }
    }

    /// Polls once, given whether the host reports the image complete. A
    /// complete image is handed over at once and the load is spent; an
    /// incomplete one stays held; a spent load fails.
    pub fn poll(&mut self, complete: bool) -> (r: LoadPoll<I>)
        ensures
            (final(self)@, r) == poll_step(old(self)@, complete),
    {
        match self.image.take() {
            Some(i) => {
                if complete {
                    LoadPoll::Ready(i)
                } else {
                    self.image = Some(i);
                    LoadPoll::Waiting
                }
            },
            None => LoadPoll::Failed,
        }
    }
}

/// A load hands its image over exactly once. Polling a complete image
/// yields it at the first poll, with no callback to register; polling while
/// loading yields `Waiting` and keeps the image, so the poll that follows
/// the completion event yields it; any poll after that fails.
pub proof fn lemma_single_handover<I>(image: I, complete_at_first: bool)
    ensures
        poll_step(Some(image), true) == (None::<I>, LoadPoll::Ready(image)),
        poll_step(Some(image), false) == (Some(image), LoadPoll::<I>::Waiting),
        poll_step(poll_step(Some(image), false).0, true) == (None::<I>, LoadPoll::Ready(image)),
        poll_step(poll_step(Some(image), complete_at_first).0, true).1 == if complete_at_first {
            LoadPoll::<I>::Failed
        } else {
            LoadPoll::Ready(image)
        },
        forall|complete: bool| #[trigger] poll_step(None::<I>, complete).1 == LoadPoll::<I>::Failed,
{
}

} // verus!
