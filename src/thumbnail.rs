use vstd::prelude::*;

verus! {

/// What the host's image loader answered to one poll.
#[derive(Clone, Copy, Debug, PartialEq, Eq, Structural)]
pub enum LoadPoll {
    /// The image is still loading.
    Pending,
    /// The image is decoded; the value is the host's handle for it.
    Ready(u64),
    /// The image could not be loaded.
    Failed,
}

/// The cached state of a project's thumbnail.
#[derive(Clone, Copy, Debug, PartialEq, Eq, Structural)]
pub enum Thumbnail {
    /// No load has been asked for yet.
    NotRequested,
    /// A load was asked for and has not finished.
    Pending,
    /// The decoded image's handle; kept for the rest of the session.
    Ready(u64),
    /// The load failed; the thumbnail stays absent for the session.
    Failed,
}

/// The state after recording one poll's answer.
pub open spec fn after_poll(poll: LoadPoll) -> Thumbnail {
    match poll {
        LoadPoll::Pending => Thumbnail::Pending,
        LoadPoll::Ready(h) => Thumbnail::Ready(h),
        LoadPoll::Failed => Thumbnail::Failed,
    }
}

impl Thumbnail {
    /// The handle, once the image is cached.
    pub open spec fn handle_spec(self) -> Option<u64> {
        match self {
            Thumbnail::Ready(h) => Some(h),
            _ => None,
        }
    }

    /// A load is to be issued (or polled again) in this state.
    pub open spec fn wants_load_spec(self) -> bool {
        self is NotRequested || self is Pending
    }

    /// A thumbnail that nothing has been asked of yet.
    pub fn new() -> (t: Thumbnail)
        ensures
            t == Thumbnail::NotRequested,
    {
        Thumbnail::NotRequested
    }

    /// The cached handle, if the image has been loaded.
    pub fn cached(&self) -> (r: Option<u64>)
        ensures
            r == self.handle_spec(),
    {
        match self {
            Thumbnail::Ready(h) => Some(*h),
            _ => None,
        }
    }

    /// Whether the caller should poll the loader this frame: only before the
    /// image is cached and while no failure has been seen.
    pub fn wants_load(&self) -> (r: bool)
        ensures
            r == self.wants_load_spec(),
    {
        match self {
            Thumbnail::NotRequested => true,
            Thumbnail::Pending => true,
            _ => false,
        }
    }

    /// Records the loader's answer and returns the handle to draw this
    /// frame, if there is one.
    pub fn record(&mut self, poll: LoadPoll) -> (r: Option<u64>)
        requires
            old(self).wants_load_spec(),
        ensures
            *final(self) == after_poll(poll),
            r == final(self).handle_spec(),
    {
        *self = match poll {
            LoadPoll::Pending => Thumbnail::Pending,
            LoadPoll::Ready(h) => Thumbnail::Ready(h),
            LoadPoll::Failed => Thumbnail::Failed,
        };
        self.cached()
    }
}

/// Once a poll has answered `Ready(h)`, the handle `h` is cached and no
/// further load is issued; once a poll has failed, none is issued either.
pub proof fn loaded_thumbnail_is_final(h: u64)
    ensures
        after_poll(LoadPoll::Ready(h)).handle_spec() == Some(h),
        !after_poll(LoadPoll::Ready(h)).wants_load_spec(),
        !after_poll(LoadPoll::Failed).wants_load_spec(),
        after_poll(LoadPoll::Failed).handle_spec() is None,
        after_poll(LoadPoll::Pending).wants_load_spec(),
        after_poll(LoadPoll::Pending).handle_spec() is None,
{
}

} // verus!
