use vstd::prelude::*;

verus! {

/// A notification from the browser engine that the host may want to show:
/// title and status changes, the load lifecycle, navigation and panics.
#[derive(Debug, PartialEq, Eq)]
pub enum Notice {
    PageTitle(Option<String>),
    Status(Option<String>),
    LoadStart,
    LoadEnd,
    HeadParsed,
    /// The session history changed; the index of the current entry.
    HistoryChanged(usize),
    LoadError(String),
    /// A page asked to navigate to this URL.
    NavigationRequested(String),
    Favicon(String),
    Panic(String),
}

/// The notifications the browser engine has sent and the host has not yet
/// taken, oldest first.
pub struct NoticeQueue {
    items: Vec<Notice>,
}

impl NoticeQueue {
    pub closed spec fn view(&self) -> Seq<Notice> {
        self.items@
    }

    pub fn new() -> (r: NoticeQueue)
        ensures
            r.view() == Seq::<Notice>::empty(),
    {
        NoticeQueue { items: Vec::new() }
    }

    /// Records a notification after those already waiting.
    pub fn notify(&mut self, notice: Notice)
        ensures
            final(self).view() == old(self).view().push(notice),
    {
        self.items.push(notice);
    }

    /// How many notifications are waiting.
    pub fn len(&self) -> (r: usize)
        ensures
            r == self.view().len(),
    {
        self.items.len()
    }

    /// Hands over every waiting notification, oldest first, and empties the
    /// queue.
    pub fn take_all(&mut self) -> (r: Vec<Notice>)
        ensures
            r@ == old(self).view(),
            final(self).view() == Seq::<Notice>::empty(),
    {
        let mut taken: Vec<Notice> = Vec::new();
        std::mem::swap(&mut self.items, &mut taken);
        taken
    }
}

} // verus!
