use vstd::prelude::*;

verus! {

/// A slot holding at most one handle, reached only through an exclusive
/// section.
pub struct SharedCell<T> {
    slot: Option<T>,
}

impl<T> View for SharedCell<T> {
    type V = Option<T>;

    closed spec fn view(&self) -> Option<T> {
        self.slot
    }
}

impl<T> SharedCell<T> {
    /// An empty cell.
    pub fn new() -> (r: Self)
        ensures
            r@ is None,
    {
        SharedCell { slot: None }
    }

    /// Installs `value`, replacing whatever the cell held.
    pub fn put(&mut self, value: T)
        ensures
            final(self)@ == Some(value),
    {
        self.slot = Some(value);
    }

    /// Whether a handle has been installed.
    pub fn is_installed(&self) -> (r: bool)
        ensures
            r == self@ is Some,
    {
        self.slot.is_some()
    }

    /// Runs `f` as one exclusive section over the contents: `f` receives what
    /// the cell holds (`None` before any `put`) and hands back what it is to
    /// hold afterwards, together with a result for the caller.
    pub fn with_mut<R, F: FnOnce(Option<T>) -> (Option<T>, R)>(&mut self, f: F) -> (r: R)
        requires
            f.requires((old(self)@,)),
        ensures
            f.ensures((old(self)@,), (final(self)@, r)),
    {
        let contents = self.slot.take();
        let (next, r) = f(contents);
        self.slot = next;
        r
    }
}

} // verus!
