use vstd::prelude::*;
use vstd::view::View as _;

verus! {

/// A message for the about dialog.
#[derive(Clone, Debug, PartialEq, Eq)]
pub enum Action {
    /// Show the dialog.
    Open,
}

/// The dialog's state: how many times it was asked to show.
pub struct Model {
    revision: u64,
}

impl vstd::view::View for Model {
    type V = nat;

    closed spec fn view(&self) -> nat {
        self.revision as nat
    }
}

impl Model {
    /// A dialog that was never asked to show.
    pub fn new() -> (m: Model)
        ensures
            m@ == 0,
    {
        Model { revision: 0 }
    }

    /// Whether an action can be applied without the revision counter overflowing.
    pub fn can_update(&self) -> (r: bool)
        ensures
            r == (self@ < u64::MAX),
    {
        self.revision < u64::MAX
    }

    /// Each `Open` asks the view to show the dialog once more.
    pub fn update(&mut self, action: Action)
        requires
            old(self)@ < u64::MAX,
        ensures
            final(self)@ == old(self)@ + 1,
    {
        match action {
            Action::Open => {
                self.revision = self.revision + 1;
            },
        }
    }
}

/// The dialog widget's side: the revision it last acted on.
pub struct View {
    revision: u64,
}

impl vstd::view::View for View {
    type V = nat;

    closed spec fn view(&self) -> nat {
        self.revision as nat
    }
}

impl View {
    /// A view that has acted on nothing yet.
    pub fn new() -> (v: View)
        ensures
            v@ == 0,
    {
        View { revision: 0 }
    }

    /// Catches up with `model`: returns whether the dialog must be shown, which is
    /// when the model's revision differs from the one last acted on.
    pub fn refresh(&mut self, model: &Model) -> (show: bool)
        ensures
            final(self)@ == model@,
            show == (old(self)@ != model@),
    {
        if self.revision != model.revision {
            self.revision = model.revision;
            true
        } else {
            false
        }
    }
}

} // verus!
