use vstd::prelude::*;
use vstd::view::View as _;
use crate::components::application::Action as AppAction;
use crate::components::application::ActionView as AppActionView;

verus! {

/// A message for the file chooser.
#[derive(Clone, Debug, PartialEq, Eq)]
pub enum Action {
    /// Ask the user for a file to open.
    Open,
    /// Ask the user where to save.
    Save,
    /// The user picked this path.
    Accept(String),
    /// The user dismissed the chooser.
    Cancel,
}

/// An `Action` with its path taken by value.
pub enum ActionView {
    Open,
    Save,
    Accept(Seq<char>),
    Cancel,
}

impl vstd::view::View for Action {
    type V = ActionView;

    open spec fn view(&self) -> ActionView {
        match self {
            Action::Open => ActionView::Open,
            Action::Save => ActionView::Save,
            Action::Accept(p) => ActionView::Accept(p@),
            Action::Cancel => ActionView::Cancel,
        }
    }
}

/// What the chooser is for.
#[derive(Clone, Copy, Debug, PartialEq, Eq, Structural)]
pub enum State {
    ShowOpen,
    ShowSave,
    Hide,
}

/// What a shown chooser asks the user for.
#[derive(Clone, Copy, Debug, PartialEq, Eq, Structural)]
pub enum Mode {
    Open,
    Save,
}

/// How a shown chooser is set up: its mode, its title and the label of its accept button.
#[derive(Clone, Copy, Debug, PartialEq, Eq)]
pub struct Setup {
    pub mode: Mode,
    pub title: &'static str,
    pub accept_label: &'static str,
}

impl State {
    /// How the chooser is set up in this state: for opening, titled "Open File" with an
    /// "Open" button; for saving, titled "Save File" with a "Save" button; `None` where
    /// it is hidden.
    pub fn setup(&self) -> (r: Option<Setup>)
        ensures
            match *self {
                State::ShowOpen => r matches Some(s) && s.mode == Mode::Open && s.title@
                    == "Open File"@ && s.accept_label@ == "Open"@,
                State::ShowSave => r matches Some(s) && s.mode == Mode::Save && s.title@
                    == "Save File"@ && s.accept_label@ == "Save"@,
                State::Hide => r is None,
            },
    {
        match self {
            State::ShowOpen => Some(Setup { mode: Mode::Open, title: "Open File", accept_label: "Open" }),
            State::ShowSave => Some(Setup { mode: Mode::Save, title: "Save File", accept_label: "Save" }),
            State::Hide => None,
        }
    }
}

/// The chooser's state: its purpose and a counter that grows whenever it must be
/// shown again.
pub struct Model {
    state: State,
    revision: u64,
}

/// What a `Model` holds, as mathematical values.
pub struct ModelView {
    pub state: State,
    pub revision: nat,
}

impl ModelView {
    /// A hidden chooser.
    pub open spec fn initial() -> ModelView {
        ModelView { state: State::Hide, revision: 0 }
    }

    /// The action can be applied: showing must not overflow the revision counter,
    /// and a path can only be accepted while the chooser has a purpose.
    pub open spec fn can_apply(self, action: ActionView) -> bool {
        match action {
            ActionView::Open => self.revision < u64::MAX,
            ActionView::Save => self.revision < u64::MAX,
            ActionView::Accept(_) => self.state != State::Hide,
            ActionView::Cancel => true,
        }
    }

    /// The state after `action`. Accepting a path leaves the state as it is:
    /// the chooser hides itself.
    pub open spec fn apply(self, action: ActionView) -> ModelView {
        match action {
            ActionView::Open => ModelView { state: State::ShowOpen, revision: self.revision + 1 },
            ActionView::Save => ModelView { state: State::ShowSave, revision: self.revision + 1 },
            ActionView::Accept(_) => self,
            ActionView::Cancel => ModelView { state: State::Hide, ..self },
        }
    }

    /// The message that `action` sends to the application: an accepted path is opened
    /// or saved to, as the chooser was asked to.
    pub open spec fn request(self, action: ActionView) -> Option<AppActionView> {
        match action {
            ActionView::Accept(path) => match self.state {
                State::ShowOpen => Some(AppActionView::OpenFile(Some(path))),
                State::ShowSave => Some(AppActionView::SaveFile(Some(path))),
                State::Hide => None,
            },
            _ => None,
        }
    }
}

impl vstd::view::View for Model {
    type V = ModelView;

    closed spec fn view(&self) -> ModelView {
        ModelView { state: self.state, revision: self.revision as nat }
    }
}

impl Model {
    /// A hidden chooser.
    pub fn new() -> (m: Model)
        ensures
            m@ == ModelView::initial(),
    {
        Model { state: State::Hide, revision: 0 }
    }

    /// Whether `action` can be applied (see `ModelView::can_apply`).
    pub fn can_update(&self, action: &Action) -> (r: bool)
        ensures
            r == self@.can_apply(action@),
    {
        match action {
            Action::Open => self.revision < u64::MAX,
            Action::Save => self.revision < u64::MAX,
            Action::Accept(_) => self.state != State::Hide,
            Action::Cancel => true,
        }
    }

    /// Applies `action`, and returns the message for the application that it gives.
    pub fn update(&mut self, action: Action) -> (request: Option<AppAction>)
        requires
            old(self)@.can_apply(action@),
        ensures
            final(self)@ == old(self)@.apply(action@),
            request matches Some(a) ==> old(self)@.request(action@) == Some(a@),
            request is None ==> old(self)@.request(action@) is None,
    {
        match action {
            Action::Open => {
                self.state = State::ShowOpen;
                self.revision = self.revision + 1;
                None
            },
            Action::Save => {
                self.state = State::ShowSave;
                self.revision = self.revision + 1;
                None
            },
            Action::Accept(path) => {
                match self.state {
                    State::ShowOpen => Some(AppAction::OpenFile(Some(path))),
                    State::ShowSave => Some(AppAction::SaveFile(Some(path))),
                    State::Hide => None,
                }
            },
            Action::Cancel => {
                self.state = State::Hide;
                None
            },
        }
    }
}

/// The chooser widget's side: the revision it last acted on.
pub struct View {
    revision: u64,
}

impl vstd::view::View for View {
    type V = nat;

    closed spec fn view(&self) -> nat {
        self.revision as nat
    }
}

impl View {
    /// A view that has acted on nothing yet.
    pub fn new() -> (v: View)
        ensures
            v@ == 0,
    {
        View { revision: 0 }
    }

    /// Catches up with `model`: where its revision differs from the one last acted on,
    /// returns the state the chooser is to take (shown for opening, shown for saving,
    /// or hidden); else `None`.
    pub fn refresh(&mut self, model: &Model) -> (change: Option<State>)
        ensures
            final(self)@ == model@.revision,
            change == (if old(self)@ != model@.revision { Some(model@.state) } else { None }),
    {
        if self.revision != model.revision {
            self.revision = model.revision;
            Some(model.state)
        } else {
            None
        }
    }
}

} // verus!
