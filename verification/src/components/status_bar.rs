use vstd::prelude::*;
use vstd::view::View as _;

verus! {

/// How long a toast stays in the status bar, in seconds.
pub const TOAST_DURATION_SECONDS: u64 = 3;

/// A message for the status bar.
#[derive(Clone, Debug, PartialEq, Eq)]
pub enum Action {
    /// Show a message until something else replaces it.
    SetStatus(String),
    /// Show a message and clear the bar after `TOAST_DURATION_SECONDS`.
    Toast(String),
    /// Empty the bar.
    ClearStatus,
}

/// An `Action` with its text taken by value.
pub enum ActionView {
    SetStatus(Seq<char>),
    Toast(Seq<char>),
    ClearStatus,
}

impl vstd::view::View for Action {
    type V = ActionView;

    open spec fn view(&self) -> ActionView {
        match self {
            Action::SetStatus(m) => ActionView::SetStatus(m@),
            Action::Toast(m) => ActionView::Toast(m@),
            Action::ClearStatus => ActionView::ClearStatus,
        }
    }
}

/// The bar's state: the message shown, if any, and a counter that grows at each change.
pub struct Model {
    message: Option<String>,
    revision: u64,
}

/// What a `Model` holds, as mathematical values.
pub struct ModelView {
    pub message: Option<Seq<char>>,
    pub revision: nat,
}

impl ModelView {
    /// An empty bar.
    pub open spec fn initial() -> ModelView {
        ModelView { message: None, revision: 0 }
    }

    /// The state after `action`: every action replaces the message and counts as a change.
    pub open spec fn apply(self, action: ActionView) -> ModelView {
        match action {
            ActionView::SetStatus(m) => ModelView { message: Some(m), revision: self.revision + 1 },
            ActionView::Toast(m) => ModelView { message: Some(m), revision: self.revision + 1 },
            ActionView::ClearStatus => ModelView { message: None, revision: self.revision + 1 },
        }
    }

    /// The delay, in seconds, after which `action` asks for the bar to be cleared.
    pub open spec fn clear_delay(action: ActionView) -> Option<u64> {
        match action {
            ActionView::Toast(_) => Some(TOAST_DURATION_SECONDS),
            _ => None,
        }
    }
}

impl vstd::view::View for Model {
    type V = ModelView;

    closed spec fn view(&self) -> ModelView {
        ModelView {
            message: match &self.message {
                Some(m) => Some(m@),
                None => None,
            },
            revision: self.revision as nat,
        }
    }
}

impl Model {
    /// An empty bar.
    pub fn new() -> (m: Model)
        ensures
            m@ == ModelView::initial(),
    {
        Model { message: None, revision: 0 }
    }

    /// Whether an action can be applied without the revision counter overflowing.
    pub fn can_update(&self) -> (r: bool)
        ensures
            r == (self@.revision < u64::MAX),
    {
        self.revision < u64::MAX
    }

    /// Applies `action`. A toast also returns the delay after which the caller is to
    /// send `ClearStatus`; the other actions return `None`.
    pub fn update(&mut self, action: Action) -> (clear_after: Option<u64>)
        requires
            old(self)@.revision < u64::MAX,
        ensures
            final(self)@ == old(self)@.apply(action@),
            clear_after == ModelView::clear_delay(action@),
    {
        match action {
            Action::SetStatus(message) => {
                self.message = Some(message);
                self.revision = self.revision + 1;
                None
            },
            Action::Toast(message) => {
                self.message = Some(message);
                self.revision = self.revision + 1;
                Some(TOAST_DURATION_SECONDS)
            },
            Action::ClearStatus => {
                self.message = None;
                self.revision = self.revision + 1;
                None
            },
        }
    }
}

/// The label's side: the revision it last showed.
pub struct View {
    revision: u64,
}

impl vstd::view::View for View {
    type V = nat;

    closed spec fn view(&self) -> nat {
        self.revision as nat
    }
}

/// What a refresh does to the view's revision and what text it puts in the label.
pub open spec fn refresh_spec(shown: nat, model: ModelView) -> (nat, Option<Seq<char>>) {
    if shown != model.revision {
        (
            model.revision,
            Some(
                match model.message {
                    Some(m) => m,
                    None => Seq::<char>::empty(),
                },
            ),
        )
    } else {
        (shown, None)
    }
}

impl View {
    /// A view that has shown nothing yet.
    pub fn new() -> (v: View)
        ensures
            v@ == 0,
    {
        View { revision: 0 }
    }

    /// Catches up with `model`: where its revision differs from the one last shown,
    /// returns the label's new text (the message, or an empty text); else `None`.
    pub fn refresh(&mut self, model: &Model) -> (text: Option<String>)
        ensures
            final(self)@ == refresh_spec(old(self)@, model@).0,
            text matches Some(t) ==> refresh_spec(old(self)@, model@).1 == Some(t@),
            text is None ==> refresh_spec(old(self)@, model@).1 is None,
    {
        if self.revision != model.revision {
            self.revision = model.revision;
            match &model.message {
                Some(message) => Some(message.clone()),
                None => Some(String::new()),
            }
        } else {
            None
        }
    }
}

} // verus!
