use vstd::prelude::*;
use vstd::view::View as _;

verus! {

/// A message for the document body.
#[derive(Clone, Debug, PartialEq, Eq)]
pub enum Action {
    /// A document was read from disk: it becomes both the saved and the active text.
    LoadDocument(String),
    /// The user edited the text; it carries the whole new text.
    DocumentChanged(String),
    /// The active text was written to disk.
    DocumentSaved,
}

/// An `Action` with its text taken by value.
pub enum ActionView {
    LoadDocument(Seq<char>),
    DocumentChanged(Seq<char>),
    DocumentSaved,
}

impl vstd::view::View for Action {
    type V = ActionView;

    open spec fn view(&self) -> ActionView {
        match self {
            Action::LoadDocument(s) => ActionView::LoadDocument(s@),
            Action::DocumentChanged(s) => ActionView::DocumentChanged(s@),
            Action::DocumentSaved => ActionView::DocumentSaved,
        }
    }
}

/// The body's state: the text as last loaded or saved, the text being edited,
/// and a counter that grows whenever the widget must be refilled from the model.
pub struct Model {
    saved_document: String,
    active_document: String,
    revision: u64,
}

/// What a `Model` holds, as mathematical values.
pub struct ModelView {
    pub saved_document: Seq<char>,
    pub active_document: Seq<char>,
    pub revision: nat,
}

impl ModelView {
    /// The state of a fresh body: nothing loaded, nothing typed.
    pub open spec fn initial() -> ModelView {
        ModelView {
            saved_document: Seq::<char>::empty(),
            active_document: Seq::<char>::empty(),
            revision: 0,
        }
    }

    /// The text being edited differs from the text on disk.
    pub open spec fn is_dirty(self) -> bool {
        self.saved_document != self.active_document
    }

    /// The action can be applied without the revision counter overflowing.
    pub open spec fn can_apply(self, action: ActionView) -> bool {
        action is LoadDocument ==> self.revision < u64::MAX
    }

    /// The state after `action`.
    pub open spec fn apply(self, action: ActionView) -> ModelView {
        match action {
            ActionView::LoadDocument(text) => ModelView {
                saved_document: text,
                active_document: text,
                revision: self.revision + 1,
            },
            ActionView::DocumentChanged(text) => ModelView { active_document: text, ..self },
            ActionView::DocumentSaved => ModelView { saved_document: self.active_document, ..self },
        }
    }
}

impl vstd::view::View for Model {
    type V = ModelView;

    closed spec fn view(&self) -> ModelView {
        ModelView {
            saved_document: self.saved_document@,
            active_document: self.active_document@,
            revision: self.revision as nat,
        }
    }
}

impl Model {
    /// An empty, clean document.
    pub fn new() -> (m: Model)
        ensures
            m@ == ModelView::initial(),
    {
        Model { saved_document: String::new(), active_document: String::new(), revision: 0 }
    }

    /// Whether `action` can be applied: a load must not overflow the revision counter.
    pub fn can_update(&self, action: &Action) -> (r: bool)
        ensures
            r == self@.can_apply(action@),
    {
        match action {
            Action::LoadDocument(_) => self.revision < u64::MAX,
            _ => true,
        }
    }

    /// Applies `action`: a load replaces both texts and asks for a redraw,
    /// an edit replaces the active text, a save makes the active text the saved one.
    pub fn update(&mut self, action: Action)
        requires
            old(self)@.can_apply(action@),
        ensures
            final(self)@ == old(self)@.apply(action@),
    {
        match action {
            Action::LoadDocument(value) => {
                self.saved_document = value.clone();
                self.active_document = value;
                self.revision = self.revision + 1;
            },
            Action::DocumentChanged(value) => {
                self.active_document = value;
            },
            Action::DocumentSaved => {
                self.saved_document = self.active_document.clone();
            },
        }
    }

    /// The active text differs from the saved one.
    pub fn is_dirty(&self) -> (r: bool)
        ensures
            r == self@.is_dirty(),
    {
        !self.saved_document.eq(&self.active_document)
    }

    /// The text being edited.
    pub fn get_document(&self) -> (r: &String)
        ensures
            r@ == self@.active_document,
    {
        &self.active_document
    }
}

/// The body widget's side: the revision it last showed.
pub struct View {
    revision: u64,
}

impl vstd::view::View for View {
    type V = nat;

    closed spec fn view(&self) -> nat {
        self.revision as nat
    }
}

/// What a refresh does to the view's revision and what text it puts in the widget.
pub open spec fn refresh_spec(shown: nat, model: ModelView) -> (nat, Option<Seq<char>>) {
    if shown != model.revision {
        (model.revision, Some(model.saved_document))
    } else {
        (shown, None)
    }
}

impl View {
    /// A view that has shown nothing yet.
    pub fn new() -> (v: View)
        ensures
            v@ == 0,
    {
        View { revision: 0 }
    }

    /// Catches up with `model`: where the model's revision differs from the one last
    /// shown, returns the text to put in the widget (the saved document); else `None`.
    pub fn refresh(&mut self, model: &Model) -> (text: Option<String>)
        ensures
            final(self)@ == refresh_spec(old(self)@, model@).0,
            text matches Some(t) ==> refresh_spec(old(self)@, model@).1 == Some(t@),
            text is None ==> refresh_spec(old(self)@, model@).1 is None,
    {
        if self.revision != model.revision {
            self.revision = model.revision;
            Some(model.saved_document.clone())
        } else {
            None
        }
    }
}

} // verus!
