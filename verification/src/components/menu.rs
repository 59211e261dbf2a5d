use vstd::prelude::*;
use crate::components::about_dialog::Action as AboutDialogAction;
use crate::components::application::Action as AppAction;
use crate::components::application::ActionView as AppActionView;
use crate::components::file_dialog::Action as FileDialogAction;
use crate::components::file_dialog::ActionView as FileDialogActionView;

verus! {

/// A menu entry that was activated.
#[derive(Clone, Debug, PartialEq, Eq)]
pub enum Action {
    New,
    Open,
    Save,
    SaveAs,
    Quit,
    About,
}

/// The message for the application that each menu entry sends.
pub open spec fn request(action: Action) -> AppActionView {
    match action {
        Action::New => AppActionView::OpenFile(None),
        Action::Open => AppActionView::FileDialog(FileDialogActionView::Open),
        Action::Save => AppActionView::SaveFile(None),
        Action::SaveAs => AppActionView::FileDialog(FileDialogActionView::Save),
        Action::Quit => AppActionView::Exit,
        Action::About => AppActionView::AboutDialog(AboutDialogAction::Open),
    }
}

/// The menu keeps no state of its own: it turns entries into requests.
pub struct Model {}

impl Model {
    /// A menu.
    pub fn new() -> Model {
        Model {  }
    }

    /// The message for the application that `action` sends: a new document is an
    /// open without a path, a save without a path saves where the document came from.
    pub fn update(&mut self, action: Action) -> (r: AppAction)
        ensures
            *final(self) == *old(self),
            r@ == request(action),
    {
        match action {
            Action::New => AppAction::OpenFile(None),
            Action::Open => AppAction::FileDialog(FileDialogAction::Open),
            Action::Save => AppAction::SaveFile(None),
            Action::SaveAs => AppAction::FileDialog(FileDialogAction::Save),
            Action::Quit => AppAction::Exit,
            Action::About => AppAction::AboutDialog(AboutDialogAction::Open),
        }
    }
}

} // verus!
