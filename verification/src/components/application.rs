use vstd::prelude::*;
use vstd::view::View as _;
use vstd::string::StringExecFns;
use vstd::slice::slice_to_vec;
use vstd::string::StringSliceAdditionalSpecFns;
use vstd::utf8::decode_utf8;
use vstd::utf8::encode_utf8;
use vstd::utf8::valid_utf8;
use crate::components::about_dialog;
use crate::components::body_text;
use crate::components::file_dialog;
use crate::components::menu;
use crate::components::status_bar;
use crate::components::util;
use crate::components::util::path_file_name;
use crate::components::util::translated;
use crate::components::util::Catalog;

verus! {

/// A message for the application: its own requests, or one for a component.
#[derive(Clone, Debug, PartialEq, Eq)]
pub enum Action {
    /// End the program.
    Exit,
    /// Open the file at the path, or start an empty document where there is none.
    OpenFile(Option<String>),
    /// Save to the path, or to the current file where there is none.
    SaveFile(Option<String>),
    BodyText(body_text::Action),
    FileDialog(file_dialog::Action),
    Menu(menu::Action),
    AboutDialog(about_dialog::Action),
    StatusBar(status_bar::Action),
}

/// An `Action` with its texts taken by value.
pub enum ActionView {
    Exit,
    OpenFile(Option<Seq<char>>),
    SaveFile(Option<Seq<char>>),
    BodyText(body_text::ActionView),
    FileDialog(file_dialog::ActionView),
    Menu(menu::Action),
    AboutDialog(about_dialog::Action),
    StatusBar(status_bar::ActionView),
}

/// An optional text, taken by value.
pub open spec fn opt_view(s: Option<String>) -> Option<Seq<char>> {
    match s {
        Some(t) => Some(t@),
        None => None,
    }
}

impl vstd::view::View for Action {
    type V = ActionView;

    open spec fn view(&self) -> ActionView {
        match self {
            Action::Exit => ActionView::Exit,
            Action::OpenFile(p) => ActionView::OpenFile(opt_view(*p)),
            Action::SaveFile(p) => ActionView::SaveFile(opt_view(*p)),
            Action::BodyText(a) => ActionView::BodyText(a@),
            Action::FileDialog(a) => ActionView::FileDialog(a@),
            Action::Menu(a) => ActionView::Menu(*a),
            Action::AboutDialog(a) => ActionView::AboutDialog(*a),
            Action::StatusBar(a) => ActionView::StatusBar(a@),
        }
    }
}

/// Work that an update leaves to the program around the model.
#[derive(Clone, Debug, PartialEq, Eq)]
pub enum Command {
    /// Hand the action back to `Model::update`.
    Send(Action),
    /// Hand the action back to `Model::update` after this many seconds.
    SendAfter(u64, Action),
    /// Read the file at the path and give its bytes to `file_loaded`.
    LoadFile(String),
    /// Write the bytes (the document's UTF-8 encoding) to the path, then call `file_saved`.
    SaveFile(String, Vec<u8>),
    /// End the process with status 0.
    Exit,
}

/// A `Command` with its texts taken by value.
pub enum CommandView {
    Send(ActionView),
    SendAfter(u64, ActionView),
    LoadFile(Seq<char>),
    SaveFile(Seq<char>, Seq<u8>),
    Exit,
}

impl vstd::view::View for Command {
    type V = CommandView;

    open spec fn view(&self) -> CommandView {
        match self {
            Command::Send(a) => CommandView::Send(a@),
            Command::SendAfter(d, a) => CommandView::SendAfter(*d, a@),
            Command::LoadFile(p) => CommandView::LoadFile(p@),
            Command::SaveFile(p, d) => CommandView::SaveFile(p@, d@),
            Command::Exit => CommandView::Exit,
        }
    }
}

/// A list of actions, taken by value.
pub open spec fn actions_view(s: Seq<Action>) -> Seq<ActionView> {
    s.map_values(|a: Action| a@)
}

/// A list of commands, taken by value.
pub open spec fn commands_view(s: Seq<Command>) -> Seq<CommandView> {
    s.map_values(|c: Command| c@)
}

struct ModelChildren {
    body_text: body_text::Model,
    file_dialog: file_dialog::Model,
    menu: menu::Model,
    about_dialog: about_dialog::Model,
    status_bar: status_bar::Model,
}

/// The application's state: the file being edited, if any, and the components' models.
pub struct Model {
    file_path: Option<String>,
    children: ModelChildren,
}

/// What a `Model` holds, as mathematical values (the menu holds nothing).
pub struct ModelView {
    pub file_path: Option<Seq<char>>,
    pub body_text: body_text::ModelView,
    pub file_dialog: file_dialog::ModelView,
    pub about_dialog: nat,
    pub status_bar: status_bar::ModelView,
}

impl ModelView {
    /// A fresh application: no file, every component in its first state.
    pub open spec fn initial() -> ModelView {
        ModelView {
            file_path: None,
            body_text: body_text::ModelView::initial(),
            file_dialog: file_dialog::ModelView::initial(),
            about_dialog: 0,
            status_bar: status_bar::ModelView::initial(),
        }
    }

    /// The action can be applied: no revision counter overflows, and the chooser
    /// only accepts a path while it has a purpose.
    pub open spec fn can_apply(self, action: ActionView) -> bool {
        match action {
            ActionView::BodyText(a) => self.body_text.can_apply(a),
            ActionView::FileDialog(a) => self.file_dialog.can_apply(a),
            ActionView::AboutDialog(_) => self.about_dialog < u64::MAX,
            ActionView::StatusBar(_) => self.status_bar.revision < u64::MAX,
            _ => true,
        }
    }

    /// The file that a `SaveFile(path)` writes to: the path given, else the current file.
    pub open spec fn save_target(self, path: Option<Seq<char>>) -> Option<Seq<char>> {
        match path {
            Some(p) => Some(p),
            None => self.file_path,
        }
    }

    /// `note` is the status text that `action` shows in the catalog of `domain`: the
    /// translation of "Loading file..." when a file is opened, of "Saving file..." when
    /// one is saved; other actions show none.
    pub open spec fn status_note(self, domain: Seq<char>, action: ActionView, note: Seq<char>) -> bool {
        match action {
            ActionView::OpenFile(path) => path is Some ==> translated(domain, "Loading file..."@, note),
            ActionView::SaveFile(path) => self.save_target(path) is Some ==> translated(
                domain,
                "Saving file..."@,
                note,
            ),
            _ => true,
        }
    }

    /// The state after `action`, and the commands it gives, in order. `note` is the
    /// status text shown while a file is read or written.
    pub open spec fn next(self, action: ActionView, note: Seq<char>) -> (ModelView, Seq<CommandView>) {
        match action {
            ActionView::Exit => (self, seq![CommandView::Exit]),
            ActionView::OpenFile(path) => (
                ModelView { file_path: path, ..self },
                match path {
                    Some(p) => seq![
                        CommandView::Send(
                            ActionView::StatusBar(status_bar::ActionView::SetStatus(note)),
                        ),
                        CommandView::LoadFile(p),
                    ],
                    None => seq![
                        CommandView::Send(
                            ActionView::BodyText(
                                body_text::ActionView::LoadDocument(Seq::<char>::empty()),
                            ),
                        ),
                    ],
                },
            ),
            ActionView::SaveFile(path) => (
                ModelView { file_path: self.save_target(path), ..self },
                match self.save_target(path) {
                    Some(p) => seq![
                        CommandView::Send(
                            ActionView::StatusBar(status_bar::ActionView::SetStatus(note)),
                        ),
                        CommandView::SaveFile(p, encode_utf8(self.body_text.active_document)),
                    ],
                    None => seq![
                        CommandView::Send(ActionView::FileDialog(file_dialog::ActionView::Save)),
                    ],
                },
            ),
            ActionView::BodyText(a) => (ModelView { body_text: self.body_text.apply(a), ..self }, seq![]),
            ActionView::FileDialog(a) => (
                ModelView { file_dialog: self.file_dialog.apply(a), ..self },
                match self.file_dialog.request(a) {
                    Some(r) => seq![CommandView::Send(r)],
                    None => seq![],
                },
            ),
            ActionView::Menu(a) => (self, seq![CommandView::Send(menu::request(a))]),
            ActionView::AboutDialog(_) => (
                ModelView { about_dialog: self.about_dialog + 1, ..self },
                seq![],
            ),
            ActionView::StatusBar(a) => (
                ModelView { status_bar: self.status_bar.apply(a), ..self },
                match status_bar::ModelView::clear_delay(a) {
                    Some(d) => seq![
                        CommandView::SendAfter(
                            d,
                            ActionView::StatusBar(status_bar::ActionView::ClearStatus),
                        ),
                    ],
                    None => seq![],
                },
            ),
        }
    }
}

impl vstd::view::View for Model {
    type V = ModelView;

    closed spec fn view(&self) -> ModelView {
        ModelView {
            file_path: opt_view(self.file_path),
            body_text: self.children.body_text@,
            file_dialog: self.children.file_dialog@,
            about_dialog: self.children.about_dialog@,
            status_bar: self.children.status_bar@,
        }
    }
}

impl Model {
    /// A fresh application: no file, every component in its first state.
    pub fn new() -> (m: Model)
        ensures
            m@ == ModelView::initial(),
    {
        Model {
            file_path: None,
            children: ModelChildren {
                body_text: body_text::Model::new(),
                file_dialog: file_dialog::Model::new(),
                menu: menu::Model::new(),
                about_dialog: about_dialog::Model::new(),
                status_bar: status_bar::Model::new(),
            },
        }
    }

    /// Whether `action` can be applied (see `ModelView::can_apply`).
    pub fn can_update(&self, action: &Action) -> (r: bool)
        ensures
            r == self@.can_apply(action@),
    {
        match action {
            Action::BodyText(a) => self.children.body_text.can_update(a),
            Action::FileDialog(a) => self.children.file_dialog.can_update(a),
            Action::AboutDialog(_) => self.children.about_dialog.can_update(),
            Action::StatusBar(_) => self.children.status_bar.can_update(),
            _ => true,
        }
    }

    /// Applies `action` with `note` as the status text shown while a file is read or
    /// written, and returns the commands it gives, in order.
    pub fn apply(&mut self, action: Action, note: String) -> (cmds: Vec<Command>)
        requires
            old(self)@.can_apply(action@),
        ensures
            (final(self)@, commands_view(cmds@)) == old(self)@.next(action@, note@),
    {
        let ghost before = self@;
        let cmds = match action {
            Action::Exit => vec![Command::Exit],
            Action::OpenFile(path) => {
                self.file_path = path;
                match &self.file_path {
                    Some(p) => vec![
                        Command::Send(Action::StatusBar(status_bar::Action::SetStatus(note))),
                        Command::LoadFile(p.clone()),
                    ],
                    None => vec![
                        Command::Send(
                            Action::BodyText(body_text::Action::LoadDocument(String::new())),
                        ),
                    ],
                }
            },
            Action::SaveFile(path) => {
                match path {
                    Some(p) => {
                        self.file_path = Some(p);
                    },
                    None => {},
                }
                match &self.file_path {
                    Some(p) => {
                        let document = self.children.body_text.get_document();
                        let bytes = slice_to_vec(document.as_str().as_bytes());
                        vec![
                            Command::Send(Action::StatusBar(status_bar::Action::SetStatus(note))),
                            Command::SaveFile(p.clone(), bytes),
                        ]
                    },
                    None => vec![Command::Send(Action::FileDialog(file_dialog::Action::Save))],
                }
            },
            Action::BodyText(a) => {
                self.children.body_text.update(a);
                vec![]
            },
            Action::FileDialog(a) => {
                match self.children.file_dialog.update(a) {
                    Some(r) => vec![Command::Send(r)],
                    None => vec![],
                }
            },
            Action::Menu(a) => {
                let r = self.children.menu.update(a);
                vec![Command::Send(r)]
            },
            Action::AboutDialog(a) => {
                self.children.about_dialog.update(a);
                vec![]
            },
            Action::StatusBar(a) => {
                match self.children.status_bar.update(a) {
                    Some(d) => vec![
                        Command::SendAfter(
                            d,
                            Action::StatusBar(status_bar::Action::ClearStatus),
                        ),
                    ],
                    None => vec![],
                }
            },
        };
        assert(commands_view(cmds@) =~= before.next(action@, note@).1);
        cmds
    }

    /// Applies `action` and returns the commands it gives, in order. The status text
    /// shown while a file is read or written is the translation, in `catalog`, of
    /// "Loading file..." or "Saving file..." (see `ModelView::status_note`).
    pub fn update(&mut self, action: Action, catalog: &Catalog) -> (cmds: Vec<Command>)
        requires
            old(self)@.can_apply(action@),
        ensures
            exists|note: Seq<char>|
                old(self)@.status_note(catalog@, action@, note) && #[trigger] old(self)@.next(
                    action@,
                    note,
                ) == (final(self)@, commands_view(cmds@)),
    {
        let note = match &action {
            Action::OpenFile(Some(_)) => {
                proof {
                    reveal_strlit("Loading file...");
                }
                catalog.translate("Loading file...")
            },
            Action::SaveFile(path) => {
                if path.is_some() || self.file_path.is_some() {
                    proof {
                        reveal_strlit("Saving file...");
                    }
                    catalog.translate("Saving file...")
                } else {
                    String::new()
                }
            },
            _ => String::new(),
        };
        let ghost note_view = note@;
        let ghost before = self@;
        assert(before.status_note(catalog@, action@, note_view));
        let cmds = self.apply(action, note);
        assert(before.next(action@, note_view) == (self@, commands_view(cmds@)));
        cmds
    }
}

/// Why a file's contents could not become a document.
#[derive(Clone, Debug, PartialEq, Eq)]
pub enum LoadError {
    /// The bytes are not valid UTF-8.
    InvalidUtf8,
}

/// The messages that follow reading a file: where its bytes are UTF-8, clear the
/// status bar and load the text into the body; else `InvalidUtf8`.
pub fn file_loaded(data: Vec<u8>) -> (r: Result<Vec<Action>, LoadError>)
    ensures
        r is Ok <==> valid_utf8(data@),
        r matches Ok(actions) ==> actions_view(actions@) == seq![
            ActionView::StatusBar(status_bar::ActionView::ClearStatus),
            ActionView::BodyText(body_text::ActionView::LoadDocument(decode_utf8(data@))),
        ],
{
    match util::string_from_utf8(data) {
        Ok(document) => {
            let actions = vec![
                Action::StatusBar(status_bar::Action::ClearStatus),
                Action::BodyText(body_text::Action::LoadDocument(document)),
            ];
            assert(actions_view(actions@) =~= seq![
                ActionView::StatusBar(status_bar::ActionView::ClearStatus),
                ActionView::BodyText(body_text::ActionView::LoadDocument(decode_utf8(data@))),
            ]);
            Ok(actions)
        },
        Err(_) => Err(LoadError::InvalidUtf8),
    }
}

/// The toast shown once a file is written: `label`, a colon and the path.
pub open spec fn saved_message_spec(label: Seq<char>, path: Seq<char>) -> Seq<char> {
    label + ": "@ + path
}

/// The messages that follow writing a file, with `label` as the toast's leading text:
/// a toast naming the path, then the body's text counts as saved.
pub fn saved_actions(label: &str, path: &str) -> (r: Vec<Action>)
    ensures
        actions_view(r@) == seq![
            ActionView::StatusBar(status_bar::ActionView::Toast(saved_message_spec(label@, path@))),
            ActionView::BodyText(body_text::ActionView::DocumentSaved),
        ],
{
    let mut message = label.to_owned();
    message.append(": ");
    message.append(path);
    let actions = vec![
        Action::StatusBar(status_bar::Action::Toast(message)),
        Action::BodyText(body_text::Action::DocumentSaved),
    ];
    assert(actions_view(actions@) =~= seq![
        ActionView::StatusBar(status_bar::ActionView::Toast(saved_message_spec(label@, path@))),
        ActionView::BodyText(body_text::ActionView::DocumentSaved),
    ]);
    actions
}

/// The messages that follow writing the file at `path`: a toast made of the
/// translation of "Saved file to" in `catalog`, a colon and the path; then the body's
/// text counts as saved.
pub fn file_saved(path: &str, catalog: &Catalog) -> (r: Vec<Action>)
    ensures
        exists|label: Seq<char>|
            translated(catalog@, "Saved file to"@, label) && actions_view(r@) == seq![
                ActionView::StatusBar(
                    status_bar::ActionView::Toast(#[trigger] saved_message_spec(label, path@)),
                ),
                ActionView::BodyText(body_text::ActionView::DocumentSaved),
            ],
{
    proof {
        reveal_strlit("Saved file to");
    }
    let label = catalog.translate("Saved file to");
    let r = saved_actions(label.as_str(), path);
    let ghost toast = saved_message_spec(label@, path@);
    assert(translated(catalog@, "Saved file to"@, label@) && actions_view(r@) == seq![
        ActionView::StatusBar(status_bar::ActionView::Toast(toast)),
        ActionView::BodyText(body_text::ActionView::DocumentSaved),
    ]);
    r
}

/// The window's title: the program's name, a colon, the file's label, and a star
/// where the document has unsaved changes.
pub open spec fn title_spec(app_name: Seq<char>, file_label: Seq<char>, dirty: bool) -> Seq<char> {
    if dirty {
        app_name + ": "@ + file_label + " *"@
    } else {
        app_name + ": "@ + file_label
    }
}

/// Builds the window's title (see `title_spec`).
pub fn window_title(app_name: &str, file_label: &str, dirty: bool) -> (t: String)
    ensures
        t@ == title_spec(app_name@, file_label@, dirty),
{
    let mut title = app_name.to_owned();
    title.append(": ");
    title.append(file_label);
    if dirty {
        title.append(" *");
    }
    title
}

/// The label of the file in the title: its name where there is a file, else `untitled`.
pub open spec fn file_label_spec(file_path: Option<Seq<char>>, untitled: Seq<char>) -> Seq<char> {
    match file_path {
        Some(p) => match path_file_name(p) {
            Some(name) => name,
            None => Seq::<char>::empty(),
        },
        None => untitled,
    }
}

/// The title can be made: where there is a file, its path has a file name.
pub open spec fn has_title(model: ModelView) -> bool {
    model.file_path matches Some(p) ==> path_file_name(p) is Some
}

/// What the widgets are to do after a refresh.
#[derive(Clone, Debug, PartialEq, Eq)]
pub struct Render {
    /// The window's title.
    pub title: String,
    /// The text to put in the body, if it must be refilled.
    pub body_text: Option<String>,
    /// The state the file chooser is to take, if it changed.
    pub file_dialog: Option<file_dialog::State>,
    /// Whether the about dialog is to be shown.
    pub about_dialog: bool,
    /// The text to put in the status bar, if it changed.
    pub status_bar: Option<String>,
}

/// The revisions that the widgets last acted on.
pub struct Shown {
    pub body_text: nat,
    pub file_dialog: nat,
    pub about_dialog: nat,
    pub status_bar: nat,
}

/// The window's side: the components' views.
pub struct View {
    body_text: body_text::View,
    file_dialog: file_dialog::View,
    about_dialog: about_dialog::View,
    status_bar: status_bar::View,
}

impl vstd::view::View for View {
    type V = Shown;

    closed spec fn view(&self) -> Shown {
        Shown {
            body_text: self.body_text@,
            file_dialog: self.file_dialog@,
            about_dialog: self.about_dialog@,
            status_bar: self.status_bar@,
        }
    }
}

/// The revisions shown once the widgets have caught up with `model`.
pub open spec fn caught_up(model: ModelView) -> Shown {
    Shown {
        body_text: model.body_text.revision,
        file_dialog: model.file_dialog.revision,
        about_dialog: model.about_dialog,
        status_bar: model.status_bar.revision,
    }
}

/// `render` is what a refresh from `shown` to `model` gives, with the title made
/// from the translations, in the catalog of `domain`, of "TextEdit" and (where there is
/// no file) of "Untitled".
pub open spec fn renders(shown: Shown, model: ModelView, render: Render, domain: Seq<char>) -> bool {
    &&& opt_view(render.body_text) == body_text::refresh_spec(shown.body_text, model.body_text).1
    &&& render.file_dialog == (if shown.file_dialog != model.file_dialog.revision {
        Some(model.file_dialog.state)
    } else {
        None
    })
    &&& render.about_dialog == (shown.about_dialog != model.about_dialog)
    &&& opt_view(render.status_bar) == status_bar::refresh_spec(shown.status_bar, model.status_bar).1
    &&& exists|app_name: Seq<char>, untitled: Seq<char>|
        translated(domain, "TextEdit"@, app_name) && (model.file_path is None ==> translated(
            domain,
            "Untitled"@,
            untitled,
        )) && render.title@ == #[trigger] title_spec(
            app_name,
            file_label_spec(model.file_path, untitled),
            model.body_text.is_dirty(),
        )
}

impl View {
    /// Views that have shown nothing yet.
    pub fn new() -> (v: View)
        ensures
            v@ == (Shown { body_text: 0, file_dialog: 0, about_dialog: 0, status_bar: 0 }),
    {
        View {
            body_text: body_text::View::new(),
            file_dialog: file_dialog::View::new(),
            about_dialog: about_dialog::View::new(),
            status_bar: status_bar::View::new(),
        }
    }

    /// Catches up with `model`: the title, and for each component what its widget is
    /// to do (see `renders`).
    pub fn refresh(&mut self, model: &Model, catalog: &Catalog) -> (render: Render)
        requires
            has_title(model@),
        ensures
            final(self)@ == caught_up(model@),
            renders(old(self)@, model@, render, catalog@),
    {
        let ghost shown = self@;
        proof {
            reveal_strlit("TextEdit");
        }
        let app_name = catalog.translate("TextEdit");
        let file_label = match &model.file_path {
            None => {
                proof {
                    reveal_strlit("Untitled");
                }
                catalog.translate("Untitled")
            },
            Some(path) => {
                let name = util::file_name(path.as_str());
                match name {
                    Some(n) => n,
                    None => String::new(),
                }
            },
        };
        let ghost untitled: Seq<char> = match model.file_path {
            None => file_label@,
            Some(_) => Seq::<char>::empty(),
        };
        let c = &model.children;
        let title = window_title(app_name.as_str(), file_label.as_str(), c.body_text.is_dirty());
        assert(file_label_spec(model@.file_path, untitled) == file_label@);
        let body_text = self.body_text.refresh(&c.body_text);
        let file_dialog = self.file_dialog.refresh(&c.file_dialog);
        let about_dialog = self.about_dialog.refresh(&c.about_dialog);
        let status_bar = self.status_bar.refresh(&c.status_bar);
        Render { title, body_text, file_dialog, about_dialog, status_bar }
    }

    /// As `refresh`, where the title can be made; else `None`, with nothing changed.
    pub fn try_refresh(&mut self, model: &Model, catalog: &Catalog) -> (render: Option<Render>)
        ensures
            render is None <==> !has_title(model@),
            render is None ==> final(self)@ == old(self)@,
            render matches Some(r) ==> final(self)@ == caught_up(model@) && renders(
                old(self)@,
                model@,
                r,
                catalog@,
            ),
    {
        match &model.file_path {
            Some(path) => {
                if util::file_name(path.as_str()).is_none() {
                    return None;
                }
            },
            None => {},
        }
        Some(self.refresh(model, catalog))
    }
}

} // verus!
