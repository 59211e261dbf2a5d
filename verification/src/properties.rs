//! Properties of the components that span several calls.

use vstd::prelude::*;
use crate::components::about_dialog;
use crate::components::application::ActionView;
use crate::components::application::CommandView;
use crate::components::application::ModelView;
use crate::components::application::caught_up;
use crate::components::application::has_title;
use crate::components::application::renders;
use crate::components::application::title_spec;
use crate::components::application::saved_message_spec;
use crate::components::application::file_label_spec;
use crate::components::application::Render;
use crate::components::application::Shown;
use crate::components::util::path_file_name;
use crate::components::util::translated;
use crate::components::body_text;
use crate::components::file_dialog;
use crate::components::file_dialog::State;
use crate::components::menu;
use crate::components::status_bar;
use vstd::utf8::decode_utf8;
use vstd::utf8::encode_utf8;
use vstd::utf8::valid_utf8;

verus! {

/// Loading a text makes it both the saved and the edited document: the body is clean.
pub proof fn load_makes_clean(body: body_text::ModelView, text: Seq<char>)
    ensures
        body.apply(body_text::ActionView::LoadDocument(text)).active_document == text,
        body.apply(body_text::ActionView::LoadDocument(text)).saved_document == text,
        !body.apply(body_text::ActionView::LoadDocument(text)).is_dirty(),
{
}

/// Saving keeps the edited text and makes the body clean.
pub proof fn save_makes_clean(body: body_text::ModelView)
    ensures
        body.apply(body_text::ActionView::DocumentSaved).active_document == body.active_document,
        !body.apply(body_text::ActionView::DocumentSaved).is_dirty(),
{
}

/// After an edit, the body is dirty exactly when the new text differs from the saved one:
/// typing a change and then undoing it makes the body clean again.
pub proof fn edit_dirty_iff_differs(body: body_text::ModelView, text: Seq<char>)
    ensures
        body.apply(body_text::ActionView::DocumentChanged(text)).is_dirty() <==> text
            != body.saved_document,
        body.apply(body_text::ActionView::DocumentChanged(text)).saved_document
            == body.saved_document,
{
}

/// Only a load asks for the body widget to be refilled: its revision grows by one on a
/// load and stays the same on an edit or a save.
pub proof fn body_revision_counts_loads(body: body_text::ModelView, action: body_text::ActionView)
    ensures
        body.apply(action).revision == body.revision + (if action is LoadDocument {
            1int
        } else {
            0int
        }),
{
}

/// A view that has caught up with the body refills the widget with the loaded text
/// after a load, and leaves the widget alone after an edit or a save (so that what
/// the user is typing is never overwritten).
pub proof fn body_refills_only_after_load(body: body_text::ModelView, action: body_text::ActionView)
    ensures
        body_text::refresh_spec(body.revision, body.apply(action)).1 == (match action {
            body_text::ActionView::LoadDocument(text) => Some(text),
            _ => None::<Seq<char>>,
        }),
{
}

/// A refresh catches the body's view up with the model, so a second refresh does nothing.
pub proof fn body_refresh_idempotent(shown: nat, body: body_text::ModelView)
    ensures
        body_text::refresh_spec(shown, body).0 == body.revision,
        body_text::refresh_spec(body_text::refresh_spec(shown, body).0, body).1 is None,
{
}

/// Every status-bar action changes what the bar shows, and a toast asks for the bar to be
/// cleared later; when that `ClearStatus` arrives, the bar is empty.
pub proof fn toast_is_cleared(bar: status_bar::ModelView, message: Seq<char>)
    ensures
        bar.apply(status_bar::ActionView::Toast(message)).message == Some(message),
        status_bar::ModelView::clear_delay(status_bar::ActionView::Toast(message)) == Some(
            status_bar::TOAST_DURATION_SECONDS,
        ),
        bar.apply(status_bar::ActionView::Toast(message)).apply(
            status_bar::ActionView::ClearStatus,
        ).message is None,
{
}

/// The status bar's view shows every change once: after any action, a caught-up view
/// puts the new message (or an empty text) in the label, and a second refresh does nothing.
pub proof fn status_refresh_shows_each_change(bar: status_bar::ModelView, action: status_bar::ActionView)
    ensures
        status_bar::refresh_spec(bar.revision, bar.apply(action)).1 == Some(
            match bar.apply(action).message {
                Some(m) => m,
                None => Seq::<char>::empty(),
            },
        ),
        status_bar::refresh_spec(
            status_bar::refresh_spec(bar.revision, bar.apply(action)).0,
            bar.apply(action),
        ).1 is None,
{
}

/// The chooser remembers what it was asked for: a path accepted after `Open` is opened,
/// one accepted after `Save` is saved to; a cancel hides it and no path can be accepted.
pub proof fn dialog_remembers_purpose(dialog: file_dialog::ModelView, path: Seq<char>)
    ensures
        dialog.apply(file_dialog::ActionView::Open).request(file_dialog::ActionView::Accept(path))
            == Some(ActionView::OpenFile(Some(path))),
        dialog.apply(file_dialog::ActionView::Save).request(file_dialog::ActionView::Accept(path))
            == Some(ActionView::SaveFile(Some(path))),
        !dialog.apply(file_dialog::ActionView::Cancel).can_apply(
            file_dialog::ActionView::Accept(path),
        ),
        dialog.apply(file_dialog::ActionView::Accept(path)) == dialog,
{
}

/// Asking to open or save shows the chooser again: a caught-up view receives the new state.
pub proof fn dialog_shows_on_request(dialog: file_dialog::ModelView)
    ensures
        dialog.apply(file_dialog::ActionView::Open).revision != dialog.revision,
        dialog.apply(file_dialog::ActionView::Open).state == State::ShowOpen,
        dialog.apply(file_dialog::ActionView::Save).revision != dialog.revision,
        dialog.apply(file_dialog::ActionView::Save).state == State::ShowSave,
{
}

/// Opening a file makes it the current file: a later save without a path writes the edited
/// text to it.
pub proof fn save_goes_to_opened_file(
    app: ModelView,
    path: Seq<char>,
    note1: Seq<char>,
    note2: Seq<char>,
)
    ensures
        ({
            let opened = app.next(ActionView::OpenFile(Some(path)), note1).0;
            let (saved, cmds) = opened.next(ActionView::SaveFile(None), note2);
            &&& saved.file_path == Some(path)
            &&& cmds == seq![
                CommandView::Send(ActionView::StatusBar(status_bar::ActionView::SetStatus(note2))),
                CommandView::SaveFile(path, encode_utf8(app.body_text.active_document)),
            ]
        }),
{
}

/// Saving under a new name makes that name the current file for later saves.
pub proof fn save_as_changes_current_file(
    app: ModelView,
    path: Seq<char>,
    note1: Seq<char>,
    note2: Seq<char>,
)
    ensures
        ({
            let renamed = app.next(ActionView::SaveFile(Some(path)), note1).0;
            &&& renamed.file_path == Some(path)
            &&& renamed.next(ActionView::SaveFile(None), note2).1[1] == CommandView::SaveFile(
                path,
                encode_utf8(app.body_text.active_document),
            )
        }),
{
}

/// Saving a document that has no file asks the chooser for a path, and the path the user
/// then accepts is saved to, with the edited text.
pub proof fn save_without_file_asks_for_path(
    app: ModelView,
    path: Seq<char>,
    note1: Seq<char>,
    note2: Seq<char>,
    note3: Seq<char>,
)
    requires
        app.file_path is None,
    ensures
        ({
            let (s1, c1) = app.next(ActionView::SaveFile(None), note1);
            let request = ActionView::FileDialog(file_dialog::ActionView::Save);
            let (s2, c2) = s1.next(request, note2);
            let accept = ActionView::FileDialog(file_dialog::ActionView::Accept(path));
            let (s3, c3) = s2.next(accept, note2);
            let (s4, c4) = s3.next(ActionView::SaveFile(Some(path)), note3);
            &&& c1 == seq![CommandView::Send(request)]
            &&& c2 == Seq::<CommandView>::empty()
            &&& s2.can_apply(accept)
            &&& c3 == seq![CommandView::Send(ActionView::SaveFile(Some(path)))]
            &&& s4.file_path == Some(path)
            &&& c4[1] == CommandView::SaveFile(path, encode_utf8(app.body_text.active_document))
        }),
{
}

/// A new document: the menu's `New` opens no file, which loads an empty text; the
/// body is then empty and clean, and there is no current file.
pub proof fn new_document_is_empty(app: ModelView, note1: Seq<char>, note2: Seq<char>, note3: Seq<char>)
    ensures
        ({
            let (s1, c1) = app.next(ActionView::Menu(menu::Action::New), note1);
            let (s2, c2) = s1.next(ActionView::OpenFile(None), note2);
            let load = ActionView::BodyText(body_text::ActionView::LoadDocument(Seq::<char>::empty()));
            let (s3, c3) = s2.next(load, note3);
            &&& c1 == seq![CommandView::Send(ActionView::OpenFile(None))]
            &&& c2 == seq![CommandView::Send(load)]
            &&& c3 == Seq::<CommandView>::empty()
            &&& s3.file_path is None
            &&& s3.body_text.active_document == Seq::<char>::empty()
            &&& !s3.body_text.is_dirty()
        }),
{
}

/// The menu's entries map onto the application's requests.
pub proof fn menu_entries(app: ModelView, note: Seq<char>)
    ensures
        app.next(ActionView::Menu(menu::Action::Open), note).1 == seq![
            CommandView::Send(ActionView::FileDialog(file_dialog::ActionView::Open)),
        ],
        app.next(ActionView::Menu(menu::Action::Save), note).1 == seq![
            CommandView::Send(ActionView::SaveFile(None)),
        ],
        app.next(ActionView::Menu(menu::Action::SaveAs), note).1 == seq![
            CommandView::Send(ActionView::FileDialog(file_dialog::ActionView::Save)),
        ],
        app.next(ActionView::Menu(menu::Action::Quit), note).1 == seq![
            CommandView::Send(ActionView::Exit),
        ],
        app.next(ActionView::Menu(menu::Action::About), note).1 == seq![
            CommandView::Send(ActionView::AboutDialog(about_dialog::Action::Open)),
        ],
        app.next(ActionView::Exit, note) == (app, seq![CommandView::Exit]),
{
}

/// Opening a file shows a status, then asks for the file to be read; the text read is
/// loaded, and the body is then clean and holds it, with the status bar cleared.
pub proof fn open_loads_text(
    app: ModelView,
    path: Seq<char>,
    text: Seq<char>,
    note1: Seq<char>,
    note2: Seq<char>,
)
    ensures
        ({
            let (s1, c1) = app.next(ActionView::OpenFile(Some(path)), note1);
            let clear = ActionView::StatusBar(status_bar::ActionView::ClearStatus);
            let load = ActionView::BodyText(body_text::ActionView::LoadDocument(text));
            let s2 = s1.next(clear, note2).0;
            let s3 = s2.next(load, note2).0;
            &&& c1 == seq![
                CommandView::Send(ActionView::StatusBar(status_bar::ActionView::SetStatus(note1))),
                CommandView::LoadFile(path),
            ]
            &&& s3.file_path == Some(path)
            &&& s3.body_text.active_document == text
            &&& !s3.body_text.is_dirty()
            &&& s3.status_bar.message is None
        }),
{
}

/// Once a save has finished, the text that was written counts as saved: where nothing
/// was typed meanwhile, the body is clean.
pub proof fn finished_save_makes_clean(app: ModelView, toast: Seq<char>, note: Seq<char>)
    ensures
        ({
            let s1 = app.next(ActionView::StatusBar(status_bar::ActionView::Toast(toast)), note).0;
            let s2 = s1.next(ActionView::BodyText(body_text::ActionView::DocumentSaved), note).0;
            &&& s2.body_text.saved_document == app.body_text.active_document
            &&& !s2.body_text.is_dirty()
            &&& s2.status_bar.message == Some(toast)
        }),
{
}

/// Each `Open` of the about dialog shows it once: a caught-up view shows it after the
/// update, and not again on the next refresh.
pub proof fn about_shows_once(app: ModelView, note: Seq<char>)
    ensures
        ({
            let s1 = app.next(ActionView::AboutDialog(about_dialog::Action::Open), note).0;
            &&& caught_up(app).about_dialog != s1.about_dialog
            &&& caught_up(s1).about_dialog == s1.about_dialog
        }),
{
}

/// What a save writes reads back as the same text: the bytes of a `SaveFile` command are
/// valid UTF-8, and they decode to the document that was being edited, which is what
/// `file_loaded` then loads.
pub proof fn saved_bytes_read_back(app: ModelView, path: Option<Seq<char>>, note: Seq<char>)
    requires
        app.save_target(path) is Some,
    ensures
        ({
            let cmds = app.next(ActionView::SaveFile(path), note).1;
            &&& cmds[1] matches CommandView::SaveFile(p, bytes)
            &&& Some(p) == app.save_target(path)
            &&& valid_utf8(bytes)
            &&& decode_utf8(bytes) == app.body_text.active_document
        }),
{
    vstd::utf8::encode_utf8_valid_utf8(app.body_text.active_document);
    vstd::utf8::encode_utf8_decode_utf8(app.body_text.active_document);
}

/// The body after `actions`, one after the other, from `start`.
pub open spec fn run_body(start: body_text::ModelView, actions: Seq<body_text::ActionView>) -> body_text::ModelView
    decreases actions.len(),
{
    if actions.len() == 0 {
        start
    } else {
        run_body(start, actions.drop_last()).apply(actions.last())
    }
}

/// The text of the latest load or edit among `actions`, or the empty text where there is none.
pub open spec fn last_edited(actions: Seq<body_text::ActionView>) -> Seq<char>
    decreases actions.len(),
{
    if actions.len() == 0 {
        Seq::<char>::empty()
    } else {
        match actions.last() {
            body_text::ActionView::LoadDocument(text) => text,
            body_text::ActionView::DocumentChanged(text) => text,
            body_text::ActionView::DocumentSaved => last_edited(actions.drop_last()),
        }
    }
}

/// The text last read or written among `actions`: that of the latest load, or the text
/// being edited at the latest save where that came later, or the empty text where there
/// was neither.
pub open spec fn last_saved(actions: Seq<body_text::ActionView>) -> Seq<char>
    decreases actions.len(),
{
    if actions.len() == 0 {
        Seq::<char>::empty()
    } else {
        match actions.last() {
            body_text::ActionView::LoadDocument(text) => text,
            body_text::ActionView::DocumentChanged(_) => last_saved(actions.drop_last()),
            body_text::ActionView::DocumentSaved => last_edited(actions.drop_last()),
        }
    }
}

/// Whatever the actions a fresh body receives, its document is the text of the latest
/// load or edit (a save never changes it), and it is dirty exactly when that text differs
/// from the one last read or written.
pub proof fn body_after_any_actions(actions: Seq<body_text::ActionView>)
    ensures
        run_body(body_text::ModelView::initial(), actions).active_document == last_edited(actions),
        run_body(body_text::ModelView::initial(), actions).saved_document == last_saved(actions),
        run_body(body_text::ModelView::initial(), actions).is_dirty() <==> last_edited(actions)
            != last_saved(actions),
    decreases actions.len(),
{
    if actions.len() > 0 {
        body_after_any_actions(actions.drop_last());
    }
}

/// Saving to a given path (save as) writes the edited text to that path, whatever the
/// current file is, shows the status note, and makes that path the current file; nothing
/// else changes, and the body stays as it is until the write is confirmed.
pub proof fn save_as_writes_to_given_path(app: ModelView, path: Seq<char>, note: Seq<char>)
    ensures
        app.next(ActionView::SaveFile(Some(path)), note) == (
            ModelView { file_path: Some(path), ..app },
            seq![
                CommandView::Send(ActionView::StatusBar(status_bar::ActionView::SetStatus(note))),
                CommandView::SaveFile(path, encode_utf8(app.body_text.active_document)),
            ],
        ),
        app.can_apply(ActionView::SaveFile(Some(path))),
{
}

/// Saving without a path writes the edited text to the current file, or, where there is
/// none, asks the file chooser for a path; the model does not change either way.
pub proof fn save_writes_to_current_file(app: ModelView, note: Seq<char>)
    ensures
        app.next(ActionView::SaveFile(None), note) == (match app.file_path {
            Some(file) => (
                app,
                seq![
                    CommandView::Send(
                        ActionView::StatusBar(status_bar::ActionView::SetStatus(note)),
                    ),
                    CommandView::SaveFile(file, encode_utf8(app.body_text.active_document)),
                ],
            ),
            None => (app, seq![CommandView::Send(ActionView::FileDialog(file_dialog::ActionView::Save))]),
        }),
        app.can_apply(ActionView::SaveFile(None)),
{
}

/// Opening a path makes it the current file, shows the status note and asks for the
/// file to be read; opening no path forgets the current file and loads an empty text.
/// The components are left as they are until the text arrives.
pub proof fn open_sets_current_file(app: ModelView, path: Option<Seq<char>>, note: Seq<char>)
    ensures
        app.next(ActionView::OpenFile(path), note) == (
            ModelView { file_path: path, ..app },
            match path {
                Some(p) => seq![
                    CommandView::Send(ActionView::StatusBar(status_bar::ActionView::SetStatus(note))),
                    CommandView::LoadFile(p),
                ],
                None => seq![
                    CommandView::Send(
                        ActionView::BodyText(
                            body_text::ActionView::LoadDocument(Seq::<char>::empty()),
                        ),
                    ),
                ],
            },
        ),
        app.can_apply(ActionView::OpenFile(path)),
{
}

/// Only a message for the body changes the body: opening, saving, the menu, the chooser,
/// the about dialog and the status bar leave the edited text, the saved text and the
/// body's revision as they were (so a requested save does not make the body clean).
pub proof fn only_body_messages_change_body(app: ModelView, action: ActionView, note: Seq<char>)
    requires
        !(action is BodyText),
    ensures
        app.next(action, note).0.body_text == app.body_text,
{
}

/// A message for one component changes that component only, and leaves the current file
/// as it is.
pub proof fn component_messages_stay_local(app: ModelView, action: ActionView, note: Seq<char>)
    requires
        action is BodyText || action is FileDialog || action is AboutDialog || action is StatusBar
            || action is Menu,
    ensures
        app.next(action, note).0.file_path == app.file_path,
        !(action is FileDialog) ==> app.next(action, note).0.file_dialog == app.file_dialog,
        !(action is AboutDialog) ==> app.next(action, note).0.about_dialog == app.about_dialog,
        !(action is StatusBar) ==> app.next(action, note).0.status_bar == app.status_bar,
{
}

/// Every status-bar message replaces what the bar shows, whatever it showed before: a set
/// status or a toast shows its text, a clear empties the bar, and each counts as a change.
pub proof fn status_message_replaces_shown(bar: status_bar::ModelView, message: Seq<char>)
    ensures
        bar.apply(status_bar::ActionView::SetStatus(message)) == (status_bar::ModelView {
            message: Some(message),
            revision: bar.revision + 1,
        }),
        bar.apply(status_bar::ActionView::Toast(message)) == (status_bar::ModelView {
            message: Some(message),
            revision: bar.revision + 1,
        }),
        bar.apply(status_bar::ActionView::ClearStatus) == (status_bar::ModelView {
            message: None,
            revision: bar.revision + 1,
        }),
        status_bar::ModelView::clear_delay(status_bar::ActionView::SetStatus(message)) is None,
        status_bar::ModelView::clear_delay(status_bar::ActionView::ClearStatus) is None,
        status_bar::refresh_spec(
            bar.revision,
            bar.apply(status_bar::ActionView::SetStatus(message)),
        ).1 == Some(message),
{
}

/// A shown chooser accepts a path, whether it was shown for opening or for saving; only a
/// hidden one refuses. Showing sets its purpose and asks for a redraw, cancelling hides it
/// without one, and accepting leaves it as it is.
pub proof fn shown_chooser_accepts(dialog: file_dialog::ModelView, path: Seq<char>)
    ensures
        dialog.apply(file_dialog::ActionView::Open).can_apply(file_dialog::ActionView::Accept(path)),
        dialog.apply(file_dialog::ActionView::Save).can_apply(file_dialog::ActionView::Accept(path)),
        dialog.can_apply(file_dialog::ActionView::Accept(path)) <==> (dialog.state == State::ShowOpen
            || dialog.state == State::ShowSave),
        dialog.apply(file_dialog::ActionView::Open) == (file_dialog::ModelView {
            state: State::ShowOpen,
            revision: dialog.revision + 1,
        }),
        dialog.apply(file_dialog::ActionView::Save) == (file_dialog::ModelView {
            state: State::ShowSave,
            revision: dialog.revision + 1,
        }),
        dialog.apply(file_dialog::ActionView::Cancel) == (file_dialog::ModelView {
            state: State::Hide,
            revision: dialog.revision,
        }),
        dialog.can_apply(file_dialog::ActionView::Cancel),
{
}

/// The window's title as a user reads it: the program's name, a colon and a space, the
/// file's label, and " *" exactly where the document has unsaved changes.
pub open spec fn titled(app_name: Seq<char>, label: Seq<char>, unsaved: bool) -> Seq<char> {
    if unsaved {
        app_name + seq![':', ' '] + label + seq![' ', '*']
    } else {
        app_name + seq![':', ' '] + label
    }
}

/// A refresh titles the window with the translated program name and the file's name (or
/// the translation of "Untitled" where there is no file), and marks unsaved changes with a
/// star whether or not there is a file; and it refills the body with the saved text
/// exactly when the body's revision moved.
pub proof fn title_marks_unsaved_changes(
    shown: Shown,
    model: ModelView,
    render: Render,
    domain: Seq<char>,
)
    requires
        has_title(model),
        renders(shown, model, render, domain),
    ensures
        exists|app_name: Seq<char>, label: Seq<char>|
            translated(domain, "TextEdit"@, app_name) && (model.file_path is None ==> translated(
                domain,
                "Untitled"@,
                label,
            )) && (model.file_path matches Some(p) ==> path_file_name(p) == Some(label))
                && render.title@ == #[trigger] titled(app_name, label, model.body_text.is_dirty()),
        (match render.body_text {
            Some(t) => Some(t@),
            None => None,
        }) == (if shown.body_text != model.body_text.revision {
            Some(model.body_text.saved_document)
        } else {
            None
        }),
{
    reveal_strlit(": ");
    reveal_strlit(" *");
    let (app_name, untitled) = choose|app_name: Seq<char>, untitled: Seq<char>|
        translated(domain, "TextEdit"@, app_name) && (model.file_path is None ==> translated(
            domain,
            "Untitled"@,
            untitled,
        )) && render.title@ == #[trigger] title_spec(
            app_name,
            file_label_spec(model.file_path, untitled),
            model.body_text.is_dirty(),
        );
    let label = file_label_spec(model.file_path, untitled);
    assert(": "@ =~= seq![':', ' ']);
    assert(" *"@ =~= seq![' ', '*']);
    assert(titled(app_name, label, model.body_text.is_dirty()) == title_spec(
        app_name,
        label,
        model.body_text.is_dirty(),
    ));
}

/// The window title and the toast after a save read as a user sees them: the title is
/// the name, ": ", the label and " *" exactly when there are unsaved changes; the toast is
/// the label, ": " and the path.
pub proof fn titles_and_toasts_read_plainly(
    app_name: Seq<char>,
    label: Seq<char>,
    unsaved: bool,
    path: Seq<char>,
)
    ensures
        title_spec(app_name, label, unsaved) == titled(app_name, label, unsaved),
        saved_message_spec(label, path) == label + seq![':', ' '] + path,
{
    reveal_strlit(": ");
    reveal_strlit(" *");
    assert(": "@ =~= seq![':', ' ']);
    assert(" *"@ =~= seq![' ', '*']);
}

/// A path the chooser accepts reaches the application as an open where the chooser was
/// shown for opening, as a save where it was shown for saving; the chooser stays as it is.
pub proof fn accepted_path_is_opened_or_saved(app: ModelView, path: Seq<char>, note: Seq<char>)
    ensures
        app.file_dialog.state == State::ShowOpen ==> app.next(
            ActionView::FileDialog(file_dialog::ActionView::Accept(path)),
            note,
        ) == (app, seq![CommandView::Send(ActionView::OpenFile(Some(path)))]),
        app.file_dialog.state == State::ShowSave ==> app.next(
            ActionView::FileDialog(file_dialog::ActionView::Accept(path)),
            note,
        ) == (app, seq![CommandView::Send(ActionView::SaveFile(Some(path)))]),
        app.file_dialog.state == State::Hide ==> !app.can_apply(
            ActionView::FileDialog(file_dialog::ActionView::Accept(path)),
        ),
        app.file_dialog.state != State::Hide ==> app.can_apply(
            ActionView::FileDialog(file_dialog::ActionView::Accept(path)),
        ),
        app.file_dialog.request(file_dialog::ActionView::Open) is None,
        app.file_dialog.request(file_dialog::ActionView::Save) is None,
        app.file_dialog.request(file_dialog::ActionView::Cancel) is None,
{
}

/// The status bar's messages give commands only for a toast: its clearing, three seconds
/// later. Messages for the body and the about dialog give none.
pub proof fn component_commands(app: ModelView, message: Seq<char>, body: body_text::ActionView, note: Seq<char>)
    ensures
        app.next(ActionView::StatusBar(status_bar::ActionView::Toast(message)), note).1 == seq![
            CommandView::SendAfter(3, ActionView::StatusBar(status_bar::ActionView::ClearStatus)),
        ],
        app.next(ActionView::StatusBar(status_bar::ActionView::SetStatus(message)), note).1
            == Seq::<CommandView>::empty(),
        app.next(ActionView::StatusBar(status_bar::ActionView::ClearStatus), note).1
            == Seq::<CommandView>::empty(),
        app.next(ActionView::BodyText(body), note).1 == Seq::<CommandView>::empty(),
        app.next(ActionView::AboutDialog(about_dialog::Action::Open), note) == (
            ModelView { about_dialog: app.about_dialog + 1, ..app },
            Seq::<CommandView>::empty(),
        ),
        app.next(ActionView::StatusBar(status_bar::ActionView::Toast(message)), note).0.status_bar.message
            == Some(message),
{
}

/// Which messages can be applied: all but those that would overflow a revision counter,
/// and a path accepted while the chooser is hidden.
pub proof fn what_can_be_applied(app: ModelView, action: ActionView, body: body_text::ActionView)
    ensures
        (action is Exit || action is OpenFile || action is SaveFile || action is Menu)
            ==> app.can_apply(action),
        app.can_apply(ActionView::BodyText(body)) <==> (body is LoadDocument
            ==> app.body_text.revision < u64::MAX),
        app.can_apply(ActionView::AboutDialog(about_dialog::Action::Open)) <==> app.about_dialog
            < u64::MAX,
        action is StatusBar ==> (app.can_apply(action) <==> app.status_bar.revision < u64::MAX),
        app.can_apply(ActionView::FileDialog(file_dialog::ActionView::Open)) <==> app.file_dialog.revision
            < u64::MAX,
        app.can_apply(ActionView::FileDialog(file_dialog::ActionView::Cancel)),
{
}

/// Each view redraws exactly when its component's revision moved since it last caught up,
/// with what the component now holds: the saved text for the body, the message (or an empty
/// text) for the status bar.
pub proof fn views_redraw_on_change(
    shown: nat,
    body: body_text::ModelView,
    bar: status_bar::ModelView,
)
    ensures
        body_text::refresh_spec(shown, body) == (if shown != body.revision {
            (body.revision, Some(body.saved_document))
        } else {
            (shown, None::<Seq<char>>)
        }),
        status_bar::refresh_spec(shown, bar) == (if shown != bar.revision {
            (
                bar.revision,
                Some(
                    match bar.message {
                        Some(m) => m,
                        None => Seq::<char>::empty(),
                    },
                ),
            )
        } else {
            (shown, None::<Seq<char>>)
        }),
{
}

/// A fresh application has no file, an empty and clean body, a hidden chooser and an empty
/// status bar.
pub proof fn fresh_application()
    ensures
        ModelView::initial().file_path is None,
        ModelView::initial().body_text.active_document == Seq::<char>::empty(),
        ModelView::initial().body_text.saved_document == Seq::<char>::empty(),
        ModelView::initial().body_text.revision == 0,
        ModelView::initial().file_dialog.state == State::Hide,
        ModelView::initial().status_bar.message is None,
        ModelView::initial().about_dialog == 0,
{
}

} // verus!
