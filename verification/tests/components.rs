use textedit::components::about_dialog;
use textedit::components::application;
use textedit::components::application::Action;
use textedit::components::application::Command;
use textedit::components::application::LoadError;
use textedit::components::body_text;
use textedit::components::file_dialog;
use textedit::components::file_dialog::State;
use textedit::components::menu;
use textedit::components::status_bar;
use textedit::components::util::Catalog;
use textedit::components::util::CatalogError;
use textedit::components::file_dialog::Mode;

fn catalog() -> Catalog {
    Catalog::bind("textedit").unwrap()
}

fn text(s: &str) -> String {
    s.to_string()
}

#[test]
fn body_new_is_empty_and_clean() {
    let m = body_text::Model::new();
    assert_eq!(m.get_document(), "");
    assert!(!m.is_dirty());
}

#[test]
fn body_load_edit_undo_save() {
    let mut m = body_text::Model::new();
    m.update(body_text::Action::LoadDocument(text("hello")));
    assert_eq!(m.get_document(), "hello");
    assert!(!m.is_dirty());
    m.update(body_text::Action::DocumentChanged(text("hello world")));
    assert_eq!(m.get_document(), "hello world");
    assert!(m.is_dirty());
    m.update(body_text::Action::DocumentChanged(text("hello")));
    assert!(!m.is_dirty());
    m.update(body_text::Action::DocumentChanged(text("bye")));
    assert!(m.is_dirty());
    m.update(body_text::Action::DocumentSaved);
    assert!(!m.is_dirty());
    assert_eq!(m.get_document(), "bye");
}

#[test]
fn body_view_refills_only_after_load() {
    let mut m = body_text::Model::new();
    let mut v = body_text::View::new();
    assert_eq!(v.refresh(&m), None);
    m.update(body_text::Action::LoadDocument(text("abc")));
    assert_eq!(v.refresh(&m), Some(text("abc")));
    assert_eq!(v.refresh(&m), None);
    m.update(body_text::Action::DocumentChanged(text("abcd")));
    assert_eq!(v.refresh(&m), None);
    m.update(body_text::Action::DocumentSaved);
    assert_eq!(v.refresh(&m), None);
    m.update(body_text::Action::LoadDocument(text("")));
    assert_eq!(v.refresh(&m), Some(text("")));
}

#[test]
fn body_can_update() {
    let m = body_text::Model::new();
    assert!(m.can_update(&body_text::Action::LoadDocument(text("x"))));
    assert!(m.can_update(&body_text::Action::DocumentSaved));
}

#[test]
fn status_bar_messages() {
    let mut m = status_bar::Model::new();
    let mut v = status_bar::View::new();
    assert_eq!(v.refresh(&m), None);
    assert_eq!(m.update(status_bar::Action::SetStatus(text("Loading"))), None);
    assert_eq!(v.refresh(&m), Some(text("Loading")));
    assert_eq!(v.refresh(&m), None);
    assert_eq!(m.update(status_bar::Action::Toast(text("Saved"))), Some(3));
    assert_eq!(v.refresh(&m), Some(text("Saved")));
    assert_eq!(m.update(status_bar::Action::ClearStatus), None);
    assert_eq!(v.refresh(&m), Some(text("")));
    assert!(m.can_update());
    assert_eq!(status_bar::TOAST_DURATION_SECONDS, 3);
}

#[test]
fn about_dialog_shows_once_per_open() {
    let mut m = about_dialog::Model::new();
    let mut v = about_dialog::View::new();
    assert!(!v.refresh(&m));
    m.update(about_dialog::Action::Open);
    assert!(v.refresh(&m));
    assert!(!v.refresh(&m));
    m.update(about_dialog::Action::Open);
    m.update(about_dialog::Action::Open);
    assert!(v.refresh(&m));
    assert!(m.can_update());
}

#[test]
fn file_dialog_open_then_accept() {
    let mut m = file_dialog::Model::new();
    let mut v = file_dialog::View::new();
    assert!(!m.can_update(&file_dialog::Action::Accept(text("/a"))));
    assert_eq!(m.update(file_dialog::Action::Open), None);
    assert_eq!(v.refresh(&m), Some(State::ShowOpen));
    assert_eq!(
        m.update(file_dialog::Action::Accept(text("/tmp/a.txt"))),
        Some(Action::OpenFile(Some(text("/tmp/a.txt"))))
    );
    assert_eq!(v.refresh(&m), None);
}

#[test]
fn file_dialog_save_then_accept() {
    let mut m = file_dialog::Model::new();
    let mut v = file_dialog::View::new();
    assert_eq!(m.update(file_dialog::Action::Save), None);
    assert_eq!(v.refresh(&m), Some(State::ShowSave));
    assert_eq!(
        m.update(file_dialog::Action::Accept(text("/tmp/b.txt"))),
        Some(Action::SaveFile(Some(text("/tmp/b.txt"))))
    );
}

#[test]
fn file_dialog_cancel_hides_without_redraw() {
    let mut m = file_dialog::Model::new();
    let mut v = file_dialog::View::new();
    m.update(file_dialog::Action::Open);
    assert_eq!(v.refresh(&m), Some(State::ShowOpen));
    assert_eq!(m.update(file_dialog::Action::Cancel), None);
    assert_eq!(v.refresh(&m), None);
    assert!(!m.can_update(&file_dialog::Action::Accept(text("/a"))));
    assert!(m.can_update(&file_dialog::Action::Cancel));
}

#[test]
fn menu_entries_map_to_requests() {
    let mut m = menu::Model::new();
    assert_eq!(m.update(menu::Action::New), Action::OpenFile(None));
    assert_eq!(m.update(menu::Action::Open), Action::FileDialog(file_dialog::Action::Open));
    assert_eq!(m.update(menu::Action::Save), Action::SaveFile(None));
    assert_eq!(m.update(menu::Action::SaveAs), Action::FileDialog(file_dialog::Action::Save));
    assert_eq!(m.update(menu::Action::Quit), Action::Exit);
    assert_eq!(m.update(menu::Action::About), Action::AboutDialog(about_dialog::Action::Open));
}

#[test]
fn app_exit() {
    let mut m = application::Model::new();
    assert_eq!(m.apply(Action::Exit, text("")), vec![Command::Exit]);
}

#[test]
fn app_new_document_loads_empty_text() {
    let mut m = application::Model::new();
    let cmds = m.apply(Action::Menu(menu::Action::New), text("n"));
    assert_eq!(cmds, vec![Command::Send(Action::OpenFile(None))]);
    let cmds = m.apply(Action::OpenFile(None), text("n"));
    assert_eq!(
        cmds,
        vec![Command::Send(Action::BodyText(body_text::Action::LoadDocument(text(""))))]
    );
}

#[test]
fn app_open_file_asks_for_read() {
    let mut m = application::Model::new();
    let cmds = m.apply(Action::OpenFile(Some(text("/tmp/notes.txt"))), text("Loading..."));
    assert_eq!(
        cmds,
        vec![
            Command::Send(Action::StatusBar(status_bar::Action::SetStatus(text("Loading...")))),
            Command::LoadFile(text("/tmp/notes.txt")),
        ]
    );
}

#[test]
fn app_save_without_file_asks_chooser() {
    let mut m = application::Model::new();
    let cmds = m.apply(Action::SaveFile(None), text("Saving..."));
    assert_eq!(cmds, vec![Command::Send(Action::FileDialog(file_dialog::Action::Save))]);
    let cmds = m.apply(Action::FileDialog(file_dialog::Action::Save), text(""));
    assert_eq!(cmds, vec![]);
    let cmds = m.apply(Action::FileDialog(file_dialog::Action::Accept(text("/tmp/new.txt"))), text(""));
    assert_eq!(cmds, vec![Command::Send(Action::SaveFile(Some(text("/tmp/new.txt"))))]);
    m.apply(Action::BodyText(body_text::Action::DocumentChanged(text("héllo"))), text(""));
    let cmds = m.apply(Action::SaveFile(Some(text("/tmp/new.txt"))), text("Saving..."));
    assert_eq!(
        cmds,
        vec![
            Command::Send(Action::StatusBar(status_bar::Action::SetStatus(text("Saving...")))),
            Command::SaveFile(text("/tmp/new.txt"), "héllo".as_bytes().to_vec()),
        ]
    );
}

#[test]
fn app_save_goes_to_opened_file() {
    let mut m = application::Model::new();
    m.apply(Action::OpenFile(Some(text("/tmp/a.txt"))), text("l"));
    m.apply(Action::BodyText(body_text::Action::LoadDocument(text("one"))), text(""));
    m.apply(Action::BodyText(body_text::Action::DocumentChanged(text("two"))), text(""));
    let cmds = m.apply(Action::SaveFile(None), text("s"));
    assert_eq!(
        cmds,
        vec![
            Command::Send(Action::StatusBar(status_bar::Action::SetStatus(text("s")))),
            Command::SaveFile(text("/tmp/a.txt"), b"two".to_vec()),
        ]
    );
}

#[test]
fn app_toast_clears_later() {
    let mut m = application::Model::new();
    let cmds = m.apply(Action::StatusBar(status_bar::Action::Toast(text("done"))), text(""));
    assert_eq!(
        cmds,
        vec![Command::SendAfter(3, Action::StatusBar(status_bar::Action::ClearStatus))]
    );
    let cmds = m.apply(Action::StatusBar(status_bar::Action::SetStatus(text("x"))), text(""));
    assert_eq!(cmds, vec![]);
}

#[test]
fn app_about_dialog() {
    let mut m = application::Model::new();
    let mut v = application::View::new();
    let cat = catalog();
    assert!(!v.refresh(&m, &cat).about_dialog);
    assert_eq!(m.apply(Action::AboutDialog(about_dialog::Action::Open), text("")), vec![]);
    assert!(v.refresh(&m, &cat).about_dialog);
    assert!(!v.refresh(&m, &cat).about_dialog);
}

#[test]
fn app_update_translates_status_text() {
    let mut m = application::Model::new();
    let cat = catalog();
    let cmds = m.update(Action::OpenFile(Some(text("/tmp/x.txt"))), &cat);
    assert_eq!(cmds.len(), 2);
    assert!(matches!(
        &cmds[0],
        Command::Send(Action::StatusBar(status_bar::Action::SetStatus(_)))
    ));
    assert_eq!(cmds[1], Command::LoadFile(text("/tmp/x.txt")));
    let cmds = m.update(Action::SaveFile(None), &cat);
    assert_eq!(cmds.len(), 2);
    assert_eq!(cmds[1], Command::SaveFile(text("/tmp/x.txt"), vec![]));
}

#[test]
fn app_can_update_rejects_accept_without_chooser() {
    let m = application::Model::new();
    assert!(!m.can_update(&Action::FileDialog(file_dialog::Action::Accept(text("/a")))));
    assert!(m.can_update(&Action::FileDialog(file_dialog::Action::Open)));
    assert!(m.can_update(&Action::Exit));
}

#[test]
fn loaded_bytes_become_document() {
    let actions = application::file_loaded("día".as_bytes().to_vec()).unwrap();
    assert_eq!(
        actions,
        vec![
            Action::StatusBar(status_bar::Action::ClearStatus),
            Action::BodyText(body_text::Action::LoadDocument(text("día"))),
        ]
    );
}

#[test]
fn invalid_utf8_is_refused() {
    assert_eq!(application::file_loaded(vec![0x66, 0xff, 0x6f]), Err(LoadError::InvalidUtf8));
    assert_eq!(application::file_loaded(vec![0xc3]), Err(LoadError::InvalidUtf8));
    assert!(application::file_loaded(vec![]).is_ok());
}

#[test]
fn saved_then_loaded_text_round_trips() {
    let mut m = application::Model::new();
    m.apply(Action::SaveFile(Some(text("/tmp/r.txt"))), text(""));
    m.apply(Action::BodyText(body_text::Action::DocumentChanged(text("ünïcødé ✓"))), text(""));
    let cmds = m.apply(Action::SaveFile(None), text(""));
    let bytes = match &cmds[1] {
        Command::SaveFile(_, b) => b.clone(),
        _ => panic!("expected a save"),
    };
    let actions = application::file_loaded(bytes).unwrap();
    assert_eq!(
        actions[1],
        Action::BodyText(body_text::Action::LoadDocument(text("ünïcødé ✓")))
    );
}

#[test]
fn saved_actions_name_the_path() {
    assert_eq!(
        application::saved_actions("Saved file to", "/tmp/a.txt"),
        vec![
            Action::StatusBar(status_bar::Action::Toast(text("Saved file to: /tmp/a.txt"))),
            Action::BodyText(body_text::Action::DocumentSaved),
        ]
    );
}

#[test]
fn file_saved_without_catalog_uses_message_id() {
    assert_eq!(
        application::file_saved("/tmp/a.txt", &catalog()),
        vec![
            Action::StatusBar(status_bar::Action::Toast(text("Saved file to: /tmp/a.txt"))),
            Action::BodyText(body_text::Action::DocumentSaved),
        ]
    );
}

#[test]
fn window_titles() {
    assert_eq!(application::window_title("TextEdit", "Untitled", false), "TextEdit: Untitled");
    assert_eq!(application::window_title("TextEdit", "a.txt", true), "TextEdit: a.txt *");
    assert_eq!(application::window_title("", "", false), ": ");
}

#[test]
fn app_view_title_follows_file_and_dirtiness() {
    let mut m = application::Model::new();
    let mut v = application::View::new();
    let cat = catalog();
    let r = v.refresh(&m, &cat);
    assert_eq!(r.title, "TextEdit: Untitled");
    assert_eq!(r.body_text, None);
    assert_eq!(r.file_dialog, None);
    assert_eq!(r.status_bar, None);
    m.apply(Action::OpenFile(Some(text("/home/u/notes.txt"))), text("Loading"));
    m.apply(Action::BodyText(body_text::Action::LoadDocument(text("x"))), text(""));
    let r = v.refresh(&m, &cat);
    assert_eq!(r.title, "TextEdit: notes.txt");
    assert_eq!(r.body_text, Some(text("x")));
    m.apply(Action::BodyText(body_text::Action::DocumentChanged(text("xy"))), text(""));
    let r = v.refresh(&m, &cat);
    assert_eq!(r.title, "TextEdit: notes.txt *");
    assert_eq!(r.body_text, None);
}

#[test]
fn app_view_refuses_path_without_file_name() {
    let mut m = application::Model::new();
    let mut v = application::View::new();
    let cat = catalog();
    m.apply(Action::OpenFile(Some(text("/"))), text(""));
    assert!(v.try_refresh(&m, &cat).is_none());
    m.apply(Action::OpenFile(Some(text("/tmp/.."))), text(""));
    assert!(v.try_refresh(&m, &cat).is_none());
    m.apply(Action::OpenFile(Some(text("/tmp/z.txt"))), text(""));
    let r = v.try_refresh(&m, &cat).unwrap();
    assert_eq!(r.title, "TextEdit: z.txt");
}

#[test]
fn app_view_passes_dialog_and_status_changes() {
    let mut m = application::Model::new();
    let mut v = application::View::new();
    let cat = catalog();
    v.refresh(&m, &cat);
    m.apply(Action::FileDialog(file_dialog::Action::Open), text(""));
    m.apply(Action::StatusBar(status_bar::Action::SetStatus(text("hi"))), text(""));
    let r = v.refresh(&m, &cat);
    assert_eq!(r.file_dialog, Some(State::ShowOpen));
    assert_eq!(r.status_bar, Some(text("hi")));
    let r = v.refresh(&m, &cat);
    assert_eq!(r.file_dialog, None);
    assert_eq!(r.status_bar, None);
}

#[test]
fn app_open_then_loaded_text_is_clean() {
    let mut m = application::Model::new();
    let mut v = application::View::new();
    let cat = catalog();
    v.refresh(&m, &cat);
    m.apply(Action::OpenFile(Some(text("/tmp/doc.txt"))), text("Loading"));
    for action in application::file_loaded(b"line one\nline two".to_vec()).unwrap() {
        assert_eq!(m.apply(action, text("")), vec![]);
    }
    let r = v.refresh(&m, &cat);
    assert_eq!(r.title, "TextEdit: doc.txt");
    assert_eq!(r.body_text, Some(text("line one\nline two")));
    assert_eq!(r.status_bar, Some(text("")));
}

#[test]
fn app_finished_save_makes_clean() {
    let mut m = application::Model::new();
    let mut v = application::View::new();
    let cat = catalog();
    m.apply(Action::OpenFile(Some(text("/tmp/doc.txt"))), text(""));
    m.apply(Action::BodyText(body_text::Action::DocumentChanged(text("edited"))), text(""));
    assert_eq!(v.refresh(&m, &cat).title, "TextEdit: doc.txt *");
    let mut later = vec![];
    for action in application::saved_actions("Saved file to", "/tmp/doc.txt") {
        later.extend(m.apply(action, text("")));
    }
    assert_eq!(
        later,
        vec![Command::SendAfter(3, Action::StatusBar(status_bar::Action::ClearStatus))]
    );
    let r = v.refresh(&m, &cat);
    assert_eq!(r.title, "TextEdit: doc.txt");
    assert_eq!(r.status_bar, Some(text("Saved file to: /tmp/doc.txt")));
    assert_eq!(r.body_text, None);
}

#[test]
fn app_update_uses_message_ids_without_catalog_files() {
    let mut m = application::Model::new();
    let cat = catalog();
    let cmds = m.update(Action::OpenFile(Some(text("/tmp/y.txt"))), &cat);
    assert_eq!(
        cmds[0],
        Command::Send(Action::StatusBar(status_bar::Action::SetStatus(text("Loading file..."))))
    );
    let cmds = m.update(Action::SaveFile(None), &cat);
    assert_eq!(
        cmds[0],
        Command::Send(Action::StatusBar(status_bar::Action::SetStatus(text("Saving file..."))))
    );
    let mut fresh = application::Model::new();
    assert_eq!(
        fresh.update(Action::SaveFile(None), &cat),
        vec![Command::Send(Action::FileDialog(file_dialog::Action::Save))]
    );
}

#[test]
fn catalog_binds_utf8() {
    assert!(Catalog::bind("textedit").is_ok());
    assert!(Catalog::bind("another-domain").is_ok());
    assert_ne!(CatalogError::BindFailed, CatalogError::NotUtf8);
}

#[test]
fn chooser_setup_per_state() {
    let open = State::ShowOpen.setup().unwrap();
    assert_eq!(open.mode, Mode::Open);
    assert_eq!(open.title, "Open File");
    assert_eq!(open.accept_label, "Open");
    let save = State::ShowSave.setup().unwrap();
    assert_eq!(save.mode, Mode::Save);
    assert_eq!(save.title, "Save File");
    assert_eq!(save.accept_label, "Save");
    assert_eq!(State::Hide.setup(), None);
}

#[test]
fn body_after_a_sequence_of_actions() {
    let mut m = body_text::Model::new();
    m.update(body_text::Action::DocumentChanged(text("draft")));
    assert!(m.is_dirty());
    m.update(body_text::Action::DocumentSaved);
    m.update(body_text::Action::DocumentChanged(text("draft 2")));
    m.update(body_text::Action::DocumentSaved);
    m.update(body_text::Action::DocumentChanged(text("draft")));
    assert_eq!(m.get_document(), "draft");
    assert!(m.is_dirty());
    m.update(body_text::Action::DocumentChanged(text("draft 2")));
    assert!(!m.is_dirty());
    m.update(body_text::Action::LoadDocument(text("other")));
    m.update(body_text::Action::DocumentSaved);
    assert_eq!(m.get_document(), "other");
    assert!(!m.is_dirty());
}
