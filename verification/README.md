# textedit

The logic of a small GTK text editor, verified with Verus.

Each component (document body, file chooser, menu, status bar, about dialog, and
the application that routes messages between them) has a model that messages
update, and a view state that decides what its widget must redraw. The library
is in `src/`: updates return the work they leave to the program (messages to
deliver, files to read or write, the exit), and `src/properties.rs` proves how
sequences of messages behave. `app/` is the GTK program around it: it owns the
widgets and the message channel, carries out the returned commands, and does the
file I/O.

Translated texts come from a `util::Catalog`, which exists only once the text
domain's codeset has been set to UTF-8; the contracts say which message id each
text is a translation of.

