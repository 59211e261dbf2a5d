use vstd::prelude::*;
use vstd::view::View as _;
use vstd::utf8::decode_utf8;
use vstd::utf8::valid_utf8;

verus! {

/// The last component of `path`, as `std::path::Path::file_name` takes it:
/// `None` where the path ends in `..` or has no normal final component.
pub uninterp spec fn path_file_name(path: Seq<char>) -> Option<Seq<char>>;

/// No character of `s` is NUL, so it can be handed to the C message catalog.
pub open spec fn no_nul(s: Seq<char>) -> bool {
    forall|i: int| 0 <= i < s.len() ==> s[i] != '\0'
}

/// `text` is a translation of `msgid` in the message catalog of `domain`, as
/// `gettextrs::dgettext` gives it: the catalog's entry for the current locale, or
/// `msgid` itself where there is none. This is a relation, not a function: which
/// translation comes back depends on the locale and on the catalogs on disk.
pub uninterp spec fn translated(domain: Seq<char>, msgid: Seq<char>, text: Seq<char>) -> bool;

#[verifier::external_type_specification]
#[verifier::external_body]
pub struct ExIoError(std::io::Error);

/// Calls `gettextrs::bind_textdomain_codeset`, which asks that the translations of
/// `domain` be converted to `codeset`, and returns the codeset now in force. Nothing
/// is stated of the result: it rests on the C library's state. It panics where
/// either argument holds a NUL character, which `requires` excludes.
#[verifier::external_body]
fn bind_codeset(domain: &str, codeset: &str) -> Result<Option<String>, std::io::Error>
    requires
        no_nul(domain@),
        no_nul(codeset@),
{
    gettextrs::bind_textdomain_codeset(domain, codeset)
}

/// Why a message catalog could not be set up.
#[derive(Clone, Debug, PartialEq, Eq)]
pub enum CatalogError {
    /// The C library refused to set the codeset.
    BindFailed,
    /// The codeset in force afterwards is not UTF-8.
    NotUtf8,
}

/// The message catalog of a text domain whose translations are delivered as UTF-8.
/// A value exists only once the domain's codeset has been set to UTF-8, so looking a
/// message up through it never meets text in another encoding.
pub struct Catalog {
    domain: String,
}

impl vstd::view::View for Catalog {
    type V = Seq<char>;

    /// The text domain.
    closed spec fn view(&self) -> Seq<char> {
        self.domain@
    }
}

impl Catalog {
    /// The domain's name can be handed to the C library.
    #[verifier::type_invariant]
    spec fn domain_has_no_nul(self) -> bool {
        no_nul(self.domain@)
    }

    /// Sets the codeset of `domain`'s translations to UTF-8, and returns the catalog
    /// where the codeset in force afterwards is UTF-8. Whether the C library agrees is
    /// not in the library's hands, so success is not promised.
    pub fn bind(domain: &str) -> (r: Result<Catalog, CatalogError>)
        requires
            no_nul(domain@),
        ensures
            r matches Ok(c) ==> c@ == domain@,
    {
        proof {
            reveal_strlit("UTF-8");
        }
        match bind_codeset(domain, "UTF-8") {
            Ok(Some(codeset)) => {
                let utf8 = "UTF-8".to_owned();
                if codeset.eq(&utf8) {
                    Ok(Catalog { domain: domain.to_owned() })
                } else {
                    Err(CatalogError::NotUtf8)
                }
            },
            Ok(None) => Err(CatalogError::NotUtf8),
            Err(_) => Err(CatalogError::BindFailed),
        }
    }

    /// Calls `gettextrs::dgettext` with the catalog's domain: looks `msgid` up in the
    /// catalog for the current locale, and returns the translation, or `msgid` where
    /// there is none. The contract claims only that the result is `translated` from
    /// `msgid` in this domain. `dgettext` panics where the domain or `msgid` holds a
    /// NUL character (excluded by the type invariant and by `requires`) and where the
    /// text it finds is not UTF-8, which a `Catalog` rules out: its domain's
    /// translations are converted to UTF-8, and where a conversion fails the C library
    /// returns `msgid`.
    #[verifier::external_body]
    pub(crate) fn translate(&self, msgid: &str) -> (r: String)
        requires
            no_nul(msgid@),
        ensures
            translated(self@, msgid@, r@),
    {
        gettextrs::dgettext(self.domain.as_str(), msgid)
    }
}

/// Calls `std::path::Path::file_name` on `path`, and returns the name it finds as a
/// `String` (the name of a path given as a `str` is itself valid text). The contract
/// claims that the result is `path_file_name` of the path.
#[verifier::external_body]
pub(crate) fn file_name(path: &str) -> (r: Option<String>)
    ensures
        r matches Some(n) ==> path_file_name(path@) == Some(n@),
        r is None ==> path_file_name(path@) is None,
{
    match std::path::Path::new(path).file_name() {
        Some(name) => Some(name.to_string_lossy().into_owned()),
        None => None,
    }
}

#[verifier::external_type_specification]
#[verifier::external_body]
pub struct ExFromUtf8Error(std::string::FromUtf8Error);

/// Calls `String::from_utf8`. The contract claims what its documentation says: it
/// succeeds exactly on valid UTF-8, and the text then is what the bytes encode.
#[verifier::external_body]
pub(crate) fn string_from_utf8(bytes: Vec<u8>) -> (r: Result<String, std::string::FromUtf8Error>)
    ensures
        r is Ok <==> valid_utf8(bytes@),
        r matches Ok(s) ==> s@ == decode_utf8(bytes@),
{
    String::from_utf8(bytes)
}

} // verus!
