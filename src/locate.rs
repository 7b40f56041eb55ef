use vstd::prelude::*;

use crate::descriptor::opt_view;
use crate::error::Error;

verus! {

/// The file name of the well-known credential document.
pub const CREDENTIALS_FILE: &'static str = "application_default_credentials.json";

/// Where the credential document comes from: the inline variable's bytes, or a
/// file whose path is given as components to be joined in order.
#[derive(Debug)]
pub enum DocumentLocation {
    Inline(Vec<u8>),
    File(Vec<String>),
}

/// The mathematical model of a document location.
pub enum LocationView {
    Inline(Seq<u8>),
    File(Seq<Seq<char>>),
}

impl View for DocumentLocation {
    type V = LocationView;

    open spec fn view(&self) -> LocationView {
        match self {
            DocumentLocation::Inline(d) => LocationView::Inline(d@),
            DocumentLocation::File(p) => LocationView::File(path_view(p@)),
        }
    }
}

/// What standard base64 (with padding) decodes `text` to, or `None` where it is
/// not such an encoding.
pub uninterp spec fn base64_standard_decode(text: Seq<u8>) -> Option<Seq<u8>>;

/// Relies on base64's `STANDARD` engine `decode`: the outcome depends on the input
/// alone.
#[verifier::external_body]
fn decode_base64(text: &[u8]) -> (r: Option<Vec<u8>>)
    ensures
        opt_view(r) == base64_standard_decode(text@),
{
    base64::Engine::decode(&base64::engine::general_purpose::STANDARD, text).ok()
}

/// The document that the inline variable holds: its decoding where it is
/// base64, and its own bytes otherwise.
pub open spec fn inline_bytes(raw: Seq<u8>, decoded: Option<Seq<u8>>) -> Seq<u8> {
    match decoded {
        Some(d) => d,
        None => raw,
    }
}

/// Picks the document from the inline variable's bytes and their base64
/// decoding, if they had one.
pub fn choose_inline_document(raw: Vec<u8>, decoded: Option<Vec<u8>>) -> (r: Vec<u8>)
    ensures
        r@ == inline_bytes(raw@, opt_view(decoded)),
{
    match decoded {
        Some(d) => d,
        None => raw,
    }
}

/// The document that the inline variable's bytes hold: decoded where they are
/// base64, passed through unchanged otherwise.
pub fn inline_document(raw: Vec<u8>) -> (r: Vec<u8>)
    ensures
        r@ == inline_bytes(raw@, base64_standard_decode(raw@)),
{
    let decoded = decode_base64(raw.as_slice());
    choose_inline_document(raw, decoded)
}

/// The path components, as text.
pub open spec fn path_view(p: Seq<String>) -> Seq<Seq<char>> {
    p.map_values(|s: String| s@)
}

/// The platform's well-known path: under the app-data directory on Windows,
/// under the home directory elsewhere.
pub open spec fn well_known_path(
    windows: bool,
    app_data: Option<Seq<char>>,
    home: Option<Seq<char>>,
) -> Result<Seq<Seq<char>>, Error> {
    if windows {
        match app_data {
            Some(a) => Ok(seq![a, "gcloud"@, CREDENTIALS_FILE@]),
            None => Err(Error::EnvironmentAccessFailure),
        }
    } else {
        match home {
            Some(h) => Ok(seq![h, ".config"@, "gcloud"@, CREDENTIALS_FILE@]),
            None => Err(Error::NoHomeDirectoryFound),
        }
    }
}

/// The text of an optional string.
pub open spec fn opt_text(s: Option<String>) -> Option<Seq<char>> {
    match s {
        Some(x) => Some(x@),
        None => None,
    }
}

/// Computes the well-known path of the credential document.
pub fn well_known_location(windows: bool, app_data: Option<String>, home: Option<String>) -> (r:
    Result<Vec<String>, Error>)
    ensures
        match well_known_path(windows, opt_text(app_data), opt_text(home)) {
            Ok(p) => r matches Ok(c) && path_view(c@) == p,
            Err(e) => r matches Err(x) && x == e,
        },
{
    let mut parts: Vec<String> = Vec::new();
    if windows {
        match app_data {
            Some(a) => parts.push(a),
            None => return Err(Error::EnvironmentAccessFailure),
        }
    } else {
        match home {
            Some(h) => parts.push(h),
            None => return Err(Error::NoHomeDirectoryFound),
        }
        parts.push(String::from_str(".config"));
    }
    parts.push(String::from_str("gcloud"));
    parts.push(String::from_str(CREDENTIALS_FILE));
    proof {
        assert(path_view(parts@) =~= well_known_path(windows, opt_text(app_data), opt_text(home))->Ok_0);
    }
    Ok(parts)
}

/// Where the credential document comes from, given the inline variable's
/// bytes, the path variable, the platform, the app-data directory and the home
/// directory.
pub open spec fn resolved(
    inline: Option<Seq<u8>>,
    path_var: Option<Seq<char>>,
    windows: bool,
    app_data: Option<Seq<char>>,
    home: Option<Seq<char>>,
) -> Result<LocationView, Error> {
    match inline {
        Some(raw) => Ok(LocationView::Inline(inline_bytes(raw, base64_standard_decode(raw)))),
        None => match path_var {
            Some(p) => Ok(LocationView::File(seq![p])),
            None => match well_known_path(windows, app_data, home) {
                Ok(w) => Ok(LocationView::File(w)),
                Err(e) => Err(e),
            },
        },
    }
}

/// Decides where the credential document comes from. The inline variable wins
/// over the path variable; a set path variable is used as it is, and never falls
/// through to the well-known path, which is used only where neither variable is
/// set.
pub fn locate(
    inline: Option<Vec<u8>>,
    path_var: Option<String>,
    windows: bool,
    app_data: Option<String>,
    home: Option<String>,
) -> (r: Result<DocumentLocation, Error>)
    ensures
        match r {
            Ok(l) => resolved(opt_view(inline), opt_text(path_var), windows, opt_text(app_data), opt_text(home)) == Ok::<LocationView, Error>(l@),
            Err(e) => resolved(opt_view(inline), opt_text(path_var), windows, opt_text(app_data), opt_text(home)) == Err::<LocationView, Error>(e),
        },
{
    match inline {
        Some(raw) => Ok(DocumentLocation::Inline(inline_document(raw))),
        None => match path_var {
            Some(p) => {
                let mut parts: Vec<String> = Vec::new();
                parts.push(p);
                proof {
                    assert(path_view(parts@) =~= seq![p@]);
                }
                Ok(DocumentLocation::File(parts))
            },
            None => match well_known_location(windows, app_data, home) {
                Ok(parts) => Ok(DocumentLocation::File(parts)),
                Err(e) => Err(e),
            },
        },
    }
}

/// When the inline variable is set, its document is used, whatever the path
/// variable and the platform say: the path variable is never consulted.
pub proof fn lemma_inline_wins(
    raw: Seq<u8>,
    path_var: Option<Seq<char>>,
    windows: bool,
    app_data: Option<Seq<char>>,
    home: Option<Seq<char>>,
)
    ensures
        resolved(Some(raw), path_var, windows, app_data, home) == Ok::<LocationView, Error>(
            LocationView::Inline(inline_bytes(raw, base64_standard_decode(raw))),
        ),
        resolved(Some(raw), path_var, windows, app_data, home) == resolved(
            Some(raw),
            None,
            windows,
            app_data,
            home,
        ),
{
}

/// When only the path variable is set, exactly that path is used: resolution
/// never falls through to the well-known path, whatever the platform, the
/// app-data directory and the home directory are.
pub proof fn lemma_path_variable_never_falls_back(
    p: Seq<char>,
    windows: bool,
    app_data: Option<Seq<char>>,
    home: Option<Seq<char>>,
)
    ensures
        resolved(None, Some(p), windows, app_data, home) == Ok::<LocationView, Error>(
            LocationView::File(seq![p]),
        ),
{
}

/// When neither variable is set, the well-known path is used: rooted at the
/// app-data directory on Windows and at the home directory elsewhere.
pub proof fn lemma_well_known_fallback(
    windows: bool,
    app_data: Option<Seq<char>>,
    home: Option<Seq<char>>,
)
    ensures
        windows && app_data is Some ==> resolved(None, None, windows, app_data, home) == Ok::<
            LocationView,
            Error,
        >(LocationView::File(seq![app_data->Some_0, "gcloud"@, CREDENTIALS_FILE@])),
        windows && app_data is None ==> resolved(None, None, windows, app_data, home) == Err::<
            LocationView,
            Error,
        >(Error::EnvironmentAccessFailure),
        !windows && home is Some ==> resolved(None, None, windows, app_data, home) == Ok::<
            LocationView,
            Error,
        >(LocationView::File(seq![home->Some_0, ".config"@, "gcloud"@, CREDENTIALS_FILE@])),
        !windows && home is None ==> resolved(None, None, windows, app_data, home) == Err::<
            LocationView,
            Error,
        >(Error::NoHomeDirectoryFound),
{
}

} // verus!
