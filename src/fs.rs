use crate::escape::{encode_safe, escape_safe};
use crate::file::{AUDIO_CSS_LINK, IMG_CSS_LINK};
use crate::strings::{i64_text, join2, signed_decimal, str_eq};
use crate::topbar::{chrome_spec, requester_spec, resolve_spec, AccountInfo, Identity, NavView};
use vstd::prelude::*;
use vstd::string::*;

verus! {

/// Why a request cannot be served as asked.
#[derive(Debug, Clone, PartialEq, Eq)]
pub enum FsError {
    /// No such account, no such path, or a private file seen by someone else:
    /// one outcome, so that a private file's existence does not leak.
    NotFound,
    /// A collaborator failed.
    UpstreamFailure,
    /// The file's type has no display.
    UnhandledContentType,
}

/// The per-entry visibility flag.
#[derive(Debug, Clone, PartialEq, Eq)]
pub enum Visibility {
    Public,
    Private,
}

/// What a resolved path names.
#[derive(Debug, Clone, PartialEq, Eq)]
pub enum TargetKind {
    Directory,
    File,
}

/// A MIME type: its top-level type, its subtype and its full text.
#[derive(Debug, Clone, PartialEq, Eq)]
pub struct MimeType {
    pub top: String,
    pub sub: String,
    pub text: String,
}

/// How a file is displayed.
#[derive(Debug, Clone, PartialEq, Eq)]
pub enum FileDisplay {
    /// An image embed of the access URL.
    Image,
    /// An audio player of the access URL.
    Audio,
}

/// What the file branch does once it has decided.
#[derive(Debug, Clone, PartialEq, Eq)]
pub enum FileAction {
    /// Stream the raw file with an inline content disposition: no page.
    StreamInline,
    /// Render a page around a display of this type.
    Render { mime: MimeType, display: FileDisplay },
}

/// The final response of a request.
#[derive(Debug, Clone, PartialEq, Eq)]
pub enum Reply {
    /// The fixed page for a session token that no account has.
    SessionExpired,
    /// The fixed not-found page.
    NotFound,
    /// A generic error response.
    Failure,
    /// A complete HTML document with its Content-Security-Policy header.
    Page { csp: String, body: String },
}

/// Whether the requester owns the target account.
pub open spec fn is_owner_spec(requester: Option<i64>, target: i64) -> bool {
    requester == Some(target)
}

/// Whether the requester, if any, is the owner of account `target`.
pub fn is_owner(requester: Option<i64>, target: i64) -> (r: bool)
    ensures
        r == is_owner_spec(requester, target),
{
    match requester {
        Some(id) => id == target,
        None => false,
    }
}

/// The response that ends a request at identity resolution, if any.
pub open spec fn session_reply_spec(view: NavView) -> Option<Reply> {
    match view {
        NavView::ExpiredSession => Some(Reply::SessionExpired),
        _ => None,
    }
}

/// Ends a request whose session token is stale on the session-expired page;
/// lets every other request go on.
pub fn session_reply(view: &NavView) -> (r: Option<Reply>)
    ensures
        r == session_reply_spec(*view),
{
    match view {
        NavView::ExpiredSession => Some(Reply::SessionExpired),
        _ => None,
    }
}

/// Whether the target account must be fetched by id: it must unless the
/// requester is that account.
pub fn needs_fetch(view: &NavView, target: i64) -> (r: bool)
    ensures
        r == !is_owner_spec(requester_spec(*view), target),
{
    match view {
        NavView::Authenticated { account, .. } => account.id != target,
        _ => true,
    }
}

/// The target account: the requester's own when it is the owner, else what
/// the fetch by id found.
pub open spec fn target_account_spec(
    view: NavView,
    target: i64,
    fetched: Option<AccountInfo>,
) -> Result<AccountInfo, FsError> {
    match view {
        NavView::Authenticated { account, .. } if account.id == target => Ok(account),
        _ => match fetched {
            Some(a) => Ok(a),
            None => Err(FsError::NotFound),
        },
    }
}

/// Settles the target account; `fetched` is the account store's answer to
/// the lookup by id, ignored when the requester owns the target.
pub fn target_account(
    view: NavView,
    target: i64,
    fetched: Option<AccountInfo>,
) -> (r: Result<AccountInfo, FsError>)
    ensures
        r == target_account_spec(view, target, fetched),
{
    match view {
        NavView::Authenticated { account, .. } => {
            if account.id == target {
                return Ok(account);
            }
        },
        _ => {},
    }
    match fetched {
        Some(a) => Ok(a),
        None => Err(FsError::NotFound),
    }
}

/// Whether position `i` of `p` starts a `..` segment.
pub open spec fn parent_segment_at(p: Seq<char>, i: int) -> bool {
    &&& 0 <= i
    &&& i + 2 <= p.len()
    &&& p[i] == '.'
    &&& p[i + 1] == '.'
    &&& (i == 0 || p[i - 1] == '/')
    &&& (i + 2 == p.len() || p[i + 2] == '/')
}

/// Whether a sub-path stays below the directory it is joined to: it is
/// relative and has no `..` segment.
pub open spec fn contained(p: Seq<char>) -> bool {
    &&& !(p.len() > 0 && p[0] == '/')
    &&& forall|i: int| 0 <= i < p.len() ==> !parent_segment_at(p, i)
}

/// Checks that joining `path` to a sandbox root cannot leave it.
pub fn sub_path_contained(path: &str) -> (r: bool)
    ensures
        r == contained(path@),
{
    let n = path.unicode_len();
    if n > 0 && path.get_char(0) == '/' {
        return false;
    }
    let mut i: usize = 0;
    while i < n
        invariant
            n == path@.len(),
            i <= n,
            !(n > 0 && path@[0] == '/'),
            forall|j: int| 0 <= j < i ==> !parent_segment_at(path@, j),
        decreases n - i,
    {
        if i + 1 < n && path.get_char(i) == '.' && path.get_char(i + 1) == '.' && (i == 0
            || path.get_char(i - 1) == '/') && (i + 2 == n || path.get_char(i + 2) == '/') {
            assert(parent_segment_at(path@, i as int));
            return false;
        }
        i = i + 1;
    }
    true
}

/// What a path names, from whether it stays in the sandbox, whether it exists
/// and whether it is a directory.
pub open spec fn classify_spec(
    contained: bool,
    exists: bool,
    is_dir: bool,
) -> Result<TargetKind, FsError> {
    if !contained || !exists {
        Err(FsError::NotFound)
    } else if is_dir {
        Ok(TargetKind::Directory)
    } else {
        Ok(TargetKind::File)
    }
}

/// Classifies the target of a request; a path outside the sandbox or absent
/// is not found.
pub fn classify_target(
    contained: bool,
    exists: bool,
    is_dir: bool,
) -> (r: Result<TargetKind, FsError>)
    ensures
        r == classify_spec(contained, exists, is_dir),
{
    if !contained || !exists {
        Err(FsError::NotFound)
    } else if is_dir {
        Ok(TargetKind::Directory)
    } else {
        Ok(TargetKind::File)
    }
}

/// Whether a file may be seen: a private one only by its owner.
pub open spec fn visible_spec(vis: Visibility, is_owner: bool) -> bool {
    is_owner || vis == Visibility::Public
}

/// Lets a file through to its requester, or answers not found.
pub fn visibility_gate(vis: Visibility, is_owner: bool) -> (r: Result<(), FsError>)
    ensures
        r == if visible_spec(vis, is_owner) {
            Ok::<(), FsError>(())
        } else {
            Err(FsError::NotFound)
        },
{
    match vis {
        Visibility::Private => if is_owner {
            Ok(())
        } else {
            Err(FsError::NotFound)
        },
        Visibility::Public => Ok(()),
    }
}

pub const OWNER_URL_PREFIX: &'static str = "/api/storage/v1/file/";

pub const PUBLIC_URL_PREFIX: &'static str = "/api/usercontent/v1/file/id/";

pub const TEX_SCOPE: &'static str = "/tex/";

/// The URL a file is fetched from: through the owner's capability token for
/// the owner, through the public usercontent route for anyone else.
pub open spec fn access_url_spec(
    account: AccountInfo,
    is_owner: bool,
    path: Seq<char>,
) -> Seq<char> {
    if is_owner {
        OWNER_URL_PREFIX@ + account.token@ + TEX_SCOPE@ + path
    } else {
        PUBLIC_URL_PREFIX@ + signed_decimal(account.id as int) + TEX_SCOPE@ + path
    }
}

/// Builds the access URL of `path` in `account`'s Tex space.
pub fn access_url(account: &AccountInfo, is_owner: bool, path: &str) -> (r: String)
    ensures
        r@ == access_url_spec(*account, is_owner, path@),
{
    let mut r = if is_owner {
        join2(OWNER_URL_PREFIX, account.token.as_str())
    } else {
        let id = i64_text(account.id);
        join2(PUBLIC_URL_PREFIX, id.as_str())
    };
    r.append(TEX_SCOPE);
    r.append(path);
    r
}

/// The MIME type of a file: the first candidate of the database, if any.
pub fn pick_mime(candidates: Vec<MimeType>) -> (r: Result<MimeType, FsError>)
    ensures
        candidates@.len() == 0 ==> r == Err::<MimeType, FsError>(FsError::UnhandledContentType),
        candidates@.len() > 0 ==> r == Ok::<MimeType, FsError>(candidates@[0]),
{
    let mut candidates = candidates;
    if candidates.len() == 0 {
        Err(FsError::UnhandledContentType)
    } else {
        Ok(candidates.remove(0))
    }
}

/// The action for a file of type `mime`: images and audio get a display,
/// PDF documents are streamed, anything else is unhandled.
pub open spec fn action_spec(mime: MimeType) -> Result<FileAction, FsError> {
    if mime.top@ == "image"@ {
        Ok(FileAction::Render { mime, display: FileDisplay::Image })
    } else if mime.top@ == "audio"@ {
        Ok(FileAction::Render { mime, display: FileDisplay::Audio })
    } else if mime.sub@ == "pdf"@ {
        Ok(FileAction::StreamInline)
    } else {
        Err(FsError::UnhandledContentType)
    }
}

/// Dispatches on a MIME type.
pub fn file_action(mime: MimeType) -> (r: Result<FileAction, FsError>)
    ensures
        r == action_spec(mime),
{
    if str_eq(mime.top.as_str(), "image") {
        Ok(FileAction::Render { mime, display: FileDisplay::Image })
    } else if str_eq(mime.top.as_str(), "audio") {
        Ok(FileAction::Render { mime, display: FileDisplay::Audio })
    } else if str_eq(mime.sub.as_str(), "pdf") {
        Ok(FileAction::StreamInline)
    } else {
        Err(FsError::UnhandledContentType)
    }
}

/// The file branch from the file's visibility and the MIME database's
/// candidates for its name.
pub open spec fn file_stage_spec(
    vis: Visibility,
    is_owner: bool,
    candidates: Seq<MimeType>,
) -> Result<FileAction, FsError> {
    if !visible_spec(vis, is_owner) {
        Err(FsError::NotFound)
    } else if candidates.len() == 0 {
        Err(FsError::UnhandledContentType)
    } else {
        action_spec(candidates[0])
    }
}

/// Decides the file branch: the visibility gate, then the dispatch on the
/// first candidate type.
pub fn file_stage(
    vis: Visibility,
    is_owner: bool,
    candidates: Vec<MimeType>,
) -> (r: Result<FileAction, FsError>)
    ensures
        r == file_stage_spec(vis, is_owner, candidates@),
{
    match visibility_gate(vis, is_owner) {
        Err(e) => Err(e),
        Ok(()) => match pick_mime(candidates) {
            Err(e) => Err(e),
            Ok(mime) => file_action(mime),
        },
    }
}

/// The stylesheet that goes with a display.
pub open spec fn display_css_spec(display: FileDisplay) -> Seq<char> {
    match display {
        FileDisplay::Image => IMG_CSS_LINK@,
        FileDisplay::Audio => AUDIO_CSS_LINK@,
    }
}

/// Returns the stylesheet of a display.
pub fn display_css(display: &FileDisplay) -> (r: &'static str)
    ensures
        r@ == display_css_spec(*display),
{
    match display {
        FileDisplay::Image => IMG_CSS_LINK,
        FileDisplay::Audio => AUDIO_CSS_LINK,
    }
}

/// The response for an error.
pub open spec fn error_reply_spec(e: FsError) -> Reply {
    match e {
        FsError::NotFound => Reply::NotFound,
        _ => Reply::Failure,
    }
}

/// Maps an error to its response: not found to the not-found page, anything
/// else to a generic failure.
pub fn error_reply(e: FsError) -> (r: Reply)
    ensures
        r == error_reply_spec(e),
{
    match e {
        FsError::NotFound => Reply::NotFound,
        _ => Reply::Failure,
    }
}

/// The Content-Security-Policy of file pages, which run no inline script.
pub const FILE_CSP: &'static str = "default-src 'self'; script-src 'self'";

pub const LISTING_CSP_OPEN: &'static str = "default-src 'self'; script-src 'self' 'nonce-";

/// The Content-Security-Policy of a listing whose inline script carries
/// `nonce`.
pub open spec fn listing_csp_spec(nonce: Seq<char>) -> Seq<char> {
    LISTING_CSP_OPEN@ + nonce + "'"@
}

/// The nonce of a listing, bound both into its header and into its script.
#[derive(Debug, Clone, PartialEq, Eq)]
pub struct ListingSecurity {
    pub csp: String,
    pub script_nonce: String,
}

/// Binds a fresh nonce into a listing's header and its inline script.
pub fn listing_security(nonce: &str) -> (r: ListingSecurity)
    ensures
        r.csp@ == listing_csp_spec(nonce@),
        r.script_nonce@ == nonce@,
{
    let mut csp = join2(LISTING_CSP_OPEN, nonce);
    csp.append("'");
    ListingSecurity { csp, script_nonce: String::from_str(nonce) }
}

pub const LISTING_HEAD: &'static str = r#"<!DOCTYPE html>
<html lang="en">
  <head>
    <meta charset="UTF-8" />
    <meta name="viewport" content="width=device-width, initial-scale=1.0" />
    <link rel="stylesheet" href="/static/css/main.css" />
    <link rel="stylesheet" href="/static/css/topbar.css" />
    <link rel="stylesheet" href="/static/css/topbar-signedout.css" />
    <link rel="stylesheet" href="/static/css/fs.css" />
    <link rel="stylesheet" href="/static/css/path.css" />
    <link rel="stylesheet" href="/static/css/topbar-loggedin.css" />
    <link rel="stylesheet" href="/static/css/dark/main.css" />
    <link rel="stylesheet" href="/static/css/dark/topbar.css" />
    <link rel="stylesheet" href="/static/css/dark/fs.css" />
    <link rel="stylesheet" href="/static/css/dark/path.css" />
    <link rel="stylesheet" href="/static/css/dark/topbar-signedout.css" />
    <link
      rel="shortcut icon"
      href="/static/images/favicon-dark.svg"
      type="image/x-icon"
    />
    <title>"#;

pub const LISTING_BODY: &'static str = "</title>\n  </head>\n  <body>\n  ";

pub const NEWLINE_INDENT: &'static str = "\n  ";

pub const LISTING_TAIL: &'static str =
    "\n  <script src=\"/static/scripts/fs.js\" defer></script>\n  </body>\n</html>";

/// The listing page of `path` in account `id`.
pub open spec fn listing_page_spec(
    chrome: Seq<char>,
    items: Seq<char>,
    id: i64,
    path: Seq<char>,
) -> Seq<char> {
    LISTING_HEAD@ + escape_safe(signed_decimal(id as int) + "/"@ + path) + LISTING_BODY@ + chrome
        + NEWLINE_INDENT@ + items + LISTING_TAIL@
}

/// Assembles a directory listing into its response, under the header that
/// carries the listing's nonce.
pub fn listing_reply(
    security: ListingSecurity,
    chrome: &str,
    items: &str,
    id: i64,
    path: &str,
) -> (r: Reply)
    ensures
        r is Page,
        r->Page_csp == security.csp,
        r->Page_body@ == listing_page_spec(chrome@, items@, id, path@),
{
    let idt = i64_text(id);
    let mut title = join2(idt.as_str(), "/");
    title.append(path);
    let t = encode_safe(title.as_str());
    let mut body = join2(LISTING_HEAD, t.as_str());
    body.append(LISTING_BODY);
    body.append(chrome);
    body.append(NEWLINE_INDENT);
    body.append(items);
    body.append(LISTING_TAIL);
    Reply::Page { csp: security.csp, body }
}

pub const FILE_HEAD: &'static str = r#"
<!DOCTYPE html>
<html lang="en">
  <head>
    <meta charset="UTF-8" />
    <meta name="viewport" content="width=device-width, initial-scale=1.0" />
    <link rel="stylesheet" href="/static/css/main.css" />
    <link rel="stylesheet" href="/static/css/topbar.css" />
    <link rel="stylesheet" href="/static/css/topbar-signedout.css" />
    <link rel="stylesheet" href="/static/css/path.css" />
    <link rel="stylesheet" href="/static/css/topbar-loggedin.css" />
    <link rel="stylesheet" href="/static/css/dark/main.css" />
    <link rel="stylesheet" href="/static/css/dark/topbar.css" />
    <link rel="stylesheet" href="/static/css/dark/path.css" />
    <link rel="stylesheet" href="/static/css/dark/topbar-signedout.css" />
    "#;

pub const FILE_HEAD_END: &'static str = r#"
    <script src="/static/scripts/file.js" defer></script>
    <link
      rel="shortcut icon"
      href="/static/images/favicon-dark.svg"
      type="image/x-icon"
    />
    <title>Usercontent - GoodMorning Tex</title>
  </head>
  <body>
    "#;

pub const FILE_GAP: &'static str = "\n    ";

pub const FILE_DISPLAY_OPEN: &'static str = "\n    <div id=\"display\">\n        ";

pub const FILE_INFO_OPEN: &'static str = "\n        <br />\n        <code id=\"info\">";

pub const FILE_TAIL: &'static str = "</code>\n    </div>\n  </body>\n</html>";

/// The page of a single file.
pub open spec fn file_page_spec(
    chrome: Seq<char>,
    css: Seq<char>,
    path_display: Seq<char>,
    display: Seq<char>,
    caption: Seq<char>,
) -> Seq<char> {
    FILE_HEAD@ + css + FILE_HEAD_END@ + chrome + FILE_GAP@ + path_display + FILE_DISPLAY_OPEN@
        + display + FILE_INFO_OPEN@ + caption + FILE_TAIL@
}

/// Assembles a file page into its response, under the static header.
pub fn file_reply(
    chrome: &str,
    css: &str,
    path_display: &str,
    display: &str,
    caption: &str,
) -> (r: Reply)
    ensures
        r is Page,
        r->Page_csp@ == FILE_CSP@,
        r->Page_body@ == file_page_spec(chrome@, css@, path_display@, display@, caption@),
{
    let mut body = join2(FILE_HEAD, css);
    body.append(FILE_HEAD_END);
    body.append(chrome);
    body.append(FILE_GAP);
    body.append(path_display);
    body.append(FILE_DISPLAY_OPEN);
    body.append(display);
    body.append(FILE_INFO_OPEN);
    body.append(caption);
    body.append(FILE_TAIL);
    Reply::Page { csp: String::from_str(FILE_CSP), body }
}

/// Whether `p` stands in `t` at position `i`.
pub open spec fn infix_at(t: Seq<char>, p: Seq<char>, i: int) -> bool {
    0 <= i && i + p.len() <= t.len() && t.subrange(i, i + p.len()) == p
}

/// A request signed in with an account's own token, on any path of that
/// account, is the owner's: the account is not fetched again, and the access
/// URL carries the account's capability token.
pub proof fn lemma_owner_request(a: AccountInfo, rendered: String, path: Seq<char>)
    ensures
        is_owner_spec(requester_spec(resolve_spec(Identity::Resolved(a), rendered)), a.id),
        target_account_spec(resolve_spec(Identity::Resolved(a), rendered), a.id, None) == Ok::<
            AccountInfo,
            FsError,
        >(a),
        exists|i: int| infix_at(access_url_spec(a, true, path), a.token@, i),
{
    let url = access_url_spec(a, true, path);
    let i = OWNER_URL_PREFIX@.len() as int;
    assert(url.subrange(i, i + a.token@.len()) =~= a.token@);
    assert(infix_at(url, a.token@, i));
}

/// A private file asked for by anyone but its owner ends exactly as a path
/// that does not exist, or an account that does not exist: on the not-found
/// response.
pub proof fn lemma_private_as_missing(
    requester: Option<i64>,
    target: i64,
    candidates: Seq<MimeType>,
    contained: bool,
    is_dir: bool,
    view: NavView,
)
    requires
        !is_owner_spec(requester, target),
        !is_owner_spec(requester_spec(view), target),
    ensures
        file_stage_spec(Visibility::Private, is_owner_spec(requester, target), candidates) == Err::<
            FileAction,
            FsError,
        >(FsError::NotFound),
        classify_spec(contained, false, is_dir) == Err::<TargetKind, FsError>(FsError::NotFound),
        target_account_spec(view, target, None) == Err::<AccountInfo, FsError>(FsError::NotFound),
        error_reply_spec(FsError::NotFound) == Reply::NotFound,
{
}

/// A session token that no account has always ends on the session-expired
/// page: neither the signed-out bar nor a signed-in one is shown, and no
/// requester is known. A request without a token does not end there.
pub proof fn lemma_stale_token(rendered: String)
    ensures
        resolve_spec(Identity::Unresolved, rendered) == NavView::ExpiredSession,
        session_reply_spec(resolve_spec(Identity::Unresolved, rendered)) == Some(
            Reply::SessionExpired,
        ),
        chrome_spec(resolve_spec(Identity::Unresolved, rendered)) == None::<Seq<char>>,
        requester_spec(resolve_spec(Identity::Unresolved, rendered)) == None::<i64>,
        session_reply_spec(resolve_spec(Identity::NoToken, rendered)) == None::<Reply>,
        chrome_spec(resolve_spec(Identity::NoToken, rendered)) is Some,
{
}

/// A listing's header carries its nonce, and no other: two headers are equal
/// only for equal nonces, so the script nonce that `listing_security` hands
/// out is the one the header allows.
pub proof fn lemma_listing_nonce(nonce: Seq<char>, other: Seq<char>)
    ensures
        infix_at(listing_csp_spec(nonce), nonce, LISTING_CSP_OPEN@.len() as int),
        listing_csp_spec(nonce) == listing_csp_spec(other) ==> nonce == other,
{
    let h = listing_csp_spec(nonce);
    let k = LISTING_CSP_OPEN@.len() as int;
    assert(h.subrange(k, k + nonce.len()) =~= nonce);
    if h == listing_csp_spec(other) {
        let g = listing_csp_spec(other);
        assert(nonce.len() == other.len()) by {
            assert(h.len() == g.len());
        }
        assert(g.subrange(k, k + other.len()) =~= other);
    }
}

/// A PDF document that its requester may see is streamed inline and never
/// rendered into a page, whoever asks.
pub proof fn lemma_pdf_streamed(
    vis: Visibility,
    is_owner: bool,
    pdf: MimeType,
    rest: Seq<MimeType>,
)
    requires
        visible_spec(vis, is_owner),
        pdf.top@ == "application"@,
        pdf.sub@ == "pdf"@,
    ensures
        file_stage_spec(vis, is_owner, seq![pdf] + rest) == Ok::<FileAction, FsError>(
            FileAction::StreamInline,
        ),
{
    reveal_strlit("application");
    reveal_strlit("image");
    reveal_strlit("audio");
    assert(("application"@)[0] != ("image"@)[0]);
    assert(("application"@)[1] != ("audio"@)[1]);
    assert((seq![pdf] + rest)[0] == pdf);
}

} // verus!
