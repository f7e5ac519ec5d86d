use goodmorning_tex::{
    access_url, audio, caption, chrome, classify_target, display_css, encode_safe, error_reply,
    file_action, file_reply, file_stage, html, html_friendly_mime, is_owner, listing_reply,
    listing_security, needs_fetch, pick_mime, requester, resolve_identity, session_reply, size,
    str_eq, sub_path_contained, target_account, text, topbar_props, video, visibility_gate,
    AccountInfo, FileAction, FileDisplay, FsError, Identity, MimeType, NavView, Reply, TargetKind,
    TopbarLoggedinProps, Visibility, FILE_CSP, OGG_AUDIO, PLAIN_CSS, RUST_CSS, TEX_CSS,
    TOPBAR_LOGGEDOUT,
};

fn account(id: i64, token: &str, tex_enabled: bool) -> AccountInfo {
    AccountInfo { id, token: token.to_string(), tex_enabled }
}

fn mime(top: &str, sub: &str, text: &str) -> MimeType {
    MimeType { top: top.to_string(), sub: sub.to_string(), text: text.to_string() }
}

fn decode(t: &str) -> String {
    t.replace("&lt;", "<")
        .replace("&gt;", ">")
        .replace("&quot;", "\"")
        .replace("&#x27;", "'")
        .replace("&#x2F;", "/")
        .replace("&amp;", "&")
}

#[test]
fn owner_request_uses_capability_token() {
    let a = account(7, "cap-token-7", true);
    let view = resolve_identity(Identity::Resolved(a.clone()), "bar".to_string());
    let owner = is_owner(requester(&view), 7);
    assert!(owner);
    assert!(!needs_fetch(&view, 7));
    let target = target_account(view, 7, None).unwrap();
    let url = access_url(&target, owner, "notes/a.png");
    assert_eq!(url, "/api/storage/v1/file/cap-token-7/tex/notes/a.png");
    assert!(url.contains(&a.token));
}

#[test]
fn non_owner_gets_public_url() {
    let a = account(-12, "tok", true);
    let url = access_url(&a, false, "x.mp3");
    assert_eq!(url, "/api/usercontent/v1/file/id/-12/tex/x.mp3");
}

#[test]
fn owner_without_tex_is_still_owner() {
    let a = account(3, "t", false);
    let view = resolve_identity(Identity::Resolved(a), "ignored".to_string());
    assert_eq!(requester(&view), Some(3));
    assert_eq!(chrome(&view), Some(TOPBAR_LOGGEDOUT.to_string()));
}

#[test]
fn private_file_looks_missing() {
    let stage = file_stage(Visibility::Private, false, vec![mime("image", "png", "image/png")]);
    assert_eq!(stage, Err(FsError::NotFound));
    let missing = classify_target(true, false, false);
    assert_eq!(missing, Err(FsError::NotFound));
    assert_eq!(error_reply(FsError::NotFound), Reply::NotFound);
    let view = resolve_identity(Identity::NoToken, String::new());
    assert_eq!(target_account(view, 9, None), Err(FsError::NotFound));
}

#[test]
fn private_file_shown_to_owner() {
    assert_eq!(visibility_gate(Visibility::Private, true), Ok(()));
    assert_eq!(visibility_gate(Visibility::Public, false), Ok(()));
    assert_eq!(visibility_gate(Visibility::Private, false), Err(FsError::NotFound));
}

#[test]
fn stale_token_ends_on_expired_page() {
    let view = resolve_identity(Identity::Unresolved, "bar".to_string());
    assert_eq!(view, NavView::ExpiredSession);
    assert_eq!(session_reply(&view), Some(Reply::SessionExpired));
    assert_eq!(chrome(&view), None);
    assert_eq!(requester(&view), None);
    let anon = resolve_identity(Identity::NoToken, String::new());
    assert_eq!(anon, NavView::Anonymous);
    assert_eq!(session_reply(&anon), None);
    assert_eq!(chrome(&anon), Some(TOPBAR_LOGGEDOUT.to_string()));
}

#[test]
fn signed_in_bar_only_with_tex() {
    let with = Identity::Resolved(account(5, "t", true));
    assert_eq!(topbar_props(&with), Some(TopbarLoggedinProps { id: 5 }));
    let view = resolve_identity(with, "<nav/>".to_string());
    assert_eq!(chrome(&view), Some("<nav/>".to_string()));
    let without = Identity::Resolved(account(5, "t", false));
    assert_eq!(topbar_props(&without), None);
    assert_eq!(topbar_props(&Identity::NoToken), None);
}

#[test]
fn topbar_links() {
    let p = TopbarLoggedinProps { id: 42 };
    assert_eq!(p.profile_href(), "/user/42");
    assert_eq!(p.pfp_src(), "/api/tex/generic/v1/pfp/id/42");
}

#[test]
fn listing_nonce_matches_header() {
    let sec = listing_security("abc123");
    assert_eq!(sec.csp, "default-src 'self'; script-src 'self' 'nonce-abc123'");
    assert_eq!(sec.script_nonce, "abc123");
    let other = listing_security("zzz999");
    assert_ne!(sec.csp, other.csp);
    let reply = listing_reply(sec, "<bar/>", "<items/>", 4, "a<b");
    match reply {
        Reply::Page { csp, body } => {
            assert!(csp.contains("'nonce-abc123'"));
            assert!(body.contains("<title>4&#x2F;a&lt;b</title>"));
            assert!(body.contains("<bar/>\n  <items/>"));
            assert!(body.starts_with("<!DOCTYPE html>"));
        }
        other => panic!("unexpected {:?}", other),
    }
}

#[test]
fn text_escapes_and_round_trips() {
    let content = "if a < b && c == \"d\" { x }";
    let (display, css) = text("rs", content);
    assert_eq!(css, RUST_CSS);
    let open = "<pre id=\"display\" class=\"line-numbers\"><code class=\"language-rust\">";
    assert!(display.starts_with(open));
    assert!(display.ends_with("</code></pre>"));
    let inner = &display[open.len()..display.len() - "</code></pre>".len()];
    assert!(!inner.contains('<'));
    assert_eq!(
        inner,
        "if a &lt; b &amp;&amp; c == &quot;d&quot; { x }"
    );
    assert_eq!(decode(inner), content);
}

#[test]
fn text_highlighter_by_extension() {
    assert_eq!(text("tex", "x").1, TEX_CSS);
    assert!(text("tex", "x").0.contains("language-latex"));
    assert!(text("md", "x").0.contains("language-markdown"));
    let (d, css) = text("py", "x");
    assert_eq!(css, PLAIN_CSS);
    assert!(d.contains("language-text"));
}

#[test]
fn html_passes_through() {
    let (d, css) = html("<b>hi</b>".to_string());
    assert_eq!(d, "<b>hi</b>");
    assert_eq!(css, "<link href=\"/static/css/html.css\" rel=\"stylesheet\" />");
}

#[test]
fn opus_shown_as_ogg() {
    assert_eq!(html_friendly_mime("audio/x-opus+ogg"), OGG_AUDIO);
    assert_eq!(html_friendly_mime("audio/mpeg"), "audio/mpeg");
    assert_eq!(caption("audio/x-opus+ogg", 100), "audio&#x2F;ogg 100 B");
    assert_eq!(caption("audio/flac", 2048), "audio&#x2F;flac 2.0 KiB");
    let player = audio("audio/x-opus+ogg", "/u/a.opus");
    assert!(player.contains("type=\"audio&#x2F;ogg\""));
    assert!(player.contains("src=\"&#x2F;u&#x2F;a.opus\""));
}

#[test]
fn sizes_are_human() {
    assert_eq!(size(0), "0 B");
    assert_eq!(size(1023), "1023 B");
    assert_eq!(size(1024), "1.0 KiB");
    assert_eq!(size(1536), "1.5 KiB");
    assert_eq!(size(5 * 1048576 + 104857), "5.0 MiB");
    assert_eq!(size(3 * 1073741824), "3.0 GiB");
    assert_eq!(size(u64::MAX), "16777215.9 TiB");
}

#[test]
fn pdf_is_streamed_for_everyone() {
    let pdf = || vec![mime("application", "pdf", "application/pdf")];
    assert_eq!(file_stage(Visibility::Public, false, pdf()), Ok(FileAction::StreamInline));
    assert_eq!(file_stage(Visibility::Public, true, pdf()), Ok(FileAction::StreamInline));
    assert_eq!(file_stage(Visibility::Private, true, pdf()), Ok(FileAction::StreamInline));
    assert_eq!(file_stage(Visibility::Private, false, pdf()), Err(FsError::NotFound));
}

#[test]
fn dispatch_by_type() {
    let png = mime("image", "png", "image/png");
    assert_eq!(
        file_action(png.clone()),
        Ok(FileAction::Render { mime: png, display: FileDisplay::Image })
    );
    let ogg = mime("audio", "ogg", "audio/ogg");
    assert_eq!(
        file_action(ogg.clone()),
        Ok(FileAction::Render { mime: ogg, display: FileDisplay::Audio })
    );
    assert_eq!(
        file_action(mime("text", "plain", "text/plain")),
        Err(FsError::UnhandledContentType)
    );
    assert_eq!(file_stage(Visibility::Public, false, vec![]), Err(FsError::UnhandledContentType));
    assert!(display_css(&FileDisplay::Image).contains("img.css"));
    assert!(display_css(&FileDisplay::Audio).contains("audio.css"));
}

#[test]
fn first_candidate_wins() {
    let a = mime("image", "png", "image/png");
    let b = mime("text", "plain", "text/plain");
    assert_eq!(pick_mime(vec![a.clone(), b]), Ok(a));
    assert_eq!(pick_mime(vec![]), Err(FsError::UnhandledContentType));
}

#[test]
fn target_classification() {
    assert_eq!(classify_target(true, true, true), Ok(TargetKind::Directory));
    assert_eq!(classify_target(true, true, false), Ok(TargetKind::File));
    assert_eq!(classify_target(false, true, true), Err(FsError::NotFound));
    assert_eq!(error_reply(FsError::UpstreamFailure), Reply::Failure);
    assert_eq!(error_reply(FsError::UnhandledContentType), Reply::Failure);
}

#[test]
fn sandbox_containment() {
    assert!(sub_path_contained(""));
    assert!(sub_path_contained("a/b/c.txt"));
    assert!(sub_path_contained("a/..b/c"));
    assert!(sub_path_contained("..."));
    assert!(!sub_path_contained(".."));
    assert!(!sub_path_contained("a/../../etc"));
    assert!(!sub_path_contained("a/.."));
    assert!(!sub_path_contained("/etc/passwd"));
}

#[test]
fn fetch_other_account() {
    let view = resolve_identity(Identity::Resolved(account(1, "t", true)), String::new());
    assert!(needs_fetch(&view, 2));
    let other = account(2, "u", true);
    assert_eq!(target_account(view, 2, Some(other.clone())), Ok(other));
}

#[test]
fn file_page_assembly() {
    let reply = file_reply("<bar/>", "<css/>", "<path/>", "<img/>", "image&#x2F;png 1 B");
    match reply {
        Reply::Page { csp, body } => {
            assert_eq!(csp, FILE_CSP);
            assert_eq!(csp, "default-src 'self'; script-src 'self'");
            assert!(body.contains("    <css/>\n    <script src=\"/static/scripts/file.js\""));
            assert!(body.contains("<bar/>\n    <path/>"));
            assert!(body.contains("<code id=\"info\">image&#x2F;png 1 B</code>"));
        }
        other => panic!("unexpected {:?}", other),
    }
}

#[test]
fn escaping_wrappers() {
    assert_eq!(encode_safe("<a href='/x'>&\"</a>"), "&lt;a href=&#x27;&#x2F;x&#x27;&gt;&amp;&quot;&lt;&#x2F;a&gt;");
    assert_eq!(encode_safe("plain"), "plain");
    assert!(video("/v.mp4").contains("src=\"&#x2F;v.mp4\""));
    assert!(str_eq("abc", "abc"));
    assert!(!str_eq("abc", "abd"));
    assert!(!str_eq("ab", "abc"));
}
