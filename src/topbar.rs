use crate::strings::{i64_text, signed_decimal};
use vstd::prelude::*;
use vstd::string::*;

verus! {

/// The navigation bar shown to visitors who are not signed in.
pub const TOPBAR_LOGGEDOUT: &'static str = r#"
    <div id="top-bar">
      <div id="top-bar-left">
	<a href="/" id="top-bar-icon"><img src="/static/images/favicon-dark.svg" alt="" width="30"></a>
	<a href="/docs" class="top-bar-link">API</a>
	<a href="" class="top-bar-link">Blog</a>
      </div>
      <div id="top-bar-right">
        <a href="/login" class="buttonlike buttonlike-hover" id="signin">Sign in</a>
        <a href="/login?type=new" class="buttonlike hover-dropshadow" id="top-bar-register"
          >Register</a
        >
      </div>
    </div>"#;

/// What the account store tells about an account: its id, the capability
/// token of its owner-scoped URLs, and whether the Tex service is enabled
/// for it.
#[derive(Debug, Clone, PartialEq, Eq)]
pub struct AccountInfo {
    pub id: i64,
    pub token: String,
    pub tex_enabled: bool,
}

/// Who sent a request, as far as its session token tells.
#[derive(Debug, Clone, PartialEq, Eq)]
pub enum Identity {
    /// The request carried no session token.
    NoToken,
    /// It carried one that the account store does not know.
    Unresolved,
    /// It carried the token of this account.
    Resolved(AccountInfo),
}

/// How a request is greeted.
#[derive(Debug, Clone, PartialEq, Eq)]
pub enum NavView {
    /// Signed out: the static signed-out bar.
    Anonymous,
    /// The session token is stale: the request ends on the session-expired
    /// page.
    ExpiredSession,
    /// Signed in, with the rendered signed-in bar when the account has the
    /// Tex service.
    Authenticated { account: AccountInfo, fragment: Option<String> },
}

/// Properties of the signed-in navigation bar.
#[derive(Debug, Clone, PartialEq, Eq)]
pub struct TopbarLoggedinProps {
    pub id: i64,
}

impl TopbarLoggedinProps {
    /// The link to the account's profile page.
    pub fn profile_href(&self) -> (r: String)
        ensures
            r@ == "/user/"@ + signed_decimal(self.id as int),
    {
        let mut r = String::from_str("/user/");
        let id = i64_text(self.id);
        r.append(id.as_str());
        r
    }

    /// The URL of the account's profile image.
    pub fn pfp_src(&self) -> (r: String)
        ensures
            r@ == "/api/tex/generic/v1/pfp/id/"@ + signed_decimal(self.id as int),
    {
        let mut r = String::from_str("/api/tex/generic/v1/pfp/id/");
        let id = i64_text(self.id);
        r.append(id.as_str());
        r
    }
}

/// The signed-in bar to render for `identity`, if any: only for a resolved
/// account with the Tex service.
pub open spec fn topbar_props_spec(identity: Identity) -> Option<TopbarLoggedinProps> {
    match identity {
        Identity::Resolved(a) => if a.tex_enabled {
            Some(TopbarLoggedinProps { id: a.id })
        } else {
            None
        },
        _ => None,
    }
}

/// Which signed-in bar, if any, must be rendered before `resolve_identity`.
pub fn topbar_props(identity: &Identity) -> (r: Option<TopbarLoggedinProps>)
    ensures
        r == topbar_props_spec(*identity),
{
    match identity {
        Identity::Resolved(a) => if a.tex_enabled {
            Some(TopbarLoggedinProps { id: a.id })
        } else {
            None
        },
        _ => None,
    }
}

/// The view of a request from what its token told: no token is anonymous, an
/// unknown token is an expired session, a known one is authenticated, with
/// `rendered` as its bar exactly when the account has the Tex service.
pub open spec fn resolve_spec(identity: Identity, rendered: String) -> NavView {
    match identity {
        Identity::NoToken => NavView::Anonymous,
        Identity::Unresolved => NavView::ExpiredSession,
        Identity::Resolved(a) => NavView::Authenticated {
            account: a,
            fragment: if a.tex_enabled {
                Some(rendered)
            } else {
                None
            },
        },
    }
}

/// Resolves a request's identity; `rendered` is the signed-in bar that was
/// rendered from `topbar_props`, and is ignored when that gave none.
pub fn resolve_identity(identity: Identity, rendered: String) -> (r: NavView)
    ensures
        r == resolve_spec(identity, rendered),
{
    match identity {
        Identity::NoToken => NavView::Anonymous,
        Identity::Unresolved => NavView::ExpiredSession,
        Identity::Resolved(a) => {
            let fragment = if a.tex_enabled {
                Some(rendered)
            } else {
                None
            };
            NavView::Authenticated { account: a, fragment }
        },
    }
}

/// The navigation bar of a page, or none where the request ends on the
/// session-expired page.
pub open spec fn chrome_spec(view: NavView) -> Option<Seq<char>> {
    match view {
        NavView::Anonymous => Some(TOPBAR_LOGGEDOUT@),
        NavView::ExpiredSession => None,
        NavView::Authenticated { fragment, .. } => match fragment {
            Some(f) => Some(f@),
            None => Some(TOPBAR_LOGGEDOUT@),
        },
    }
}

/// The navigation bar to put on a page for `view`.
pub fn chrome(view: &NavView) -> (r: Option<String>)
    ensures
        r.is_some() == chrome_spec(*view).is_some(),
        r.is_some() ==> r.unwrap()@ == chrome_spec(*view).unwrap(),
{
    match view {
        NavView::Anonymous => Some(String::from_str(TOPBAR_LOGGEDOUT)),
        NavView::ExpiredSession => None,
        NavView::Authenticated { fragment, .. } => match fragment {
            Some(f) => Some(String::from_str(f.as_str())),
            None => Some(String::from_str(TOPBAR_LOGGEDOUT)),
        },
    }
}

/// The id of the account that sent the request, if it is known.
pub open spec fn requester_spec(view: NavView) -> Option<i64> {
    match view {
        NavView::Authenticated { account, .. } => Some(account.id),
        _ => None,
    }
}

/// Returns the id of the requesting account, if any.
pub fn requester(view: &NavView) -> (r: Option<i64>)
    ensures
        r == requester_spec(*view),
{
    match view {
        NavView::Authenticated { account, .. } => Some(account.id),
        _ => None,
    }
}

} // verus!
