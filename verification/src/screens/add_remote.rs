//! The form that adds a remote, or logs in again for one.

use crate::text::{all_blank, blank, is_blank, trim, trimmed};
use vstd::prelude::*;
use vstd::string::*;

verus! {

/// A service that the form offers.
#[derive(Clone, Copy, Debug, PartialEq, Eq, Structural)]
pub enum ProviderKind {
    ProtonDrive,
    GDrive,
    Dropbox,
    PCloud,
    WebDav,
    Nextcloud,
    Owncloud,
}

/// A flavour of WebDAV.
#[derive(Clone, Copy, Debug, PartialEq, Eq, Structural)]
pub enum WebDavVendor {
    Other,
    Nextcloud,
    Owncloud,
}

/// A service with a login in the browser.
#[derive(Clone, Copy, Debug, PartialEq, Eq, Structural)]
pub enum OAuthProvider {
    Dropbox,
    GDrive,
    PCloud,
}

/// How a service is logged in to.
pub enum LoginKind {
    WebDav(WebDavVendor),
    Proton,
    OAuth(OAuthProvider),
}

impl ProviderKind {
    /// How the service is logged in to.
    pub open spec fn login(self) -> LoginKind {
        match self {
            ProviderKind::ProtonDrive => LoginKind::Proton,
            ProviderKind::GDrive => LoginKind::OAuth(OAuthProvider::GDrive),
            ProviderKind::Dropbox => LoginKind::OAuth(OAuthProvider::Dropbox),
            ProviderKind::PCloud => LoginKind::OAuth(OAuthProvider::PCloud),
            ProviderKind::WebDav => LoginKind::WebDav(WebDavVendor::Other),
            ProviderKind::Nextcloud => LoginKind::WebDav(WebDavVendor::Nextcloud),
            ProviderKind::Owncloud => LoginKind::WebDav(WebDavVendor::Owncloud),
        }
    }

    /// The flavour of WebDAV, for a service that is one.
    pub fn webdav_vendor(self) -> (r: Option<WebDavVendor>)
        ensures
            r == (match self.login() {
                LoginKind::WebDav(vendor) => Some(vendor),
                _ => None,
            }),
    {
        match self {
            ProviderKind::WebDav => Some(WebDavVendor::Other),
            ProviderKind::Nextcloud => Some(WebDavVendor::Nextcloud),
            ProviderKind::Owncloud => Some(WebDavVendor::Owncloud),
            _ => None,
        }
    }

    /// Whether the service is Proton Drive.
    pub fn is_proton_drive(self) -> (r: bool)
        ensures
            r == (self.login() is Proton),
    {
        match self {
            ProviderKind::ProtonDrive => true,
            _ => false,
        }
    }

    /// The service to log in to in the browser, for one that has this.
    pub fn oauth_provider(self) -> (r: Option<OAuthProvider>)
        ensures
            r == (match self.login() {
                LoginKind::OAuth(provider) => Some(provider),
                _ => None,
            }),
    {
        match self {
            ProviderKind::GDrive => Some(OAuthProvider::GDrive),
            ProviderKind::Dropbox => Some(OAuthProvider::Dropbox),
            ProviderKind::PCloud => Some(OAuthProvider::PCloud),
            _ => None,
        }
    }
}

/// What the form reports.
#[derive(Clone, Debug, PartialEq, Eq)]
pub enum Msg {
    NameChanged(String),
    ProviderChanged(ProviderKind),
    UrlChanged(String),
    UserChanged(String),
    PassChanged(String),
    TotpChanged(String),
    ClientIdChanged(String),
    ClientSecretChanged(String),
    Cancel,
    Submit,
}

/// What stands in the form.
#[derive(Clone, Debug, PartialEq, Eq)]
pub struct Draft {
    pub name: String,
    pub provider: Option<ProviderKind>,
    pub url: String,
    pub user: String,
    pub pass: String,
    pub totp: String,
    pub client_id: String,
    pub client_secret: String,
    /// What is wrong, in words.
    pub error: Option<String>,
    /// The login is on its way.
    pub busy: bool,
    /// The form is for a remote that is there already.
    pub reauth: bool,
}

/// A [`Draft`] as a mathematical value.
#[verifier::ext_equal]
pub struct DraftView {
    pub name: Seq<char>,
    pub provider: Option<ProviderKind>,
    pub url: Seq<char>,
    pub user: Seq<char>,
    pub pass: Seq<char>,
    pub totp: Seq<char>,
    pub client_id: Seq<char>,
    pub client_secret: Seq<char>,
    pub error: Option<Seq<char>>,
    pub busy: bool,
    pub reauth: bool,
}

impl View for Draft {
    type V = DraftView;

    open spec fn view(&self) -> DraftView {
        DraftView {
            name: self.name@,
            provider: self.provider,
            url: self.url@,
            user: self.user@,
            pass: self.pass@,
            totp: self.totp@,
            client_id: self.client_id@,
            client_secret: self.client_secret@,
            error: self.error.deep_view(),
            busy: self.busy,
            reauth: self.reauth,
        }
    }
}

impl DeepView for Draft {
    type V = DraftView;

    open spec fn deep_view(&self) -> DraftView {
        self@
    }
}

/// An empty form.
pub open spec fn empty_form() -> DraftView {
    DraftView {
        name: Seq::empty(),
        provider: None,
        url: Seq::empty(),
        user: Seq::empty(),
        pass: Seq::empty(),
        totp: Seq::empty(),
        client_id: Seq::empty(),
        client_secret: Seq::empty(),
        error: None,
        busy: false,
        reauth: false,
    }
}

impl Default for Draft {
    fn default() -> (r: Self)
        ensures
            r@ == empty_form(),
    {
        Draft {
            name: String::new(),
            provider: None,
            url: String::new(),
            user: String::new(),
            pass: String::new(),
            totp: String::new(),
            client_id: String::new(),
            client_secret: String::new(),
            error: None,
            busy: false,
            reauth: false,
        }
    }
}

/// A login that a complete form asks for. A form for a remote that is there
/// already refreshes its login and keeps its row in the database; WebDAV has no
/// login to refresh and is configured anew.
#[derive(Debug, PartialEq, Eq)]
pub enum Login {
    AddWebDav { name: String, url: String, user: String, pass: String, vendor: WebDavVendor },
    AddProton { name: String, user: String, pass: String, totp: String },
    ReauthProton { name: String, user: String, pass: String, totp: String },
    AddOAuth {
        name: String,
        provider: OAuthProvider,
        client_id: Option<String>,
        client_secret: Option<String>,
    },
    ReauthOAuth {
        name: String,
        provider: OAuthProvider,
        client_id: Option<String>,
        client_secret: Option<String>,
    },
}

/// A [`Login`] as a mathematical value.
pub enum LoginView {
    AddWebDav {
        name: Seq<char>,
        url: Seq<char>,
        user: Seq<char>,
        pass: Seq<char>,
        vendor: WebDavVendor,
    },
    AddProton { name: Seq<char>, user: Seq<char>, pass: Seq<char>, totp: Seq<char> },
    ReauthProton { name: Seq<char>, user: Seq<char>, pass: Seq<char>, totp: Seq<char> },
    AddOAuth {
        name: Seq<char>,
        provider: OAuthProvider,
        client_id: Option<Seq<char>>,
        client_secret: Option<Seq<char>>,
    },
    ReauthOAuth {
        name: Seq<char>,
        provider: OAuthProvider,
        client_id: Option<Seq<char>>,
        client_secret: Option<Seq<char>>,
    },
}

impl View for Login {
    type V = LoginView;

    open spec fn view(&self) -> LoginView {
        match self {
            Login::AddWebDav { name, url, user, pass, vendor } => LoginView::AddWebDav {
                name: name@,
                url: url@,
                user: user@,
                pass: pass@,
                vendor: *vendor,
            },
            Login::AddProton { name, user, pass, totp } => LoginView::AddProton {
                name: name@,
                user: user@,
                pass: pass@,
                totp: totp@,
            },
            Login::ReauthProton { name, user, pass, totp } => LoginView::ReauthProton {
                name: name@,
                user: user@,
                pass: pass@,
                totp: totp@,
            },
            Login::AddOAuth { name, provider, client_id, client_secret } => LoginView::AddOAuth {
                name: name@,
                provider: *provider,
                client_id: client_id.deep_view(),
                client_secret: client_secret.deep_view(),
            },
            Login::ReauthOAuth { name, provider, client_id, client_secret } => {
                LoginView::ReauthOAuth {
                    name: name@,
                    provider: *provider,
                    client_id: client_id.deep_view(),
                    client_secret: client_secret.deep_view(),
                }
            },
        }
    }
}

/// What stands in a field without white space around it; nothing, where that
/// is all there is.
pub open spec fn filled(field: Seq<char>) -> Option<Seq<char>> {
    let inside = trimmed(field, blank());
    if inside.len() == 0 {
        None
    } else {
        Some(inside)
    }
}

/// What stands in a field without white space around it.
fn fill(field: &str) -> (r: Option<String>)
    ensures
        r.deep_view() == filled(field@),
{
    let inside = trim(field);
    if inside.as_str().is_empty() {
        None
    } else {
        Some(inside)
    }
}

impl DraftView {
    /// What is missing before the form can be sent, in words.
    pub open spec fn missing(self) -> Option<Seq<char>> {
        match self.provider {
            None => Some("Pick a provider first."@),
            Some(kind) => if all_blank(self.name) {
                Some("Name is required."@)
            } else {
                match kind.login() {
                    LoginKind::WebDav(_) => if all_blank(self.url) || all_blank(self.user) {
                        Some("URL and username are required."@)
                    } else {
                        None
                    },
                    LoginKind::Proton => if all_blank(self.user) {
                        Some("Username is required."@)
                    } else {
                        None
                    },
                    LoginKind::OAuth(_) => None,
                }
            },
        }
    }

    /// The login that the form asks for, with the service `kind`.
    pub open spec fn login(self, kind: ProviderKind) -> LoginView {
        match kind.login() {
            LoginKind::WebDav(vendor) => LoginView::AddWebDav {
                name: self.name,
                url: self.url,
                user: self.user,
                pass: self.pass,
                vendor,
            },
            LoginKind::Proton => if self.reauth {
                LoginView::ReauthProton {
                    name: self.name,
                    user: self.user,
                    pass: self.pass,
                    totp: self.totp,
                }
            } else {
                LoginView::AddProton {
                    name: self.name,
                    user: self.user,
                    pass: self.pass,
                    totp: self.totp,
                }
            },
            LoginKind::OAuth(provider) => if self.reauth {
                LoginView::ReauthOAuth {
                    name: self.name,
                    provider,
                    client_id: filled(self.client_id),
                    client_secret: filled(self.client_secret),
                }
            } else {
                LoginView::AddOAuth {
                    name: self.name,
                    provider,
                    client_id: filled(self.client_id),
                    client_secret: filled(self.client_secret),
                }
            },
        }
    }

    /// What the form asks for when it is sent: nothing, as long as something is
    /// missing.
    pub open spec fn request(self) -> Option<LoginView> {
        match self.provider {
            Some(kind) => if self.missing() is None {
                Some(self.login(kind))
            } else {
                None
            },
            None => None,
        }
    }

    /// The form after it was sent: it says what is missing, or is busy.
    pub open spec fn sent(self) -> DraftView {
        DraftView {
            error: self.missing(),
            busy: self.busy || self.missing() is None,
            ..self
        }
    }

    /// The form after a field was changed by `msg`.
    pub open spec fn edited(self, msg: Msg) -> DraftView {
        match msg {
            Msg::NameChanged(s) => DraftView { name: s@, ..self },
            Msg::ProviderChanged(p) => DraftView { provider: Some(p), ..self },
            Msg::UrlChanged(s) => DraftView { url: s@, ..self },
            Msg::UserChanged(s) => DraftView { user: s@, ..self },
            Msg::PassChanged(s) => DraftView { pass: s@, ..self },
            Msg::TotpChanged(s) => DraftView { totp: s@, ..self },
            Msg::ClientIdChanged(s) => DraftView { client_id: s@, ..self },
            Msg::ClientSecretChanged(s) => DraftView { client_secret: s@, ..self },
            Msg::Cancel | Msg::Submit => self,
        }
    }
}

impl Draft {
    /// Sends the form: gives the login that it asks for, or says in the form
    /// what is missing.
    pub fn submit(&mut self) -> (r: Option<Login>)
        ensures
            final(self)@ == old(self)@.sent(),
            match r {
                Some(login) => old(self)@.request() == Some(login@),
                None => old(self)@.request() is None,
            },
    {
        let kind = match self.provider {
            Some(kind) => kind,
            None => {
                self.error = Some("Pick a provider first.".to_owned());
                return None;
            },
        };
        if is_blank(self.name.as_str()) {
            self.error = Some("Name is required.".to_owned());
            return None;
        }
        let name = self.name.clone();
        self.error = None;
        if let Some(vendor) = kind.webdav_vendor() {
            if is_blank(self.url.as_str()) || is_blank(self.user.as_str()) {
                self.error = Some("URL and username are required.".to_owned());
                return None;
            }
            self.busy = true;
            return Some(
                Login::AddWebDav {
                    name,
                    url: self.url.clone(),
                    user: self.user.clone(),
                    pass: self.pass.clone(),
                    vendor,
                },
            );
        }
        if kind.is_proton_drive() {
            if is_blank(self.user.as_str()) {
                self.error = Some("Username is required.".to_owned());
                return None;
            }
            self.busy = true;
            let user = self.user.clone();
            let pass = self.pass.clone();
            let totp = self.totp.clone();
            return Some(
                if self.reauth {
                    Login::ReauthProton { name, user, pass, totp }
                } else {
                    Login::AddProton { name, user, pass, totp }
                },
            );
        }
        match kind.oauth_provider() {
            Some(provider) => {
                self.busy = true;
                let client_id = fill(self.client_id.as_str());
                let client_secret = fill(self.client_secret.as_str());
                Some(
                    if self.reauth {
                        Login::ReauthOAuth { name, provider, client_id, client_secret }
                    } else {
                        Login::AddOAuth { name, provider, client_id, client_secret }
                    },
                )
            },
            None => None,
        }
    }

    /// Changes a field.
    pub fn edit(&mut self, msg: Msg)
        ensures
            final(self)@ == old(self)@.edited(msg),
    {
        match msg {
            Msg::NameChanged(s) => {
                self.name = s;
            },
            Msg::ProviderChanged(p) => {
                self.provider = Some(p);
            },
            Msg::UrlChanged(s) => {
                self.url = s;
            },
            Msg::UserChanged(s) => {
                self.user = s;
            },
            Msg::PassChanged(s) => {
                self.pass = s;
            },
            Msg::TotpChanged(s) => {
                self.totp = s;
            },
            Msg::ClientIdChanged(s) => {
                self.client_id = s;
            },
            Msg::ClientSecretChanged(s) => {
                self.client_secret = s;
            },
            Msg::Cancel | Msg::Submit => {},
        }
    }
}

/// A form says what is missing exactly when it asks for nothing, and is busy
/// once it asks for something.
pub proof fn law_form_is_sent_whole(draft: DraftView)
    ensures
        draft.request() is None <==> draft.sent().error is Some,
        draft.request() is Some ==> draft.sent().busy,
{
}

/// A form for a remote that is there already never asks for a second Proton or
/// browser login beside it, and a form for a new one never replaces a login.
pub proof fn law_reauth_adds_no_login(draft: DraftView)
    ensures
        draft.reauth ==> !(draft.request() matches Some(LoginView::AddProton { .. })) && !(
        draft.request() matches Some(LoginView::AddOAuth { .. })),
        !draft.reauth ==> !(draft.request() matches Some(LoginView::ReauthProton { .. })) && !(
        draft.request() matches Some(LoginView::ReauthOAuth { .. })),
{
}

/// Whatever login a form asks for carries the fields of the form. An identifier
/// or a secret of a browser login is what stands in its field without the white
/// space around it, and is left out where the field is blank.
pub proof fn law_login_carries_the_form(draft: DraftView)
    ensures
        match draft.request() {
            Some(LoginView::AddWebDav { name, url, user, pass, .. }) => name == draft.name && url
                == draft.url && user == draft.user && pass == draft.pass,
            Some(LoginView::AddProton { name, user, pass, totp }) => name == draft.name && user
                == draft.user && pass == draft.pass && totp == draft.totp,
            Some(LoginView::ReauthProton { name, user, pass, totp }) => name == draft.name && user
                == draft.user && pass == draft.pass && totp == draft.totp,
            Some(LoginView::AddOAuth { name, client_id, client_secret, .. }) => name == draft.name
                && (client_id is None <==> all_blank(draft.client_id)) && (client_secret is None
                <==> all_blank(draft.client_secret)) && (client_id matches Some(id) ==> id
                == trimmed(draft.client_id, blank())) && (client_secret matches Some(secret)
                ==> secret == trimmed(draft.client_secret, blank())),
            Some(LoginView::ReauthOAuth { name, client_id, client_secret, .. }) => name
                == draft.name && (client_id is None <==> all_blank(draft.client_id)) && (
            client_secret is None <==> all_blank(draft.client_secret)) && (client_id matches Some(
                id,
            ) ==> id == trimmed(draft.client_id, blank())) && (client_secret matches Some(secret)
                ==> secret == trimmed(draft.client_secret, blank())),
            None => true,
        },
{
}

/// The login is one at the service that was picked.
pub proof fn law_login_is_at_the_service(draft: DraftView)
    ensures
        draft.request() matches Some(login) ==> (match draft.provider {
            Some(ProviderKind::ProtonDrive) => if draft.reauth {
                login is ReauthProton
            } else {
                login is AddProton
            },
            Some(ProviderKind::GDrive) => login_provider(login) == Some(OAuthProvider::GDrive) && (
            login is ReauthOAuth <==> draft.reauth),
            Some(ProviderKind::Dropbox) => login_provider(login) == Some(OAuthProvider::Dropbox)
                && (login is ReauthOAuth <==> draft.reauth),
            Some(ProviderKind::PCloud) => login_provider(login) == Some(OAuthProvider::PCloud) && (
            login is ReauthOAuth <==> draft.reauth),
            Some(ProviderKind::WebDav) => login matches LoginView::AddWebDav { vendor, .. }
                && vendor == WebDavVendor::Other,
            Some(ProviderKind::Nextcloud) => login matches LoginView::AddWebDav { vendor, .. }
                && vendor == WebDavVendor::Nextcloud,
            Some(ProviderKind::Owncloud) => login matches LoginView::AddWebDav { vendor, .. }
                && vendor == WebDavVendor::Owncloud,
            None => false,
        }),
{
}

/// The service of a login in the browser.
pub open spec fn login_provider(login: LoginView) -> Option<OAuthProvider> {
    match login {
        LoginView::AddOAuth { provider, .. } => Some(provider),
        LoginView::ReauthOAuth { provider, .. } => Some(provider),
        _ => None,
    }
}

/// A new login and a login again of the same form differ in their kind alone.
pub proof fn law_logging_in_again_is_the_same_login(draft: DraftView)
    ensures
        match (
            DraftView { reauth: false, ..draft }.request(),
            DraftView { reauth: true, ..draft }.request(),
        ) {
            (
                Some(LoginView::AddProton { name, user, pass, totp }),
                Some(again),
            ) => again == (LoginView::ReauthProton { name, user, pass, totp }),
            (
                Some(LoginView::AddOAuth { name, provider, client_id, client_secret }),
                Some(again),
            ) => again == (LoginView::ReauthOAuth { name, provider, client_id, client_secret }),
            (Some(once), Some(again)) => once is AddWebDav && again == once,
            (None, None) => true,
            _ => false,
        },
{
}

/// A form asks for a login exactly where a service is picked and everything
/// that this service needs is filled in: the name for each, the address and the
/// user for WebDAV, and the user for Proton.
pub proof fn law_form_is_complete(draft: DraftView)
    ensures
        draft.request() is Some <==> (match draft.provider {
            None => false,
            Some(ProviderKind::GDrive) | Some(ProviderKind::Dropbox) | Some(
                ProviderKind::PCloud,
            ) => !all_blank(draft.name),
            Some(ProviderKind::ProtonDrive) => !all_blank(draft.name) && !all_blank(draft.user),
            Some(ProviderKind::WebDav) | Some(ProviderKind::Nextcloud) | Some(
                ProviderKind::Owncloud,
            ) => !all_blank(draft.name) && !all_blank(draft.url) && !all_blank(draft.user),
        }),
{
}

/// A form that cannot be sent says why, and names the first thing that is
/// missing; sending it changes nothing else of it.
pub proof fn law_form_says_what_is_missing(draft: DraftView)
    ensures
        draft.provider is None ==> draft.sent().error == Some("Pick a provider first."@),
        draft.provider is Some && all_blank(draft.name) ==> draft.sent().error == Some(
            "Name is required."@,
        ),
        draft.provider == Some(ProviderKind::ProtonDrive) && !all_blank(draft.name) && all_blank(
            draft.user,
        ) ==> draft.sent().error == Some("Username is required."@),
        (draft.provider == Some(ProviderKind::WebDav) || draft.provider == Some(
            ProviderKind::Nextcloud,
        ) || draft.provider == Some(ProviderKind::Owncloud)) && !all_blank(draft.name) && (
        all_blank(draft.url) || all_blank(draft.user)) ==> draft.sent().error == Some(
            "URL and username are required."@,
        ),
        draft.request() is Some ==> draft.sent().error is None && draft.sent().busy,
        draft.request() is None ==> draft.sent().busy == draft.busy,
        draft.sent() == (DraftView {
            error: draft.sent().error,
            busy: draft.sent().busy,
            ..draft
        }),
{
}

/// An edit is read back from the field that it is about, and no other field
/// changes.
pub proof fn law_edit_changes_one_field(draft: DraftView, s: String, p: ProviderKind)
    ensures
        draft.edited(Msg::NameChanged(s)) == (DraftView { name: s@, ..draft }),
        draft.edited(Msg::ProviderChanged(p)) == (DraftView { provider: Some(p), ..draft }),
        draft.edited(Msg::UrlChanged(s)) == (DraftView { url: s@, ..draft }),
        draft.edited(Msg::UserChanged(s)) == (DraftView { user: s@, ..draft }),
        draft.edited(Msg::PassChanged(s)) == (DraftView { pass: s@, ..draft }),
        draft.edited(Msg::TotpChanged(s)) == (DraftView { totp: s@, ..draft }),
        draft.edited(Msg::ClientIdChanged(s)) == (DraftView { client_id: s@, ..draft }),
        draft.edited(Msg::ClientSecretChanged(s)) == (DraftView { client_secret: s@, ..draft }),
        draft.edited(Msg::Cancel) == draft,
        draft.edited(Msg::Submit) == draft,
{
}

/// Nothing stands in an empty form, and it asks for nothing.
pub proof fn law_empty_form_asks_for_nothing(msg: Msg)
    ensures
        empty_form().request() is None,
        msg is NameChanged || msg is UserChanged || msg is PassChanged ==> empty_form().edited(
            msg,
        ).request() is None,
        empty_form().name.len() == 0 && empty_form().url.len() == 0 && empty_form().user.len() == 0
            && empty_form().pass.len() == 0 && empty_form().totp.len() == 0
            && empty_form().client_id.len() == 0 && empty_form().client_secret.len() == 0
            && empty_form().error is None && !empty_form().busy && !empty_form().reauth
            && empty_form().provider is None,
{
}

/// Of a form and of a login everything is told.
pub proof fn law_form_and_login_are_told_whole(
    draft: Draft,
    vendor: WebDavVendor,
    provider: OAuthProvider,
    id: Option<String>,
    secret: Option<String>,
)
    ensures
        draft@.name == draft.name@ && draft@.provider == draft.provider && draft@.url == draft.url@,
        draft@.user == draft.user@ && draft@.pass == draft.pass@ && draft@.totp == draft.totp@,
        draft@.client_id == draft.client_id@ && draft@.client_secret == draft.client_secret@,
        draft@.busy == draft.busy && draft@.reauth == draft.reauth,
        draft.error is None <==> draft@.error is None,
        draft.error matches Some(e) ==> draft@.error == Some(e@),
        ({
            let (name, user, pass, totp) = (draft.name, draft.user, draft.pass, draft.totp);
            let url = draft.url;
            &&& (Login::AddWebDav { name, url, user, pass, vendor })@ == (LoginView::AddWebDav {
                name: name@,
                url: url@,
                user: user@,
                pass: pass@,
                vendor,
            })
            &&& (Login::AddProton { name, user, pass, totp })@ == (LoginView::AddProton {
                name: name@,
                user: user@,
                pass: pass@,
                totp: totp@,
            })
            &&& (Login::ReauthProton { name, user, pass, totp })@ == (LoginView::ReauthProton {
                name: name@,
                user: user@,
                pass: pass@,
                totp: totp@,
            })
            &&& (Login::AddOAuth { name, provider, client_id: id, client_secret: secret })@ == (
            LoginView::AddOAuth {
                name: name@,
                provider,
                client_id: id.deep_view(),
                client_secret: secret.deep_view(),
            })
            &&& (Login::ReauthOAuth { name, provider, client_id: id, client_secret: secret })@ == (
            LoginView::ReauthOAuth {
                name: name@,
                provider,
                client_id: id.deep_view(),
                client_secret: secret.deep_view(),
            })
        }),
{
}

} // verus!
