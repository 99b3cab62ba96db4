//! The records that the pending-operation stores hold, and their views.

use vstd::prelude::*;

verus! {

/// The textual form of an optional string.
pub open spec fn text_of(o: Option<String>) -> Option<Seq<char>> {
    match o {
        Some(s) => Some(s@),
        None => None,
    }
}

/// The network endpoint of a client, in its textual form (`ip:port`).
#[derive(Clone, Debug, PartialEq)]
pub struct ClientSocket {
    pub addr: String,
}

impl View for ClientSocket {
    type V = Seq<char>;

    open spec fn view(&self) -> Seq<char> {
        self.addr@
    }
}

impl ClientSocket {
    pub fn new(addr: String) -> (r: Self)
        ensures
            r@ == addr@,
    {
        ClientSocket { addr }
    }

    pub fn as_str(&self) -> (r: &str)
        ensures
            r@ == self@,
    {
        self.addr.as_str()
    }

    pub fn duplicate(&self) -> (r: Self)
        ensures
            r@ == self@,
    {
        ClientSocket { addr: self.addr.clone() }
    }
}

/// Who vouched for the identity of an account.
#[derive(Clone, Copy, Debug, PartialEq, Eq, Structural)]
pub enum OAuthProvider {
    NoProvider,
    Google,
}

/// What has to be purged when a connection goes away.
#[derive(Clone, Debug, PartialEq)]
pub enum DropType {
    Registrant(String),
}

pub enum DropTypeView {
    Registrant(Seq<char>),
}

impl View for DropType {
    type V = DropTypeView;

    open spec fn view(&self) -> DropTypeView {
        match self {
            DropType::Registrant(email) => DropTypeView::Registrant(email@),
        }
    }
}

/// How far a pending registration or email change has come.
#[derive(PartialEq, Debug, Clone)]
pub enum RegistrantStatus {
    Created(String),
    EmailVerified,
    PasswordSet,
    OpenIDConnected,
    UpdatingEmail { old_email: String, otp: String },
}

pub enum RegistrantStatusView {
    Created(Seq<char>),
    EmailVerified,
    PasswordSet,
    OpenIDConnected,
    UpdatingEmail { old_email: Seq<char>, otp: Seq<char> },
}

impl View for RegistrantStatus {
    type V = RegistrantStatusView;

    open spec fn view(&self) -> RegistrantStatusView {
        match self {
            RegistrantStatus::Created(otp) => RegistrantStatusView::Created(otp@),
            RegistrantStatus::EmailVerified => RegistrantStatusView::EmailVerified,
            RegistrantStatus::PasswordSet => RegistrantStatusView::PasswordSet,
            RegistrantStatus::OpenIDConnected => RegistrantStatusView::OpenIDConnected,
            RegistrantStatus::UpdatingEmail { old_email, otp } => RegistrantStatusView::UpdatingEmail {
                old_email: old_email@,
                otp: otp@,
            },
        }
    }
}

impl RegistrantStatus {
    pub fn duplicate(&self) -> (r: Self)
        ensures
            r@ == self@,
    {
        match self {
            RegistrantStatus::Created(otp) => RegistrantStatus::Created(otp.clone()),
            RegistrantStatus::EmailVerified => RegistrantStatus::EmailVerified,
            RegistrantStatus::PasswordSet => RegistrantStatus::PasswordSet,
            RegistrantStatus::OpenIDConnected => RegistrantStatus::OpenIDConnected,
            RegistrantStatus::UpdatingEmail { old_email, otp } => RegistrantStatus::UpdatingEmail {
                old_email: old_email.clone(),
                otp: otp.clone(),
            },
        }
    }
}

/// A registration, or an email change, that has not been committed yet.
#[derive(Clone, Debug, PartialEq)]
pub struct RegistrantEntry {
    pub socket_addr: ClientSocket,
    pub display_name: Option<String>,
    pub password: Option<String>,
    pub icon: Option<String>,
    pub phone: Option<String>,
    pub oauth_provider: OAuthProvider,
    pub status: RegistrantStatus,
}

pub struct RegistrantEntryView {
    pub socket_addr: Seq<char>,
    pub display_name: Option<Seq<char>>,
    pub password: Option<Seq<char>>,
    pub icon: Option<Seq<char>>,
    pub phone: Option<Seq<char>>,
    pub oauth_provider: OAuthProvider,
    pub status: RegistrantStatusView,
}

impl View for RegistrantEntry {
    type V = RegistrantEntryView;

    open spec fn view(&self) -> RegistrantEntryView {
        RegistrantEntryView {
            socket_addr: self.socket_addr@,
            display_name: text_of(self.display_name),
            password: text_of(self.password),
            icon: text_of(self.icon),
            phone: text_of(self.phone),
            oauth_provider: self.oauth_provider,
            status: self.status@,
        }
    }
}

/// An OpenID Connect authorization attempt that waits for its callback.
#[derive(Clone, Debug, PartialEq)]
pub struct OidcInfo {
    pub socket_addr: ClientSocket,
    pub code_verifier: String,
    pub nonce: String,
    pub provider: OAuthProvider,
}

pub struct OidcInfoView {
    pub socket_addr: Seq<char>,
    pub code_verifier: Seq<char>,
    pub nonce: Seq<char>,
    pub provider: OAuthProvider,
}

impl View for OidcInfo {
    type V = OidcInfoView;

    open spec fn view(&self) -> OidcInfoView {
        OidcInfoView {
            socket_addr: self.socket_addr@,
            code_verifier: self.code_verifier@,
            nonce: self.nonce@,
            provider: self.provider,
        }
    }
}

/// One value of a store. Every store keeps a single kind of record; the other
/// kinds never enter it.
#[derive(Clone, Debug, PartialEq)]
pub enum Record {
    /// Socket index: what the endpoint created.
    Socket(DropType),
    /// Registrant ledger: the pending registration of an email.
    Registrant(RegistrantEntry),
    /// OIDC store: the attempt that a CSRF state belongs to.
    Oidc(OidcInfo),
    /// Recovery store: the email of a code, or the code of an email.
    Recovery(String),
}

pub enum RecordView {
    Socket(DropTypeView),
    Registrant(RegistrantEntryView),
    Oidc(OidcInfoView),
    Recovery(Seq<char>),
}

impl View for Record {
    type V = RecordView;

    open spec fn view(&self) -> RecordView {
        match self {
            Record::Socket(d) => RecordView::Socket(d@),
            Record::Registrant(e) => RecordView::Registrant(e@),
            Record::Oidc(i) => RecordView::Oidc(i@),
            Record::Recovery(s) => RecordView::Recovery(s@),
        }
    }
}

/// The registration in what the ledger handed out for an email: the record
/// itself where it is a registration, nothing where the ledger handed out
/// nothing or a record of another kind.
pub fn registrant_in(handed_out: Option<Record>) -> (found: Option<RegistrantEntry>)
    ensures
        found == match handed_out {
            Some(Record::Registrant(entry)) => Some(entry),
            _ => None::<RegistrantEntry>,
        },
{
    match handed_out {
        Some(Record::Registrant(entry)) => Some(entry),
        _ => None,
    }
}

/// The authorization attempt in what the store handed out for a CSRF state:
/// the record itself where it is an attempt, nothing otherwise.
pub fn attempt_in(handed_out: Option<Record>) -> (found: Option<OidcInfo>)
    ensures
        found == match handed_out {
            Some(Record::Oidc(info)) => Some(info),
            _ => None::<OidcInfo>,
        },
{
    match handed_out {
        Some(Record::Oidc(info)) => Some(info),
        _ => None,
    }
}

/// The email or the code in what the recovery store handed out for a key:
/// the text of the record where it is a recovery record, nothing otherwise.
pub fn recovery_in(handed_out: Option<Record>) -> (found: Option<String>)
    ensures
        found == match handed_out {
            Some(Record::Recovery(other)) => Some(other),
            _ => None::<String>,
        },
{
    match handed_out {
        Some(Record::Recovery(other)) => Some(other),
        _ => None,
    }
}

/// What an endpoint created, in what the socket index handed out for it:
/// the record itself where it is an index entry, nothing otherwise.
pub fn socket_in(handed_out: Option<Record>) -> (found: Option<DropType>)
    ensures
        found == match handed_out {
            Some(Record::Socket(kind)) => Some(kind),
            _ => None::<DropType>,
        },
{
    match handed_out {
        Some(Record::Socket(kind)) => Some(kind),
        _ => None,
    }
}

} // verus!
