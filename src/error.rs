use vstd::prelude::*;

verus! {

/// The kinds of authentication or authorization failure that a query may meet.
#[derive(Debug, Clone, Copy, PartialEq, Eq, Structural)]
pub enum AuthErrorKind {
    /// The identity presented was not accepted.
    BadCredentials,
    /// An access or refresh token is missing.
    MissingToken,
    /// The access token presented has expired.
    TokenExpired,
    /// A refresh token could not be exchanged for new tokens.
    BadRefresh,
    /// The authentication request or its configuration is malformed.
    BadRequest,
    /// The identity lacks the permissions the request needs.
    AccessDenied,
}

/// The HTTP status that stands for each kind of authentication failure.
pub open spec fn status_of(k: AuthErrorKind) -> u16 {
    match k {
        AuthErrorKind::AccessDenied => 403,
        AuthErrorKind::BadRequest => 400,
        _ => 401,
    }
}

impl AuthErrorKind {
    /// The HTTP status code that corresponds to this kind of failure.
    pub fn status_code(&self) -> (r: u16)
        ensures
            r == status_of(*self),
    {
        match self {
            AuthErrorKind::AccessDenied => 403,
            AuthErrorKind::BadRequest => 400,
            _ => 401,
        }
    }
}

/// The kinds of error that the library reports.
#[derive(Debug, Clone, Copy, PartialEq, Eq, Structural)]
pub enum Kind {
    /// The client configuration is invalid.
    ClientCreateError,
    /// Authentication failed, for the reason given.
    AuthenticationError(AuthErrorKind),
    /// A successful query matched no virtual machine.
    NoneFoundError,
    /// Sending a request or reading its response failed, with the HTTP status if one came back.
    RequestError(Option<u16>),
    /// Any other failure.
    Other,
}

/// An error of the library: its kind and a message for people.
#[derive(Debug, Clone)]
pub struct Error {
    pub kind: Kind,
    pub message: String,
}

/// Shorthand for a result whose error is the library's own.
pub type VMInfoResult<T> = Result<T, Error>;

impl Error {
    /// Builds an error of the given kind with the given message.
    pub fn new(kind: Kind, message: &str) -> (r: Error)
        ensures
            r.kind == kind,
            r.message@ == message@,
    {
        Error { kind, message: message.to_owned() }
    }

    /// The kind of this error.
    pub fn kind(&self) -> (r: Kind)
        ensures
            r == self.kind,
    {
        self.kind
    }

    /// Whether this error is the authentication failure `k`.
    pub open spec fn is_auth(&self, k: AuthErrorKind) -> bool {
        self.kind == Kind::AuthenticationError(k)
    }
}

/// An authentication error of kind `kind`.
pub fn auth(kind: AuthErrorKind, message: &str) -> (r: Error)
    ensures
        r.kind == Kind::AuthenticationError(kind),
        r.message@ == message@,
{
    Error::new(Kind::AuthenticationError(kind), message)
}

/// An error for an invalid client configuration.
pub fn client_config(message: &str) -> (r: Error)
    ensures
        r.kind == Kind::ClientCreateError,
        r.message@ == message@,
{
    Error::new(Kind::ClientCreateError, message)
}

/// An error for a query that matched no virtual machine.
pub fn none_found(message: &str) -> (r: Error)
    ensures
        r.kind == Kind::NoneFoundError,
        r.message@ == message@,
{
    Error::new(Kind::NoneFoundError, message)
}

/// An error for a failed request, with the HTTP status if one came back.
pub fn request(status: Option<u16>, message: &str) -> (r: Error)
    ensures
        r.kind == Kind::RequestError(status),
        r.message@ == message@,
{
    Error::new(Kind::RequestError(status), message)
}

/// An error that fits no other kind.
pub fn other(message: &str) -> (r: Error)
    ensures
        r.kind == Kind::Other,
        r.message@ == message@,
{
    Error::new(Kind::Other, message)
}

/// The decimal digits, in order.
pub const DIGITS: &'static str = "0123456789";

/// The decimal representation of `n`, without leading zeros.
pub open spec fn decimal(n: nat) -> Seq<char>
    decreases n,
{
    if n < 10 {
        seq![DIGITS@[n as int]]
    } else {
        decimal(n / 10) + seq![DIGITS@[(n % 10) as int]]
    }
}

/// Appends the decimal representation of `n` to `out`.
pub(crate) fn push_decimal(out: &mut String, n: u16)
    ensures
        final(out)@ == old(out)@ + decimal(n as nat),
    decreases n,
{
    proof {
        reveal_strlit("0123456789");
    }
    let d: usize = (n % 10) as usize;
    if n >= 10 {
        push_decimal(out, n / 10);
    }
    let ghost before = out@;
    out.append(DIGITS.substring_char(d, d + 1));
    proof {
        assert(DIGITS@.subrange(d as int, d as int + 1) =~= seq![DIGITS@[d as int]]);
        assert(out@ =~= before + seq![DIGITS@[d as int]]);
    }
}

/// How each kind of authentication failure reads.
pub open spec fn auth_text(k: AuthErrorKind) -> Seq<char> {
    match k {
        AuthErrorKind::BadCredentials => "Bad credentials provided"@,
        AuthErrorKind::MissingToken => "Access or refresh token missing"@,
        AuthErrorKind::TokenExpired => "Access token is expired"@,
        AuthErrorKind::BadRefresh => "Failed to refresh access"@,
        AuthErrorKind::BadRequest => "Bad authentication / authorization request"@,
        AuthErrorKind::AccessDenied => "Access denied"@,
    }
}

/// How each kind of error reads.
pub open spec fn kind_text(k: Kind) -> Seq<char> {
    match k {
        Kind::ClientCreateError => "client creation error"@,
        Kind::AuthenticationError(a) => "authentication error ("@ + auth_text(a) + ")"@,
        Kind::NoneFoundError => "no vm found error"@,
        Kind::RequestError(Some(status)) => "HTTP request error. "@ + decimal(status as nat),
        Kind::RequestError(None) => "HTTP request error. NO_STATUS"@,
        Kind::Other => "unknown error"@,
    }
}

impl AuthErrorKind {
    /// A sentence that describes this kind of failure.
    pub fn description(&self) -> (r: &'static str)
        ensures
            r@ == auth_text(*self),
    {
        match self {
            AuthErrorKind::BadCredentials => "Bad credentials provided",
            AuthErrorKind::MissingToken => "Access or refresh token missing",
            AuthErrorKind::TokenExpired => "Access token is expired",
            AuthErrorKind::BadRefresh => "Failed to refresh access",
            AuthErrorKind::BadRequest => "Bad authentication / authorization request",
            AuthErrorKind::AccessDenied => "Access denied",
        }
    }
}

impl Error {
    /// The error for people: what kind it is, a colon, and the message.
    pub fn describe(&self) -> (r: String)
        ensures
            r@ == kind_text(self.kind) + ": "@ + self.message@,
    {
        let mut r = String::new();
        match self.kind {
            Kind::ClientCreateError => r.append("client creation error"),
            Kind::AuthenticationError(a) => {
                r.append("authentication error (");
                r.append(a.description());
                r.append(")");
            },
            Kind::NoneFoundError => r.append("no vm found error"),
            Kind::RequestError(Some(status)) => {
                r.append("HTTP request error. ");
                push_decimal(&mut r, status);
            },
            Kind::RequestError(None) => r.append("HTTP request error. NO_STATUS"),
            Kind::Other => r.append("unknown error"),
        }
        r.append(": ");
        r.append(self.message.as_str());
        r
    }
}

} // verus!
