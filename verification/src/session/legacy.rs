use vstd::prelude::*;
use vstd::slice::slice_subrange;
use vstd::utf8::encode_utf8;
use super::codec::{
    aes256_cbc_pkcs7, base64_encode, base64_standard, derive_key, encrypt, padded_len,
    pbkdf2_hmac_sha1, percent_encoded, url_encode,
};
use super::document::{document_of, Document, DocumentView};
use super::error::{Error, ErrorView};
use crate::text::{chars_of, contains, has, lowercase, to_lowercase};

verus! {

/// The salt from which the portal derives the key of a password.
pub const SALT: [u8; 19] = [
    0x77, 0x23, 0x24, 0x69, 0x66, 0x69, 0x31, 0x32, 0x34, 0x29, 0x39, 0x6D, 0x65, 0x6F, 0x39,
    0x38, 0x57, 0x49, 0x46,
];

/// The initialisation vector with which the portal has passwords encrypted.
pub const IV: [u8; 16] = [
    0x72, 0xc4, 0x72, 0x1a, 0xe0, 0x1a, 0xe0, 0xe8, 0xe8, 0x4b, 0xd6, 0x4a, 0xd6, 0x60, 0x60,
    0xc4,
];

/// The rounds of the key derivation.
pub const ROUNDS: u32 = 100;

/// The bytes that an encrypted password may take.
pub const ROOM: usize = 48;

/// The seconds after which a request to the portal is given up.
pub const TIMEOUT: u64 = 2;

/// Whether the character is an ASCII letter or digit.
pub open spec fn is_alphanumeric(c: char) -> bool {
    is_letter(c) || ('0' <= c && c <= '9')
}

/// Whether the character is an ASCII letter.
pub open spec fn is_letter(c: char) -> bool {
    ('a' <= c && c <= 'z') || ('A' <= c && c <= 'Z')
}

/// Whether the character may stand before the `@` of an email address.
pub open spec fn is_local(c: char) -> bool {
    is_alphanumeric(c) || c == '.' || c == '_' || c == '%' || c == '+' || c == '-'
}

/// Whether the character may stand in the domain of an email address.
pub open spec fn is_domain(c: char) -> bool {
    is_alphanumeric(c) || c == '.' || c == '-'
}

/// Whether the text is an email address with its `@` at index `at` and its last dot at
/// index `dot`: one or more local characters, the `@`, one or more domain characters,
/// the dot, and two or more letters.
pub open spec fn is_email_at(text: Seq<char>, at: int, dot: int) -> bool {
    &&& 0 < at && at + 1 < dot && dot + 2 < text.len()
    &&& text[at] == '@'
    &&& text[dot] == '.'
    &&& forall|i: int| 0 <= i < at ==> is_local(#[trigger] text[i])
    &&& forall|i: int| at < i < dot ==> is_domain(#[trigger] text[i])
    &&& forall|i: int| dot < i < text.len() ==> is_letter(#[trigger] text[i])
}

/// Whether the text is an email address.
pub open spec fn is_email(text: Seq<char>) -> bool {
    exists|at: int, dot: int| is_email_at(text, at, dot)
}

/// Whether some character of the text lies between `low` and `high`.
pub open spec fn has_between(text: Seq<char>, low: char, high: char) -> bool {
    exists|i: int| 0 <= i < text.len() && low <= #[trigger] text[i] && text[i] <= high
}

/// Whether the text is a password that the portal accepts: eight bytes or more in
/// UTF-8, with a lowercase letter, an uppercase letter and a digit of ASCII among its
/// characters.
pub open spec fn is_password(text: Seq<char>) -> bool {
    &&& encode_utf8(text).len() >= 8
    &&& has_between(text, 'a', 'z')
    &&& has_between(text, 'A', 'Z')
    &&& has_between(text, '0', '9')
}

fn letter(c: char) -> (yes: bool)
    ensures
        yes == is_letter(c),
{
    ('a' <= c && c <= 'z') || ('A' <= c && c <= 'Z')
}

fn alphanumeric(c: char) -> (yes: bool)
    ensures
        yes == is_alphanumeric(c),
{
    letter(c) || ('0' <= c && c <= '9')
}

fn local(c: char) -> (yes: bool)
    ensures
        yes == is_local(c),
{
    alphanumeric(c) || c == '.' || c == '_' || c == '%' || c == '+' || c == '-'
}

fn domain(c: char) -> (yes: bool)
    ensures
        yes == is_domain(c),
{
    alphanumeric(c) || c == '.' || c == '-'
}

/// Whether the text is an email address.
pub fn email(text: &str) -> (yes: bool)
    ensures
        yes == is_email(text@),
{
    let chars = chars_of(text);
    let n = chars.len();
    let mut at: usize = 0;
    while at < n && local(chars[at])
        invariant
            at <= n,
            n == chars.len(),
            forall|i: int| 0 <= i < at ==> is_local(#[trigger] chars@[i]),
        decreases n - at,
    {
        at += 1;
    }
    if at == 0 || at == n || chars[at] != '@' {
        assert forall|a: int, d: int| !is_email_at(chars@, a, d) by {
            if is_email_at(chars@, a, d) {
                assert(!is_local(chars@[a]));
                if a < at {
                    assert(is_local(chars@[a]));
                } else if a > at {
                    assert(is_local(chars@[at as int]));
                }
            }
        }
        return false;
    }
    let mut end: usize = n;
    while end > 0 && letter(chars[end - 1])
        invariant
            end <= n,
            n == chars.len(),
            forall|i: int| end <= i < n ==> is_letter(#[trigger] chars@[i]),
        decreases end,
    {
        end -= 1;
    }
    assert(end > at) by {
        if end <= at {
            assert(is_letter(chars@[at as int]));
        }
    }
    let dot = end - 1;
    let mut fine = chars[dot] == '.' && n - end >= 2 && at + 1 < dot;
    let mut i: usize = at + 1;
    while fine && i < dot
        invariant
            at < i,
            dot < n,
            n == chars.len(),
            fine ==> i <= dot && chars@[dot as int] == '.' && n - dot - 1 >= 2 && at + 1 < dot,
            fine ==> forall|k: int| at < k < i ==> is_domain(#[trigger] chars@[k]),
            !fine ==> !(chars@[dot as int] == '.' && n - dot - 1 >= 2 && at + 1 < dot && forall|
                k: int,
            |
                at < k < dot ==> is_domain(#[trigger] chars@[k])),
        decreases dot - i + if fine { 1int } else { 0int },
    {
        if domain(chars[i]) {
            i += 1;
        } else {
            fine = false;
        }
    }
    if fine {
        assert(is_email_at(chars@, at as int, dot as int));
    } else {
        assert forall|a: int, d: int| !is_email_at(chars@, a, d) by {
            if is_email_at(chars@, a, d) {
                assert(!is_local(chars@[a]));
                if a < at {
                    assert(is_local(chars@[a]));
                } else if a > at {
                    assert(is_local(chars@[at as int]));
                }
                assert(!is_letter(chars@[d]));
                if d < dot {
                    assert(is_letter(chars@[dot as int]));
                } else if d > dot {
                    assert(is_letter(chars@[d]));
                }
            }
        }
    }
    fine
}

/// Whether some character lies between `low` and `high`.
fn any_between(chars: &Vec<char>, low: char, high: char) -> (yes: bool)
    ensures
        yes == has_between(chars@, low, high),
{
    let mut i: usize = 0;
    while i < chars.len()
        invariant
            i <= chars.len(),
            forall|k: int| 0 <= k < i ==> !(low <= #[trigger] chars@[k] && chars@[k] <= high),
        decreases chars.len() - i,
    {
        if low <= chars[i] && chars[i] <= high {
            return true;
        }
        i += 1;
    }
    false
}

/// Whether the text is a password that the portal accepts.
pub fn password(text: &str) -> (yes: bool)
    ensures
        yes == is_password(text@),
{
    let chars = chars_of(text);
    text.as_bytes().len() >= 8 && any_between(&chars, 'a', 'z') && any_between(&chars, 'A', 'Z')
        && any_between(&chars, '0', '9')
}

/// The portal's address for asking whether the session is logged in.
pub const STATE_URL: &'static str =
    "https://servicoswifi.apps.meo.pt/HotspotConnection.svc/GetState?mobile=false";

/// The portal's address for logging out.
pub const LOGOFF_URL: &'static str =
    "https://servicoswifi.apps.meo.pt/HotspotConnection.svc/Logoff?callback=";

/// The `User-Agent` header of a request to the portal.
pub const USER_AGENT: &'static str = "Mozilla/5.0 (X11; Linux x86_64)";

/// The `Content-Type` header of a request to the portal.
pub const CONTENT_TYPE: &'static str = "application/x-www-form-urlencoded";

/// The password as the portal wants it, for a device with the local address `ip`: the
/// UTF-8 bytes of the password, encrypted under a key derived from the address and
/// written in base64. There is none for a password whose padded bytes take more than
/// [`ROOM`].
pub open spec fn encrypted_password(password: Seq<char>, ip: Seq<char>) -> Option<Seq<char>> {
    let message = encode_utf8(password);
    if padded_len(message.len()) <= ROOM {
        Some(
            base64_standard(
                aes256_cbc_pkcs7(pbkdf2_hmac_sha1(encode_utf8(ip), SALT@, ROUNDS), IV@, message),
            ),
        )
    } else {
        None
    }
}

/// The portal's address for logging in with a user name and an encrypted password.
pub open spec fn login_address(username: Seq<char>, encrypted: Seq<char>) -> Seq<char> {
    "https://servicoswifi.apps.meo.pt/HotspotConnection.svc/Login?username="@
        + percent_encoded(username) + "&password="@ + percent_encoded(encrypted)
        + "&navigatorLang=en&callback="@
}

/// The failure that the portal's explanation of a refused login stands for. The
/// explanation is read in lowercase; one that names none of the known reasons is handed
/// on as it is, in lowercase.
pub open spec fn login_failure(explanation: Option<Seq<char>>) -> ErrorView {
    match explanation {
        None => ErrorView::Custom("Unknown error occurred"@),
        Some(text) => {
            let lower = lowercase(text);
            if has(lower, "out of reach"@) {
                ErrorView::NetworkUnreachable
            } else if has(lower, "invalid credentials"@) {
                ErrorView::CredentialsMismatch
            } else if has(lower, "frammedip"@) {
                ErrorView::InvalidIp
            } else if has(lower, "already logged"@) {
                ErrorView::AlreadyLoggedIn
            } else {
                ErrorView::Custom(lower)
            }
        },
    }
}

/// How a login ended, going by the portal's reply: it succeeded where the member
/// `result` is `true`; else the member `error` explains.
pub open spec fn login_outcome(document: DocumentView) -> Result<(), ErrorView> {
    if document.booleans.get("result"@) == Some(true) {
        Ok(())
    } else {
        Err(login_failure(document.strings.get("error"@)))
    }
}

/// How a login ended, going by the text of the portal's reply. A reply that is not
/// JSON is a failure of its own.
pub open spec fn login_result(reply: Seq<char>) -> Result<(), ErrorView> {
    match document_of(reply) {
        Ok(document) => login_outcome(document),
        Err(reason) => Err(ErrorView::Custom("Failed to read JSON: "@ + reason)),
    }
}

/// Whether the session is logged in, going by the text of the portal's reply: it is
/// where the reply is JSON and its member `LoggedOn` is `true`.
pub open spec fn logged_on(reply: Seq<char>) -> bool {
    document_of(reply) matches Ok(document) && document.booleans.get("LoggedOn"@) == Some(true)
}

/// How a logout ended, going by the text of the portal's reply: it succeeded where
/// `true` stands in the reply.
pub open spec fn logout_result(reply: Seq<char>) -> Result<(), ErrorView> {
    if has(reply, "true"@) {
        Ok(())
    } else {
        Err(ErrorView::Custom("failed to logout"@))
    }
}

/// The result of checking credentials: the user name is looked at first.
pub open spec fn credentials_checked(username: Seq<char>, password: Seq<char>) -> Result<
    (),
    ErrorView,
> {
    if !is_email(username) {
        Err(ErrorView::InvalidEmail)
    } else if !is_password(password) {
        Err(ErrorView::InvalidPassword)
    } else {
        Ok(())
    }
}

/// The client of the portal's login service as far as it can be reasoned about: which
/// credentials it takes, which address a login goes to, and how the portal's replies
/// read. Sending the requests is up to the host.
#[derive(Debug)]
pub struct Legacy {
    username: String,
    password: String,
}

/// The mathematical value of a [`Legacy`].
pub struct LegacyView {
    pub username: Seq<char>,
    pub password: Seq<char>,
}

impl View for Legacy {
    type V = LegacyView;

    closed spec fn view(&self) -> LegacyView {
        LegacyView { username: self.username@, password: self.password@ }
    }
}

impl Clone for Legacy {
    fn clone(&self) -> (copy: Self)
        ensures
            copy@ == self@,
    {
        Legacy { username: self.username.clone(), password: self.password.clone() }
    }
}

impl Legacy {
    /// Checks that the user name is an email address and that the password is one that
    /// the portal accepts.
    pub fn validate_credentials(username: &str, password: &str) -> (checked: Result<(), Error>)
        ensures
            match checked {
                Ok(()) => credentials_checked(username@, password@) == Ok::<(), ErrorView>(()),
                Err(e) => credentials_checked(username@, password@) == Err::<(), _>(e@),
            },
    {
        if !email(username) {
            return Err(Error::InvalidEmail);
        }
        if !self::password(password) {
            return Err(Error::InvalidPassword);
        }
        Ok(())
    }

    /// A client for these credentials, if they pass the check.
    pub fn new(username: &str, password: &str) -> (client: Result<Self, Error>)
        ensures
            match client {
                Ok(c) => credentials_checked(username@, password@) == Ok::<(), ErrorView>(())
                    && c@ == (LegacyView { username: username@, password: password@ }),
                Err(e) => credentials_checked(username@, password@) == Err::<(), _>(e@),
            },
    {
        match Self::validate_credentials(username, password) {
            Ok(()) => Ok(Legacy { username: username.to_owned(), password: password.to_owned() }),
            Err(e) => Err(e),
        }
    }

    /// The password as the portal wants it, for a device with the local address `ip`.
    pub fn encrypt_password(&self, ip: &str) -> (encrypted: Option<String>)
        ensures
            encrypted.is_some() == encrypted_password(self@.password, ip@).is_some(),
            encrypted matches Some(text) ==> encrypted_password(self@.password, ip@) == Some(
                text@,
            ),
    {
        let key = derive_key(ip.as_bytes(), SALT.as_slice(), ROUNDS);
        let mut buffer = [0u8; ROOM];
        match encrypt(&key, &IV, self.password.as_str().as_bytes(), &mut buffer) {
            Some(written) => Some(base64_encode(slice_subrange(buffer.as_slice(), 0, written))),
            None => None,
        }
    }

    /// The address that a login goes to, for a device with the local address `ip`; none
    /// where the password cannot be encrypted.
    pub fn login_url(&self, ip: &str) -> (url: Option<String>)
        ensures
            url.is_some() == encrypted_password(self@.password, ip@).is_some(),
            url matches Some(address) ==> address@ == login_address(
                self@.username,
                encrypted_password(self@.password, ip@)->0,
            ),
    {
        match self.encrypt_password(ip) {
            Some(encrypted) => {
                let mut url =
                    "https://servicoswifi.apps.meo.pt/HotspotConnection.svc/Login?username=".to_owned();
                url.append(url_encode(self.username.as_str()).as_str());
                url.append("&password=");
                url.append(url_encode(encrypted.as_str()).as_str());
                url.append("&navigatorLang=en&callback=");
                Some(url)
            },
            None => None,
        }
    }

    /// The failure that the portal's explanation of a refused login stands for.
    pub fn login_failure(explanation: Option<String>) -> (failure: Error)
        ensures
            failure@ == login_failure(
                match explanation {
                    Some(text) => Some(text@),
                    None => None,
                },
            ),
    {
        match explanation {
            None => Error::Custom("Unknown error occurred".to_owned()),
            Some(text) => {
                let lower = to_lowercase(text.as_str());
                let chars = chars_of(lower.as_str());
                if contains(&chars, &chars_of("out of reach")) {
                    Error::NetworkUnreachable
                } else if contains(&chars, &chars_of("invalid credentials")) {
                    Error::CredentialsMismatch
                } else if contains(&chars, &chars_of("frammedip")) {
                    Error::InvalidIp
                } else if contains(&chars, &chars_of("already logged")) {
                    Error::AlreadyLoggedIn
                } else {
                    Error::Custom(lower)
                }
            },
        }
    }

    /// How a login ended, going by the portal's reply.
    pub fn login_outcome(document: &Document) -> (outcome: Result<(), Error>)
        ensures
            match outcome {
                Ok(()) => login_outcome(document@) == Ok::<(), ErrorView>(()),
                Err(e) => login_outcome(document@) == Err::<(), _>(e@),
            },
    {
        match document.boolean("result") {
            Some(true) => Ok(()),
            _ => Err(Self::login_failure(document.string("error"))),
        }
    }

    /// How a login ended, going by the text of the portal's reply.
    pub fn login(&self, reply: &str) -> (outcome: Result<(), Error>)
        ensures
            match outcome {
                Ok(()) => login_result(reply@) == Ok::<(), ErrorView>(()),
                Err(e) => login_result(reply@) == Err::<(), _>(e@),
            },
    {
        match Document::parse(reply) {
            Ok(document) => Self::login_outcome(&document),
            Err(reason) => {
                let mut message = "Failed to read JSON: ".to_owned();
                message.append(reason.as_str());
                Err(Error::Custom(message))
            },
        }
    }

    /// Whether the session is logged in, going by the text of the portal's reply.
    pub fn is_logged(&self, reply: &str) -> (logged: bool)
        ensures
            logged == logged_on(reply@),
    {
        match Document::parse(reply) {
            Ok(document) => match document.boolean("LoggedOn") {
                Some(true) => true,
                _ => false,
            },
            Err(_) => false,
        }
    }

    /// How a logout ended, going by the text of the portal's reply.
    pub fn logout(&self, reply: &str) -> (outcome: Result<(), Error>)
        ensures
            match outcome {
                Ok(()) => logout_result(reply@) == Ok::<(), ErrorView>(()),
                Err(e) => logout_result(reply@) == Err::<(), _>(e@),
            },
    {
        if contains(&chars_of(reply), &chars_of("true")) {
            Ok(())
        } else {
            Err(Error::Custom("failed to logout".to_owned()))
        }
    }
}

} // verus!
