//! Session-token checks made before a request is accepted as coming from a
//! logged-in user.
use vstd::prelude::*;
use crate::encoding::{base64_decode, base64_standard_decode, utf8_text};

verus! {

/// The pieces of `s` between occurrences of `sep`, as `str::split` yields them
/// (an empty text gives one empty piece).
pub open spec fn split_on(s: Seq<char>, sep: char) -> Seq<Seq<char>>
    decreases s.len(),
{
    if s.len() == 0 {
        seq![Seq::<char>::empty()]
    } else {
        let pieces = split_on(s.drop_last(), sep);
        if s.last() == sep {
            pieces.push(Seq::<char>::empty())
        } else {
            pieces.update(pieces.len() - 1, pieces.last().push(s.last()))
        }
    }
}

/// Splitting always yields at least one piece.
pub proof fn lemma_split_nonempty(s: Seq<char>, sep: char)
    ensures
        split_on(s, sep).len() >= 1,
    decreases s.len(),
{
    if s.len() > 0 {
        lemma_split_nonempty(s.drop_last(), sep);
    }
}

/// The middle segment of a token made of exactly three `.`-separated parts.
pub open spec fn spec_payload_segment(token: Seq<char>) -> Option<Seq<char>> {
    let parts = split_on(token, '.');
    if parts.len() == 3 {
        Some(parts[1])
    } else {
        None
    }
}

/// Splits a JSON web token at its dots and hands back its middle (payload)
/// part, or `None` when the token is not made of exactly three parts.
pub fn payload_segment(token: &str) -> (res: Option<String>)
    ensures
        match res {
            Some(m) => spec_payload_segment(token@) == Some(m@),
            None => spec_payload_segment(token@) is None,
        },
        split_on(token@, '.').len() == 3 ==> (res is Some && res.unwrap()@ == split_on(
            token@,
            '.',
        )[1]),
        split_on(token@, '.').len() != 3 ==> (res is None),
{
    let n = token.unicode_len();
    let mut i: usize = 0;
    let mut dots: usize = 0;
    let mut first: usize = 0;
    let mut second: usize = 0;
    assert(token@.take(0) =~= Seq::<char>::empty());
    while i < n
        invariant
            n == token@.len(),
            i <= n,
            dots <= i,
            split_on(token@.take(i as int), '.').len() == dots + 1,
            dots >= 1 ==> first < i,
            dots >= 2 ==> first < second && second < i,
            dots == 1 ==> split_on(token@.take(i as int), '.')[1] == token@.subrange(
                first + 1,
                i as int,
            ),
            dots >= 2 ==> split_on(token@.take(i as int), '.')[1] == token@.subrange(
                first + 1,
                second as int,
            ),
        decreases n - i,
    {
        let c = token.get_char(i);
        let ghost prev = token@.take(i as int);
        let ghost next = token@.take(i + 1);
        assert(next.drop_last() =~= prev);
        assert(next.last() == c);
        proof {
            lemma_split_nonempty(prev, '.');
        }
        if c == '.' {
            if dots == 0 {
                first = i;
                assert(token@.subrange(first + 1, i + 1) =~= Seq::<char>::empty());
            } else if dots == 1 {
                second = i;
            }
            dots = dots + 1;
        } else {
            if dots == 1 {
                assert(token@.subrange(first + 1, i + 1) =~= token@.subrange(
                    first + 1,
                    i as int,
                ).push(c));
            }
        }
        i = i + 1;
    }
    assert(token@.take(n as int) =~= token@);
    if dots == 2 {
        Some(String::from_str(token.substring_char(first + 1, second)))
    } else {
        None
    }
}

/// The user a request was authenticated as.
#[derive(Debug, Clone, Copy, PartialEq, Eq, Structural)]
pub struct AuthUser(pub i32);

/// Why a request was refused.
#[derive(Debug, Clone, Copy, PartialEq, Eq, Structural)]
pub enum AuthError {
    /// The session is missing, malformed, or does not match the stored device.
    Session,
}

/// The claims a session token carries.
#[derive(Debug)]
pub struct TokenClaims {
    pub id: i32,
    pub device: String,
    pub iat: usize,
    pub exp: usize,
}

/// Mathematical model of `TokenClaims`.
pub struct ClaimsModel {
    pub id: i32,
    pub device: Seq<char>,
    pub iat: usize,
    pub exp: usize,
}

impl View for TokenClaims {
    type V = ClaimsModel;

    open spec fn view(&self) -> ClaimsModel {
        ClaimsModel { id: self.id, device: self.device@, iat: self.iat, exp: self.exp }
    }
}

/// The path on which a token that fails verification is still read.
pub open spec fn is_logout_path(path: Seq<char>) -> bool {
    path == "/user/logout"@
}

/// Tells whether `path` is the logout path.
pub fn is_logout(path: &str) -> (res: bool)
    ensures
        res == is_logout_path(path@),
        res == (path@ == "/user/logout"@),
{
    String::from_str(path) == String::from_str("/user/logout")
}

/// The text read from a payload segment once it has gone through base64:
/// its UTF-8 decoding, or the empty text when there are no bytes or they are
/// not UTF-8.
pub open spec fn spec_payload_text(decoded: Option<Seq<u8>>) -> Seq<char> {
    let bytes = match decoded {
        Some(b) => b,
        None => Seq::<u8>::empty(),
    };
    if vstd::utf8::valid_utf8(bytes) {
        vstd::utf8::decode_utf8(bytes)
    } else {
        Seq::<char>::empty()
    }
}

/// The unverified payload text of a token on the logout path.
pub open spec fn spec_logout_payload(segment: Seq<char>) -> Seq<char> {
    spec_payload_text(base64_standard_decode(segment))
}

/// Turns the result of base64-decoding a payload segment into text: the
/// UTF-8 text of the bytes, or the empty text.
pub fn payload_text(decoded: Option<Vec<u8>>) -> (res: String)
    ensures
        res@ == spec_payload_text(
            match decoded {
                Some(b) => Some(b@),
                None => None,
            },
        ),
        decoded is Some && vstd::utf8::valid_utf8(decoded.unwrap()@) ==> res@
            == vstd::utf8::decode_utf8(decoded.unwrap()@),
        !(decoded is Some && vstd::utf8::valid_utf8(decoded.unwrap()@)) ==> res@ == Seq::<
            char,
        >::empty(),
{
    let bytes = match decoded {
        Some(b) => b,
        None => Vec::new(),
    };
    match utf8_text(bytes) {
        Some(s) => s,
        None => String::new(),
    }
}

/// Reads the payload segment of a token without verifying it: base64, then
/// UTF-8, with the empty text wherever either fails.
pub fn logout_payload(segment: &str) -> (res: String)
    ensures
        res@ == spec_logout_payload(segment@),
        base64_standard_decode(segment@) is Some && vstd::utf8::valid_utf8(
            base64_standard_decode(segment@).unwrap(),
        ) ==> res@ == vstd::utf8::decode_utf8(base64_standard_decode(segment@).unwrap()),
        !(base64_standard_decode(segment@) is Some && vstd::utf8::valid_utf8(
            base64_standard_decode(segment@).unwrap(),
        )) ==> res@ == Seq::<char>::empty(),
{
    payload_text(base64_decode(segment))
}

/// Where the authentication of one request stands.
pub enum AuthStage {
    /// The token has three parts; its verification is awaited.
    AwaitVerification { logout: bool, payload_segment: String },
    /// The claims parsed from the unverified payload are awaited.
    AwaitPayloadClaims,
    /// The device stored for `user_id` is awaited; it must equal `device`.
    AwaitDevice { user_id: i32, device: String },
    /// The answer has been given.
    Finished,
}

/// What has to be done next for the request.
pub enum AuthAction {
    /// Verify this session token (HS256 with the server's key) and decode its claims.
    VerifyToken(String),
    /// Parse this text as JSON claims.
    ParsePayloadClaims(String),
    /// Read the device stored for this user.
    LookupDevice(i32),
    /// Answer the request.
    Respond(Result<AuthUser, AuthError>),
}

/// What came back from the work an action asked for.
pub enum AuthEvent {
    /// The verified claims, or the verifier's error message.
    TokenVerified(Result<TokenClaims, String>),
    /// The parsed claims, or `None` where the text is not such claims.
    PayloadClaims(Option<TokenClaims>),
    /// The stored device, or `None` where the store gave none.
    StoredDevice(Option<String>),
}

pub enum StageModel {
    AwaitVerification { logout: bool, payload_segment: Seq<char> },
    AwaitPayloadClaims,
    AwaitDevice { user_id: i32, device: Seq<char> },
    Finished,
}

pub enum ActionModel {
    VerifyToken(Seq<char>),
    ParsePayloadClaims(Seq<char>),
    LookupDevice(i32),
    Respond(Result<AuthUser, AuthError>),
}

pub enum EventModel {
    TokenVerified(Result<ClaimsModel, Seq<char>>),
    PayloadClaims(Option<ClaimsModel>),
    StoredDevice(Option<Seq<char>>),
}

impl View for AuthStage {
    type V = StageModel;

    open spec fn view(&self) -> StageModel {
        match self {
            AuthStage::AwaitVerification { logout, payload_segment } => StageModel::AwaitVerification {
                logout: *logout,
                payload_segment: payload_segment@,
            },
            AuthStage::AwaitPayloadClaims => StageModel::AwaitPayloadClaims,
            AuthStage::AwaitDevice { user_id, device } => StageModel::AwaitDevice {
                user_id: *user_id,
                device: device@,
            },
            AuthStage::Finished => StageModel::Finished,
        }
    }
}

impl View for AuthAction {
    type V = ActionModel;

    open spec fn view(&self) -> ActionModel {
        match self {
            AuthAction::VerifyToken(t) => ActionModel::VerifyToken(t@),
            AuthAction::ParsePayloadClaims(t) => ActionModel::ParsePayloadClaims(t@),
            AuthAction::LookupDevice(u) => ActionModel::LookupDevice(*u),
            AuthAction::Respond(r) => ActionModel::Respond(*r),
        }
    }
}

impl View for AuthEvent {
    type V = EventModel;

    open spec fn view(&self) -> EventModel {
        match self {
            AuthEvent::TokenVerified(r) => EventModel::TokenVerified(
                match r {
                    Ok(c) => Ok(c@),
                    Err(m) => Err(m@),
                },
            ),
            AuthEvent::PayloadClaims(p) => EventModel::PayloadClaims(
                match p {
                    Some(c) => Some(c@),
                    None => None,
                },
            ),
            AuthEvent::StoredDevice(d) => EventModel::StoredDevice(
                match d {
                    Some(s) => Some(s@),
                    None => None,
                },
            ),
        }
    }
}

/// The refusal of a request.
pub open spec fn refused() -> (StageModel, ActionModel) {
    (StageModel::Finished, ActionModel::Respond(Err(AuthError::Session)))
}

/// The first decision, from the session token (if the session holds one)
/// and the request path: a missing, empty or not three-part token is
/// refused; otherwise that token is to be verified.
pub open spec fn spec_begin(token: Option<Seq<char>>, path: Seq<char>) -> (StageModel, ActionModel) {
    match token {
        None => refused(),
        Some(t) => match spec_payload_segment(t) {
            None => refused(),
            Some(segment) => (
                StageModel::AwaitVerification {
                    logout: is_logout_path(path),
                    payload_segment: segment,
                },
                ActionModel::VerifyToken(t),
            ),
        },
    }
}

/// Whether `event` answers the action that led to `stage`.
pub open spec fn expects(stage: StageModel, event: EventModel) -> bool {
    match (stage, event) {
        (StageModel::AwaitVerification { .. }, EventModel::TokenVerified(_)) => true,
        (StageModel::AwaitPayloadClaims, EventModel::PayloadClaims(_)) => true,
        (StageModel::AwaitDevice { .. }, EventModel::StoredDevice(_)) => true,
        _ => false,
    }
}

/// Whether `action` is the one that `stage` waits on the answer of.
pub open spec fn action_fits(stage: StageModel, action: ActionModel) -> bool {
    match (stage, action) {
        (StageModel::AwaitVerification { .. }, ActionModel::VerifyToken(_)) => true,
        (StageModel::AwaitPayloadClaims, ActionModel::ParsePayloadClaims(_)) => true,
        (StageModel::AwaitDevice { user_id, .. }, ActionModel::LookupDevice(u)) => user_id == u,
        (StageModel::Finished, ActionModel::Respond(_)) => true,
        _ => false,
    }
}

/// The next decision. A verified token goes to the device check for its
/// user and device. A token that fails verification is read unverified on
/// the logout path; elsewhere it goes to the device check for user -1 with
/// the error message as the device. Unverified claims give their user, or
/// -1 where they do not parse. The device check accepts exactly when the
/// stored device equals the expected one.
pub open spec fn spec_step(stage: StageModel, event: EventModel) -> (StageModel, ActionModel) {
    match (stage, event) {
        (
            StageModel::AwaitVerification { logout, payload_segment },
            EventModel::TokenVerified(verified),
        ) => match verified {
            Ok(c) => (
                StageModel::AwaitDevice { user_id: c.id, device: c.device },
                ActionModel::LookupDevice(c.id),
            ),
            Err(message) => if logout {
                (
                    StageModel::AwaitPayloadClaims,
                    ActionModel::ParsePayloadClaims(spec_logout_payload(payload_segment)),
                )
            } else {
                (
                    StageModel::AwaitDevice { user_id: -1i32, device: message },
                    ActionModel::LookupDevice(-1i32),
                )
            },
        },
        (StageModel::AwaitPayloadClaims, EventModel::PayloadClaims(parsed)) => (
            StageModel::Finished,
            ActionModel::Respond(
                Ok(
                    AuthUser(
                        match parsed {
                            Some(c) => c.id,
                            None => -1i32,
                        },
                    ),
                ),
            ),
        ),
        (StageModel::AwaitDevice { user_id, device }, EventModel::StoredDevice(stored)) => {
            if stored == Some(device) {
                (StageModel::Finished, ActionModel::Respond(Ok(AuthUser(user_id))))
            } else {
                refused()
            }
        },
        _ => refused(),
    }
}

/// Starts the authentication of a request from the token its session holds
/// (`None` where the session has none or cannot be read) and its path.
pub fn begin(token: Option<String>, path: &str) -> (res: (AuthStage, AuthAction))
    ensures
        (res.0@, res.1@) == spec_begin(
            match token {
                Some(t) => Some(t@),
                None => None,
            },
            path@,
        ),
        action_fits(res.0@, res.1@),
        token is None ==> res.1@ == ActionModel::Respond(Err(AuthError::Session)),
        token is Some && split_on(token.unwrap()@, '.').len() != 3 ==> res.1@
            == ActionModel::Respond(Err(AuthError::Session)),
        token is Some && split_on(token.unwrap()@, '.').len() == 3 ==> res.1@
            == ActionModel::VerifyToken(token.unwrap()@) && res.0@ == (
        StageModel::AwaitVerification {
            logout: path@ == "/user/logout"@,
            payload_segment: split_on(token.unwrap()@, '.')[1],
        }),
{
    match token {
        None => (AuthStage::Finished, AuthAction::Respond(Err(AuthError::Session))),
        Some(t) => match payload_segment(t.as_str()) {
            None => (AuthStage::Finished, AuthAction::Respond(Err(AuthError::Session))),
            Some(segment) => (
                AuthStage::AwaitVerification { logout: is_logout(path), payload_segment: segment },
                AuthAction::VerifyToken(t),
            ),
        },
    }
}

/// Takes the answer to the last action and decides the next one.
pub fn step(stage: AuthStage, event: AuthEvent) -> (res: (AuthStage, AuthAction))
    requires
        expects(stage@, event@),
    ensures
        (res.0@, res.1@) == spec_step(stage@, event@),
        action_fits(res.0@, res.1@),
{
    match stage {
        AuthStage::AwaitVerification { logout, payload_segment } => match event {
            AuthEvent::TokenVerified(verified) => match verified {
                Ok(c) => {
                    let user_id = c.id;
                    (AuthStage::AwaitDevice { user_id, device: c.device }, AuthAction::LookupDevice(user_id))
                },
                Err(message) => {
                    if logout {
                        (
                            AuthStage::AwaitPayloadClaims,
                            AuthAction::ParsePayloadClaims(logout_payload(payload_segment.as_str())),
                        )
                    } else {
                        (AuthStage::AwaitDevice { user_id: -1, device: message }, AuthAction::LookupDevice(-1))
                    }
                },
            },
            _ => {
                proof {
                    assert(false);
                }
                (AuthStage::Finished, AuthAction::Respond(Err(AuthError::Session)))
            },
        },
        AuthStage::AwaitPayloadClaims => match event {
            AuthEvent::PayloadClaims(parsed) => {
                let user_id = match parsed {
                    Some(c) => c.id,
                    None => -1,
                };
                (AuthStage::Finished, AuthAction::Respond(Ok(AuthUser(user_id))))
            },
            _ => {
                proof {
                    assert(false);
                }
                (AuthStage::Finished, AuthAction::Respond(Err(AuthError::Session)))
            },
        },
        AuthStage::AwaitDevice { user_id, device } => match event {
            AuthEvent::StoredDevice(stored) => match stored {
                Some(d) => {
                    if d == device {
                        (AuthStage::Finished, AuthAction::Respond(Ok(AuthUser(user_id))))
                    } else {
                        (AuthStage::Finished, AuthAction::Respond(Err(AuthError::Session)))
                    }
                },
                None => (AuthStage::Finished, AuthAction::Respond(Err(AuthError::Session))),
            },
            _ => {
                proof {
                    assert(false);
                }
                (AuthStage::Finished, AuthAction::Respond(Err(AuthError::Session)))
            },
        },
        AuthStage::Finished => {
            proof {
                assert(false);
            }
            (AuthStage::Finished, AuthAction::Respond(Err(AuthError::Session)))
        },
    }
}

} // verus!
