//! What the authentication of a request guarantees as a whole, over the
//! decisions of `session::begin` and `session::step`.
use vstd::prelude::*;
use crate::encoding::base64_standard_decode;
use crate::session::{
    expects, is_logout_path, lemma_split_nonempty, spec_begin, spec_logout_payload,
    spec_payload_segment, spec_step, split_on, ActionModel, AuthError, AuthUser, ClaimsModel,
    EventModel, StageModel,
};

verus! {

/// The answer an action gives, if it is an answer.
pub open spec fn answer(action: ActionModel) -> Result<AuthUser, AuthError> {
    match action {
        ActionModel::Respond(r) => r,
        _ => Err(AuthError::Session),
    }
}

/// The answer to a request whose session holds `token`, sent to `path`,
/// when the token verifier gives `verified`, parsing a text as claims gives
/// `parse(text)`, and the device store holds `stored(user)` for each user.
pub open spec fn run_auth(
    token: Option<Seq<char>>,
    path: Seq<char>,
    verified: Result<ClaimsModel, Seq<char>>,
    parse: spec_fn(Seq<char>) -> Option<ClaimsModel>,
    stored: spec_fn(i32) -> Option<Seq<char>>,
) -> Result<AuthUser, AuthError> {
    let (s1, a1) = spec_begin(token, path);
    match a1 {
        ActionModel::VerifyToken(_) => {
            let (s2, a2) = spec_step(s1, EventModel::TokenVerified(verified));
            match a2 {
                ActionModel::ParsePayloadClaims(text) => answer(
                    spec_step(s2, EventModel::PayloadClaims(parse(text))).1,
                ),
                ActionModel::LookupDevice(user) => answer(
                    spec_step(s2, EventModel::StoredDevice(stored(user))).1,
                ),
                _ => answer(a2),
            }
        },
        _ => answer(a1),
    }
}

/// Whether a session token is made of exactly three `.`-separated parts.
pub open spec fn well_shaped(token: Option<Seq<char>>) -> bool {
    match token {
        Some(t) => spec_payload_segment(t) is Some,
        None => false,
    }
}

/// The user whose stored device is checked after verification gave `verified`.
pub open spec fn checked_user(verified: Result<ClaimsModel, Seq<char>>) -> i32 {
    match verified {
        Ok(c) => c.id,
        Err(_) => -1i32,
    }
}

/// The device expected in the store after verification gave `verified`.
pub open spec fn checked_device(verified: Result<ClaimsModel, Seq<char>>) -> Seq<char> {
    match verified {
        Ok(c) => c.device,
        Err(m) => m,
    }
}

/// A missing token, or one not made of exactly three parts, is refused with
/// a session error, whatever the verifier and the store would say.
pub proof fn law_malformed_token_refused(
    token: Option<Seq<char>>,
    path: Seq<char>,
    verified: Result<ClaimsModel, Seq<char>>,
    parse: spec_fn(Seq<char>) -> Option<ClaimsModel>,
    stored: spec_fn(i32) -> Option<Seq<char>>,
)
    requires
        !well_shaped(token),
    ensures
        run_auth(token, path, verified, parse, stored) == Err::<AuthUser, AuthError>(
            AuthError::Session,
        ),
{
}

/// A well-shaped token that verifies is accepted, on any path, exactly when
/// the device stored for its user equals the device it names, and then as
/// that user.
pub proof fn law_verified_token_needs_stored_device(
    token: Option<Seq<char>>,
    path: Seq<char>,
    claims: ClaimsModel,
    parse: spec_fn(Seq<char>) -> Option<ClaimsModel>,
    stored: spec_fn(i32) -> Option<Seq<char>>,
)
    requires
        well_shaped(token),
    ensures
        run_auth(token, path, Ok(claims), parse, stored) == (if stored(claims.id) == Some(
            claims.device,
        ) {
            Ok::<AuthUser, AuthError>(AuthUser(claims.id))
        } else {
            Err(AuthError::Session)
        }),
{
}

/// Away from the logout path, a request is accepted only as the user whose
/// stored device was checked, and only when that device is the expected one:
/// the token's device, or for a token that failed verification, user -1 and
/// the verifier's message.
pub proof fn law_acceptance_requires_device_match(
    token: Option<Seq<char>>,
    path: Seq<char>,
    verified: Result<ClaimsModel, Seq<char>>,
    parse: spec_fn(Seq<char>) -> Option<ClaimsModel>,
    stored: spec_fn(i32) -> Option<Seq<char>>,
    user: AuthUser,
)
    requires
        !is_logout_path(path),
        run_auth(token, path, verified, parse, stored) == Ok::<AuthUser, AuthError>(user),
    ensures
        well_shaped(token),
        user.0 == checked_user(verified),
        stored(user.0) == Some(checked_device(verified)),
{
}

/// On the logout path, a well-shaped token that fails verification is still
/// accepted, as the user its unverified payload names, or as user -1 where
/// the payload does not read as claims; the store is not consulted.
pub proof fn law_logout_reads_unverified_payload(
    token: Seq<char>,
    path: Seq<char>,
    message: Seq<char>,
    parse: spec_fn(Seq<char>) -> Option<ClaimsModel>,
    stored: spec_fn(i32) -> Option<Seq<char>>,
)
    requires
        is_logout_path(path),
        spec_payload_segment(token) is Some,
    ensures
        run_auth(Some(token), path, Err(message), parse, stored) == Ok::<AuthUser, AuthError>(
            AuthUser(
                match parse(spec_logout_payload(spec_payload_segment(token).unwrap())) {
                    Some(c) => c.id,
                    None => -1i32,
                },
            ),
        ),
{
}

/// Every request is answered after at most three steps: a stage that waits
/// on parsed claims or on the stored device answers on the next event.
pub proof fn law_answered_within_three_steps(stage: StageModel, event: EventModel)
    requires
        expects(stage, event),
        stage is AwaitPayloadClaims || stage is AwaitDevice,
    ensures
        spec_step(stage, event).0 is Finished,
        spec_step(stage, event).1 is Respond,
{
}

/// The pieces joined back together with `sep` between them.
pub open spec fn join_with(pieces: Seq<Seq<char>>, sep: char) -> Seq<char>
    decreases pieces.len(),
{
    if pieces.len() == 0 {
        Seq::empty()
    } else if pieces.len() == 1 {
        pieces[0]
    } else {
        join_with(pieces.drop_last(), sep) + seq![sep] + pieces.last()
    }
}

/// Splitting a text at `sep` loses nothing and cuts at every `sep`: joining
/// the pieces with `sep` gives the text back, and no piece holds `sep`.
pub proof fn law_split_rejoins(s: Seq<char>, sep: char)
    ensures
        join_with(split_on(s, sep), sep) == s,
        forall|i: int, j: int|
            0 <= i < split_on(s, sep).len() && 0 <= j < split_on(s, sep)[i].len() ==> (
            #[trigger] split_on(s, sep)[i][j]) != sep,
    decreases s.len(),
{
    if s.len() > 0 {
        let prev = s.drop_last();
        law_split_rejoins(prev, sep);
        lemma_split_nonempty(prev, sep);
        let pieces = split_on(prev, sep);
        let n = pieces.len();
        if s.last() == sep {
            let next = pieces.push(Seq::<char>::empty());
            assert(next.drop_last() =~= pieces);
            assert(join_with(next, sep) =~= s);
        } else {
            let next = pieces.update(n - 1, pieces.last().push(s.last()));
            if n == 1 {
                assert(join_with(next, sep) =~= s);
            } else {
                assert(next.drop_last() =~= pieces.drop_last());
                let head = join_with(pieces.drop_last(), sep) + seq![sep];
                assert(join_with(pieces, sep) == head + pieces.last());
                assert(join_with(next, sep) == head + pieces.last().push(s.last()));
                assert(s =~= prev.push(s.last()));
                assert(join_with(next, sep) =~= s);
            }
            assert forall|i: int, j: int|
                0 <= i < next.len() && 0 <= j < next[i].len() implies #[trigger] next[i][j]
                != sep by {
                if i == n - 1 && j == pieces.last().len() {
                } else {
                    assert(next[i][j] == pieces[i][j]);
                }
            }
        }
    }
}

/// A token of any length made of exactly three `.`-separated parts goes on
/// to verification of that very token, with its second part kept as the
/// payload segment and the logout path recognised.
pub proof fn law_three_part_token_goes_to_verification(token: Seq<char>, path: Seq<char>)
    requires
        split_on(token, '.').len() == 3,
    ensures
        spec_begin(Some(token), path) == (
        StageModel::AwaitVerification {
            logout: path == "/user/logout"@,
            payload_segment: split_on(token, '.')[1],
        },
        ActionModel::VerifyToken(token),
        ),
{
}

/// On the logout path an unverified payload segment of any length is read
/// as the UTF-8 text of its base64 decoding, and as the empty text where the
/// decoding fails or is not UTF-8.
pub proof fn law_logout_payload_is_decoded_text(segment: Seq<char>)
    ensures
        base64_standard_decode(segment) is Some && vstd::utf8::valid_utf8(
            base64_standard_decode(segment).unwrap(),
        ) ==> spec_logout_payload(segment) == vstd::utf8::decode_utf8(
            base64_standard_decode(segment).unwrap(),
        ),
        !(base64_standard_decode(segment) is Some && vstd::utf8::valid_utf8(
            base64_standard_decode(segment).unwrap(),
        )) ==> spec_logout_payload(segment) == Seq::<char>::empty(),
{
}

} // verus!
