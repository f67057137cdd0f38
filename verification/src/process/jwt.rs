//! JWT issuing and verification: the expiry parsing and timestamp arithmetic
//! are verified; the token encoding and decoding rely on the jsonwebtoken
//! backend with a fixed HS256 secret.

use vstd::prelude::*;
use vstd::string::StrSliceExecFns;

verus! {

/// Errors of the JWT commands.
#[derive(Debug, Clone, Copy, PartialEq, Eq, Structural)]
pub enum JwtError {
    /// The expiry is not of the form `<digits>d`.
    InvalidExpiry,
    /// The expiry does not fit the timestamp arithmetic.
    ExpiryOverflow,
    /// The signing backend failed to issue the token.
    SignFailure,
    /// The token named an unexpected issuer.
    InvalidIssuer,
    /// The token was rejected for another structural reason.
    Other,
}

/// How the decoding backend classified a rejected token.
#[derive(Debug, Clone, Copy, PartialEq, Eq, Structural)]
pub enum JwtRejection {
    InvalidToken,
    InvalidIssuer,
    Other,
}

/// The token that HS256 signing produces for an audience, a subject, an
/// expiry timestamp and a secret: a deterministic function of those values.
pub uninterp spec fn jwt_hs256_token(
    aud: Seq<char>,
    sub: Seq<char>,
    exp: int,
    key: Seq<char>,
) -> Seq<char>;

/// Relies on jsonwebtoken::encode with the default HS256 header over the
/// claims `{aud, sub, exp}`: a deterministic token of those values and the
/// secret.
#[verifier::external_body]
fn jwt_encode_hs256(aud: &str, sub: &str, exp: u64, key: &str) -> (r: Result<String, JwtError>)
    ensures
        r matches Ok(t) ==> t@ == jwt_hs256_token(aud@, sub@, exp as int, key@),
        r matches Err(e) ==> e == JwtError::SignFailure,
{
    let mut claims = serde_json::Map::new();
    claims.insert("aud".to_string(), serde_json::Value::from(aud));
    claims.insert("sub".to_string(), serde_json::Value::from(sub));
    claims.insert("exp".to_string(), serde_json::Value::from(exp));
    jsonwebtoken::encode(
        &jsonwebtoken::Header::default(),
        &serde_json::Value::Object(claims),
        &jsonwebtoken::EncodingKey::from_secret(key.as_bytes()),
    ).map_err(|_| JwtError::SignFailure)
}

/// Relies on jsonwebtoken::decode with HS256 validation against the expected
/// audience. The verdict depends on the clock, so nothing is promised of it;
/// rejections carry the backend's classification, one variant each.
#[verifier::external_body]
fn jwt_decode_hs256(token: &str, aud: &str, key: &str) -> Result<(), JwtRejection> {
    let mut validation = jsonwebtoken::Validation::new(jsonwebtoken::Algorithm::HS256);
    validation.set_audience(&[aud]);
    let outcome = jsonwebtoken::decode::<serde_json::Value>(
        token,
        &jsonwebtoken::DecodingKey::from_secret(key.as_bytes()),
        &validation,
    );
    match outcome {
        Ok(_) => Ok(()),
        Err(e) => match e.kind() {
            jsonwebtoken::errors::ErrorKind::InvalidToken => Err(JwtRejection::InvalidToken),
            jsonwebtoken::errors::ErrorKind::InvalidIssuer => Err(JwtRejection::InvalidIssuer),
            _ => Err(JwtRejection::Other),
        },
    }
}

/// Relies on chrono::Utc::now: the current Unix timestamp in seconds. The
/// value depends on the clock, so nothing is promised of it.
#[verifier::external_body]
fn now_timestamp() -> i64 {
    chrono::Utc::now().timestamp()
}

/// The shared HS256 secret of the JWT commands.
fn jwt_secret() -> (r: &'static str)
    ensures
        r@ == "your-256-bit-secret"@,
{
    "your-256-bit-secret"
}

/// A decimal digit.
pub open spec fn is_digit_char(c: char) -> bool {
    '0' <= c && c <= '9'
}

/// An optional leading sign, as integer parsing accepts it.
pub open spec fn is_sign_char(c: char) -> bool {
    c == '+' || c == '-'
}

/// A non-empty run of decimal digits.
pub open spec fn digit_run(s: Seq<char>) -> bool {
    s.len() > 0 && forall|i: int| 0 <= i < s.len() ==> is_digit_char(#[trigger] s[i])
}

/// Value of a sequence of decimal digits, most significant first.
pub open spec fn digits_value(s: Seq<char>) -> int
    decreases s.len(),
{
    if s.len() == 0 {
        0
    } else {
        digits_value(s.drop_last()) * 10 + (s.last() as int - '0' as int)
    }
}

/// A well-formed expiry: an optionally signed run of digits, then the
/// letter `d`.
pub open spec fn valid_exp_spec(s: Seq<char>) -> bool {
    &&& s.len() >= 2
    &&& s.last() == 'd'
    &&& (digit_run(s.drop_last()) || (is_sign_char(s[0]) && digit_run(s.drop_last().drop_first())))
}

/// The signed day count named by a well-formed expiry.
pub open spec fn exp_days(s: Seq<char>) -> int {
    let body = s.drop_last();
    if body.len() > 0 && body[0] == '-' {
        -digits_value(body.drop_first())
    } else if body.len() > 0 && body[0] == '+' {
        digits_value(body.drop_first())
    } else {
        digits_value(body)
    }
}

proof fn lemma_digits_value_nonneg(s: Seq<char>)
    requires
        forall|i: int| 0 <= i < s.len() ==> is_digit_char(#[trigger] s[i]),
    ensures
        digits_value(s) >= 0,
    decreases s.len(),
{
    if s.len() > 0 {
        assert(forall|i: int|
            0 <= i < s.drop_last().len() ==> is_digit_char(#[trigger] s.drop_last()[i]));
        lemma_digits_value_nonneg(s.drop_last());
    }
}

/// The value of a digit sequence is at least the value of any of its
/// prefixes.
proof fn lemma_digits_value_prefix_le(s: Seq<char>, i: int)
    requires
        forall|j: int| 0 <= j < s.len() ==> is_digit_char(#[trigger] s[j]),
        0 <= i <= s.len(),
    ensures
        digits_value(s.subrange(0, i)) <= digits_value(s),
    decreases s.len() - i,
{
    if i == s.len() {
        assert(s.subrange(0, i) =~= s);
    } else {
        lemma_digits_value_prefix_le(s, i + 1);
        let shorter = s.subrange(0, i);
        let longer = s.subrange(0, i + 1);
        assert(longer.drop_last() =~= shorter);
        assert(forall|j: int| 0 <= j < shorter.len() ==> is_digit_char(#[trigger] shorter[j]));
        lemma_digits_value_nonneg(shorter);
        assert(digits_value(longer) == digits_value(shorter) * 10 + (longer.last() as int
            - '0' as int));
        assert(digits_value(shorter) * 10 >= digits_value(shorter));
    }
}

/// Parse an expiry of the form `<number>d` into a signed number of days; the
/// number may carry a leading `+` or `-`, as integer parsing accepts it.
/// Succeeds exactly on well-formed expiries whose value fits the day counter.
pub fn parse_exp_days(exp: &str) -> (r: Result<i64, JwtError>)
    ensures
        r is Ok <==> valid_exp_spec(exp@) && i64::MIN <= exp_days(exp@) <= i64::MAX,
        r matches Ok(d) ==> d == exp_days(exp@),
        r matches Err(e) ==> e == JwtError::InvalidExpiry || e == JwtError::ExpiryOverflow,
        r matches Err(e) ==> (e == JwtError::ExpiryOverflow <==> valid_exp_spec(exp@)),
{
    let len = exp.unicode_len();
    if len < 2 {
        return Err(JwtError::InvalidExpiry);
    }
    if exp.get_char(len - 1) != 'd' {
        return Err(JwtError::InvalidExpiry);
    }
    let digits = len - 1;
    let first_code: u32 = exp.get_char(0) as u32;
    let negative = first_code == 45;
    let signed = negative || first_code == 43;
    let start: usize = if signed {
        1
    } else {
        0
    };
    if digits <= start {
        // a sign alone, with no digits after it
        proof {
            assert(exp@.drop_last().len() == 1);
            assert(!is_digit_char(exp@[0]));
            assert(exp@.drop_last().drop_first().len() == 0);
        }
        return Err(JwtError::InvalidExpiry);
    }
    let ghost body = exp@.drop_last();
    let ghost run = if signed {
        body.drop_first()
    } else {
        body
    };
    proof {
        assert(body =~= exp@.subrange(0, digits as int));
        assert(run =~= exp@.subrange(start as int, digits as int));
    }
    // The magnitude bound: one more for a negative value, whose lowest
    // representable magnitude exceeds the highest positive one by one.
    let limit: i128 = if negative {
        (i64::MAX as i128) + 1
    } else {
        i64::MAX as i128
    };
    let mut i: usize = start;
    let mut acc: i128 = 0;
    while i < digits
        invariant
            start <= i <= digits,
            digits == exp@.len() - 1,
            exp@.last() == 'd',
            start == (if signed {
                1int
            } else {
                0int
            }),
            signed ==> is_sign_char(exp@[0]),
            !signed ==> !is_sign_char(exp@[0]),
            negative ==> exp@[0] == '-',
            signed && !negative ==> exp@[0] == '+',
            body == exp@.subrange(0, digits as int),
            run == exp@.subrange(start as int, digits as int),
            limit == (if negative {
                i64::MAX as int + 1
            } else {
                i64::MAX as int
            }),
            forall|j: int| start <= j < i ==> is_digit_char(#[trigger] exp@[j]),
            0 <= acc <= limit,
            acc == digits_value(exp@.subrange(start as int, i as int)),
        decreases digits - i,
    {
        let c = exp.get_char(i);
        let code: u32 = c as u32;
        if code < 48 || code > 57 {
            proof {
                assert(!is_digit_char(exp@[i as int]));
                assert(run[i as int - start as int] == exp@[i as int]);
                assert(!digit_run(run));
                assert(body[i as int] == exp@[i as int]);
                assert(!digit_run(body));
                assert(!valid_exp_spec(exp@)) by {
                    assert(!digit_run(exp@.drop_last()));
                    if signed {
                        assert(exp@.drop_last().drop_first() == run);
                        assert(!digit_run(exp@.drop_last().drop_first()));
                    } else {
                        assert(!is_sign_char(exp@[0]));
                    }
                }
            }
            return Err(JwtError::InvalidExpiry);
        }
        let digit: i128 = (code - 48) as i128;
        proof {
            assert(is_digit_char(exp@[i as int]));
            assert(exp@.subrange(start as int, i as int + 1).drop_last() =~= exp@.subrange(
                start as int,
                i as int,
            ));
        }
        if acc > (limit - digit) / 10 {
            if digits_check(exp, i, digits) {
                proof {
                    let upto = exp@.subrange(start as int, i as int + 1);
                    assert(digits_value(upto) > limit);
                    assert(forall|j: int| 0 <= j < run.len() ==> is_digit_char(#[trigger] run[j]));
                    lemma_digits_value_prefix_le(run, i as int + 1 - start);
                    assert(run.subrange(0, i as int + 1 - start) =~= upto);
                    assert(digits_value(run) > limit);
                    assert(body.drop_first() =~= exp@.subrange(1, digits as int));
                }
                return Err(JwtError::ExpiryOverflow);
            } else {
                proof {
                    let j = choose|j: int| i <= j < digits && !is_digit_char(#[trigger] exp@[j]);
                    assert(run[j - start as int] == exp@[j]);
                    assert(!digit_run(run));
                    assert(body[j] == exp@[j]);
                    assert(!digit_run(body));
                    assert(!valid_exp_spec(exp@)) by {
                        assert(!digit_run(exp@.drop_last()));
                        if signed {
                            assert(exp@.drop_last().drop_first() == run);
                            assert(!digit_run(exp@.drop_last().drop_first()));
                        } else {
                            assert(!is_sign_char(exp@[0]));
                        }
                    }
                }
                return Err(JwtError::InvalidExpiry);
            }
        }
        acc = acc * 10 + digit;
        i = i + 1;
    }
    proof {
        assert(exp@.subrange(start as int, digits as int) =~= run);
        assert(body.drop_first() =~= exp@.subrange(1, digits as int));
    }
    if negative {
        if acc == (i64::MAX as i128) + 1 {
            Ok(i64::MIN)
        } else {
            Ok(-(acc as i64))
        }
    } else {
        Ok(acc as i64)
    }
}

/// Whether every character of `s` from `from` up to `to` is a digit.
fn digits_check(s: &str, from: usize, to: usize) -> (r: bool)
    requires
        from <= to <= s@.len(),
    ensures
        r == forall|j: int| from <= j < to ==> is_digit_char(#[trigger] s@[j]),
{
    let mut i: usize = from;
    while i < to
        invariant
            from <= i <= to <= s@.len(),
            forall|j: int| from <= j < i ==> is_digit_char(#[trigger] s@[j]),
        decreases to - i,
    {
        let c = s.get_char(i);
        let code: u32 = c as u32;
        if code < 48 || code > 57 {
            assert(!is_digit_char(s@[i as int]));
            return false;
        }
        proof {
            assert(is_digit_char(s@[i as int]));
        }
        i = i + 1;
    }
    true
}

/// Day counts whose span in seconds stays well inside the timestamp type;
/// beyond it the arithmetic (and the backing date library) cannot follow.
pub const MAX_EXPIRY_DAYS: i64 = 106751991167300;

/// Issue a token for a subject and audience, expiring `days` days after the
/// moment `now` (a negative count names a moment in the past): a verified
/// timestamp computation around the trusted encoding.
pub fn jwt_sign_at(sub: &str, aud: &str, days: i64, now: i64) -> (r: Result<String, JwtError>)
    ensures
        r matches Ok(t) ==> 0 <= now + days * 86400 <= u64::MAX && t@ == jwt_hs256_token(
            aud@,
            sub@,
            now + days * 86400,
            "your-256-bit-secret"@,
        ),
        !(0 <= now + days * 86400 <= u64::MAX) ==> (r matches Err(e) && e
            == JwtError::ExpiryOverflow),
        r matches Err(e) ==> e == JwtError::ExpiryOverflow || e == JwtError::SignFailure,
{
    if days > MAX_EXPIRY_DAYS || days < -MAX_EXPIRY_DAYS {
        return Err(JwtError::ExpiryOverflow);
    }
    let seconds: i64 = days * 86400;
    if seconds >= 0 {
        if now > i64::MAX - seconds {
            return Err(JwtError::ExpiryOverflow);
        }
    } else {
        if now < i64::MIN - seconds {
            return Err(JwtError::ExpiryOverflow);
        }
    }
    let exp: i64 = now + seconds;
    if exp < 0 {
        return Err(JwtError::ExpiryOverflow);
    }
    jwt_encode_hs256(aud, sub, exp as u64, jwt_secret())
}

/// Issue a token for a subject and audience, expiring `<number>d` days from
/// now. The moment of issue comes from the clock, so the token is pinned
/// only up to the expiry timestamp that the clock yielded.
pub fn process_jwt_sign(sub: &str, aud: &str, exp: &str) -> (r: Result<String, JwtError>)
    ensures
        !valid_exp_spec(exp@) ==> (r matches Err(e) && e == JwtError::InvalidExpiry),
        r matches Err(e) ==> (e == JwtError::InvalidExpiry <==> !valid_exp_spec(exp@)),
        r matches Err(e) ==> e == JwtError::InvalidExpiry || e == JwtError::ExpiryOverflow || e
            == JwtError::SignFailure,
        valid_exp_spec(exp@) && !(i64::MIN <= exp_days(exp@) <= i64::MAX) ==> (r matches Err(e)
            && e == JwtError::ExpiryOverflow),
        r matches Ok(t) ==> valid_exp_spec(exp@) && exists|exp_ts: int|
            t@ == #[trigger] jwt_hs256_token(aud@, sub@, exp_ts, "your-256-bit-secret"@),
{
    let days = parse_exp_days(exp)?;
    let now = now_timestamp();
    jwt_sign_at(sub, aud, days, now)
}

/// An accepted token and a merely invalid one are normal `true` / `false`
/// answers; an unexpected issuer and all other rejections are errors.
pub fn jwt_verdict(outcome: Result<(), JwtRejection>) -> (r: Result<bool, JwtError>)
    ensures
        outcome is Ok <==> (r matches Ok(b) && b),
        (outcome matches Err(j) && j == JwtRejection::InvalidToken) <==> (r matches Ok(b) && !b),
        (outcome matches Err(j) && j == JwtRejection::InvalidIssuer) <==> (r matches Err(e) && e
            == JwtError::InvalidIssuer),
        (outcome matches Err(j) && j == JwtRejection::Other) <==> (r matches Err(e) && e
            == JwtError::Other),
{
    match outcome {
        Ok(()) => Ok(true),
        Err(JwtRejection::InvalidToken) => Ok(false),
        Err(JwtRejection::InvalidIssuer) => Err(JwtError::InvalidIssuer),
        Err(JwtRejection::Other) => Err(JwtError::Other),
    }
}

/// Verify a token against an expected audience. The verdict depends on the
/// clock; whatever the backend answers, it is mapped through `jwt_verdict`,
/// so an error is only ever an unexpected issuer or another structural
/// rejection.
pub fn process_jwt_verify(token: &str, aud: &str) -> (r: Result<bool, JwtError>)
    ensures
        r matches Err(e) ==> e == JwtError::InvalidIssuer || e == JwtError::Other,
{
    let outcome = jwt_decode_hs256(token, aud, jwt_secret());
    jwt_verdict(outcome)
}

} // verus!
