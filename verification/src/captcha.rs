//! Captchas of the customer registration: creating one and checking an answer.

use crate::error::{ServiceError, ServiceErrorCode};
use vstd::prelude::*;

verus! {

/// The digit of the standard Base64 alphabet for a value from 0 to 63:
/// `A`-`Z`, `a`-`z`, `0`-`9`, `+` and `/`.
pub open spec fn base64_digit(v: int) -> char {
    if v < 26 {
        ('A' as int + v) as char
    } else if v < 52 {
        ('a' as int + (v - 26)) as char
    } else if v < 62 {
        ('0' as int + (v - 52)) as char
    } else if v == 62 {
        '+'
    } else {
        '/'
    }
}

/// The standard Base64 text of a sequence of bytes: each group of three
/// bytes becomes four digits of six bits each, most significant first; a
/// last group of one or two bytes is filled with zero bits and padded with
/// `=` to four characters.
pub open spec fn spec_base64_standard(bytes: Seq<u8>) -> Seq<char>
    decreases bytes.len(),
{
    if bytes.len() == 0 {
        Seq::empty()
    } else if bytes.len() == 1 {
        let b0 = bytes[0] as int;
        seq![base64_digit(b0 / 4), base64_digit((b0 % 4) * 16), '=', '=']
    } else if bytes.len() == 2 {
        let b0 = bytes[0] as int;
        let b1 = bytes[1] as int;
        seq![base64_digit(b0 / 4), base64_digit((b0 % 4) * 16 + b1 / 16), base64_digit((b1 % 16) * 4), '=']
    } else {
        let b0 = bytes[0] as int;
        let b1 = bytes[1] as int;
        let b2 = bytes[2] as int;
        seq![
            base64_digit(b0 / 4),
            base64_digit((b0 % 4) * 16 + b1 / 16),
            base64_digit((b1 % 16) * 4 + b2 / 64),
            base64_digit(b2 % 64),
        ] + spec_base64_standard(bytes.subrange(3, bytes.len() as int))
    }
}

/// The Base64 text of `n` bytes has four characters for every started group
/// of three bytes: no byte of the picture is dropped from its image text.
pub proof fn lemma_base64_length(bytes: Seq<u8>)
    ensures
        spec_base64_standard(bytes).len() == 4 * ((bytes.len() + 2) / 3),
    decreases bytes.len(),
{
    if bytes.len() > 2 {
        lemma_base64_length(bytes.subrange(3, bytes.len() as int));
    }
}

/// The eight bytes every PNG file starts with.
pub open spec fn png_signature() -> Seq<u8> {
    seq![137u8, 80u8, 78u8, 71u8, 13u8, 10u8, 26u8, 10u8]
}

/// Whether bytes start with the PNG signature.
pub open spec fn starts_as_png(bytes: Seq<u8>) -> bool {
    bytes.len() >= 8 && bytes.subrange(0, 8) == png_signature()
}

/// The first 24 bytes of a captcha picture as a PNG file: the signature, then
/// the header chunk (13 bytes long, `IHDR`) giving the picture's width, 220,
/// and height, 120, as big-endian 32-bit numbers.
pub open spec fn captcha_png_header() -> Seq<u8> {
    png_signature() + seq![0u8, 0u8, 0u8, 13u8, 73u8, 72u8, 68u8, 82u8, 0u8, 0u8, 0u8, 220u8, 0u8, 0u8, 0u8, 120u8]
}

/// Whether bytes start as the PNG file of a 220 by 120 captcha picture.
pub open spec fn starts_as_captcha_png(bytes: Seq<u8>) -> bool {
    bytes.len() >= 24 && bytes.subrange(0, 24) == captcha_png_header()
}

/// `base64::encode`: the Base64 text of `bytes` in the standard alphabet,
/// with padding.
#[verifier::external_body]
fn base64_encode(bytes: &Vec<u8>) -> (text: String)
    ensures
        text@ == spec_base64_standard(bytes@),
{
    base64::encode(bytes)
}

/// `captcha::gen(Difficulty::Easy).as_tuple()`: a random captcha, its
/// solution and its PNG image, or nothing where the image could not be
/// encoded. The picture is 220 by 120 pixels, as `captcha::gen` documents;
/// the PNG encoder (`lodepng::encode_memory`) writes the PNG signature first
/// and then the header chunk with the picture's width and height. Nothing is
/// stated of which captcha comes out.
#[verifier::external_body]
fn generate_easy_captcha() -> (generated: Option<(String, Vec<u8>)>)
    ensures
        generated matches Some((_, png)) ==> starts_as_png(png@),
        generated matches Some((_, png)) ==> starts_as_captcha_png(png@),
{
    captcha::gen(captcha::Difficulty::Easy).as_tuple()
}

/// The error for a captcha that could not be made.
pub open spec fn create_error() -> ServiceError {
    ServiceError {
        http_status_code: 400,
        error_code: ServiceErrorCode::CaptchaCreate,
        msg: "Can't create a captcha",
    }
}

/// Turns a generated captcha into its solution and its image as Base64 text.
pub fn captcha_from_generated(generated: Option<(String, Vec<u8>)>) -> (res: Result<(String, String), ServiceError>)
    ensures
        match generated {
            None => res == Err::<(String, String), ServiceError>(create_error()),
            Some((solution, png)) => res matches Ok((s, image)) && s == solution
                && image@ == spec_base64_standard(png@),
        },
{
    match generated {
        None => Err(ServiceError::new_msg(400, ServiceErrorCode::CaptchaCreate, "Can't create a captcha")),
        Some((solution, png)) => {
            let image = base64_encode(&png);
            Ok((solution, image))
        },
    }
}

/// Makes a new captcha: its solution and its PNG image as Base64 text.
/// Which captcha comes out is chance; where the image cannot be made the
/// result is the creation error, and otherwise the image text is the
/// standard Base64 encoding of the generated PNG file.
pub fn create_captcha() -> (res: Result<(String, String), ServiceError>)
    ensures
        res matches Err(e) ==> e == create_error(),
        res matches Ok((_solution, image)) ==> exists|png: Seq<u8>|
            starts_as_png(png) && #[trigger] spec_base64_standard(png) == image@,
        res matches Ok((_solution, image)) ==> exists|png: Seq<u8>|
            starts_as_captcha_png(png) && #[trigger] spec_base64_standard(png) == image@,
{
    let generated = generate_easy_captcha();
    let ghost png: Seq<u8> = match generated {
        Some((_, ref p)) => p@,
        None => Seq::empty(),
    };
    let res = captcha_from_generated(generated);
    proof {
        if res is Ok {
            assert(spec_base64_standard(png) == res->Ok_0.1@);
        }
    }
    res
}

/// How long a captcha can be answered, in milliseconds: 20 minutes.
pub const CAPTCHA_VALID_MS: u128 = 1_200_000;

/// A stored captcha: its solution and when it was made (milliseconds).
#[derive(Debug)]
pub struct CaptchaEntity {
    pub solution: String,
    pub time: u128,
}

/// The outcome of checking a captcha answer.
#[derive(Debug, Clone, Copy, PartialEq, Eq, Structural)]
pub enum CaptchaCheck {
    Valid,
    NotFound,
    TooOld,
    Wrong,
}

/// The outcome for a stored captcha (or none), the current time in
/// milliseconds and the answer: unknown captchas are not found; a captcha is
/// too old once more than 20 minutes have passed since it was made; else
/// the answer must equal the solution.
pub open spec fn spec_check_captcha(
    captcha: Option<(Seq<char>, u128)>,
    now: u128,
    answer: Seq<char>,
) -> CaptchaCheck {
    match captcha {
        None => CaptchaCheck::NotFound,
        Some((solution, time)) => if time + CAPTCHA_VALID_MS < now {
            CaptchaCheck::TooOld
        } else if solution != answer {
            CaptchaCheck::Wrong
        } else {
            CaptchaCheck::Valid
        },
    }
}

/// The text view of a stored captcha.
pub open spec fn captcha_view(captcha: Option<&CaptchaEntity>) -> Option<(Seq<char>, u128)> {
    match captcha {
        None => None,
        Some(c) => Some((c.solution@, c.time)),
    }
}

/// Checks an answer against a stored captcha.
pub fn check_captcha(captcha: Option<&CaptchaEntity>, now: u128, answer: &String) -> (res: CaptchaCheck)
    ensures
        res == spec_check_captcha(captcha_view(captcha), now, answer@),
        captcha is None ==> res == CaptchaCheck::NotFound,
        captcha matches Some(c) && c.time + 1_200_000 < now ==> res == CaptchaCheck::TooOld,
        captcha matches Some(c) && c.time + 1_200_000 >= now && c.solution@ != answer@ ==> res
            == CaptchaCheck::Wrong,
        captcha matches Some(c) && c.time + 1_200_000 >= now && c.solution@ == answer@ ==> res
            == CaptchaCheck::Valid,
{
    match captcha {
        None => CaptchaCheck::NotFound,
        Some(c) => {
            if c.time < now && now - c.time > CAPTCHA_VALID_MS {
                CaptchaCheck::TooOld
            } else if !(c.solution == *answer) {
                CaptchaCheck::Wrong
            } else {
                CaptchaCheck::Valid
            }
        },
    }
}

/// The error the client gets for an outcome, none for a valid answer.
pub open spec fn spec_check_error(check: CaptchaCheck) -> Option<ServiceError> {
    match check {
        CaptchaCheck::Valid => None,
        CaptchaCheck::NotFound => Some(
            ServiceError {
                http_status_code: 400,
                error_code: ServiceErrorCode::CaptchaNotFound,
                msg: "Captcha not found",
            },
        ),
        CaptchaCheck::TooOld => Some(
            ServiceError {
                http_status_code: 400,
                error_code: ServiceErrorCode::CaptchaTooOld,
                msg: "Captcha is too old, please do the captcha again",
            },
        ),
        CaptchaCheck::Wrong => Some(
            ServiceError {
                http_status_code: 400,
                error_code: ServiceErrorCode::CaptchaWrong,
                msg: "Captcha is wrong",
            },
        ),
    }
}

impl CaptchaCheck {
    /// Whether the stored captcha is deleted after this outcome: a captcha
    /// that was found but not answered right cannot be tried again.
    pub fn deletes_captcha(&self) -> (d: bool)
        ensures
            d == (*self == CaptchaCheck::TooOld || *self == CaptchaCheck::Wrong),
    {
        match self {
            CaptchaCheck::TooOld | CaptchaCheck::Wrong => true,
            _ => false,
        }
    }

    /// The answer to the client.
    pub fn to_result(&self) -> (res: Result<(), ServiceError>)
        ensures
            match spec_check_error(*self) {
                None => res is Ok,
                Some(e) => res == Err::<(), ServiceError>(e),
            },
    {
        match self {
            CaptchaCheck::Valid => Ok(()),
            CaptchaCheck::NotFound => Err(ServiceError::new_msg(400, ServiceErrorCode::CaptchaNotFound, "Captcha not found")),
            CaptchaCheck::TooOld => Err(
                ServiceError::new_msg(
                    400,
                    ServiceErrorCode::CaptchaTooOld,
                    "Captcha is too old, please do the captcha again",
                ),
            ),
            CaptchaCheck::Wrong => Err(ServiceError::new_msg(400, ServiceErrorCode::CaptchaWrong, "Captcha is wrong")),
        }
    }
}

/// A captcha can be answered once: an answer to a stored captcha is either
/// accepted, which needs a captcha made at most 20 minutes before and the
/// exact solution, or refused, and then the captcha is deleted.
pub proof fn lemma_captcha_single_use(solution: Seq<char>, time: u128, now: u128, answer: Seq<char>)
    ensures
        spec_check_captcha(Some((solution, time)), now, answer) == CaptchaCheck::Valid
            <==> (time + CAPTCHA_VALID_MS >= now && answer == solution),
        spec_check_captcha(Some((solution, time)), now, answer) != CaptchaCheck::Valid ==> (
        spec_check_captcha(Some((solution, time)), now, answer) == CaptchaCheck::TooOld
            || spec_check_captcha(Some((solution, time)), now, answer) == CaptchaCheck::Wrong),
{
}

/// The age of a captcha is checked before its answer: a captcha made more
/// than 20 minutes (1 200 000 ms) before now is too old whatever the answer,
/// the right one included; only a captcha still in time can be wrong.
pub proof fn lemma_captcha_age_checked_first(solution: Seq<char>, time: u128, now: u128, answer: Seq<char>)
    ensures
        time + 1_200_000 < now ==> spec_check_captcha(Some((solution, time)), now, answer) == CaptchaCheck::TooOld,
        spec_check_captcha(Some((solution, time)), now, answer) == CaptchaCheck::Wrong ==> (time + 1_200_000 >= now
            && answer != solution),
        spec_check_captcha(Some((solution, time)), now, answer) == CaptchaCheck::TooOld ==> time + 1_200_000 < now,
{
}

} // verus!
