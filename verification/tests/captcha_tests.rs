use server_api::captcha::{captcha_from_generated, check_captcha, create_captcha, CaptchaCheck, CaptchaEntity};
use server_api::error::ServiceErrorCode;

fn stored(solution: &str, time: u128) -> CaptchaEntity {
    CaptchaEntity { solution: solution.to_string(), time }
}

#[test]
fn generated_image_is_base64() {
    let (solution, image) = captcha_from_generated(Some(("abcde".to_string(), vec![1, 2, 3]))).unwrap();
    assert_eq!(solution, "abcde");
    assert_eq!(image, "AQID");
    let (_, image) = captcha_from_generated(Some(("x".to_string(), b"png!".to_vec()))).unwrap();
    assert_eq!(image, "cG5nIQ==");
}

#[test]
fn failed_generation_is_an_error() {
    let e = captcha_from_generated(None).unwrap_err();
    assert_eq!(e.http_status_code, 400);
    assert_eq!(e.error_code, ServiceErrorCode::CaptchaCreate);
    assert_eq!(e.msg, "Can't create a captcha");
}

#[test]
fn create_captcha_gives_solution_and_image() {
    let (solution, image) = create_captcha().unwrap();
    assert!(!solution.is_empty());
    assert!(!image.is_empty());
    // the Base64 text of the PNG signature
    assert!(image.starts_with("iVBORw0KGgo"));
}

#[test]
fn right_answer_in_time_is_valid() {
    let c = stored("abc", 1_000);
    assert_eq!(check_captcha(Some(&c), 1_000, &"abc".to_string()), CaptchaCheck::Valid);
    assert_eq!(check_captcha(Some(&c), 1_201_000, &"abc".to_string()), CaptchaCheck::Valid);
    assert_eq!(check_captcha(Some(&c), 5, &"abc".to_string()), CaptchaCheck::Valid);
    assert!(CaptchaCheck::Valid.to_result().is_ok());
    assert!(!CaptchaCheck::Valid.deletes_captcha());
}

#[test]
fn answer_after_twenty_minutes_is_too_old() {
    let c = stored("abc", 1_000);
    let check = check_captcha(Some(&c), 1_201_001, &"abc".to_string());
    assert_eq!(check, CaptchaCheck::TooOld);
    assert!(check.deletes_captcha());
    let e = check.to_result().unwrap_err();
    assert_eq!(e.error_code, ServiceErrorCode::CaptchaTooOld);
    assert_eq!(e.msg, "Captcha is too old, please do the captcha again");
}

#[test]
fn wrong_answer_is_wrong() {
    let c = stored("abc", 1_000);
    let check = check_captcha(Some(&c), 2_000, &"abd".to_string());
    assert_eq!(check, CaptchaCheck::Wrong);
    assert!(check.deletes_captcha());
    assert_eq!(check.to_result().unwrap_err().error_code, ServiceErrorCode::CaptchaWrong);
}

#[test]
fn unknown_captcha_is_not_found() {
    let check = check_captcha(None, 2_000, &"abc".to_string());
    assert_eq!(check, CaptchaCheck::NotFound);
    assert!(!check.deletes_captcha());
    let e = check.to_result().unwrap_err();
    assert_eq!(e.error_code, ServiceErrorCode::CaptchaNotFound);
    assert_eq!(e.msg, "Captcha not found");
}

#[test]
fn stored_captcha_is_used_once() {
    let c = stored("abc", 0);
    for (now, answer) in [(10u128, "abc"), (10, "x"), (2_000_000, "abc"), (2_000_000, "x")] {
        let check = check_captcha(Some(&c), now, &answer.to_string());
        assert!(check == CaptchaCheck::Valid || check.deletes_captcha());
    }
}
