use metw_accounts::client::{CaptchaClient, MockCaptchaClientImpl};

#[test]
fn mock_captcha_accepts_anything() {
    let client = MockCaptchaClientImpl::boxed_new();
    assert!(client.validate(String::new()));
    assert!(client.validate("anything".to_string()));
}
