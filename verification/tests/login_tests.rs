use gtk_qq::widgets::LinkCopierState;
use gtk_qq::login::{
    escape_link, end_of_turn, handle_login_response, report_login, DeviceLock, TurnEnd, login_step, AppMessage, AppModel, CaptchaAction, CaptchaInput, CaptchaModel, Delivery,
    Feedback, Input, Login, LoginMode, LoginPageAction, LoginPageModel, LoginPageMsg, LoginResponse, Page, QrAction,
    QrCodeState, QrLogin, ResponseAction, SendAction, SendEvent, Sender, ServerAction, Switch,
};

fn failed(t: &str) -> LoginPageAction {
    LoginPageAction::Input(LoginPageMsg::LoginFailed(t.to_string()))
}

#[test]
fn login_waits_for_the_server() {
    let mut page = LoginPageModel::new(false, false);
    assert_eq!(page.update(LoginPageMsg::PwdLogin(1, "pw".to_string())), vec![failed("Client Not Init. Please Wait")]);
    page.update(LoginPageMsg::EnableLogin(true));
    assert!(!page.enable_btn);
    assert_eq!(page.update(LoginPageMsg::ClientInit), vec![LoginPageAction::StartServer]);
    page.update(LoginPageMsg::EnableLogin(true));
    assert!(page.enable_btn);
    assert_eq!(
        page.update(LoginPageMsg::PwdLogin(1, "pw".to_string())),
        vec![LoginPageAction::Send(Input::Login(Login::Pwd(1, "pw".to_string())))]
    );
    assert_eq!(
        page.update(LoginPageMsg::TokenLogin(vec![1])),
        vec![LoginPageAction::Send(Input::Login(Login::Token(vec![1])))]
    );
}

#[test]
fn login_page_reactions() {
    let mut page = LoginPageModel::new(true, false);
    assert_eq!(page.update(LoginPageMsg::StartLogin), vec![LoginPageAction::SubmitForm]);
    assert!(!page.enable_btn);
    page.update(LoginPageMsg::LoginFailed("bad".to_string()));
    assert!(page.enable_btn);
    assert_eq!(page.toast, Some("bad".to_string()));
    page.update(LoginPageMsg::LinkCopied);
    assert_eq!(page.toast, Some("Link Copied".to_string()));
    page.update(LoginPageMsg::AutoLogin(true));
    page.update(LoginPageMsg::RememberPwd(false));
    assert!(page.auto_login && !page.remember_pwd);
    assert_eq!(page.update(LoginPageMsg::LoginSuccessful), vec![LoginPageAction::Succeed]);
    assert_eq!(
        page.update(LoginPageMsg::ConfirmVerification),
        vec![LoginPageAction::Input(LoginPageMsg::StartLogin)]
    );
    assert_eq!(
        page.update(LoginPageMsg::NeedCaptcha("https://a?x=1&y=2".to_string())),
        vec![
            failed("Need Captcha. See more in the pop-up window."),
            LoginPageAction::OpenCaptcha("https://a?x=1&amp;y=2".to_string())
        ]
    );
    assert_eq!(
        page.update(LoginPageMsg::DeviceLock("u".to_string(), None)),
        vec![LoginPageAction::OpenDeviceLock("u".to_string(), None)]
    );
    assert_eq!(
        page.update(LoginPageMsg::LoginRespond(LoginResponse::AccountFrozen)),
        vec![failed("Client Not Init. Please Wait")]
    );
}

#[test]
fn ampersands_escaped() {
    assert_eq!(escape_link("a&b&&c"), "a&amp;b&amp;&amp;c");
    assert_eq!(escape_link(""), "");
}

#[test]
fn login_server_modes() {
    let (m, a) = login_step(LoginMode::Pwd, Input::Switch(Switch::QrCode));
    assert_eq!((m, a), (LoginMode::QrCode, ServerAction::StartQrLogin));
    let (m, a) = login_step(LoginMode::QrCode, Input::Login(Login::Pwd(1, "p".to_string())));
    assert_eq!(m, LoginMode::QrCode);
    assert_eq!(a, ServerAction::Fail("Under `QrCodeLogin` state can not using password login".to_string()));
    assert_eq!(login_step(LoginMode::QrCode, Input::Switch(Switch::QrCode)), (LoginMode::QrCode, ServerAction::Nothing));
    assert_eq!(login_step(LoginMode::QrCode, Input::Switch(Switch::Password)), (LoginMode::Pwd, ServerAction::AbortQrLogin));
    assert_eq!(login_step(LoginMode::Pwd, Input::Switch(Switch::Password)), (LoginMode::Pwd, ServerAction::Nothing));
    assert_eq!(
        login_step(LoginMode::Pwd, Input::Login(Login::Token(vec![3]))),
        (LoginMode::Pwd, ServerAction::TokenLogin(vec![3]))
    );
    assert_eq!(
        login_step(LoginMode::QrCode, Input::LoginRespond(LoginResponse::Success)),
        (LoginMode::QrCode, ServerAction::HandleResponse(LoginResponse::Success))
    );
    assert_eq!(login_step(LoginMode::Pwd, Input::Stop), (LoginMode::Pwd, ServerAction::Stop));
}

#[test]
fn login_responses() {
    assert_eq!(handle_login_response(LoginResponse::Success), ResponseAction::FinishLogin);
    match handle_login_response(LoginResponse::NeedCaptcha { verify_url: Some("https://ssl.captcha.qq.com/?a=1&b=2".to_string()) }) {
        ResponseAction::ShowCaptcha { verify_url, picture } => {
            assert_eq!(verify_url, "https://ssl.captcha.qq.com/?a=1&b=2");
            assert_eq!(&picture[..8], &[0x89, b'P', b'N', b'G', 0x0d, 0x0a, 0x1a, 0x0a]);
        }
        other => panic!("unexpected answer: {:?}", other),
    }
    assert_eq!(handle_login_response(LoginResponse::AccountFrozen), ResponseAction::Fail("Account Frozen".to_string()));
    assert_eq!(
        handle_login_response(LoginResponse::DeviceLocked { sms_phone: Some("138".to_string()), verify_url: None }),
        ResponseAction::DeviceLocked {
            notice: "Device Locked. See more in the pop-up window.".to_string(),
            verify_url: "<unknown>".to_string(),
            sms_phone: Some("138".to_string())
        }
    );
    assert_eq!(
        handle_login_response(LoginResponse::TooManySMSRequest),
        ResponseAction::Fail("Too Many SMS Request".to_string())
    );
    assert_eq!(handle_login_response(LoginResponse::DeviceLockLogin), ResponseAction::DeviceLockLogin);
    assert_eq!(
        handle_login_response(LoginResponse::UnknownStatus { message: "oops".to_string() }),
        ResponseAction::Fail("oops".to_string())
    );
}

#[test]
fn one_login_task_at_a_time() {
    let mut s = Sender::new();
    assert_eq!(s.on_delivery(Delivery::Sent), None);
    assert!(s.waiting);
    assert_eq!(s.on_feedback(Feedback::Pending), Some("Previous login task not finish yet,please wait".to_string()));
    assert!(s.waiting);
    assert_eq!(s.on_feedback(Feedback::Closed), Some("Login Server Closed".to_string()));
    assert_eq!(s.on_feedback(Feedback::Done), None);
    assert!(!s.waiting);
    assert_eq!(s.on_delivery(Delivery::Full), Some("Channel Buff Full,Please wait".to_string()));
    assert_eq!(s.on_delivery(Delivery::Closed), Some("Login Server Closed".to_string()));
    assert!(!s.waiting);
    s.waiting = true;
    assert!(!s.clone_sender().waiting);
}

#[test]
fn qr_login_loop() {
    let mut q = QrLogin::new();
    assert!(q.query_signature().is_empty());
    assert_eq!(q.step(QrCodeState::ImageFetch { image: vec![1, 2], sig: vec![9] }), QrAction::ShowImage(vec![1, 2]));
    assert_eq!(q.query_signature(), vec![9]);
    assert_eq!(q.step(QrCodeState::WaitingForScan), QrAction::Wait);
    assert_eq!(q.step(QrCodeState::WaitingForConfirm), QrAction::Wait);
    assert_eq!(q.step(QrCodeState::Timeout), QrAction::FetchAgain);
    assert_eq!(
        q.step(QrCodeState::Confirmed { tmp_pwd: vec![1], tmp_no_pic_sig: vec![2], tgt_qr: vec![3] }),
        QrAction::Login { tmp_pwd: vec![1], tmp_no_pic_sig: vec![2], tgt_qr: vec![3] }
    );
    assert_eq!(q.query_signature(), vec![9]);
}

#[test]
fn captcha_window() {
    let mut c = CaptchaModel::new();
    assert_eq!(c.update(CaptchaInput::UpdateTicket("t1".to_string())), CaptchaAction::Nothing);
    assert_eq!(c.update(CaptchaInput::Submit), CaptchaAction::SubmitTicket("t1".to_string()));
    assert_eq!(c.update(CaptchaInput::CloseWindow), CaptchaAction::CloseWindow);
    assert_eq!(
        CaptchaModel::submit_result(Ok(LoginResponse::Success)),
        LoginPageMsg::LoginRespond(LoginResponse::Success)
    );
    assert_eq!(CaptchaModel::submit_result(Err("e".to_string())), LoginPageMsg::LoginFailed("e".to_string()));
}

#[test]
fn window_switches_to_main_page() {
    let mut app = AppModel::new();
    assert_eq!(app.page, Page::Login);
    app.update(AppMessage::LoginSuccessful);
    assert_eq!(app.page, Page::Main);
}

#[test]
fn captcha_window_links() {
    let (scanner, verify) = CaptchaModel::links("https://captcha/?a=1&amp;b=2".to_string());
    assert_eq!(scanner.link_label(), "https://github.com/mzdluo123/TxCaptchaHelper");
    assert_eq!(scanner.ty, LinkCopierState::Both);
    assert_eq!(verify.url, "https://captcha/?a=1&amp;b=2");
    assert_eq!(verify.link_label(), "Verification Link");
    assert_eq!(verify.ty, LinkCopierState::Both);
}

#[test]
fn device_lock_window() {
    assert_eq!(
        DeviceLock::prompt(Some("138****0000".to_string())),
        "Please open the link below and use your logged in device[sms:138****0000] to verify"
    );
    assert_eq!(
        DeviceLock::prompt(None),
        "Please open the link below and use your logged in device[sms:<unknown>] to verify"
    );
    let link = DeviceLock::link("https://unlock".to_string());
    assert_eq!(link.url, "https://unlock");
    assert_eq!(link.link_label(), "Device Lock Verification");
}

#[test]
fn handing_inputs_over_one_at_a_time() {
    let mut s = Sender::new();
    // Nothing awaited: the input is offered at once and then awaited.
    assert_eq!(s.step(SendEvent::NewInput), (None, SendAction::Offer));
    assert_eq!(s.step(SendEvent::Offered(Delivery::Sent)), (None, SendAction::Finish));
    assert!(s.waiting);
    // The previous input is still at work: the new one is refused.
    assert_eq!(s.step(SendEvent::NewInput), (None, SendAction::Poll));
    assert_eq!(
        s.step(SendEvent::Polled(Feedback::Pending)),
        (Some("Previous login task not finish yet,please wait".to_string()), SendAction::Finish)
    );
    assert!(s.waiting);
    // Once acknowledged, the next input is offered.
    assert_eq!(s.step(SendEvent::NewInput), (None, SendAction::Poll));
    assert_eq!(s.step(SendEvent::Polled(Feedback::Done)), (None, SendAction::Offer));
    assert!(!s.waiting);
    assert_eq!(
        s.step(SendEvent::Offered(Delivery::Full)),
        (Some("Channel Buff Full,Please wait".to_string()), SendAction::Finish)
    );
    assert!(!s.waiting);
    assert_eq!(s.step(SendEvent::Offered(Delivery::Closed)), (Some("Login Server Closed".to_string()), SendAction::Finish));
    assert_eq!(s.step(SendEvent::Offered(Delivery::Sent)), (None, SendAction::Finish));
    assert_eq!(s.step(SendEvent::Polled(Feedback::Closed)), (Some("Login Server Closed".to_string()), SendAction::Finish));
    assert!(s.waiting);
}

#[test]
fn qr_login_answers_and_failures() {
    let mut q = QrLogin::new();
    assert_eq!(q.answer(Err("network down".to_string())), QrAction::Fail("network down".to_string()));
    assert!(q.signature.is_none());
    assert_eq!(
        q.answer(Ok(QrCodeState::ImageFetch { image: vec![3], sig: vec![4, 5] })),
        QrAction::ShowImage(vec![3])
    );
    assert_eq!(q.answer(Ok(QrCodeState::WaitingForConfirm)), QrAction::Wait);
    assert_eq!(q.answer(Err("timeout".to_string())), QrAction::Fail("timeout".to_string()));
    assert_eq!(q.query_signature(), vec![4, 5]);
    assert_eq!(report_login(Ok(LoginResponse::AccountFrozen)), LoginPageMsg::LoginRespond(LoginResponse::AccountFrozen));
    assert_eq!(report_login(Err("bad".to_string())), LoginPageMsg::LoginFailed("bad".to_string()));
}

#[test]
fn every_input_but_stop_is_acknowledged() {
    let inputs = vec![
        Input::Switch(Switch::QrCode),
        Input::Login(Login::Pwd(1, "p".to_string())),
        Input::LoginRespond(LoginResponse::Success),
        Input::Switch(Switch::Password),
        Input::Login(Login::Token(vec![1])),
    ];
    let mut mode = LoginMode::Pwd;
    for input in inputs {
        let (next, action) = login_step(mode, input);
        mode = next;
        assert_eq!(end_of_turn(&action), TurnEnd::Acknowledge);
    }
    let (_, action) = login_step(mode, Input::Stop);
    assert_eq!(end_of_turn(&action), TurnEnd::Leave);
}
