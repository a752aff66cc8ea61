//! Login: the login page's reactions, the login server's loop, the answer
//! to a login response and the QR-code login loop, each as a decision from
//! state and event to next state and action.

use vstd::prelude::*;
use crate::qr::{captcha_picture, captcha_qr_code};
use crate::strings::{owned, push_char, push_str};
use crate::widgets::{LinkCopierState, LinkerCopierCfg};

verus! {

/// How the user logs in.
#[derive(Debug, Clone, PartialEq, Eq)]
pub enum Switch {
    Password,
    QrCode,
}

/// A login request: with a password, or with a remembered token.
#[derive(Debug, Clone, PartialEq, Eq)]
pub enum Login {
    Pwd(i64, String),
    Token(Vec<u8>),
}

/// What the server answered to a login attempt.
#[derive(Debug, Clone, PartialEq, Eq)]
pub enum LoginResponse {
    Success,
    NeedCaptcha { verify_url: Option<String> },
    AccountFrozen,
    DeviceLocked { sms_phone: Option<String>, verify_url: Option<String> },
    TooManySMSRequest,
    DeviceLockLogin,
    UnknownStatus { message: String },
}

/// What the login page is told.
#[derive(Debug, Clone, PartialEq, Eq)]
pub enum LoginPageMsg {
    ClientInit,
    StartLogin,
    PwdLogin(i64, String),
    TokenLogin(Vec<u8>),
    LoginRespond(LoginResponse),
    LoginSuccessful,
    LoginFailed(String),
    NeedCaptcha(String),
    DeviceLock(String, Option<String>),
    ConfirmVerification,
    EnableLogin(bool),
    RememberPwd(bool),
    AutoLogin(bool),
    LinkCopied,
}

/// What the login server is told.
#[derive(Debug, Clone, PartialEq, Eq)]
pub enum Input {
    Switch(Switch),
    Login(Login),
    LoginRespond(LoginResponse),
    Stop,
}

/// What the login page asks to be done.
#[derive(Debug, Clone, PartialEq, Eq)]
pub enum LoginPageAction {
    /// Keep the login server's sender and start its loop.
    StartServer,
    /// Hand an input to the login server.
    Send(Input),
    /// Tell the login page itself.
    Input(LoginPageMsg),
    /// Ask the password form to submit.
    SubmitForm,
    /// Store the login switches, then tell the application that the login succeeded.
    Succeed,
    /// Open the captcha window for this verification link.
    OpenCaptcha(String),
    /// Open the device lock window for this link and phone.
    OpenDeviceLock(String, Option<String>),
    /// Nothing more.
    Nothing,
}

/// The state of the login page.
#[derive(Debug, Clone, PartialEq, Eq)]
pub struct LoginPageModel {
    pub enable_btn: bool,
    pub toast: Option<String>,
    pub client_ready: bool,
    pub remember_pwd: bool,
    pub auto_login: bool,
}

/// The notice shown when the login server is not up yet.
pub open spec fn not_ready_notice() -> Seq<char> {
    "Client Not Init. Please Wait"@
}

/// The notice shown when a captcha is needed.
pub open spec fn captcha_notice() -> Seq<char> {
    "Need Captcha. See more in the pop-up window."@
}

/// The notice shown when a link was copied.
pub open spec fn link_copied_notice() -> Seq<char> {
    "Link Copied"@
}

/// A link made safe for markup: every `&` becomes `&amp;`.
pub open spec fn escape_ampersands(s: Seq<char>) -> Seq<char>
    decreases s.len(),
{
    if s.len() == 0 {
        Seq::empty()
    } else if s.last() == '&' {
        escape_ampersands(s.drop_last()) + seq!['&', 'a', 'm', 'p', ';']
    } else {
        escape_ampersands(s.drop_last()).push(s.last())
    }
}

/// Replaces every `&` by `&amp;` (`str::replace('&', "&amp;")`).
pub fn escape_link(s: &str) -> (r: String)
    ensures
        r@ == escape_ampersands(s@),
{
    let n = s.unicode_len();
    let mut out = String::new();
    let mut i: usize = 0;
    while i < n
        invariant
            n == s@.len(),
            0 <= i <= n,
            out@ == escape_ampersands(s@.subrange(0, i as int)),
        decreases n - i,
    {
        let c = s.get_char(i);
        proof {
            assert(s@.subrange(0, i + 1).drop_last() =~= s@.subrange(0, i as int));
            assert(s@.subrange(0, i + 1).last() == c);
        }
        if c == '&' {
            push_char(&mut out, '&');
            push_char(&mut out, 'a');
            push_char(&mut out, 'm');
            push_char(&mut out, 'p');
            push_char(&mut out, ';');
            proof {
                assert(out@ =~= escape_ampersands(s@.subrange(0, i as int)) + seq!['&', 'a', 'm', 'p', ';']);
            }
        } else {
            push_char(&mut out, c);
        }
        i = i + 1;
    }
    proof {
        assert(s@.subrange(0, n as int) =~= s@);
    }
    out
}

impl LoginPageModel {
    /// The login page before the login server is up, with the remembered switches.
    pub fn new(remember_pwd: bool, auto_login: bool) -> (r: LoginPageModel)
        ensures
            !r.enable_btn,
            r.toast is None,
            !r.client_ready,
            r.remember_pwd == remember_pwd,
            r.auto_login == auto_login,
    {
        LoginPageModel { enable_btn: false, toast: None, client_ready: false, remember_pwd, auto_login }
    }

    /// Hands `input` to the login server when it is up, else reports that it is not.
    fn forward(&self, input: Input) -> (r: LoginPageAction)
        ensures
            self.client_ready ==> r == LoginPageAction::Send(input),
            !self.client_ready ==> (r matches LoginPageAction::Input(LoginPageMsg::LoginFailed(t)) && t@ == not_ready_notice()),
    {
        if self.client_ready {
            LoginPageAction::Send(input)
        } else {
            LoginPageAction::Input(LoginPageMsg::LoginFailed(owned("Client Not Init. Please Wait")))
        }
    }

    /// Handles one message of the login page and says what else must be done.
    pub fn update(&mut self, msg: LoginPageMsg) -> (r: Vec<LoginPageAction>)
        ensures
            match msg {
                LoginPageMsg::ClientInit => final(self).client_ready && r@ == seq![LoginPageAction::StartServer]
                    && final(self).enable_btn == old(self).enable_btn,
                LoginPageMsg::EnableLogin(enable) => final(self).enable_btn == (enable && old(self).client_ready)
                    && r@ == seq![LoginPageAction::Nothing],
                LoginPageMsg::StartLogin => !final(self).enable_btn && r@ == seq![LoginPageAction::SubmitForm],
                LoginPageMsg::LoginFailed(t) => final(self).enable_btn && final(self).toast == Some(t)
                    && r@ == seq![LoginPageAction::Nothing],
                LoginPageMsg::RememberPwd(b) => final(self).remember_pwd == b && r@ == seq![LoginPageAction::Nothing],
                LoginPageMsg::AutoLogin(b) => final(self).auto_login == b && r@ == seq![LoginPageAction::Nothing],
                LoginPageMsg::LoginSuccessful => r@ == seq![LoginPageAction::Succeed],
                LoginPageMsg::ConfirmVerification => r@ == seq![LoginPageAction::Input(LoginPageMsg::StartLogin)],
                LoginPageMsg::LinkCopied => final(self).toast is Some && final(self).toast->0@ == link_copied_notice()
                    && r@ == seq![LoginPageAction::Nothing],
                LoginPageMsg::DeviceLock(url, sms) => r@ == seq![LoginPageAction::OpenDeviceLock(url, sms)],
                LoginPageMsg::NeedCaptcha(url) => r@.len() == 2
                    && (r@[0] matches LoginPageAction::Input(LoginPageMsg::LoginFailed(t)) && t@ == captcha_notice())
                    && (r@[1] matches LoginPageAction::OpenCaptcha(u) && u@ == escape_ampersands(url@)),
                LoginPageMsg::PwdLogin(uin, pwd) => r@.len() == 1
                    && (old(self).client_ready ==> r@[0] == LoginPageAction::Send(Input::Login(Login::Pwd(uin, pwd))))
                    && (!old(self).client_ready ==> (r@[0] matches LoginPageAction::Input(LoginPageMsg::LoginFailed(t)) && t@ == not_ready_notice())),
                LoginPageMsg::TokenLogin(token) => r@.len() == 1
                    && (old(self).client_ready ==> r@[0] == LoginPageAction::Send(Input::Login(Login::Token(token))))
                    && (!old(self).client_ready ==> (r@[0] matches LoginPageAction::Input(LoginPageMsg::LoginFailed(t)) && t@ == not_ready_notice())),
                LoginPageMsg::LoginRespond(resp) => r@.len() == 1
                    && (old(self).client_ready ==> r@[0] == LoginPageAction::Send(Input::LoginRespond(resp)))
                    && (!old(self).client_ready ==> (r@[0] matches LoginPageAction::Input(LoginPageMsg::LoginFailed(t)) && t@ == not_ready_notice())),
            },
            match msg {
                LoginPageMsg::ClientInit => true,
                _ => final(self).client_ready == old(self).client_ready,
            },
            match msg {
                LoginPageMsg::EnableLogin(_) | LoginPageMsg::StartLogin | LoginPageMsg::LoginFailed(_) => true,
                _ => final(self).enable_btn == old(self).enable_btn,
            },
            match msg {
                LoginPageMsg::RememberPwd(_) => final(self).auto_login == old(self).auto_login,
                LoginPageMsg::AutoLogin(_) => final(self).remember_pwd == old(self).remember_pwd,
                _ => final(self).remember_pwd == old(self).remember_pwd && final(self).auto_login == old(self).auto_login,
            },
            match msg {
                LoginPageMsg::LoginFailed(_) | LoginPageMsg::LinkCopied => true,
                _ => final(self).toast == old(self).toast,
            },
    {
        let mut actions: Vec<LoginPageAction> = Vec::new();
        match msg {
            LoginPageMsg::ClientInit => {
                self.client_ready = true;
                actions.push(LoginPageAction::StartServer);
            },
            LoginPageMsg::LoginRespond(resp) => {
                let a = self.forward(Input::LoginRespond(resp));
                actions.push(a);
            },
            LoginPageMsg::RememberPwd(b) => {
                self.remember_pwd = b;
                actions.push(LoginPageAction::Nothing);
            },
            LoginPageMsg::AutoLogin(b) => {
                self.auto_login = b;
                actions.push(LoginPageAction::Nothing);
            },
            LoginPageMsg::TokenLogin(token) => {
                let a = self.forward(Input::Login(Login::Token(token)));
                actions.push(a);
            },
            LoginPageMsg::EnableLogin(enable) => {
                self.enable_btn = enable && self.client_ready;
                actions.push(LoginPageAction::Nothing);
            },
            LoginPageMsg::StartLogin => {
                self.enable_btn = false;
                actions.push(LoginPageAction::SubmitForm);
            },
            LoginPageMsg::PwdLogin(uin, pwd) => {
                let a = self.forward(Input::Login(Login::Pwd(uin, pwd)));
                actions.push(a);
            },
            LoginPageMsg::LoginSuccessful => {
                actions.push(LoginPageAction::Succeed);
            },
            LoginPageMsg::LoginFailed(t) => {
                self.enable_btn = true;
                self.toast = Some(t);
                actions.push(LoginPageAction::Nothing);
            },
            LoginPageMsg::NeedCaptcha(url) => {
                actions.push(LoginPageAction::Input(LoginPageMsg::LoginFailed(owned("Need Captcha. See more in the pop-up window."))));
                actions.push(LoginPageAction::OpenCaptcha(escape_link(url.as_str())));
            },
            LoginPageMsg::DeviceLock(url, sms) => {
                actions.push(LoginPageAction::OpenDeviceLock(url, sms));
            },
            LoginPageMsg::ConfirmVerification => {
                actions.push(LoginPageAction::Input(LoginPageMsg::StartLogin));
            },
            LoginPageMsg::LinkCopied => {
                self.toast = Some(owned("Link Copied"));
                actions.push(LoginPageAction::Nothing);
            },
        }
        actions
    }
}

/// How the login server logs in.
#[derive(Debug, Clone, PartialEq, Eq)]
pub enum LoginMode {
    Pwd,
    QrCode,
}

/// What the login server does with one input.
#[derive(Debug, Clone, PartialEq, Eq)]
pub enum ServerAction {
    /// Report a failure to the login page.
    Fail(String),
    /// Log in with a password.
    PasswordLogin(i64, String),
    /// Log in with a token.
    TokenLogin(Vec<u8>),
    /// Answer a login response.
    HandleResponse(LoginResponse),
    /// Start the QR-code login loop.
    StartQrLogin,
    /// Stop the QR-code login loop.
    AbortQrLogin,
    /// Nothing: the mode asked for is the current one.
    Nothing,
    /// Leave the loop.
    Stop,
}

/// The notice for a password or token login during a QR-code login.
pub open spec fn qr_mode_notice() -> Seq<char> {
    "Under `QrCodeLogin` state can not using password login"@
}

/// How a turn of the login server's loop ends, once its action was done.
#[derive(Debug, Clone, PartialEq, Eq)]
pub enum TurnEnd {
    /// Acknowledge the input to the login page, then take the next one.
    Acknowledge,
    /// Leave the loop without acknowledging; no later input is handled.
    Leave,
}

/// How the turn of an action ends: only `Stop` leaves the loop.
pub open spec fn turn_end_of(action: ServerAction) -> TurnEnd {
    if action is Stop {
        TurnEnd::Leave
    } else {
        TurnEnd::Acknowledge
    }
}

/// How the turn ends once `action` was done.
pub fn end_of_turn(action: &ServerAction) -> (r: TurnEnd)
    ensures
        r == turn_end_of(*action),
{
    match action {
        ServerAction::Stop => TurnEnd::Leave,
        _ => TurnEnd::Acknowledge,
    }
}

/// One turn of the login server's loop: from the mode and an input, the
/// next mode and what to do. Every input but `Stop` is acknowledged once,
/// after it is handled; `Stop` ends the loop.
pub fn login_step(mode: LoginMode, input: Input) -> (r: (LoginMode, ServerAction))
    ensures
        turn_end_of(r.1) == (if input is Stop { TurnEnd::Leave } else { TurnEnd::Acknowledge }),
        match (mode, input) {
            (LoginMode::QrCode, Input::Login(_)) => r.0 == LoginMode::QrCode
                && (r.1 matches ServerAction::Fail(t) && t@ == qr_mode_notice()),
            (LoginMode::Pwd, Input::Login(Login::Pwd(a, p))) => r == (LoginMode::Pwd, ServerAction::PasswordLogin(a, p)),
            (LoginMode::Pwd, Input::Login(Login::Token(t))) => r == (LoginMode::Pwd, ServerAction::TokenLogin(t)),
            (m, Input::LoginRespond(resp)) => r == (m, ServerAction::HandleResponse(resp)),
            (LoginMode::Pwd, Input::Switch(Switch::QrCode)) => r == (LoginMode::QrCode, ServerAction::StartQrLogin),
            (LoginMode::QrCode, Input::Switch(Switch::Password)) => r == (LoginMode::Pwd, ServerAction::AbortQrLogin),
            (LoginMode::QrCode, Input::Switch(Switch::QrCode)) => r == (LoginMode::QrCode, ServerAction::Nothing),
            (LoginMode::Pwd, Input::Switch(Switch::Password)) => r == (LoginMode::Pwd, ServerAction::Nothing),
            (m, Input::Stop) => r == (m, ServerAction::Stop),
        },
        r.0 != mode ==> input is Switch,
        r.1 is StartQrLogin <==> (mode == LoginMode::Pwd && r.0 == LoginMode::QrCode),
        r.1 is AbortQrLogin <==> (mode == LoginMode::QrCode && r.0 == LoginMode::Pwd),
        (r.1 is PasswordLogin || r.1 is TokenLogin) ==> mode == LoginMode::Pwd,
{
    match (mode, input) {
        (LoginMode::QrCode, Input::Login(_)) => (
            LoginMode::QrCode,
            ServerAction::Fail(owned("Under `QrCodeLogin` state can not using password login")),
        ),
        (LoginMode::Pwd, Input::Login(Login::Pwd(a, p))) => (LoginMode::Pwd, ServerAction::PasswordLogin(a, p)),
        (LoginMode::Pwd, Input::Login(Login::Token(t))) => (LoginMode::Pwd, ServerAction::TokenLogin(t)),
        (m, Input::LoginRespond(resp)) => (m, ServerAction::HandleResponse(resp)),
        (LoginMode::Pwd, Input::Switch(Switch::QrCode)) => (LoginMode::QrCode, ServerAction::StartQrLogin),
        (LoginMode::QrCode, Input::Switch(Switch::Password)) => (LoginMode::Pwd, ServerAction::AbortQrLogin),
        (LoginMode::QrCode, Input::Switch(Switch::QrCode)) => (LoginMode::QrCode, ServerAction::Nothing),
        (LoginMode::Pwd, Input::Switch(Switch::Password)) => (LoginMode::Pwd, ServerAction::Nothing),
        (m, Input::Stop) => (m, ServerAction::Stop),
    }
}


/// What answering a login response asks to be done.
#[derive(Debug, Clone, PartialEq, Eq)]
pub enum ResponseAction {
    /// Remember the account if asked to, then finish the login.
    FinishLogin,
    /// Write this picture, the QR code of the verification link, then ask
    /// the login page for a captcha (a failure to write is reported as a
    /// login failure).
    ShowCaptcha { verify_url: String, picture: Vec<u8> },
    /// Report a failure to the login page.
    Fail(String),
    /// Report the device lock, then open its window for this link and phone.
    DeviceLocked { notice: String, verify_url: String, sms_phone: Option<String> },
    /// Ask the server for a device lock login, then finish the login (or
    /// report the server's error).
    DeviceLockLogin,
}

/// The placeholder for a missing device lock link.
pub open spec fn unknown_link() -> Seq<char> {
    "<unknown>"@
}

/// The view of an optional string.
pub open spec fn opt_text(s: Option<String>) -> Option<Seq<char>> {
    match s {
        Some(t) => Some(t@),
        None => None,
    }
}

/// What a needed captcha asks to be done, once the QR code of its link was
/// drawn: show the picture, or report why it could not be drawn.
pub fn captcha_response(verify_url: String, picture: Result<Vec<u8>, String>) -> (r: ResponseAction)
    ensures
        match picture {
            Ok(png) => r == (ResponseAction::ShowCaptcha { verify_url, picture: png }),
            Err(e) => r == ResponseAction::Fail(e),
        },
{
    match picture {
        Ok(png) => ResponseAction::ShowCaptcha { verify_url, picture: png },
        Err(e) => ResponseAction::Fail(e),
    }
}

/// Answers a login response; for a needed captcha, draws the QR code of
/// its link.
pub fn handle_login_response(res: LoginResponse) -> (r: ResponseAction)
    requires
        res matches LoginResponse::NeedCaptcha { verify_url } ==> verify_url is Some,
    ensures
        match res {
            LoginResponse::Success => r is FinishLogin,
            LoginResponse::NeedCaptcha { verify_url } => match captcha_picture(verify_url->0@) {
                Ok(png) => r matches ResponseAction::ShowCaptcha { verify_url: u, picture }
                    && u == verify_url->0 && picture@ == png,
                Err(e) => r matches ResponseAction::Fail(t) && t@ == e,
            },
            LoginResponse::AccountFrozen => r matches ResponseAction::Fail(t) && t@ == "Account Frozen"@,
            LoginResponse::DeviceLocked { sms_phone, verify_url } => r matches ResponseAction::DeviceLocked { notice, verify_url: u, sms_phone: p }
                && notice@ == "Device Locked. See more in the pop-up window."@
                && u@ == (match verify_url { Some(v) => v@, None => unknown_link() })
                && p == sms_phone,
            LoginResponse::TooManySMSRequest => r matches ResponseAction::Fail(t) && t@ == "Too Many SMS Request"@,
            LoginResponse::DeviceLockLogin => r is DeviceLockLogin,
            LoginResponse::UnknownStatus { message } => r == ResponseAction::Fail(message),
        },
{
    match res {
        LoginResponse::Success => ResponseAction::FinishLogin,
        LoginResponse::NeedCaptcha { verify_url } => match verify_url {
            Some(url) => {
                let picture = captcha_qr_code(url.as_str());
                captcha_response(url, picture)
            },
            None => ResponseAction::Fail(String::new()),
        },
        LoginResponse::AccountFrozen => ResponseAction::Fail(owned("Account Frozen")),
        LoginResponse::DeviceLocked { sms_phone, verify_url } => ResponseAction::DeviceLocked {
            notice: owned("Device Locked. See more in the pop-up window."),
            verify_url: match verify_url {
                Some(v) => v,
                None => owned("<unknown>"),
            },
            sms_phone,
        },
        LoginResponse::TooManySMSRequest => ResponseAction::Fail(owned("Too Many SMS Request")),
        LoginResponse::DeviceLockLogin => ResponseAction::DeviceLockLogin,
        LoginResponse::UnknownStatus { message } => ResponseAction::Fail(message),
    }
}

/// What the login page learns from polling the acknowledgement of the last input.
#[derive(Debug, Clone, PartialEq, Eq)]
pub enum Feedback {
    /// The login server acknowledged the last input.
    Done,
    /// The login server is still at work on it.
    Pending,
    /// The login server is gone.
    Closed,
}

/// What handing an input to the login server's queue gave.
#[derive(Debug, Clone, PartialEq, Eq)]
pub enum Delivery {
    Sent,
    Full,
    Closed,
}

/// What happens while the login page hands an input to the login server.
#[derive(Debug, Clone, PartialEq, Eq)]
pub enum SendEvent {
    /// A new input is to be handed over.
    NewInput,
    /// The acknowledgement of the previous input was polled.
    Polled(Feedback),
    /// The new input was offered to the queue.
    Offered(Delivery),
}

/// What the login page does next while handing an input over.
#[derive(Debug, Clone, PartialEq, Eq)]
pub enum SendAction {
    /// Poll the acknowledgement of the previous input.
    Poll,
    /// Offer the new input to the queue.
    Offer,
    /// Stop: the input was handed over, or the user was told why not.
    Finish,
}

/// The login page's side of the login server's queue: whether an input
/// handed over is still waiting for its acknowledgement.
#[derive(Debug, Clone, PartialEq, Eq)]
pub struct Sender {
    pub waiting: bool,
}

/// The notice for an input given while the last one is still at work.
pub open spec fn busy_notice() -> Seq<char> {
    "Previous login task not finish yet,please wait"@
}

/// The notice for a login server that is gone.
pub open spec fn closed_notice() -> Seq<char> {
    "Login Server Closed"@
}

/// The notice for a full queue.
pub open spec fn full_notice() -> Seq<char> {
    "Channel Buff Full,Please wait"@
}

impl Sender {
    /// A sender with nothing handed over yet.
    pub fn new() -> (r: Sender)
        ensures
            !r.waiting,
    {
        Sender { waiting: false }
    }

    /// A copy of the sender starts with nothing handed over.
    pub fn clone_sender(&self) -> (r: Sender)
        ensures
            !r.waiting,
    {
        Sender { waiting: false }
    }

    /// One step of handing an input to the login server: the previous
    /// input's acknowledgement is polled first when one is awaited, and the
    /// new input is offered only when none is awaited; so at most one input
    /// is at work at a time. Says what to tell the user, if anything, and
    /// what to do next.
    pub fn step(&mut self, event: SendEvent) -> (r: (Option<String>, SendAction))
        ensures
            match event {
                SendEvent::NewInput => r.0 is None && final(self).waiting == old(self).waiting
                    && r.1 == (if old(self).waiting { SendAction::Poll } else { SendAction::Offer }),
                SendEvent::Polled(Feedback::Done) => r.0 is None && !final(self).waiting && r.1 is Offer,
                SendEvent::Polled(Feedback::Pending) => final(self).waiting == old(self).waiting
                    && (r.0 is Some && r.0->0@ == busy_notice())
                    && r.1 == (if old(self).waiting { SendAction::Finish } else { SendAction::Offer }),
                SendEvent::Polled(Feedback::Closed) => final(self).waiting == old(self).waiting
                    && (r.0 is Some && r.0->0@ == closed_notice())
                    && r.1 == (if old(self).waiting { SendAction::Finish } else { SendAction::Offer }),
                SendEvent::Offered(Delivery::Sent) => r.0 is None && final(self).waiting && r.1 is Finish,
                SendEvent::Offered(Delivery::Full) => final(self).waiting == old(self).waiting
                    && (r.0 is Some && r.0->0@ == full_notice()) && r.1 is Finish,
                SendEvent::Offered(Delivery::Closed) => final(self).waiting == old(self).waiting
                    && (r.0 is Some && r.0->0@ == closed_notice()) && r.1 is Finish,
            },
            r.1 is Offer ==> !final(self).waiting,
    {
        match event {
            SendEvent::NewInput => {
                if self.waiting {
                    (None, SendAction::Poll)
                } else {
                    (None, SendAction::Offer)
                }
            },
            SendEvent::Polled(feedback) => {
                let notice = self.on_feedback(feedback);
                if self.waiting {
                    (notice, SendAction::Finish)
                } else {
                    (notice, SendAction::Offer)
                }
            },
            SendEvent::Offered(delivery) => (self.on_delivery(delivery), SendAction::Finish),
        }
    }

    /// The acknowledgement of the last input was polled: once acknowledged,
    /// the next input may be handed over; otherwise the user is told why not.
    pub fn on_feedback(&mut self, feedback: Feedback) -> (r: Option<String>)
        ensures
            match feedback {
                Feedback::Done => !final(self).waiting && r is None,
                Feedback::Pending => final(self).waiting == old(self).waiting && r is Some && r->0@ == busy_notice(),
                Feedback::Closed => final(self).waiting == old(self).waiting && r is Some && r->0@ == closed_notice(),
            },
    {
        match feedback {
            Feedback::Done => {
                self.waiting = false;
                None
            },
            Feedback::Pending => Some(owned("Previous login task not finish yet,please wait")),
            Feedback::Closed => Some(owned("Login Server Closed")),
        }
    }

    /// An input was offered to the queue: once it is in, its acknowledgement
    /// is awaited; otherwise the user is told why it is not.
    pub fn on_delivery(&mut self, delivery: Delivery) -> (r: Option<String>)
        ensures
            match delivery {
                Delivery::Sent => final(self).waiting && r is None,
                Delivery::Full => final(self).waiting == old(self).waiting && r is Some && r->0@ == full_notice(),
                Delivery::Closed => final(self).waiting == old(self).waiting && r is Some && r->0@ == closed_notice(),
            },
    {
        match delivery {
            Delivery::Sent => {
                self.waiting = true;
                None
            },
            Delivery::Full => Some(owned("Channel Buff Full,Please wait")),
            Delivery::Closed => Some(owned("Login Server Closed")),
        }
    }
}

/// The state of the QR code on the server's side.
#[derive(Debug, Clone, PartialEq, Eq)]
pub enum QrCodeState {
    /// A new QR code, with its picture and its signature.
    ImageFetch { image: Vec<u8>, sig: Vec<u8> },
    WaitingForScan,
    WaitingForConfirm,
    Timeout,
    /// Scanned and confirmed: what the login needs.
    Confirmed { tmp_pwd: Vec<u8>, tmp_no_pic_sig: Vec<u8>, tgt_qr: Vec<u8> },
    Canceled,
}

/// What the QR-code login loop does next.
#[derive(Debug, Clone, PartialEq, Eq)]
pub enum QrAction {
    /// Write this picture, tell the login page, then wait and ask again.
    ShowImage(Vec<u8>),
    /// Wait, then ask the server again.
    Wait,
    /// Fetch a new QR code at once.
    FetchAgain,
    /// Log in with the confirmed QR code, report the answer and leave the loop.
    Login { tmp_pwd: Vec<u8>, tmp_no_pic_sig: Vec<u8>, tgt_qr: Vec<u8> },
    /// Report this failure to the login page and leave the loop.
    Fail(String),
}

/// How one turn of the QR-code login loop on `state` goes from `before` to
/// `after`, answering `r`.
pub open spec fn qr_stepped(before: QrLogin, after: QrLogin, state: QrCodeState, r: QrAction) -> bool {
    match state {
        QrCodeState::ImageFetch { image, sig } => r == QrAction::ShowImage(image)
            && after.signature is Some && after.signature->0@ == sig@,
        QrCodeState::WaitingForScan => r is Wait && after.signature == before.signature,
        QrCodeState::WaitingForConfirm => r is Wait && after.signature == before.signature,
        QrCodeState::Timeout => r is FetchAgain && after.signature == before.signature,
        QrCodeState::Confirmed { tmp_pwd, tmp_no_pic_sig, tgt_qr } => r == (QrAction::Login { tmp_pwd, tmp_no_pic_sig, tgt_qr })
            && after.signature == before.signature,
        QrCodeState::Canceled => false,
    }
}

/// What the login page is told of a login attempt: the server's response,
/// or the error of the request as a failed login.
pub fn report_login(res: Result<LoginResponse, String>) -> (r: LoginPageMsg)
    ensures
        match res {
            Ok(resp) => r == LoginPageMsg::LoginRespond(resp),
            Err(e) => r == LoginPageMsg::LoginFailed(e),
        },
{
    match res {
        Ok(resp) => LoginPageMsg::LoginRespond(resp),
        Err(e) => LoginPageMsg::LoginFailed(e),
    }
}

/// The QR-code login loop: the signature of the last QR code shown.
#[derive(Debug, Clone, PartialEq, Eq)]
pub struct QrLogin {
    pub signature: Option<Vec<u8>>,
}

impl QrLogin {
    /// A loop that has shown no QR code yet.
    pub fn new() -> (r: QrLogin)
        ensures
            r.signature is None,
    {
        QrLogin { signature: None }
    }

    /// One turn of the loop on the state the server reported. A canceled
    /// QR code is not handled.
    pub fn step(&mut self, state: QrCodeState) -> (r: QrAction)
        requires
            !(state is Canceled),
        ensures
            qr_stepped(*old(self), *final(self), state, r),
    {
        match state {
            QrCodeState::ImageFetch { image, sig } => {
                self.signature = Some(sig);
                QrAction::ShowImage(image)
            },
            QrCodeState::WaitingForScan => QrAction::Wait,
            QrCodeState::WaitingForConfirm => QrAction::Wait,
            QrCodeState::Timeout => QrAction::FetchAgain,
            QrCodeState::Confirmed { tmp_pwd, tmp_no_pic_sig, tgt_qr } => QrAction::Login { tmp_pwd, tmp_no_pic_sig, tgt_qr },
            QrCodeState::Canceled => QrAction::Wait,
        }
    }

    /// One turn of the loop on what the server answered to a request for a
    /// QR code or for its state: an error is reported to the login page as
    /// a failed login and ends the loop; a state is handled as by [`Self::step`].
    pub fn answer(&mut self, answer: Result<QrCodeState, String>) -> (r: QrAction)
        requires
            answer matches Ok(state) ==> !(state is Canceled),
        ensures
            match answer {
                Ok(state) => qr_stepped(*old(self), *final(self), state, r),
                Err(e) => r == QrAction::Fail(e) && final(self).signature == old(self).signature,
            },
    {
        match answer {
            Ok(state) => self.step(state),
            Err(e) => QrAction::Fail(e),
        }
    }

    /// The signature to ask about: that of the last QR code shown, or empty.
    pub fn query_signature(&self) -> (r: Vec<u8>)
        ensures
            r@ == (match self.signature {
                Some(s) => s@,
                None => Seq::<u8>::empty(),
            }),
    {
        match &self.signature {
            Some(s) => {
                let mut out: Vec<u8> = Vec::new();
                let mut i: usize = 0;
                while i < s.len()
                    invariant
                        0 <= i <= s@.len(),
                        out@ == s@.subrange(0, i as int),
                    decreases s@.len() - i,
                {
                    out.push(s[i]);
                    proof {
                        assert(s@.subrange(0, i + 1) =~= s@.subrange(0, i as int).push(s@[i as int]));
                    }
                    i = i + 1;
                }
                proof {
                    assert(s@.subrange(0, s@.len() as int) =~= s@);
                }
                out
            },
            None => Vec::new(),
        }
    }
}


/// What the captcha window is told.
#[derive(Debug, Clone, PartialEq, Eq)]
pub enum CaptchaInput {
    UpdateTicket(String),
    Submit,
    CloseWindow,
}

/// What the captcha window asks to be done.
#[derive(Debug, Clone, PartialEq, Eq)]
pub enum CaptchaAction {
    /// Send this ticket to the server.
    SubmitTicket(String),
    /// Close the window.
    CloseWindow,
    /// Nothing more.
    Nothing,
}

/// The page of the app that scans a captcha and gives its ticket.
pub open spec fn scanner_app_url() -> Seq<char> {
    "https://github.com/mzdluo123/TxCaptchaHelper"@
}

/// The label of the verification link in the captcha window.
pub open spec fn verification_link_label() -> Seq<char> {
    "Verification Link"@
}

/// The captcha window: the ticket typed so far.
#[derive(Debug, Clone, PartialEq, Eq)]
pub struct CaptchaModel {
    pub ticket: String,
}

impl CaptchaModel {
    /// A captcha window with no ticket typed yet.
    pub fn new() -> (r: CaptchaModel)
        ensures
            r.ticket@.len() == 0,
    {
        CaptchaModel { ticket: String::new() }
    }

    /// Handles one message of the captcha window.
    pub fn update(&mut self, input: CaptchaInput) -> (r: CaptchaAction)
        ensures
            match input {
                CaptchaInput::UpdateTicket(t) => final(self).ticket == t && r is Nothing,
                CaptchaInput::Submit => final(self).ticket == old(self).ticket
                    && (r matches CaptchaAction::SubmitTicket(t) && t@ == old(self).ticket@),
                CaptchaInput::CloseWindow => final(self).ticket == old(self).ticket && r is CloseWindow,
            },
    {
        match input {
            CaptchaInput::UpdateTicket(t) => {
                self.ticket = t;
                CaptchaAction::Nothing
            },
            CaptchaInput::Submit => CaptchaAction::SubmitTicket(self.ticket.clone()),
            CaptchaInput::CloseWindow => CaptchaAction::CloseWindow,
        }
    }

    /// The two links the captcha window offers: the page of the ticket
    /// scanner app, and the verification link itself, labelled as such.
    pub fn links(verify_url: String) -> (r: (LinkerCopierCfg, LinkerCopierCfg))
        ensures
            r.0.url@ == scanner_app_url(),
            r.0.label is None,
            r.0.ty == LinkCopierState::Both,
            r.1.url == verify_url,
            r.1.label is Some && r.1.label->0@ == verification_link_label(),
            r.1.ty == LinkCopierState::Both,
    {
        let scanner = LinkerCopierCfg::new(owned("https://github.com/mzdluo123/TxCaptchaHelper"));
        let mut verify = LinkerCopierCfg::new(verify_url);
        verify.label = Some(owned("Verification Link"));
        (scanner, verify)
    }

    /// What the login page is told once the server answered the ticket:
    /// its response, or its error. The window closes afterwards either way.
    pub fn submit_result(res: Result<LoginResponse, String>) -> (r: LoginPageMsg)
        ensures
            match res {
                Ok(resp) => r == LoginPageMsg::LoginRespond(resp),
                Err(e) => r == LoginPageMsg::LoginFailed(e),
            },
    {
        match res {
            Ok(resp) => LoginPageMsg::LoginRespond(resp),
            Err(e) => LoginPageMsg::LoginFailed(e),
        }
    }
}

/// The device lock window.
#[derive(Debug, Clone, PartialEq, Eq)]
pub struct DeviceLock;

/// The request shown in the device lock window, naming the phone the
/// server sends an SMS to, or `<unknown>`.
pub open spec fn device_lock_prompt(sms_phone: Option<Seq<char>>) -> Seq<char> {
    "Please open the link below and use your logged in device[sms:"@
        + (match sms_phone {
            Some(p) => p,
            None => unknown_link(),
        })
        + "] to verify"@
}

/// The label of the unlock link in the device lock window.
pub open spec fn device_lock_link_label() -> Seq<char> {
    "Device Lock Verification"@
}

impl DeviceLock {
    /// The request shown in the window.
    pub fn prompt(sms_phone: Option<String>) -> (r: String)
        ensures
            r@ == device_lock_prompt(opt_text(sms_phone)),
    {
        let mut out = owned("Please open the link below and use your logged in device[sms:");
        match sms_phone {
            Some(p) => push_str(&mut out, p.as_str()),
            None => push_str(&mut out, "<unknown>"),
        }
        push_str(&mut out, "] to verify");
        out
    }

    /// The unlock link the window offers, labelled as such.
    pub fn link(unlock_url: String) -> (r: LinkerCopierCfg)
        ensures
            r.url == unlock_url,
            r.label is Some && r.label->0@ == device_lock_link_label(),
            r.ty == LinkCopierState::Both,
    {
        let mut cfg = LinkerCopierCfg::new(unlock_url);
        cfg.label = Some(owned("Device Lock Verification"));
        cfg
    }
}

/// The page the application window shows.
#[derive(Debug, Clone, PartialEq, Eq)]
pub enum Page {
    Login,
    Main,
}

/// What the application is told.
#[derive(Debug, Clone, PartialEq, Eq)]
pub enum AppMessage {
    LoginSuccessful,
}

/// The application window.
#[derive(Debug, Clone, PartialEq, Eq)]
pub struct AppModel {
    pub page: Page,
}

impl AppModel {
    /// The window starts on the login page.
    pub fn new() -> (r: AppModel)
        ensures
            r.page == Page::Login,
    {
        AppModel { page: Page::Login }
    }

    /// After a successful login the window shows the main page.
    pub fn update(&mut self, msg: AppMessage)
        ensures
            final(self).page == Page::Main,
    {
        match msg {
            AppMessage::LoginSuccessful => self.page = Page::Main,
        }
    }
}

} // verus!
