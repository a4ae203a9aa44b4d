//! The page of a login by QR code.
use crate::decimal::{format_i64, signed_decimal_text};
use vstd::prelude::*;
use vstd::string::StringExecFns;

verus! {

broadcast use vstd::string::group_string_axioms;

/// The image that stands for `data` as a QR code of medium error correction,
/// drawn with two modules per character; `None` where `data` fits no QR code.
pub uninterp spec fn qr_image(data: Seq<char>) -> Option<Seq<char>>;

/// Draws `data` as a QR code with `qrcode::QrCode::new`, and the code as text
/// with its `render` for `Dense1x2` and `build`. The result is what `qr_image`
/// names: the image, or `None` where `QrCode::new` reports an error.
#[verifier::external_body]
fn render_qrcode(data: &str) -> (image: Option<String>)
    ensures
        match image {
            Some(text) => qr_image(data@) == Some(text@),
            None => qr_image(data@) is None,
        },
{
    match qrcode::QrCode::new(data.as_bytes()) {
        Ok(code) => Some(code.render::<qrcode::render::unicode::Dense1x2>().build()),
        Err(_) => None,
    }
}

/// A stage of the login, as the service reports it.
#[derive(Clone, Debug, PartialEq, Eq)]
pub enum LoginState {
    FetchingQrcode,
    /// The text to be shown as a QR code.
    ScaningQrcode(String),
    QrcodeExpired,
    QrcodeScanFinished,
    UnexpectedCode(i64),
    Success { url: String },
}

/// Whether the task behind a session goes on.
#[derive(Clone, Copy, Debug, PartialEq, Eq, Structural)]
pub enum Progress {
    /// The task waits for what comes next.
    Running,
    /// The task has seen its last event and ends.
    Finished,
    /// The task cannot go on; the page keeps what it showed.
    Failed,
}

/// The state of a login session: a QR code, if there is one to scan, and a
/// line that says how far the login is.
#[derive(Clone, Debug, PartialEq, Eq)]
pub struct LoginPage {
    qrcode: Option<String>,
    lint: String,
}

/// What a login page shows.
pub struct LoginPageView {
    pub qrcode: Option<Seq<char>>,
    pub lint: Seq<char>,
}

/// The views of an optional text.
pub open spec fn text_view(text: Option<String>) -> Option<Seq<char>> {
    match text {
        Some(t) => Some(t@),
        None => None,
    }
}

/// The line of a page after the login has reached `state`.
pub open spec fn lint_after(lint: Seq<char>, state: LoginState) -> Seq<char> {
    match state {
        LoginState::FetchingQrcode => "请求二维码中"@,
        LoginState::ScaningQrcode(_) => lint,
        LoginState::QrcodeExpired => "二维码已过期"@,
        LoginState::QrcodeScanFinished => "已扫描，登陆中"@,
        LoginState::UnexpectedCode(code) => "意外的状态码: "@ + signed_decimal_text(code as int),
        LoginState::Success { .. } => "登录成功"@,
    }
}

/// The QR code of a page after the login has reached `state`, where `image` is
/// the code drawn for a state that brings one.
pub open spec fn qrcode_after(
    qrcode: Option<Seq<char>>,
    state: LoginState,
    image: Option<Seq<char>>,
) -> Option<Seq<char>> {
    match state {
        LoginState::ScaningQrcode(_) => if image is Some {
            image
        } else {
            qrcode
        },
        LoginState::QrcodeScanFinished | LoginState::Success { .. } => None,
        _ => qrcode,
    }
}

/// How the task goes on after `state`: a text that cannot be drawn as a QR
/// code stops it, and so does the end of the login, good or bad.
pub open spec fn progress_after(state: LoginState, image: Option<Seq<char>>) -> Progress {
    match state {
        LoginState::ScaningQrcode(_) => if image is Some {
            Progress::Running
        } else {
            Progress::Failed
        },
        LoginState::UnexpectedCode(_) | LoginState::Success { .. } => Progress::Finished,
        _ => Progress::Running,
    }
}

/// The QR code that `state` brings, if it brings one that can be drawn.
pub open spec fn image_of(state: LoginState) -> Option<Seq<char>> {
    match state {
        LoginState::ScaningQrcode(text) => qr_image(text@),
        _ => None,
    }
}

impl View for LoginPage {
    type V = LoginPageView;

    closed spec fn view(&self) -> LoginPageView {
        LoginPageView { qrcode: text_view(self.qrcode), lint: self.lint@ }
    }
}

impl LoginPage {
    /// The page before the login has begun: no QR code, an empty line.
    pub fn new() -> (page: Self)
        ensures
            page@.qrcode is None,
            page@.lint == Seq::<char>::empty(),
    {
        LoginPage { qrcode: None, lint: String::new() }
    }

    /// The QR code to scan, drawn as text.
    pub fn qrcode(&self) -> (image: Option<&String>)
        ensures
            match image {
                Some(text) => self@.qrcode == Some(text@),
                None => self@.qrcode is None,
            },
    {
        self.qrcode.as_ref()
    }

    /// The line that says how far the login is.
    pub fn lint(&self) -> (line: &str)
        ensures
            line@ == self@.lint,
    {
        self.lint.as_str()
    }

    /// Brings the page up to `state`, given the QR code drawn for it: `image`
    /// counts only where `state` brings a code.
    pub fn on_state_with(&mut self, state: &LoginState, image: Option<String>) -> (progress:
        Progress)
        ensures
            final(self)@.lint == lint_after(old(self)@.lint, *state),
            final(self)@.qrcode == qrcode_after(old(self)@.qrcode, *state, text_view(image)),
            progress == progress_after(*state, text_view(image)),
    {
        match state {
            LoginState::FetchingQrcode => {
                self.lint = "请求二维码中".to_string();
                Progress::Running
            },
            LoginState::ScaningQrcode(_) => {
                match image {
                    Some(text) => {
                        self.qrcode = Some(text);
                        Progress::Running
                    },
                    None => Progress::Failed,
                }
            },
            LoginState::QrcodeExpired => {
                self.lint = "二维码已过期".to_string();
                Progress::Running
            },
            LoginState::QrcodeScanFinished => {
                self.lint = "已扫描，登陆中".to_string();
                self.qrcode = None;
                Progress::Running
            },
            LoginState::UnexpectedCode(code) => {
                let mut line = "意外的状态码: ".to_string();
                line.append(format_i64(*code).as_str());
                self.lint = line;
                Progress::Finished
            },
            LoginState::Success { .. } => {
                self.lint = "登录成功".to_string();
                self.qrcode = None;
                Progress::Finished
            },
        }
    }

    /// Brings the page up to `state`; a text to scan is drawn as a QR code
    /// first.
    pub fn on_state(&mut self, state: &LoginState) -> (progress: Progress)
        ensures
            final(self)@.lint == lint_after(old(self)@.lint, *state),
            final(self)@.qrcode == qrcode_after(old(self)@.qrcode, *state, image_of(*state)),
            progress == progress_after(*state, image_of(*state)),
    {
        let image = match state {
            LoginState::ScaningQrcode(text) => render_qrcode(text.as_str()),
            _ => None,
        };
        self.on_state_with(state, image)
    }
}

impl Default for LoginPage {
    fn default() -> (page: Self)
        ensures
            page@.qrcode is None,
            page@.lint == Seq::<char>::empty(),
    {
        LoginPage::new()
    }
}

} // verus!
