use send_to_vrc::gui::logic::{auth_cookie_of, LoginError};
use send_to_vrc::gui::config::Config;
use send_to_vrc::gui::logic::{
    needs_downscale, pasrse_args, two_factor_step, ArgsError, Command, LogLevel,
    TwoFactorAuthenticationCode, TwoFactorStep,
};
use send_to_vrc::gui::ui::{AsyncTask, Gui, GuiState, Shared};
use std::sync::{Arc, Mutex};

fn args(a: &[&str]) -> Vec<String> {
    a.iter().map(|s| s.to_string()).collect()
}

fn finished<T>(r: Result<T, String>) -> Shared<T, String> {
    Arc::new(Mutex::new(Some(r)))
}

#[test]
fn default_config_has_version_and_no_key() {
    let c = Config::default();
    assert_eq!(c.version(), Some(1));
    assert_eq!(c.get_vrchat_api_key(), None);
    let mut c = Config::missing();
    assert_eq!(c.version(), None);
    c.set_vrchat_api_key("key".to_string());
    assert_eq!(c.get_vrchat_api_key(), Some("key"));
}

#[test]
fn args_upload_file() {
    let o = pasrse_args(&args(&["prog", "image.png"])).unwrap();
    assert!(matches!(o.command, Command::Upload { ref file_path } if file_path == "image.png"));
    assert_eq!(o.log_level, LogLevel::Warn);
}

#[test]
fn args_flags_then_command() {
    let o = pasrse_args(&args(&["prog", "--debug", "config"])).unwrap();
    assert!(matches!(o.command, Command::Config));
    assert_eq!(o.log_level, LogLevel::Debug);
    let o = pasrse_args(&args(&["prog", "--verbose", "--trace", "version"])).unwrap();
    assert!(matches!(o.command, Command::Version));
    assert_eq!(o.log_level, LogLevel::Trace);
    let o = pasrse_args(&args(&["prog", "-h", "whatever", "else"])).unwrap();
    assert!(matches!(o.command, Command::Help));
    let o = pasrse_args(&args(&["prog", "notice"])).unwrap();
    assert!(matches!(o.command, Command::Notice));
}

#[test]
fn args_errors() {
    assert_eq!(pasrse_args(&[]).err(), Some(ArgsError::NoProgramName));
    assert_eq!(pasrse_args(&args(&["prog"])).err(), Some(ArgsError::NoCommand));
    assert_eq!(pasrse_args(&args(&["prog", "--verbose"])).err(), Some(ArgsError::NoCommand));
    assert_eq!(
        pasrse_args(&args(&["prog", "a.png", "b.png"])).err(),
        Some(ArgsError::MultipleCommands)
    );
    assert_eq!(
        pasrse_args(&args(&["prog", "version", "--verbose"])).err(),
        Some(ArgsError::MultipleCommands)
    );
}

#[test]
fn downscale_only_above_print_size() {
    assert!(!needs_downscale(1920, 1080));
    assert!(needs_downscale(1921, 1080));
    assert!(needs_downscale(100, 1081));
}

#[test]
fn two_factor_steps() {
    let totp = Some(vec!["totp".to_string(), "otp".to_string()]);
    assert!(matches!(
        two_factor_step(totp.clone(), TwoFactorAuthenticationCode::Totp("123456".to_string())),
        Some(TwoFactorStep::VerifyTotp(ref c)) if c == "123456"
    ));
    assert!(two_factor_step(totp, TwoFactorAuthenticationCode::Absent).is_none());
    assert!(matches!(
        two_factor_step(
            Some(vec!["emailotp".to_string()]),
            TwoFactorAuthenticationCode::EmailOtp("9".to_string())
        ),
        Some(TwoFactorStep::VerifyEmailOtp(_))
    ));
    assert!(matches!(
        two_factor_step(None, TwoFactorAuthenticationCode::Totp("1".to_string())),
        Some(TwoFactorStep::NotRequired)
    ));
    assert!(matches!(
        two_factor_step(Some(vec![]), TwoFactorAuthenticationCode::Absent),
        Some(TwoFactorStep::NotRequired)
    ));
}

#[test]
fn upload_without_key_shows_error() {
    let mut gui = Gui::with_config(Config::default());
    gui.upload("a.png", |_p, _k| finished(Ok(())));
    assert!(matches!(gui.state(), GuiState::Error(m) if m == "VRChat API Key is not set in config."));
}

#[test]
fn upload_runs_and_completes() {
    let mut c = Config::default();
    c.set_vrchat_api_key("secret".to_string());
    let mut gui = Gui::with_config(c);
    let seen = Arc::new(Mutex::new(None));
    let seen2 = seen.clone();
    gui.upload("a.png", move |p, k| {
        *seen2.lock().unwrap() = Some((p, k));
        finished(Ok(()))
    });
    assert!(matches!(gui.state(), GuiState::Uploading(_)));
    assert_eq!(
        seen.lock().unwrap().clone(),
        Some(("a.png".to_string(), "secret".to_string()))
    );
    gui.poll();
    assert!(matches!(gui.state(), GuiState::Uploaded));
}

#[test]
fn failed_upload_shows_its_message() {
    let mut c = Config::default();
    c.set_vrchat_api_key("secret".to_string());
    let mut gui = Gui::with_config(c);
    gui.upload("a.png", |_p, _k| finished(Err("offline".to_string())));
    gui.poll();
    assert!(matches!(gui.state(), GuiState::Error(m) if m == "offline"));
}

#[test]
fn pending_task_keeps_waiting() {
    let slot: Shared<(), String> = Arc::new(Mutex::new(None));
    let mut task = AsyncTask::from_shared(slot.clone());
    assert!(task.seek().is_none());
    assert!(!task.is_taken());
    *slot.lock().unwrap() = Some(Ok(()));
    assert!(matches!(task.seek(), Some(Ok(()))));
    assert!(task.is_taken());
}

#[test]
fn login_screen_and_settings_screen() {
    let mut gui = Gui::with_config(Config::default());
    gui.login();
    assert!(matches!(gui.state(), GuiState::Login { user_name, password, .. } if user_name.is_empty() && password.is_empty()));
    gui.poll();
    assert!(matches!(gui.state(), GuiState::Error(m) if m == "Not started"));
    gui.config();
    assert!(matches!(gui.state(), GuiState::Config(_, false)));
    gui.edit_api_key("new".to_string());
    assert_eq!(gui.current_config().get_vrchat_api_key(), None);
    gui.config_saved();
    assert!(matches!(gui.state(), GuiState::Config(_, true)));
    assert_eq!(gui.current_config().get_vrchat_api_key(), Some("new"));
}

#[test]
fn login_task_success_returns_to_start() {
    let mut gui = Gui::with_config(Config::default());
    gui.login();
    let mut state = GuiState::Init;
    state.login();
    state.start_login(|u, p| {
        assert_eq!((u.as_str(), p.as_str()), ("", ""));
        finished(Ok("auth".to_string()))
    });
    state.poll();
    assert!(matches!(state, GuiState::Init));
    gui.error("boom".to_string());
    assert!(matches!(gui.state(), GuiState::Error(m) if m == "boom"));
}

#[test]
fn auth_cookie_is_found_among_headers() {
    let headers = vec![
        "twoFactorAuth=abc; Path=/".to_string(),
        "auth=authcookie_123; Path=/; HttpOnly".to_string(),
    ];
    assert_eq!(auth_cookie_of(&headers).unwrap(), "authcookie_123");
    let later = vec!["auth=first".to_string(), "auth=second; Path=/".to_string()];
    assert_eq!(auth_cookie_of(&later).unwrap(), "second");
    assert_eq!(auth_cookie_of(&vec!["other=1".to_string()]), Err(LoginError::NoAuthCookie));
    assert_eq!(auth_cookie_of(&vec![]), Err(LoginError::NoAuthCookie));
}
