use energyflag::update::{consent_dialog, notice_dialog, update_step, UpdateAction, UpdateEvent, UpdateNotice, UpdateState};

const BODY: &str = r#"{"tag_name":"v0.5.0","assets":[{"browser_download_url":"https://example.com/EnergyFlag-Setup.exe"}]}"#;

fn fetched(body: &str) -> UpdateEvent {
    UpdateEvent::ReleaseFetched { body: Some(body.to_string()) }
}

#[test]
fn full_update_path() {
    let (s, a) = update_step(UpdateState::Idle, UpdateEvent::Start { nonce: 17 }, "0.4.0");
    assert!(matches!(s, UpdateState::FetchingRelease));
    match a {
        UpdateAction::FetchRelease { url } => assert!(url.ends_with("releases/latest?_=17")),
        _ => panic!("expected a fetch"),
    }
    let (s, a) = update_step(s, fetched(BODY), "0.4.0");
    match (&s, &a) {
        (UpdateState::AwaitingConsent { installer_url }, UpdateAction::AskConsent { latest }) => {
            assert_eq!(installer_url, "https://example.com/EnergyFlag-Setup.exe");
            assert_eq!(latest, "v0.5.0");
        }
        _ => panic!("expected an offer"),
    }
    let (s, a) = update_step(s, UpdateEvent::Consent { accepted: true }, "0.4.0");
    assert!(matches!(s, UpdateState::FetchingInstaller));
    match a {
        UpdateAction::FetchInstaller { url } => assert_eq!(url, "https://example.com/EnergyFlag-Setup.exe"),
        _ => panic!("expected the installer download"),
    }
    let (s, a) = update_step(s, UpdateEvent::InstallerFetched { ok: true }, "0.4.0");
    assert!(matches!(s, UpdateState::Idle));
    assert!(matches!(a, UpdateAction::RunInstallerAndQuit));
}

#[test]
fn update_ends_with_a_notice() {
    let (s, a) = update_step(UpdateState::FetchingRelease, UpdateEvent::ReleaseFetched { body: None }, "0.4.0");
    assert!(matches!(s, UpdateState::Idle));
    assert!(matches!(a, UpdateAction::Notify { notice: UpdateNotice::NoConnection }));

    let (_, a) = update_step(UpdateState::FetchingRelease, fetched(""), "0.4.0");
    assert!(matches!(a, UpdateAction::Notify { notice: UpdateNotice::Unreadable }));

    let (_, a) = update_step(UpdateState::FetchingRelease, fetched(BODY), "0.5.0");
    match a {
        UpdateAction::Notify { notice: UpdateNotice::UpToDate { latest } } => assert_eq!(latest, "v0.5.0"),
        _ => panic!("expected up to date"),
    }

    let (_, a) = update_step(UpdateState::FetchingRelease, fetched(r#"{"tag_name":"v1.0.0"}"#), "0.5.0");
    match a {
        UpdateAction::Notify { notice: UpdateNotice::NoInstaller { latest } } => assert_eq!(latest, "v1.0.0"),
        _ => panic!("expected no installer"),
    }

    let (s, a) = update_step(UpdateState::FetchingInstaller, UpdateEvent::InstallerFetched { ok: false }, "0.4.0");
    assert!(matches!(s, UpdateState::Idle));
    assert!(matches!(a, UpdateAction::Notify { notice: UpdateNotice::DownloadFailed }));
}

#[test]
fn declining_or_stray_events_change_nothing_harmful() {
    let waiting = UpdateState::AwaitingConsent { installer_url: "u.exe".to_string() };
    let (s, a) = update_step(waiting, UpdateEvent::Consent { accepted: false }, "0.4.0");
    assert!(matches!(s, UpdateState::Idle));
    assert!(matches!(a, UpdateAction::Nothing));

    let (s, a) = update_step(UpdateState::Idle, UpdateEvent::InstallerFetched { ok: true }, "0.4.0");
    assert!(matches!(s, UpdateState::Idle));
    assert!(matches!(a, UpdateAction::Nothing));

    let waiting = UpdateState::AwaitingConsent { installer_url: "u.exe".to_string() };
    let (s, a) = update_step(waiting, UpdateEvent::InstallerFetched { ok: true }, "0.4.0");
    match s {
        UpdateState::AwaitingConsent { installer_url } => assert_eq!(installer_url, "u.exe"),
        _ => panic!("state should not move"),
    }
    assert!(matches!(a, UpdateAction::Nothing));
}

#[test]
fn dialog_texts() {
    let d = notice_dialog(&UpdateNotice::UpToDate { latest: "v0.5.0".to_string() });
    assert_eq!(d.heading, "Tudo atualizado");
    assert_eq!(d.body, "Você já está na versão mais recente (v0.5.0).");
    assert_eq!((d.primary.as_str(), d.secondary.as_str()), ("OK", ""));
    let d = notice_dialog(&UpdateNotice::NoInstaller { latest: "v1.0.0".to_string() });
    assert_eq!(d.body, "A versão v1.0.0 está disponível, mas o instalador não foi encontrado no release.");
    let d = notice_dialog(&UpdateNotice::NoConnection);
    assert_eq!(d.heading, "Sem conexão");
    let d = notice_dialog(&UpdateNotice::DownloadFailed);
    assert_eq!(d.body, "Não foi possível baixar o instalador. Tente novamente mais tarde.");
    let d = notice_dialog(&UpdateNotice::Unreadable);
    assert_eq!(d.heading, "Não foi possível verificar");
    let d = consent_dialog("v0.5.0", "0.4.0");
    assert_eq!(d.heading, "Atualização disponível");
    assert_eq!(
        d.body,
        "A versão v0.5.0 está disponível (você tem v0.4.0).\n\nAtualizar agora? O EnergyFlag será reiniciado automaticamente — sem assistente de instalação."
    );
    assert_eq!((d.primary.as_str(), d.secondary.as_str()), ("Atualizar agora", "Depois"));
}
