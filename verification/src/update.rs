//! The "Check for updates…" flow as a state machine: the caller performs each
//! action (a download, a dialog, starting the installer) and reports back what
//! came of it.

use vstd::prelude::*;
use crate::release::{assess_release, exe_asset_from, is_newer, latest_release_url, latest_tag, release_api_url, ReleaseCheck};

verus! {

/// Where the update flow stands.
pub enum UpdateState {
    /// Nothing under way.
    Idle,
    /// The "latest release" answer is being downloaded.
    FetchingRelease,
    /// The user was offered the release whose installer is at `installer_url`.
    AwaitingConsent { installer_url: String },
    /// The installer is being downloaded.
    FetchingInstaller,
}

/// What the caller reports back.
pub enum UpdateEvent {
    /// The user asked for an update check; `nonce` (the time in seconds) keeps
    /// caches from answering.
    Start { nonce: u64 },
    /// The release answer was downloaded (`Some` text, empty if the download
    /// left nothing readable) or could not be (`None`).
    ReleaseFetched { body: Option<String> },
    /// The user answered the offer.
    Consent { accepted: bool },
    /// The installer download succeeded or failed.
    InstallerFetched { ok: bool },
}

/// A message that ends the flow.
pub enum UpdateNotice {
    /// The release answer could not be downloaded.
    NoConnection,
    /// The release answer names no version.
    Unreadable,
    /// The running build is the latest.
    UpToDate { latest: String },
    /// A newer release has no installer.
    NoInstaller { latest: String },
    /// The installer could not be downloaded.
    DownloadFailed,
}

/// What the caller is to do next.
pub enum UpdateAction {
    /// Download the release answer from `url`.
    FetchRelease { url: String },
    /// Show a message; the flow is over.
    Notify { notice: UpdateNotice },
    /// Offer the update to version `latest` and ask for consent.
    AskConsent { latest: String },
    /// Download the installer from `url`.
    FetchInstaller { url: String },
    /// Start the installer silently and quit, so it can replace this program.
    RunInstallerAndQuit,
    /// Nothing: the flow is over, or the event does not belong to this state.
    Nothing,
}

/// One step of the update flow, from the state it is in and what the caller
/// reports, to the next state and what the caller must do; `current` is the
/// version of the running build.
pub fn update_step(state: UpdateState, event: UpdateEvent, current: &str) -> (r: (
    UpdateState,
    UpdateAction,
))
    ensures
        // Starting (when idle) asks for the latest release.
        (state is Idle && event is Start) ==> {
            &&& r.0 is FetchingRelease
            &&& r.1 is FetchRelease
            &&& r.1->FetchRelease_url@ == release_api_url(event->nonce)
        },
        // The release answer decides the rest.
        (state is FetchingRelease && event is ReleaseFetched) ==> match event->body {
            None => r.0 is Idle && r.1 is Notify && r.1->notice is NoConnection,
            Some(body) => {
                let tag = latest_tag(body@);
                if tag.len() == 0 {
                    r.0 is Idle && r.1 is Notify && r.1->notice is Unreadable
                } else if !is_newer(tag, current@) {
                    &&& r.0 is Idle
                    &&& r.1 is Notify
                    &&& r.1->notice is UpToDate
                    &&& r.1->notice->UpToDate_latest@ == tag
                } else if exe_asset_from(body@, 0) is None {
                    &&& r.0 is Idle
                    &&& r.1 is Notify
                    &&& r.1->notice is NoInstaller
                    &&& r.1->notice->NoInstaller_latest@ == tag
                } else {
                    &&& r.0 is AwaitingConsent
                    &&& exe_asset_from(body@, 0) == Some(r.0->installer_url@)
                    &&& r.1 is AskConsent
                    &&& r.1->latest@ == tag
                }
            },
        },
        // Consent downloads the installer offered; refusal ends the flow.
        (state is AwaitingConsent && event is Consent) ==> if event->accepted {
            &&& r.0 is FetchingInstaller
            &&& r.1 is FetchInstaller
            &&& r.1->FetchInstaller_url@ == state->installer_url@
        } else {
            r.0 is Idle && r.1 is Nothing
        },
        // A downloaded installer is run; a failed download is reported.
        (state is FetchingInstaller && event is InstallerFetched) ==> {
            &&& r.0 is Idle
            &&& if event->ok {
                r.1 is RunInstallerAndQuit
            } else {
                r.1 is Notify && r.1->notice is DownloadFailed
            }
        },
        // Any other event leaves the flow where it is.
        !((state is Idle && event is Start) || (state is FetchingRelease && event is ReleaseFetched)
            || (state is AwaitingConsent && event is Consent) || (state is FetchingInstaller
            && event is InstallerFetched)) ==> {
            &&& r.1 is Nothing
            &&& r.0 is Idle <==> state is Idle
            &&& r.0 is FetchingRelease <==> state is FetchingRelease
            &&& r.0 is FetchingInstaller <==> state is FetchingInstaller
            &&& r.0 is AwaitingConsent <==> state is AwaitingConsent
            &&& state is AwaitingConsent ==> r.0->installer_url@ == state->installer_url@
        },
        // The installer is only downloaded after the user consented to it,
        r.1 is FetchInstaller ==> state is AwaitingConsent && event is Consent && event->accepted,
        r.0 is FetchingInstaller ==> (state is AwaitingConsent && event is Consent
            && event->accepted) || state is FetchingInstaller,
        // and only a downloaded installer is run.
        r.1 is RunInstallerAndQuit ==> state is FetchingInstaller && event is InstallerFetched
            && event->ok,
        // An update is only offered when the release is newer than the running build.
        r.1 is AskConsent ==> {
            &&& state is FetchingRelease
            &&& event is ReleaseFetched
            &&& event->body is Some
            &&& is_newer(latest_tag(event->body->0@), current@)
        },
{
    match (state, event) {
        (UpdateState::Idle, UpdateEvent::Start { nonce }) => {
            (UpdateState::FetchingRelease, UpdateAction::FetchRelease { url: latest_release_url(nonce) })
        },
        (UpdateState::FetchingRelease, UpdateEvent::ReleaseFetched { body }) => {
            match body {
                None => (
                    UpdateState::Idle,
                    UpdateAction::Notify { notice: UpdateNotice::NoConnection },
                ),
                Some(body) => match assess_release(body.as_str(), current) {
                    ReleaseCheck::Unreadable => (
                        UpdateState::Idle,
                        UpdateAction::Notify { notice: UpdateNotice::Unreadable },
                    ),
                    ReleaseCheck::UpToDate { latest } => (
                        UpdateState::Idle,
                        UpdateAction::Notify { notice: UpdateNotice::UpToDate { latest } },
                    ),
                    ReleaseCheck::NoInstaller { latest } => (
                        UpdateState::Idle,
                        UpdateAction::Notify { notice: UpdateNotice::NoInstaller { latest } },
                    ),
                    ReleaseCheck::Available { latest, installer_url } => (
                        UpdateState::AwaitingConsent { installer_url },
                        UpdateAction::AskConsent { latest },
                    ),
                },
            }
        },
        (UpdateState::AwaitingConsent { installer_url }, UpdateEvent::Consent { accepted }) => {
            if accepted {
                (UpdateState::FetchingInstaller, UpdateAction::FetchInstaller { url: installer_url })
            } else {
                (UpdateState::Idle, UpdateAction::Nothing)
            }
        },
        (UpdateState::FetchingInstaller, UpdateEvent::InstallerFetched { ok }) => {
            if ok {
                (UpdateState::Idle, UpdateAction::RunInstallerAndQuit)
            } else {
                (UpdateState::Idle, UpdateAction::Notify { notice: UpdateNotice::DownloadFailed })
            }
        },
        (state, _) => (state, UpdateAction::Nothing),
    }
}

// ---------------------------------------------------------------- what the user is shown

/// The texts of a message dialog: its heading, its body, and the labels of its
/// primary and secondary buttons (an empty secondary label means a single button).
pub struct DialogText {
    pub heading: String,
    pub body: String,
    pub primary: String,
    pub secondary: String,
}

fn dialog_text(heading: &str, body: String, primary: &str, secondary: &str) -> (d: DialogText)
    ensures
        d.heading@ == heading@,
        d.body@ == body@,
        d.primary@ == primary@,
        d.secondary@ == secondary@,
{
    DialogText {
        heading: String::from_str(heading),
        body,
        primary: String::from_str(primary),
        secondary: String::from_str(secondary),
    }
}

/// The single-button dialog that reports how the update flow ended.
pub fn notice_dialog(notice: &UpdateNotice) -> (d: DialogText)
    ensures
        d.primary@ == "OK"@,
        d.secondary@ == ""@,
        match notice {
            UpdateNotice::NoConnection => {
                &&& d.heading@ == "Sem conexão"@
                &&& d.body@
                    == "Não foi possível verificar atualizações. Verifique sua conexão com a internet e tente novamente."@
            },
            UpdateNotice::Unreadable => {
                &&& d.heading@ == "Não foi possível verificar"@
                &&& d.body@ == "Não foi possível ler a versão mais recente do servidor."@
            },
            UpdateNotice::UpToDate { latest } => {
                &&& d.heading@ == "Tudo atualizado"@
                &&& d.body@ == "Você já está na versão mais recente ("@ + latest@ + ")."@
            },
            UpdateNotice::NoInstaller { latest } => {
                &&& d.heading@ == "Atualização disponível"@
                &&& d.body@ == "A versão "@ + latest@
                    + " está disponível, mas o instalador não foi encontrado no release."@
            },
            UpdateNotice::DownloadFailed => {
                &&& d.heading@ == "Falha no download"@
                &&& d.body@
                    == "Não foi possível baixar o instalador. Tente novamente mais tarde."@
            },
        },
{
    match notice {
        UpdateNotice::NoConnection => dialog_text(
            "Sem conexão",
            String::from_str(
                "Não foi possível verificar atualizações. Verifique sua conexão com a internet e tente novamente.",
            ),
            "OK",
            "",
        ),
        UpdateNotice::Unreadable => dialog_text(
            "Não foi possível verificar",
            String::from_str("Não foi possível ler a versão mais recente do servidor."),
            "OK",
            "",
        ),
        UpdateNotice::UpToDate { latest } => {
            let mut body = String::from_str("Você já está na versão mais recente (");
            body.append(latest.as_str());
            body.append(").");
            dialog_text("Tudo atualizado", body, "OK", "")
        },
        UpdateNotice::NoInstaller { latest } => {
            let mut body = String::from_str("A versão ");
            body.append(latest.as_str());
            body.append(" está disponível, mas o instalador não foi encontrado no release.");
            dialog_text("Atualização disponível", body, "OK", "")
        },
        UpdateNotice::DownloadFailed => dialog_text(
            "Falha no download",
            String::from_str("Não foi possível baixar o instalador. Tente novamente mais tarde."),
            "OK",
            "",
        ),
    }
}

/// The two-button dialog that offers the update to `latest` to a user running `current`.
pub fn consent_dialog(latest: &str, current: &str) -> (d: DialogText)
    ensures
        d.heading@ == "Atualização disponível"@,
        d.body@ == "A versão "@ + latest@ + " está disponível (você tem v"@ + current@
            + ").\n\nAtualizar agora? O EnergyFlag será reiniciado automaticamente — sem assistente de instalação."@,
        d.primary@ == "Atualizar agora"@,
        d.secondary@ == "Depois"@,
{
    let mut body = String::from_str("A versão ");
    body.append(latest);
    body.append(" está disponível (você tem v");
    body.append(current);
    body.append(
        ").\n\nAtualizar agora? O EnergyFlag será reiniciado automaticamente — sem assistente de instalação.",
    );
    dialog_text("Atualização disponível", body, "Atualizar agora", "Depois")
}

} // verus!
