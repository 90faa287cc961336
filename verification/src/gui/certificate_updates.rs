//! What happens in the certificate dialog.

use crate::clock::Timestamp;
use crate::gui::app::ConfigGuiApp;
use crate::gui::changes::notified;
use crate::gui::message::{Action, SecurityMessage};
use crate::gui::state::{CertGenState, MessageLevel};
use crate::text::{parse_number, parsed};
use vstd::prelude::*;

verus! {

impl CertGenState {
    /// The dialog after the validity field changed: the text is kept, the number of
    /// days only where the text is one.
    pub open spec fn with_days(self, text: String) -> CertGenState {
        CertGenState {
            valid_days: match parsed(text@, u32::MAX as nat) {
                Some(n) => n as u32,
                None => self.valid_days,
            },
            valid_days_str: text,
            ..self
        }
    }
}

/// The dialog after a change, if it is open.
pub open spec fn renamed(
    dialog: Option<CertGenState>,
    name: Option<String>,
    organization: Option<String>,
) -> Option<CertGenState> {
    match dialog {
        Some(d) => Some(
            CertGenState {
                common_name: match name {
                    Some(n) => n,
                    None => d.common_name,
                },
                organization: match organization {
                    Some(o) => o,
                    None => d.organization,
                },
                ..d
            },
        ),
        None => None,
    }
}

impl ConfigGuiApp {
    /// What an event of the certificate dialog changes and asks for.
    pub open spec fn dialog_step(
        self,
        m: SecurityMessage,
        now: Timestamp,
        post: ConfigGuiApp,
        action: Action,
    ) -> bool {
        let s = self.state;
        let p = post.state;
        match m {
            SecurityMessage::SecurityGenerateCert => {
                &&& action == Action::Nothing
                &&& p.cert_gen_dialog is Some
                &&& p.cert_gen_dialog->0.is_default()
                &&& post == self.with_state(s.with_cert_dialog(p.cert_gen_dialog))
            },
            SecurityMessage::CertGenCommonNameChanged(name) => {
                &&& action == Action::Nothing
                &&& post == self.with_state(
                    s.with_cert_dialog(renamed(s.cert_gen_dialog, Some(name), None)),
                )
            },
            SecurityMessage::CertGenOrganizationChanged(name) => {
                &&& action == Action::Nothing
                &&& post == self.with_state(
                    s.with_cert_dialog(renamed(s.cert_gen_dialog, None, Some(name))),
                )
            },
            SecurityMessage::CertGenValidDaysChanged(days) => {
                &&& action == Action::Nothing
                &&& post == self.with_state(
                    s.with_cert_dialog(
                        match s.cert_gen_dialog {
                            Some(d) => Some(d.with_days(days)),
                            None => None,
                        },
                    ),
                )
            },
            SecurityMessage::CertGenConfirm => match s.cert_gen_dialog {
                Some(d) => {
                    &&& post == self.with_state(
                        s.with_cert_dialog(Some(CertGenState { generating: true, ..d })),
                    )
                    &&& action == Action::GenerateCertificate {
                        cert_path: s.config.security.cert_path,
                        key_path: s.config.security.key_path,
                        common_name: Some(d.common_name),
                        organization: d.organization,
                        valid_days: d.valid_days,
                        first_run: false,
                    }
                },
                None => action == Action::Nothing && post == self,
            },
            SecurityMessage::CertGenCancel => {
                action == Action::Nothing && post == self.with_state(s.with_cert_dialog(None))
            },
            SecurityMessage::CertGenCompleted(result) => {
                &&& action == Action::Nothing
                &&& post == self.with_state(p)
                &&& match result {
                    Ok(_) => notified(
                        s.with_cert_dialog(None),
                        p,
                        MessageLevel::Success,
                        "Certificate generated successfully"@,
                        now,
                    ),
                    Err(e) => notified(
                        s.with_cert_dialog(None),
                        p,
                        MessageLevel::Error,
                        e@,
                        now,
                    ),
                }
            },
            _ => true,
        }
    }

    /// Whether the event is one of the certificate dialog.
    pub open spec fn of_dialog(m: SecurityMessage) -> bool {
        m is SecurityGenerateCert || m is CertGenCommonNameChanged
            || m is CertGenOrganizationChanged || m is CertGenValidDaysChanged
            || m is CertGenConfirm || m is CertGenCancel || m is CertGenCompleted
    }

    pub(crate) fn update_dialog(&mut self, m: SecurityMessage, now: Timestamp) -> (action: Action)
        requires
            old(self).wf(),
            ConfigGuiApp::of_dialog(m),
        ensures
            final(self).wf(),
            old(self).dialog_step(m, now, *final(self), action),
    {
        match m {
            SecurityMessage::SecurityGenerateCert => {
                self.state.set_cert_dialog(Some(CertGenState::default()));
                Action::Nothing
            },
            SecurityMessage::CertGenCommonNameChanged(name) => {
                let mut dialog = self.state.take_cert_dialog();
                if let Some(mut d) = dialog {
                    d.common_name = name;
                    dialog = Some(d);
                }
                self.state.set_cert_dialog(dialog);
                Action::Nothing
            },
            SecurityMessage::CertGenOrganizationChanged(name) => {
                let mut dialog = self.state.take_cert_dialog();
                if let Some(mut d) = dialog {
                    d.organization = name;
                    dialog = Some(d);
                }
                self.state.set_cert_dialog(dialog);
                Action::Nothing
            },
            SecurityMessage::CertGenValidDaysChanged(days) => {
                let mut dialog = self.state.take_cert_dialog();
                if let Some(mut d) = dialog {
                    if let Some(n) = parse_number(days.as_str(), u32::MAX as u64) {
                        d.valid_days = n as u32;
                    }
                    d.valid_days_str = days;
                    dialog = Some(d);
                }
                self.state.set_cert_dialog(dialog);
                Action::Nothing
            },
            SecurityMessage::CertGenConfirm => {
                let cert_path = self.state.config.security.cert_path.clone();
                let key_path = self.state.config.security.key_path.clone();
                match self.state.take_cert_dialog() {
                    Some(d) => {
                        let mut d = d;
                        let common_name = Some(d.common_name.clone());
                        let organization = d.organization.clone();
                        let valid_days: u32 = d.valid_days;
                        d.generating = true;
                        self.state.set_cert_dialog(Some(d));
                        Action::GenerateCertificate {
                            cert_path,
                            key_path,
                            common_name,
                            organization,
                            valid_days,
                            first_run: false,
                        }
                    },
                    None => Action::Nothing,
                }
            },
            SecurityMessage::CertGenCancel => {
                self.state.set_cert_dialog(None);
                Action::Nothing
            },
            SecurityMessage::CertGenCompleted(result) => {
                self.state.set_cert_dialog(None);
                match result {
                    Ok(_) => self.state.notify(
                        MessageLevel::Success,
                        "Certificate generated successfully".to_owned(),
                        now,
                    ),
                    Err(e) => self.state.notify(MessageLevel::Error, e, now),
                }
                Action::Nothing
            },
            _ => Action::Nothing,
        }
    }
}

} // verus!
