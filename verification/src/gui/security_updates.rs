//! What happens in the security tab.

use crate::clock::Timestamp;
use crate::gui::app::{join2, ConfigGuiApp};
use crate::gui::changes::notified;
use crate::gui::message::{Action, SecurityMessage};
use crate::gui::state::MessageLevel;
use crate::text::{trim, trimmed};
use vstd::prelude::*;

verus! {

impl ConfigGuiApp {
    /// What an event around paths and passwords changes and asks for.
    pub open spec fn credential_step(
        self,
        m: SecurityMessage,
        now: Timestamp,
        post: ConfigGuiApp,
        action: Action,
    ) -> bool {
        let s = self.state;
        let p = post.state;
        let stored = p.config.security.password_credentials;
        match m {
            SecurityMessage::SecurityBrowseCert => {
                action == Action::BrowseCertificate && post == self
            },
            SecurityMessage::SecurityCertSelected(path) => {
                &&& action == Action::Nothing
                &&& post == self.with_state(
                    match path {
                        Some(file) => s.with_cert_path(file).with_certificate(file),
                        None => s,
                    },
                )
            },
            SecurityMessage::SecurityBrowseKey => action == Action::BrowseKey && post == self,
            SecurityMessage::SecurityKeySelected(path) => {
                &&& action == Action::Nothing
                &&& post == self.with_state(
                    match path {
                        Some(file) => s.with_key_path(file).with_private_key(file),
                        None => s,
                    },
                )
            },
            SecurityMessage::SecurityEnableNlaToggled(value) => {
                let mode = p.config.security.security_mode;
                &&& action == Action::Nothing
                &&& post == self.with_state(s.with_nla(value, mode))
                &&& if value {
                    mode@ == "hybrid"@
                } else {
                    mode == s.config.security.security_mode
                }
            },
            SecurityMessage::SecurityPasswordUsernameChanged(name) => {
                &&& action == Action::Nothing
                &&& post == self.with_state(s.with_password_username(name).touched())
            },
            SecurityMessage::SecurityPasswordChanged(password) => {
                let shown = s.with_password(password);
                let name = trimmed(s.edit_strings.password_username@);
                if password@.len() == 0 {
                    &&& action == Action::Nothing
                    &&& if name.len() == 0 {
                        post == self.with_state(shown.touched())
                    } else {
                        &&& stored.lacks(s.config.security.password_credentials, name)
                        &&& post == self.with_state(shown.with_credentials(stored).touched())
                    }
                } else if name.len() == 0 {
                    &&& action == Action::Nothing
                    &&& post == self.with_state(p)
                    &&& notified(
                        shown,
                        p,
                        MessageLevel::Error,
                        "Enter a username before setting a password"@,
                        now,
                    )
                } else {
                    &&& action is HashPassword
                    &&& action->username@ == name
                    &&& action->password == password
                    &&& post == self.with_state(shown)
                }
            },
            SecurityMessage::PasswordHashed { username, result } => {
                &&& action == Action::Nothing
                &&& match result {
                    Ok(hash) => {
                        &&& stored.adds(
                            s.config.security.password_credentials,
                            username@,
                            hash@,
                        )
                        &&& post == self.with_state(s.with_credentials(stored).touched())
                    },
                    Err(e) => {
                        &&& post == self.with_state(p)
                        &&& notified(
                            s,
                            p,
                            MessageLevel::Error,
                            "Failed to hash password: "@ + e@,
                            now,
                        )
                    },
                }
            },
            _ => true,
        }
    }

    fn update_credentials(&mut self, m: SecurityMessage, now: Timestamp) -> (action: Action)
        requires
            old(self).wf(),
            !ConfigGuiApp::of_dialog(m),
            !ConfigGuiApp::of_first_run(m),
        ensures
            final(self).wf(),
            old(self).credential_step(m, now, *final(self), action),
    {
        match m {
            SecurityMessage::SecurityBrowseCert => Action::BrowseCertificate,
            SecurityMessage::SecurityCertSelected(path) => {
                if let Some(file) = path {
                    self.state.show_cert_path(file.clone());
                    self.state.set_certificate(file);
                }
                Action::Nothing
            },
            SecurityMessage::SecurityBrowseKey => Action::BrowseKey,
            SecurityMessage::SecurityKeySelected(path) => {
                if let Some(file) = path {
                    self.state.show_key_path(file.clone());
                    self.state.set_private_key(file);
                }
                Action::Nothing
            },
            SecurityMessage::SecurityEnableNlaToggled(value) => {
                self.state.set_nla(value);
                Action::Nothing
            },
            SecurityMessage::SecurityPasswordUsernameChanged(name) => {
                self.state.show_password_username(name);
                self.state.touch();
                Action::Nothing
            },
            SecurityMessage::SecurityPasswordChanged(password) => self.change_password(
                password,
                now,
            ),
            SecurityMessage::PasswordHashed { username, result } => {
                match result {
                    Ok(hash) => {
                        self.state.put_credential(username, hash);
                        self.state.touch();
                    },
                    Err(e) => {
                        let text = join2("Failed to hash password: ", e.as_str());
                        self.state.notify(MessageLevel::Error, text, now);
                    },
                }
                Action::Nothing
            },
            _ => Action::Nothing,
        }
    }

    fn change_password(&mut self, password: String, now: Timestamp) -> (action: Action)
        requires
            old(self).wf(),
        ensures
            final(self).wf(),
            old(self).credential_step(
                SecurityMessage::SecurityPasswordChanged(password),
                now,
                *final(self),
                action,
            ),
    {
        let name = trim(self.state.edit_strings.password_username.as_str());
        let entered = password.clone();
        self.state.show_password(password);
        if entered.as_str().is_empty() {
            if !name.as_str().is_empty() {
                self.state.drop_credential(&name);
            }
            self.state.touch();
            Action::Nothing
        } else if name.as_str().is_empty() {
            self.state.notify(
                MessageLevel::Error,
                "Enter a username before setting a password".to_owned(),
                now,
            );
            Action::Nothing
        } else {
            Action::HashPassword { username: name, password: entered }
        }
    }

    /// What an event of the security tab or the first run dialog changes and asks for.
    pub open spec fn security_step(
        self,
        m: SecurityMessage,
        now: Timestamp,
        post: ConfigGuiApp,
        action: Action,
    ) -> bool {
        if ConfigGuiApp::of_dialog(m) {
            self.dialog_step(m, now, post, action)
        } else if ConfigGuiApp::of_first_run(m) {
            self.first_run_step(m, now, post, action)
        } else {
            self.credential_step(m, now, post, action)
        }
    }

    pub(crate) fn update_security(&mut self, m: SecurityMessage, now: Timestamp) -> (action: Action)
        requires
            old(self).wf(),
        ensures
            final(self).wf(),
            old(self).security_step(m, now, *final(self), action),
    {
        match m {
            SecurityMessage::SecurityGenerateCert
            | SecurityMessage::CertGenCommonNameChanged(_)
            | SecurityMessage::CertGenOrganizationChanged(_)
            | SecurityMessage::CertGenValidDaysChanged(_)
            | SecurityMessage::CertGenConfirm
            | SecurityMessage::CertGenCancel
            | SecurityMessage::CertGenCompleted(_) => self.update_dialog(m, now),
            SecurityMessage::CheckCertificates
            | SecurityMessage::CertificatesChecked(_)
            | SecurityMessage::FirstRunGenerateCerts
            | SecurityMessage::FirstRunProvideCerts
            | SecurityMessage::FirstRunDismiss
            | SecurityMessage::FirstRunCertsGenerated(_) => self.update_first_run(m, now),
            _ => self.update_credentials(m, now),
        }
    }
}

} // verus!
