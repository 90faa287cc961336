//! What happens in the first run dialog.

use crate::clock::Timestamp;
use crate::gui::app::{join2, ConfigGuiApp};
use crate::gui::changes::notified;
use crate::gui::message::{Action, SecurityMessage};
use crate::gui::state::{MessageLevel, Tab};
use vstd::prelude::*;

verus! {

impl ConfigGuiApp {
    /// What an event of the first run dialog changes and asks for.
    pub open spec fn first_run_step(
        self,
        m: SecurityMessage,
        now: Timestamp,
        post: ConfigGuiApp,
        action: Action,
    ) -> bool {
        let s = self.state;
        let p = post.state;
        match m {
            SecurityMessage::CheckCertificates => {
                action == Action::CheckCertificates && post == self
            },
            SecurityMessage::CertificatesChecked(result) => {
                &&& action == Action::Nothing
                &&& match result {
                    Ok(present) => if present {
                        post == self
                    } else {
                        &&& post == self.with_state(p)
                        &&& notified(
                            s.with_first_run(true, s.first_run_cert_generating),
                            p,
                            MessageLevel::Warning,
                            "TLS certificates not found. Please generate or provide certificates to start the server."@,
                            now,
                        )
                    },
                    Err(e) => {
                        &&& post == self.with_state(p)
                        &&& notified(
                            s,
                            p,
                            MessageLevel::Error,
                            "Certificate configuration error: "@ + e@,
                            now,
                        )
                    },
                }
            },
            SecurityMessage::FirstRunGenerateCerts => {
                &&& post == self.with_state(s.with_first_run(s.first_run_cert_dialog, true))
                &&& action is GenerateCertificate
                &&& action->cert_path == s.config.security.cert_path
                &&& action->key_path == s.config.security.key_path
                &&& action->common_name is None
                &&& action->organization@ == "Lamco RDP Server"@
                &&& action->valid_days == 365
                &&& action->first_run
            },
            SecurityMessage::FirstRunProvideCerts => {
                &&& action == Action::Nothing
                &&& post == (ConfigGuiApp { state: p, current_tab: Tab::Security, ..self })
                &&& notified(
                    s.with_first_run(false, s.first_run_cert_generating),
                    p,
                    MessageLevel::Info,
                    "Please configure certificate paths in the Security tab."@,
                    now,
                )
            },
            SecurityMessage::FirstRunDismiss => {
                &&& action == Action::Nothing
                &&& post == self.with_state(s.with_first_run(false, s.first_run_cert_generating))
            },
            SecurityMessage::FirstRunCertsGenerated(result) => {
                let closed = s.with_first_run(false, false);
                let cert = s.config.security.cert_path;
                &&& action == Action::Nothing
                &&& post == self.with_state(p)
                &&& match result {
                    Ok(_) => notified(
                        closed.with_cert_path(cert).with_key_path(s.config.security.key_path),
                        p,
                        MessageLevel::Success,
                        "Self-signed certificate generated successfully at: "@ + cert@,
                        now,
                    ),
                    Err(e) => notified(
                        closed,
                        p,
                        MessageLevel::Error,
                        "Failed to generate certificate: "@ + e@,
                        now,
                    ),
                }
            },
            _ => true,
        }
    }

    /// Whether the event is one of the first run dialog.
    pub open spec fn of_first_run(m: SecurityMessage) -> bool {
        m is CheckCertificates || m is CertificatesChecked || m is FirstRunGenerateCerts
            || m is FirstRunProvideCerts || m is FirstRunDismiss || m is FirstRunCertsGenerated
    }

    pub(crate) fn update_first_run(&mut self, m: SecurityMessage, now: Timestamp) -> (action: Action)
        requires
            old(self).wf(),
            ConfigGuiApp::of_first_run(m),
        ensures
            final(self).wf(),
            old(self).first_run_step(m, now, *final(self), action),
    {
        match m {
            SecurityMessage::CheckCertificates => Action::CheckCertificates,
            SecurityMessage::CertificatesChecked(result) => {
                match result {
                    Ok(present) => {
                        if !present {
                            let generating = self.state.first_run_cert_generating;
                            self.state.set_first_run(true, generating);
                            self.state.notify(
                                MessageLevel::Warning,
                                "TLS certificates not found. Please generate or provide certificates to start the server.".to_owned(),
                                now,
                            );
                        }
                    },
                    Err(e) => {
                        let text = join2("Certificate configuration error: ", e.as_str());
                        self.state.notify(MessageLevel::Error, text, now);
                    },
                }
                Action::Nothing
            },
            SecurityMessage::FirstRunGenerateCerts => {
                let open = self.state.first_run_cert_dialog;
                self.state.set_first_run(open, true);
                Action::GenerateCertificate {
                    cert_path: self.state.config.security.cert_path.clone(),
                    key_path: self.state.config.security.key_path.clone(),
                    common_name: None,
                    organization: "Lamco RDP Server".to_owned(),
                    valid_days: 365,
                    first_run: true,
                }
            },
            SecurityMessage::FirstRunProvideCerts => {
                let generating = self.state.first_run_cert_generating;
                self.state.set_first_run(false, generating);
                self.current_tab = Tab::Security;
                self.state.notify(
                    MessageLevel::Info,
                    "Please configure certificate paths in the Security tab.".to_owned(),
                    now,
                );
                Action::Nothing
            },
            SecurityMessage::FirstRunDismiss => {
                let generating = self.state.first_run_cert_generating;
                self.state.set_first_run(false, generating);
                Action::Nothing
            },
            SecurityMessage::FirstRunCertsGenerated(result) => {
                self.state.set_first_run(false, false);
                match result {
                    Ok(_) => {
                        let cert = self.state.config.security.cert_path.clone();
                        let key = self.state.config.security.key_path.clone();
                        let text = join2(
                            "Self-signed certificate generated successfully at: ",
                            cert.as_str(),
                        );
                        self.state.show_cert_path(cert);
                        self.state.show_key_path(key);
                        self.state.notify(MessageLevel::Success, text, now);
                    },
                    Err(e) => {
                        let text = join2("Failed to generate certificate: ", e.as_str());
                        self.state.notify(MessageLevel::Error, text, now);
                    },
                }
                Action::Nothing
            },
            _ => Action::Nothing,
        }
    }
}

} // verus!
