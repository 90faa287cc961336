//! What the security tab and its dialogs promise, told by what is seen before and after.

use crate::clock::Timestamp;
use crate::gui::app::ConfigGuiApp;
use crate::gui::message::{Action, Message, SecurityMessage};
use crate::gui::state::{AppState, CertGenState, MessageLevel, Tab};
use crate::gui::window_laws::{lemma_told, same_place, same_settings, told};
use crate::text::{parsed, trimmed};
use vstd::prelude::*;

verus! {

/// Each event is handled by the part of the window that it belongs to.
pub proof fn events_go_to_their_part(
    app: ConfigGuiApp,
    m: Message,
    now: Timestamp,
    post: ConfigGuiApp,
    action: Action,
)
    requires
        app.step(m, now, post, action),
    ensures
        m is Field ==> app.field_step(m->Field_0, post, action),
        m is Preset ==> app.preset_step(m->Preset_0, post, action),
        m is Security ==> app.security_step(m->Security_0, now, post, action),
        m is File ==> app.file_step(m->File_0, now, post, action),
        m is Server ==> app.server_step(m->Server_0, now, post, action),
        m is Detection ==> app.detection_step(m->Detection_0, now, post, action),
        m is Log ==> app.log_step(m->Log_0, now, post, action),
        m is Window ==> app.window_step(m->Window_0, now, post, action),
{
}

/// Certificates are generated in their dialog, or in that of the first run; paths,
/// names and passwords have neither.
pub proof fn security_events_go_to_their_dialog(
    app: ConfigGuiApp,
    m: SecurityMessage,
    now: Timestamp,
    post: ConfigGuiApp,
    action: Action,
)
    requires
        app.security_step(m, now, post, action),
    ensures
        m is SecurityGenerateCert || m is CertGenCommonNameChanged
            || m is CertGenOrganizationChanged || m is CertGenValidDaysChanged
            || m is CertGenConfirm || m is CertGenCancel || m is CertGenCompleted
            ==> app.dialog_step(m, now, post, action),
        m is CheckCertificates || m is CertificatesChecked || m is FirstRunGenerateCerts
            || m is FirstRunProvideCerts || m is FirstRunDismiss || m is FirstRunCertsGenerated
            ==> app.first_run_step(m, now, post, action),
        m is SecurityBrowseCert || m is SecurityCertSelected || m is SecurityBrowseKey
            || m is SecurityKeySelected || m is SecurityEnableNlaToggled
            || m is SecurityPasswordUsernameChanged || m is SecurityPasswordChanged
            || m is PasswordHashed ==> app.credential_step(m, now, post, action),
{
}

/// Browsing asks for the picker of its own file and changes nothing.
pub proof fn browsing_asks_for_a_picker(
    app: ConfigGuiApp,
    m: SecurityMessage,
    now: Timestamp,
    post: ConfigGuiApp,
    action: Action,
)
    requires
        m is SecurityBrowseCert || m is SecurityBrowseKey,
        app.credential_step(m, now, post, action),
    ensures
        post == app,
        m is SecurityBrowseCert ==> action is BrowseCertificate,
        m is SecurityBrowseKey ==> action is BrowseKey,
{
}

/// A certificate that was picked is shown and configured, and the key stays; picking
/// none changes nothing.
pub proof fn picked_certificates_are_taken(
    app: ConfigGuiApp,
    path: Option<String>,
    now: Timestamp,
    post: ConfigGuiApp,
    action: Action,
)
    requires
        app.credential_step(SecurityMessage::SecurityCertSelected(path), now, post, action),
    ensures
        path is None ==> post == app,
        path is Some ==> post.state.config.security.cert_path == path->0
            && post.state.edit_strings.cert_path == path->0 && post.state.is_dirty,
        post.state.config.security.key_path == app.state.config.security.key_path,
        post.state.edit_strings.key_path == app.state.edit_strings.key_path,
        same_place(app, post),
        action is Nothing,
{
    reveal(AppState::with_cert_path);
    reveal(AppState::with_texts);
    reveal(AppState::with_certificate);
    reveal(AppState::with_config);
    reveal(AppState::touched);
}

/// A key that was picked is shown and configured, and the certificate stays; picking
/// none changes nothing.
pub proof fn picked_keys_are_taken(
    app: ConfigGuiApp,
    path: Option<String>,
    now: Timestamp,
    post: ConfigGuiApp,
    action: Action,
)
    requires
        app.credential_step(SecurityMessage::SecurityKeySelected(path), now, post, action),
    ensures
        path is None ==> post == app,
        path is Some ==> post.state.config.security.key_path == path->0
            && post.state.edit_strings.key_path == path->0 && post.state.is_dirty,
        post.state.config.security.cert_path == app.state.config.security.cert_path,
        post.state.edit_strings.cert_path == app.state.edit_strings.cert_path,
        same_place(app, post),
        action is Nothing,
{
    reveal(AppState::with_key_path);
    reveal(AppState::with_texts);
    reveal(AppState::with_private_key);
    reveal(AppState::with_config);
    reveal(AppState::touched);
}

/// Network level authentication takes the hybrid security mode with it when it is
/// switched on, and leaves the mode when it is switched off.
pub proof fn nla_takes_its_mode_along(
    app: ConfigGuiApp,
    value: bool,
    now: Timestamp,
    post: ConfigGuiApp,
    action: Action,
)
    requires
        app.credential_step(SecurityMessage::SecurityEnableNlaToggled(value), now, post, action),
    ensures
        post.state.config.security.enable_nla == value,
        value ==> post.state.config.security.security_mode@ == "hybrid"@,
        !value ==> post.state.config.security.security_mode
            == app.state.config.security.security_mode,
        post.state.config.security.cert_path == app.state.config.security.cert_path,
        post.state.config.security.password_credentials
            == app.state.config.security.password_credentials,
        post.state.is_dirty,
        same_place(app, post),
        action is Nothing,
{
    reveal(AppState::with_nla);
    reveal(AppState::with_config);
    reveal(AppState::touched);
}

/// A user name that is entered is shown and waits for its password: no credential
/// changes.
pub proof fn user_names_wait_for_a_password(
    app: ConfigGuiApp,
    name: String,
    now: Timestamp,
    post: ConfigGuiApp,
    action: Action,
)
    requires
        app.credential_step(SecurityMessage::SecurityPasswordUsernameChanged(name), now, post, action),
    ensures
        post.state.edit_strings.password_username == name,
        post.state.edit_strings.password == app.state.edit_strings.password,
        post.state.config == app.state.config,
        post.state.is_dirty,
        same_place(app, post),
        action is Nothing,
{
    reveal(AppState::with_password_username);
    reveal(AppState::with_texts);
    reveal(AppState::touched);
}

/// A password is hashed for the user whose name is shown, without the white space
/// around it. Until the hash is there nothing is stored and nothing is to be saved.
pub proof fn passwords_are_hashed_for_the_shown_user(
    app: ConfigGuiApp,
    password: String,
    now: Timestamp,
    post: ConfigGuiApp,
    action: Action,
)
    requires
        password@.len() > 0,
        trimmed(app.state.edit_strings.password_username@).len() > 0,
        app.credential_step(SecurityMessage::SecurityPasswordChanged(password), now, post, action),
    ensures
        action is HashPassword,
        action->username@ == trimmed(app.state.edit_strings.password_username@),
        action->password == password,
        post.state.edit_strings.password == password,
        post.state.config == app.state.config,
        post.state.is_dirty == app.state.is_dirty,
        post.state.messages == app.state.messages,
        same_place(app, post),
{
    reveal(AppState::with_password);
    reveal(AppState::with_texts);
}

/// A password without a user is refused with a notice, and nothing is hashed.
pub proof fn passwords_need_a_user(
    app: ConfigGuiApp,
    password: String,
    now: Timestamp,
    post: ConfigGuiApp,
    action: Action,
)
    requires
        password@.len() > 0,
        trimmed(app.state.edit_strings.password_username@).len() == 0,
        app.credential_step(SecurityMessage::SecurityPasswordChanged(password), now, post, action),
    ensures
        action is Nothing,
        post.state.config == app.state.config,
        post.state.is_dirty == app.state.is_dirty,
        told(
            app.state,
            post.state,
            MessageLevel::Error,
            "Enter a username before setting a password"@,
            now,
        ),
        same_place(app, post),
{
    reveal(AppState::with_password);
    reveal(AppState::with_texts);
    lemma_told(app.state.with_password(password), post.state, MessageLevel::Error, "Enter a username before setting a password"@, now);
}

/// Emptying the password takes away the password of the user who is shown, and of
/// nobody else.
pub proof fn empty_passwords_remove_the_user(
    app: ConfigGuiApp,
    password: String,
    other: Seq<char>,
    now: Timestamp,
    post: ConfigGuiApp,
    action: Action,
)
    requires
        password@.len() == 0,
        app.credential_step(SecurityMessage::SecurityPasswordChanged(password), now, post, action),
    ensures
        ({
            let before = app.state.config.security.password_credentials@;
            let after = post.state.config.security.password_credentials@;
            let name = trimmed(app.state.edit_strings.password_username@);
            &&& name.len() > 0 ==> !after.dom().contains(name)
            &&& other != name || name.len() == 0 ==> {
                &&& after.dom().contains(other) == before.dom().contains(other)
                &&& before.dom().contains(other) ==> after[other] == before[other]
            }
        }),
        post.state.is_dirty,
        post.state.config.security.enable_nla == app.state.config.security.enable_nla,
        same_place(app, post),
        action is Nothing,
{
    reveal(AppState::with_password);
    reveal(AppState::with_texts);
    reveal(AppState::with_credentials);
    reveal(AppState::with_config);
    reveal(AppState::touched);
}

/// The hash of a password is stored for its user, the other users keep theirs, and
/// there is something to save.
pub proof fn hashes_are_stored_for_their_user(
    app: ConfigGuiApp,
    username: String,
    hash: String,
    other: Seq<char>,
    now: Timestamp,
    post: ConfigGuiApp,
    action: Action,
)
    requires
        app.credential_step((SecurityMessage::PasswordHashed { username, result: Ok::<String, String>(hash) }), now, post, action),
    ensures
        ({
            let before = app.state.config.security.password_credentials@;
            let after = post.state.config.security.password_credentials@;
            &&& after.dom().contains(username@)
            &&& after[username@] == hash@
            &&& other != username@ ==> {
                &&& after.dom().contains(other) == before.dom().contains(other)
                &&& before.dom().contains(other) ==> after[other] == before[other]
            }
        }),
        post.state.is_dirty,
        post.state.edit_strings == app.state.edit_strings,
        post.state.messages == app.state.messages,
        same_place(app, post),
        action is Nothing,
{
    reveal(AppState::with_credentials);
    reveal(AppState::with_config);
    reveal(AppState::touched);
}

/// A password that could not be hashed is told of, and the stored ones stay.
pub proof fn failed_hashes_are_told(
    app: ConfigGuiApp,
    username: String,
    error: String,
    now: Timestamp,
    post: ConfigGuiApp,
    action: Action,
)
    requires
        app.credential_step((SecurityMessage::PasswordHashed { username, result: Err::<String, String>(error) }), now, post, action),
    ensures
        same_settings(app.state, post.state),
        same_place(app, post),
        told(
            app.state,
            post.state,
            MessageLevel::Error,
            "Failed to hash password: "@ + error@,
            now,
        ),
        action is Nothing,
{
    lemma_told(app.state, post.state, MessageLevel::Error, "Failed to hash password: "@ + error@, now);
}

/// Asking for a new certificate opens the dialog with its suggestions, and generates
/// nothing yet.
pub proof fn certificate_dialogs_open(
    app: ConfigGuiApp,
    now: Timestamp,
    post: ConfigGuiApp,
    action: Action,
)
    requires
        app.dialog_step(SecurityMessage::SecurityGenerateCert, now, post, action),
    ensures
        post.state.cert_gen_dialog is Some,
        post.state.cert_gen_dialog->0.is_default(),
        same_settings(app.state, post.state),
        same_place(app, post),
        post.state.messages == app.state.messages,
        action is Nothing,
{
    reveal(AppState::with_cert_dialog);
}

/// Names and days that are entered go into their own field of the open dialog. A text
/// that is no number of days is shown and does not count.
pub proof fn certificate_dialogs_take_their_fields(
    app: ConfigGuiApp,
    m: SecurityMessage,
    d: CertGenState,
    now: Timestamp,
    post: ConfigGuiApp,
    action: Action,
)
    requires
        m is CertGenCommonNameChanged || m is CertGenOrganizationChanged
            || m is CertGenValidDaysChanged,
        app.state.cert_gen_dialog == Some(d),
        app.dialog_step(m, now, post, action),
    ensures
        post.state.cert_gen_dialog is Some,
        ({
            let e = post.state.cert_gen_dialog->0;
            &&& e.generating == d.generating
            &&& if m is CertGenCommonNameChanged {
                e.common_name == m->CertGenCommonNameChanged_0
            } else {
                e.common_name == d.common_name
            }
            &&& if m is CertGenOrganizationChanged {
                e.organization == m->CertGenOrganizationChanged_0
            } else {
                e.organization == d.organization
            }
            &&& if m is CertGenValidDaysChanged {
                let days = m->CertGenValidDaysChanged_0;
                &&& e.valid_days_str == days
                &&& parsed(days@, u32::MAX as nat) is None ==> e.valid_days == d.valid_days
                &&& parsed(days@, u32::MAX as nat) is Some ==> e.valid_days == parsed(
                    days@,
                    u32::MAX as nat,
                )->0
            } else {
                e.valid_days == d.valid_days && e.valid_days_str == d.valid_days_str
            }
        }),
        same_settings(app.state, post.state),
        same_place(app, post),
        action is Nothing,
{
    reveal(AppState::with_cert_dialog);
}

/// Without an open dialog its events change nothing and ask for nothing.
pub proof fn closed_dialogs_take_nothing(
    app: ConfigGuiApp,
    m: SecurityMessage,
    now: Timestamp,
    post: ConfigGuiApp,
    action: Action,
)
    requires
        m is CertGenCommonNameChanged || m is CertGenOrganizationChanged
            || m is CertGenValidDaysChanged || m is CertGenConfirm || m is CertGenCancel,
        app.state.cert_gen_dialog is None,
        app.dialog_step(m, now, post, action),
    ensures
        post == app,
        action is Nothing,
{
    reveal(AppState::with_cert_dialog);
}

/// Confirming asks for a certificate with what the dialog shows, at the configured
/// paths, and the dialog shows that it is at work.
pub proof fn confirmed_certificates_are_generated(
    app: ConfigGuiApp,
    d: CertGenState,
    now: Timestamp,
    post: ConfigGuiApp,
    action: Action,
)
    requires
        app.state.cert_gen_dialog == Some(d),
        app.dialog_step(SecurityMessage::CertGenConfirm, now, post, action),
    ensures
        action is GenerateCertificate,
        action->cert_path == app.state.config.security.cert_path,
        action->key_path == app.state.config.security.key_path,
        action->common_name == Some(d.common_name),
        action->organization == d.organization,
        action->valid_days == d.valid_days,
        !action->first_run,
        post.state.cert_gen_dialog is Some,
        post.state.cert_gen_dialog->0.generating,
        post.state.cert_gen_dialog->0.common_name == d.common_name,
        same_settings(app.state, post.state),
        same_place(app, post),
{
    reveal(AppState::with_cert_dialog);
}

/// Cancelling closes the dialog and asks for nothing. So does the end of generation,
/// with a notice of how it went.
pub proof fn certificate_dialogs_close(
    app: ConfigGuiApp,
    m: SecurityMessage,
    now: Timestamp,
    post: ConfigGuiApp,
    action: Action,
)
    requires
        m is CertGenCancel || m is CertGenCompleted,
        app.dialog_step(m, now, post, action),
    ensures
        post.state.cert_gen_dialog is None,
        same_settings(app.state, post.state),
        same_place(app, post),
        action is Nothing,
        m is CertGenCancel ==> post.state.messages == app.state.messages,
        m is CertGenCompleted && m->CertGenCompleted_0 is Ok ==> told(
            app.state,
            post.state,
            MessageLevel::Success,
            "Certificate generated successfully"@,
            now,
        ),
        m is CertGenCompleted && m->CertGenCompleted_0 is Err ==> told(
            app.state,
            post.state,
            MessageLevel::Error,
            (m->CertGenCompleted_0->Err_0)@,
            now,
        ),
{
    reveal(AppState::with_cert_dialog);
    if m is CertGenCompleted {
        let closed = app.state.with_cert_dialog(None);
        match m->CertGenCompleted_0 {
            Ok(_) => lemma_told(
                closed,
                post.state,
                MessageLevel::Success,
                "Certificate generated successfully"@,
                now,
            ),
            Err(e) => lemma_told(closed, post.state, MessageLevel::Error, e@, now),
        }
    }
}

/// Certificates are looked for where asked. Those that are there need no dialog; those
/// that are missing open it with a warning; half of a pair is an error.
pub proof fn missing_certificates_open_the_dialog(
    app: ConfigGuiApp,
    m: SecurityMessage,
    now: Timestamp,
    post: ConfigGuiApp,
    action: Action,
)
    requires
        m is CheckCertificates || m is CertificatesChecked,
        app.first_run_step(m, now, post, action),
    ensures
        m is CheckCertificates ==> post == app && action is CheckCertificates,
        m is CertificatesChecked ==> {
            let found = m->CertificatesChecked_0;
            &&& action is Nothing
            &&& found == Ok::<bool, String>(true) ==> post == app
            &&& found == Ok::<bool, String>(false) ==> {
                &&& post.state.first_run_cert_dialog
                &&& told(
                    app.state,
                    post.state,
                    MessageLevel::Warning,
                    "TLS certificates not found. Please generate or provide certificates to start the server."@,
                    now,
                )
            }
            &&& found is Err ==> {
                &&& post.state.first_run_cert_dialog == app.state.first_run_cert_dialog
                &&& told(
                    app.state,
                    post.state,
                    MessageLevel::Error,
                    "Certificate configuration error: "@ + (found->Err_0)@,
                    now,
                )
            }
        },
        post.state.first_run_cert_generating == app.state.first_run_cert_generating,
        same_settings(app.state, post.state),
        same_place(app, post),
{
    reveal(AppState::with_first_run);
    if m is CertificatesChecked {
        match m->CertificatesChecked_0 {
            Ok(present) => if !present {
                lemma_told(
                    app.state.with_first_run(true, app.state.first_run_cert_generating),
                    post.state,
                    MessageLevel::Warning,
                    "TLS certificates not found. Please generate or provide certificates to start the server."@,
                    now,
                );
            },
            Err(e) => lemma_told(
                app.state,
                post.state,
                MessageLevel::Error,
                "Certificate configuration error: "@ + e@,
                now,
            ),
        }
    }
}

/// The first run generates a certificate for this host, for a year, at the configured
/// paths, and shows that it is at work.
pub proof fn first_runs_generate_for_this_host(
    app: ConfigGuiApp,
    now: Timestamp,
    post: ConfigGuiApp,
    action: Action,
)
    requires
        app.first_run_step(SecurityMessage::FirstRunGenerateCerts, now, post, action),
    ensures
        action is GenerateCertificate,
        action->cert_path == app.state.config.security.cert_path,
        action->key_path == app.state.config.security.key_path,
        action->common_name is None,
        action->organization@ == "Lamco RDP Server"@,
        action->valid_days == 365,
        action->first_run,
        post.state.first_run_cert_generating,
        post.state.first_run_cert_dialog == app.state.first_run_cert_dialog,
        same_settings(app.state, post.state),
        same_place(app, post),
{
    reveal(AppState::with_first_run);
}

/// Who brings certificates is led to the security tab; who dismisses the dialog stays.
/// Either way it closes and asks for nothing.
pub proof fn first_run_dialogs_close(
    app: ConfigGuiApp,
    m: SecurityMessage,
    now: Timestamp,
    post: ConfigGuiApp,
    action: Action,
)
    requires
        m is FirstRunProvideCerts || m is FirstRunDismiss,
        app.first_run_step(m, now, post, action),
    ensures
        !post.state.first_run_cert_dialog,
        post.state.first_run_cert_generating == app.state.first_run_cert_generating,
        m is FirstRunProvideCerts ==> post.current_tab == Tab::Security,
        m is FirstRunProvideCerts ==> told(
            app.state,
            post.state,
            MessageLevel::Info,
            "Please configure certificate paths in the Security tab."@,
            now,
        ),
        m is FirstRunDismiss ==> post.current_tab == app.current_tab && post.state.messages
            == app.state.messages,
        post.server_connection == app.server_connection,
        same_settings(app.state, post.state),
        action is Nothing,
{
    reveal(AppState::with_first_run);
    if m is FirstRunProvideCerts {
        lemma_told(
            app.state.with_first_run(false, app.state.first_run_cert_generating),
            post.state,
            MessageLevel::Info,
            "Please configure certificate paths in the Security tab."@,
            now,
        );
    }
}

/// When the first certificate is there, its paths are shown and told. When it could not
/// be made, that is told. The dialog is closed and at rest.
pub proof fn first_certificates_are_shown(
    app: ConfigGuiApp,
    result: Result<(), String>,
    now: Timestamp,
    post: ConfigGuiApp,
    action: Action,
)
    requires
        app.first_run_step(SecurityMessage::FirstRunCertsGenerated(result), now, post, action),
    ensures
        !post.state.first_run_cert_dialog,
        !post.state.first_run_cert_generating,
        post.state.config == app.state.config,
        post.state.is_dirty == app.state.is_dirty,
        result is Ok ==> post.state.edit_strings.cert_path == app.state.config.security.cert_path
            && post.state.edit_strings.key_path == app.state.config.security.key_path,
        result is Err ==> post.state.edit_strings == app.state.edit_strings,
        result is Ok ==> told(
            app.state,
            post.state,
            MessageLevel::Success,
            "Self-signed certificate generated successfully at: "@ + app.state.config.security.cert_path@,
            now,
        ),
        result is Err ==> told(
            app.state,
            post.state,
            MessageLevel::Error,
            "Failed to generate certificate: "@ + (result->Err_0)@,
            now,
        ),
        same_place(app, post),
        action is Nothing,
{
    reveal(AppState::with_first_run);
    reveal(AppState::with_cert_path);
    reveal(AppState::with_key_path);
    reveal(AppState::with_texts);
    let closed = app.state.with_first_run(false, false);
    let security = app.state.config.security;
    match result {
        Ok(_) => lemma_told(
            closed.with_cert_path(security.cert_path).with_key_path(security.key_path),
            post.state,
            MessageLevel::Success,
            "Self-signed certificate generated successfully at: "@ + security.cert_path@,
            now,
        ),
        Err(e) => lemma_told(
            closed,
            post.state,
            MessageLevel::Error,
            "Failed to generate certificate: "@ + e@,
            now,
        ),
    }
}

} // verus!
