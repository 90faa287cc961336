//! The dialogs in which the user is asked for a file.

use vstd::prelude::*;

verus! {

/// A file that the user is asked for.
#[derive(Debug, Clone, Copy, PartialEq, Eq, Structural)]
pub enum FileChoice {
    Certificate,
    Key,
    LogDir,
    Config,
    SaveConfig,
    SaveCapabilities,
    SaveLogs,
}

/// What the user can do in a dialog.
#[derive(Debug, Clone, Copy, PartialEq, Eq, Structural)]
pub enum DialogKind {
    PickFile,
    PickFolder,
    SaveFile,
}

/// A dialog in which the user is asked for a file.
#[derive(Debug)]
pub struct FileDialog {
    pub kind: DialogKind,
    /// The files that are offered, in words.
    pub filter: &'static str,
    /// The endings of the files that are offered; none for all files.
    pub extensions: Vec<&'static str>,
    /// The name that the dialog starts with.
    pub file_name: Option<&'static str>,
}

/// What a dialog shows.
pub struct DialogView {
    pub kind: DialogKind,
    pub filter: Seq<char>,
    pub extensions: Seq<Seq<char>>,
    pub file_name: Option<Seq<char>>,
}

impl View for FileDialog {
    type V = DialogView;

    open spec fn view(&self) -> DialogView {
        DialogView {
            kind: self.kind,
            filter: self.filter@,
            extensions: Seq::new(self.extensions@.len(), |i: int| self.extensions@[i]@),
            file_name: match self.file_name {
                Some(n) => Some(n@),
                None => None,
            },
        }
    }
}

impl FileChoice {
    /// The dialog for the file.
    pub open spec fn shown(self) -> DialogView {
        match self {
            FileChoice::Certificate => DialogView {
                kind: DialogKind::PickFile,
                filter: "Certificate"@,
                extensions: seq!["pem"@, "crt"@, "cert"@],
                file_name: None,
            },
            FileChoice::Key => DialogView {
                kind: DialogKind::PickFile,
                filter: "Private Key"@,
                extensions: seq!["pem"@, "key"@],
                file_name: None,
            },
            FileChoice::LogDir => DialogView {
                kind: DialogKind::PickFolder,
                filter: ""@,
                extensions: seq![],
                file_name: None,
            },
            FileChoice::Config => DialogView {
                kind: DialogKind::PickFile,
                filter: "TOML Config"@,
                extensions: seq!["toml"@],
                file_name: None,
            },
            FileChoice::SaveConfig => DialogView {
                kind: DialogKind::SaveFile,
                filter: "TOML Config"@,
                extensions: seq!["toml"@],
                file_name: Some("config.toml"@),
            },
            FileChoice::SaveCapabilities => DialogView {
                kind: DialogKind::SaveFile,
                filter: "JSON"@,
                extensions: seq!["json"@],
                file_name: Some("capabilities.json"@),
            },
            FileChoice::SaveLogs => DialogView {
                kind: DialogKind::SaveFile,
                filter: "Log files"@,
                extensions: seq!["txt"@, "log"@],
                file_name: Some("lamco-rdp-server-logs.txt"@),
            },
        }
    }

    /// The dialog for the file.
    pub fn dialog(&self) -> (r: FileDialog)
        ensures
            r@ == self.shown(),
    {
        let r = match self {
            FileChoice::Certificate => FileDialog {
                kind: DialogKind::PickFile,
                filter: "Certificate",
                extensions: vec!["pem", "crt", "cert"],
                file_name: None,
            },
            FileChoice::Key => FileDialog {
                kind: DialogKind::PickFile,
                filter: "Private Key",
                extensions: vec!["pem", "key"],
                file_name: None,
            },
            FileChoice::LogDir => FileDialog {
                kind: DialogKind::PickFolder,
                filter: "",
                extensions: Vec::new(),
                file_name: None,
            },
            FileChoice::Config => FileDialog {
                kind: DialogKind::PickFile,
                filter: "TOML Config",
                extensions: vec!["toml"],
                file_name: None,
            },
            FileChoice::SaveConfig => FileDialog {
                kind: DialogKind::SaveFile,
                filter: "TOML Config",
                extensions: vec!["toml"],
                file_name: Some("config.toml"),
            },
            FileChoice::SaveCapabilities => FileDialog {
                kind: DialogKind::SaveFile,
                filter: "JSON",
                extensions: vec!["json"],
                file_name: Some("capabilities.json"),
            },
            FileChoice::SaveLogs => FileDialog {
                kind: DialogKind::SaveFile,
                filter: "Log files",
                extensions: vec!["txt", "log"],
                file_name: Some("lamco-rdp-server-logs.txt"),
            },
        };
        assert(r@.extensions =~= self.shown().extensions);
        r
    }
}

/// What is saved gets a name that has one of the endings that are offered; what is picked has
/// its name already. Directories are picked as such and have no endings.
pub proof fn dialogs_fit_their_file(choice: FileChoice)
    ensures
        choice is SaveConfig || choice is SaveCapabilities || choice is SaveLogs
            <==> choice.shown().kind == DialogKind::SaveFile,
        choice is LogDir <==> choice.shown().kind == DialogKind::PickFolder,
        choice.shown().file_name is Some <==> choice.shown().kind == DialogKind::SaveFile,
        choice.shown().extensions.len() == 0 <==> choice is LogDir,
        choice is SaveConfig ==> choice.shown().file_name == Some("config.toml"@),
        choice is SaveCapabilities ==> choice.shown().file_name == Some("capabilities.json"@),
        choice is SaveLogs ==> choice.shown().file_name == Some("lamco-rdp-server-logs.txt"@),
{
}

/// The files that are offered are those that can hold what is asked for, in words and by
/// ending.
pub proof fn dialogs_offer_fitting_files()
    ensures
        FileChoice::Config.shown().extensions == FileChoice::SaveConfig.shown().extensions,
        FileChoice::Config.shown().filter == FileChoice::SaveConfig.shown().filter,
        FileChoice::Config.shown().extensions == seq!["toml"@],
        FileChoice::Config.shown().filter == "TOML Config"@,
        FileChoice::Certificate.shown().extensions == seq!["pem"@, "crt"@, "cert"@],
        FileChoice::Certificate.shown().filter == "Certificate"@,
        FileChoice::Key.shown().extensions == seq!["pem"@, "key"@],
        FileChoice::Key.shown().filter == "Private Key"@,
        FileChoice::SaveCapabilities.shown().extensions == seq!["json"@],
        FileChoice::SaveCapabilities.shown().filter == "JSON"@,
        FileChoice::SaveLogs.shown().extensions == seq!["txt"@, "log"@],
        FileChoice::SaveLogs.shown().filter == "Log files"@,
{
}

} // verus!
