use vstd::prelude::*;

verus! {

/// A logical storage location that the host resolves to a directory.
#[derive(Clone, Copy, Debug, PartialEq, Eq, Structural)]
pub enum DirectoryKind {
    AppData,
    Documents,
}

/// What went wrong in one bridge operation, with the path involved.
#[derive(Clone, Debug)]
pub enum BridgeError {
    /// The host could not name the directory of this kind.
    DirectoryResolution { kind: DirectoryKind, reason: String },
    /// The directory could not be created.
    Directory { path: String, reason: String },
    /// The payload is not standard base64.
    Decode { reason: String },
    /// The file could not be written at this full path.
    Write { full_path: String, reason: String },
}

/// The mathematical value of a `BridgeError`.
pub ghost enum ErrorView {
    DirectoryResolution { kind: DirectoryKind, reason: Seq<char> },
    Directory { path: Seq<char>, reason: Seq<char> },
    Decode { reason: Seq<char> },
    Write { full_path: Seq<char>, reason: Seq<char> },
}

impl View for BridgeError {
    type V = ErrorView;

    open spec fn view(&self) -> ErrorView {
        match self {
            BridgeError::DirectoryResolution { kind, reason } => ErrorView::DirectoryResolution {
                kind: *kind,
                reason: reason@,
            },
            BridgeError::Directory { path, reason } => ErrorView::Directory {
                path: path@,
                reason: reason@,
            },
            BridgeError::Decode { reason } => ErrorView::Decode { reason: reason@ },
            BridgeError::Write { full_path, reason } => ErrorView::Write {
                full_path: full_path@,
                reason: reason@,
            },
        }
    }
}

/// How the messages name a directory kind.
pub open spec fn kind_label(kind: DirectoryKind) -> Seq<char> {
    match kind {
        DirectoryKind::AppData => "app data"@,
        DirectoryKind::Documents => "document"@,
    }
}

/// The human-readable text of an error, as the host shows it.
pub open spec fn message_of(e: ErrorView) -> Seq<char> {
    match e {
        ErrorView::DirectoryResolution { kind, reason } => "Failed to get "@ + kind_label(kind)
            + " directory: "@ + reason,
        ErrorView::Directory { path, reason } => "Failed to create directory "@ + path + ": "@
            + reason,
        ErrorView::Decode { reason } => "Failed to decode base64 data: "@ + reason,
        ErrorView::Write { full_path, reason } => "Failed to save file "@ + full_path + ": "@
            + reason,
    }
}

impl DirectoryKind {
    /// The label that messages use for this kind.
    pub fn label(&self) -> (r: &'static str)
        ensures
            r@ == kind_label(*self),
    {
        match self {
            DirectoryKind::AppData => "app data",
            DirectoryKind::Documents => "document",
        }
    }
}

impl BridgeError {
    /// The error as one descriptive line of text.
    pub fn message(&self) -> (r: String)
        ensures
            r@ == message_of(self@),
    {
        match self {
            BridgeError::DirectoryResolution { kind, reason } => {
                let mut r = String::from_str("Failed to get ");
                r.append(kind.label());
                r.append(" directory: ");
                r.append(reason.as_str());
                r
            },
            BridgeError::Directory { path, reason } => {
                let mut r = String::from_str("Failed to create directory ");
                r.append(path.as_str());
                r.append(": ");
                r.append(reason.as_str());
                r
            },
            BridgeError::Decode { reason } => {
                let mut r = String::from_str("Failed to decode base64 data: ");
                r.append(reason.as_str());
                r
            },
            BridgeError::Write { full_path, reason } => {
                let mut r = String::from_str("Failed to save file ");
                r.append(full_path.as_str());
                r.append(": ");
                r.append(reason.as_str());
                r
            },
        }
    }
}

/// The message of a write error holds the full path that was attempted.
pub proof fn lemma_write_message_names_path(full_path: Seq<char>, reason: Seq<char>)
    ensures
        ({
            let m = message_of(ErrorView::Write { full_path, reason });
            let start = "Failed to save file "@.len() as int;
            m.subrange(start, start + full_path.len()) == full_path
        }),
{
    let m = message_of(ErrorView::Write { full_path, reason });
    let start = "Failed to save file "@.len() as int;
    assert(m.subrange(start, start + full_path.len()) =~= full_path);
}

} // verus!
