use vstd::prelude::*;

use crate::pcap::{decode_pcap, CaptureView, Pcap};
use crate::pcapng::PcapNG;

verus! {

/// Why a recording could not be loaded.
#[derive(Debug)]
pub enum FileError {
    /// The file's extension, empty where it has none, is not one that can be played.
    FileTypeNotSupported(String),
    NotAFile,
    PathDoesNotExist,
    ParseError,
}

/// A loaded capture, by container format.
#[derive(Debug)]
pub enum Recording {
    Pcap(Pcap),
    PcapNg(PcapNG),
}

/// What the file system says of a path, gathered before the file is opened.
pub struct PathProbe {
    pub exists: bool,
    pub is_file: bool,
    /// The extension of the file name, where it has one that is valid text.
    pub extension: Option<String>,
}

/// Whether files with this extension can be played.
pub open spec fn is_supported_extension(ext: Seq<char>) -> bool {
    ext == "pcap"@
}

/// The outcome of checking a path, before its file is opened: `None` where it
/// may be loaded.
pub open spec fn path_verdict(exists: bool, is_file: bool, extension: Option<Seq<char>>) -> Option<
    FileErrorKind,
> {
    if !exists {
        Some(FileErrorKind::PathDoesNotExist)
    } else if !is_file {
        Some(FileErrorKind::NotAFile)
    } else {
        match extension {
            None => Some(FileErrorKind::FileTypeNotSupported(Seq::empty())),
            Some(e) => if is_supported_extension(e) {
                None
            } else {
                Some(FileErrorKind::FileTypeNotSupported(e))
            },
        }
    }
}

/// A load failure with its text as a sequence of characters.
pub enum FileErrorKind {
    FileTypeNotSupported(Seq<char>),
    NotAFile,
    PathDoesNotExist,
    ParseError,
}

impl FileError {
    /// This failure with its text as a sequence of characters.
    pub open spec fn kind(&self) -> FileErrorKind {
        match self {
            FileError::FileTypeNotSupported(s) => FileErrorKind::FileTypeNotSupported(s@),
            FileError::NotAFile => FileErrorKind::NotAFile,
            FileError::PathDoesNotExist => FileErrorKind::PathDoesNotExist,
            FileError::ParseError => FileErrorKind::ParseError,
        }
    }
}

/// The view of an optional string.
pub open spec fn opt_view(s: Option<String>) -> Option<Seq<char>> {
    match s {
        Some(t) => Some(t@),
        None => None,
    }
}

/// Checks a path before its file is opened: it must exist, be a regular file
/// and carry a supported extension, in that order.
pub fn check_path(probe: &PathProbe) -> (r: Result<(), FileError>)
    ensures
        match path_verdict(probe.exists, probe.is_file, opt_view(probe.extension)) {
            None => r is Ok,
            Some(k) => r matches Err(e) && e.kind() == k,
        },
{
    if !probe.exists {
        return Err(FileError::PathDoesNotExist);
    }
    if !probe.is_file {
        return Err(FileError::NotAFile);
    }
    match &probe.extension {
        None => Err(FileError::FileTypeNotSupported(String::new())),
        Some(ext) => {
            let supported = String::from_str("pcap");
            if *ext == supported {
                Ok(())
            } else {
                Err(FileError::FileTypeNotSupported(ext.clone()))
            }
        },
    }
}

impl Recording {
    /// Decodes the bytes of a file that passed `check_path` as a classic capture.
    pub fn from_bytes(bytes: &[u8]) -> (r: Result<Recording, FileError>)
        ensures
            match decode_pcap(bytes@) {
                Some(c) => r matches Ok(Recording::Pcap(p)) && p@ == c,
                None => r matches Err(FileError::ParseError),
            },
    {
        match Pcap::parse(bytes) {
            Ok(p) => Ok(Recording::Pcap(p)),
            Err(_) => Err(FileError::ParseError),
        }
    }

    /// The capture held, where it is in the supported format.
    pub open spec fn capture(&self) -> Option<CaptureView> {
        match self {
            Recording::Pcap(p) => Some(p@),
            Recording::PcapNg(_) => None,
        }
    }
}

} // verus!
