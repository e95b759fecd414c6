//! Where a media stream comes from, and how a descriptor names it.

use vstd::prelude::*;
use vstd::string::StrSliceExecFns;
use vstd::string::StringExecFns;

verus! {

/// The two kinds of media that a session can carry.
#[derive(Debug, Clone, Copy, PartialEq, Eq, Structural)]
pub enum MediaKind {
    Video,
    Audio,
}

/// The origin of one media stream.
#[derive(Debug, Clone, PartialEq, Eq)]
pub enum MediaSource {
    /// A pre-encoded file on the local file system.
    LocalFile(String),
    /// A capture device, named by its device path.
    CaptureDevice(String),
}

/// What a `MediaSource` stands for: its variant and the characters of its
/// path.
pub enum SourceModel {
    LocalFile(Seq<char>),
    CaptureDevice(Seq<char>),
}

impl View for MediaSource {
    type V = SourceModel;

    open spec fn view(&self) -> SourceModel {
        match self {
            MediaSource::LocalFile(path) => SourceModel::LocalFile(path@),
            MediaSource::CaptureDevice(path) => SourceModel::CaptureDevice(path@),
        }
    }
}

/// The marker that names a local file.
pub open spec fn file_marker() -> Seq<char> {
    seq!['f', 'i', 'l', 'e', ':']
}

/// The marker that names a capture device.
pub open spec fn device_marker() -> Seq<char> {
    seq!['v', '4', 'l', '2', ':']
}

/// The number of characters of a marker.
pub open spec fn marker_len() -> int {
    5
}

/// The source that a descriptor names. A descriptor that begins with the
/// file marker names a local file, one that begins with the device marker a
/// capture device; the path is what follows the marker. Any other descriptor
/// names a local file whose path is the descriptor itself.
pub open spec fn named_source(descriptor: Seq<char>) -> SourceModel {
    if file_marker().is_prefix_of(descriptor) {
        SourceModel::LocalFile(descriptor.skip(marker_len()))
    } else if device_marker().is_prefix_of(descriptor) {
        SourceModel::CaptureDevice(descriptor.skip(marker_len()))
    } else {
        SourceModel::LocalFile(descriptor)
    }
}

/// Tells whether `text` begins with `marker`.
fn begins_with(text: &str, marker: &str) -> (found: bool)
    ensures
        found == marker@.is_prefix_of(text@),
{
    let n = text.unicode_len();
    let m = marker.unicode_len();
    if m > n {
        return false;
    }
    let mut j: usize = 0;
    while j < m
        invariant
            j <= m,
            m == marker@.len(),
            n == text@.len(),
            m <= n,
            forall|k: int| 0 <= k < j ==> marker@[k] == text@[k],
        decreases m - j,
    {
        if marker.get_char(j) != text.get_char(j) {
            assert(text@.subrange(0, m as int)[j as int] != marker@[j as int]);
            return false;
        }
        j += 1;
    }
    assert(marker@ =~= text@.subrange(0, m as int));
    true
}

/// Copies what follows the marker of a marked descriptor.
fn after_marker(descriptor: &str) -> (path: String)
    requires
        descriptor@.len() >= marker_len(),
    ensures
        path@ == descriptor@.skip(marker_len()),
{
    let n = descriptor.unicode_len();
    assert(descriptor@.subrange(5, n as int) =~= descriptor@.skip(5));
    String::from_str(descriptor.substring_char(5, n))
}

impl MediaSource {
    /// Reads a media descriptor.
    pub fn from_descriptor(descriptor: &str) -> (source: MediaSource)
        ensures
            source@ == named_source(descriptor@),
    {
        proof {
            reveal_strlit("file:");
            reveal_strlit("v4l2:");
            assert("file:"@ =~= file_marker());
            assert("v4l2:"@ =~= device_marker());
        }
        if begins_with(descriptor, "file:") {
            MediaSource::LocalFile(after_marker(descriptor))
        } else if begins_with(descriptor, "v4l2:") {
            MediaSource::CaptureDevice(after_marker(descriptor))
        } else {
            MediaSource::LocalFile(String::from_str(descriptor))
        }
    }

    /// The path of the file or device.
    pub fn path(&self) -> (path: &String)
        ensures
            *path == self.spec_path(),
    {
        match self {
            MediaSource::LocalFile(path) => path,
            MediaSource::CaptureDevice(path) => path,
        }
    }

    /// The path that the source holds.
    pub open spec fn spec_path(&self) -> String {
        match self {
            MediaSource::LocalFile(path) => *path,
            MediaSource::CaptureDevice(path) => *path,
        }
    }

    /// Tells whether the source is a file.
    pub fn is_local_file(&self) -> (local: bool)
        ensures
            local == (self is LocalFile),
    {
        match self {
            MediaSource::LocalFile(_) => true,
            MediaSource::CaptureDevice(_) => false,
        }
    }
}

} // verus!
