//! Clipboard sharing between peers: change detection and the handling of
//! remote updates.
//!
//! Reading and writing the system clipboard is done by the program around
//! this crate; the manager here decides what is sent and what is applied.
use vstd::prelude::*;
use vstd::utf8::*;
use vstd::string::StringSliceAdditionalSpecFns;
use crate::protocol::{ClipboardContentType, DataMessage};

verus! {

/// FNV-1a offset basis (64 bit).
pub const FNV_OFFSET: u64 = 0xcbf29ce484222325;

/// FNV-1a prime (64 bit).
pub const FNV_PRIME: u64 = 0x100000001b3;

/// One FNV-1a step.
pub open spec fn fnv_step(h: u64, b: u8) -> u64 {
    (h ^ (b as u64)).wrapping_mul(FNV_PRIME)
}

/// The 64-bit FNV-1a hash of a byte sequence.
pub open spec fn fnv1a(bytes: Seq<u8>) -> u64
    decreases bytes.len(),
{
    if bytes.len() == 0 {
        FNV_OFFSET
    } else {
        fnv_step(fnv1a(bytes.drop_last()), bytes.last())
    }
}

/// The FNV-1a fold of `bytes` started from the hash `h`.
pub open spec fn fnv_fold(h: u64, bytes: Seq<u8>) -> u64
    decreases bytes.len(),
{
    if bytes.len() == 0 {
        h
    } else {
        fnv_step(fnv_fold(h, bytes.drop_last()), bytes.last())
    }
}

/// Hash law: the hash of concatenated bytes continues the hash of the
/// first part over the second; the hash is the fold from the offset basis.
pub proof fn law_hash_concat(a: Seq<u8>, b: Seq<u8>)
    ensures
        fnv1a(a) == fnv_fold(FNV_OFFSET, a),
        fnv1a(a + b) == fnv_fold(fnv1a(a), b),
    decreases a.len() + b.len(),
{
    if a.len() > 0 {
        law_hash_concat(a.drop_last(), Seq::empty());
    }
    if b.len() > 0 {
        law_hash_concat(a, b.drop_last());
        assert((a + b).drop_last() =~= a + b.drop_last());
        assert((a + b).last() == b.last());
    } else {
        assert(a + b =~= a);
    }
}

/// The hash of a text: FNV-1a over its UTF-8 bytes.
pub open spec fn text_hash(text: Seq<char>) -> u64 {
    fnv1a(encode_utf8(text))
}

/// Simple FNV-1a hash for change detection.
pub fn simple_hash(s: &str) -> (h: u64)
    ensures
        h == fnv1a(s.spec_bytes()),
        h == text_hash(s@),
{
    let bytes = s.as_bytes();
    let mut hash: u64 = FNV_OFFSET;
    let mut i: usize = 0;
    while i < bytes.len()
        invariant
            0 <= i <= bytes@.len(),
            bytes@ == s.spec_bytes(),
            hash == fnv1a(bytes@.subrange(0, i as int)),
        decreases bytes@.len() - i,
    {
        proof {
            assert(bytes@.subrange(0, i as int + 1).drop_last() =~= bytes@.subrange(0, i as int));
        }
        hash = (hash ^ (bytes[i] as u64)).wrapping_mul(FNV_PRIME);
        i = i + 1;
    }
    proof {
        assert(bytes@.subrange(0, i as int) =~= bytes@);
    }
    hash
}

/// When to sync clipboard between peers.
#[derive(Debug, Clone, Copy, PartialEq, Eq)]
pub enum ClipboardSyncMode {
    /// Sync clipboard on every change (real-time).
    OnChange,
    /// Sync clipboard only when focus changes between peers.
    OnFocusChange,
    /// Clipboard sharing disabled.
    Disabled,
}

impl Default for ClipboardSyncMode {
    fn default() -> (m: Self)
        ensures
            m == ClipboardSyncMode::OnFocusChange,
    {
        ClipboardSyncMode::OnFocusChange
    }
}

/// Errors of clipboard handling.
#[derive(Debug)]
pub enum ClipboardError {
    /// Clipboard data too large: the size, then the limit.
    TooLarge(usize, usize),
    /// Invalid clipboard data.
    InvalidData(String),
    /// Clipboard channel closed.
    ChannelClosed,
    /// Internal error.
    Internal(String),
}

/// The text of the error that `String::from_utf8` reports for bytes that
/// are not UTF-8.
pub uninterp spec fn utf8_error_text(bytes: Seq<u8>) -> Seq<char>;

/// Decodes UTF-8 bytes into a `String` with `String::from_utf8`, turning its
/// error into its message. Claims: the result is `Ok` exactly when the bytes
/// are valid UTF-8 (as vstd's `valid_utf8` states it), the text is then the
/// decoded text, and the message is a function of the bytes.
#[verifier::external_body]
fn string_from_utf8(data: Vec<u8>) -> (r: Result<String, String>)
    ensures
        r is Ok <==> valid_utf8(data@),
        r matches Ok(s) ==> s@ == decode_utf8(data@),
        r matches Err(m) ==> m@ == utf8_error_text(data@),
{
    match String::from_utf8(data) {
        Ok(s) => Ok(s),
        Err(e) => Err(e.to_string()),
    }
}

/// What the program should do with the system clipboard after a remote
/// update was accepted.
#[derive(Debug)]
pub enum ClipboardApply {
    /// Set the clipboard to this text.
    SetText(String),
    /// Set the clipboard to this HTML.
    SetHtml(String),
    /// The content type is not supported; nothing to do.
    Ignore,
}

/// The abstract state of a clipboard manager.
pub struct ClipboardModel {
    pub active: bool,
    pub last_hash: u64,
    pub max_size: nat,
    pub sync_mode: ClipboardSyncMode,
}

/// Clipboard manager: remembers the hash of the last clipboard text that
/// was sent or applied, so that a change is sent once and a remote update is
/// not sent back.
pub struct ClipboardManager {
    active: bool,
    last_hash: u64,
    max_size: usize,
    sync_mode: ClipboardSyncMode,
}

impl View for ClipboardManager {
    type V = ClipboardModel;

    closed spec fn view(&self) -> ClipboardModel {
        ClipboardModel {
            active: self.active,
            last_hash: self.last_hash,
            max_size: self.max_size as nat,
            sync_mode: self.sync_mode,
        }
    }
}

/// What a poll of the local clipboard sends: the text's bytes when the text
/// is non-empty, fits the limit and differs (by hash) from the last one.
pub open spec fn poll_sends(m: ClipboardModel, text: Seq<char>) -> bool {
    &&& text.len() > 0
    &&& encode_utf8(text).len() <= m.max_size
    &&& text_hash(text) != m.last_hash
}

impl ClipboardManager {
    /// A manager with the given size limit and sync mode, not monitoring,
    /// whose last hash is 0.
    pub fn new(max_size: usize, sync_mode: ClipboardSyncMode) -> (c: Self)
        ensures
            c@ == (ClipboardModel { active: false, last_hash: 0, max_size: max_size as nat, sync_mode }),
    {
        ClipboardManager { active: false, last_hash: 0, max_size, sync_mode }
    }

    /// The sync mode.
    pub fn sync_mode(&self) -> (m: ClipboardSyncMode)
        ensures
            m == self@.sync_mode,
    {
        self.sync_mode
    }

    /// The size limit in bytes.
    pub fn max_size(&self) -> (n: usize)
        ensures
            n == self@.max_size,
    {
        self.max_size
    }

    /// The hash of the last text sent or applied.
    pub fn last_hash(&self) -> (h: u64)
        ensures
            h == self@.last_hash,
    {
        self.last_hash
    }

    /// Whether monitoring is active.
    pub fn is_active(&self) -> (b: bool)
        ensures
            b == self@.active,
    {
        self.active
    }

    /// Marks monitoring as started.
    pub fn start_monitoring(&mut self)
        ensures
            final(self)@ == (ClipboardModel { active: true, ..old(self)@ }),
    {
        self.active = true;
    }

    /// Marks monitoring as stopped; the monitoring loop ends at its next
    /// tick.
    pub fn stop_monitoring(&mut self)
        ensures
            final(self)@ == (ClipboardModel { active: false, ..old(self)@ }),
    {
        self.active = false;
    }

    /// One tick of monitoring, given the text read from the local clipboard
    /// (`None` when it could not be read or holds no text). Returns the
    /// update to send, if any: a non-empty text that fits the limit and
    /// whose hash differs from the last one, which then becomes the last
    /// hash. A text over the limit is skipped.
    pub fn poll_local(&mut self, text: Option<String>) -> (msg: Option<DataMessage>)
        ensures
            match text {
                Some(t) => if poll_sends(old(self)@, t@) {
                    &&& final(self)@ == (ClipboardModel { last_hash: text_hash(t@), ..old(self)@ })
                    &&& msg matches Some(DataMessage::ClipboardUpdate { content_type, data })
                    &&& content_type is PlainText
                    &&& data@ == encode_utf8(t@)
                } else {
                    final(self)@ == old(self)@ && msg is None
                },
                None => final(self)@ == old(self)@ && msg is None,
            },
    {
        match text {
            None => None,
            Some(t) => {
                if t.as_str().is_empty() {
                    return None;
                }
                let bytes = t.as_str().as_bytes();
                if bytes.len() > self.max_size {
                    return None;
                }
                let hash = simple_hash(t.as_str());
                if hash != self.last_hash {
                    self.last_hash = hash;
                    let data = crate::bytes::copy_range(bytes, 0, bytes.len());
                    proof {
                        assert(bytes@.subrange(0, bytes@.len() as int) =~= bytes@);
                    }
                    Some(DataMessage::ClipboardUpdate { content_type: ClipboardContentType::PlainText, data })
                } else {
                    None
                }
            },
        }
    }

    /// A one-time sync (used when focus changes), given the text read from
    /// the local clipboard. As a tick of monitoring, except that a text over
    /// the limit is an error `TooLarge(size, limit)`.
    pub fn sync_now(&mut self, text: Option<String>) -> (r: Result<Option<DataMessage>, ClipboardError>)
        ensures
            match text {
                Some(t) => if t@.len() > 0 && encode_utf8(t@).len() > old(self)@.max_size {
                    &&& final(self)@ == old(self)@
                    &&& r matches Err(ClipboardError::TooLarge(n, limit))
                    &&& n == encode_utf8(t@).len()
                    &&& limit == old(self)@.max_size
                } else if poll_sends(old(self)@, t@) {
                    &&& final(self)@ == (ClipboardModel { last_hash: text_hash(t@), ..old(self)@ })
                    &&& r matches Ok(Some(DataMessage::ClipboardUpdate { content_type, data }))
                    &&& content_type is PlainText
                    &&& data@ == encode_utf8(t@)
                } else {
                    final(self)@ == old(self)@ && r matches Ok(None)
                },
                None => final(self)@ == old(self)@ && r matches Ok(None),
            },
    {
        match text {
            None => Ok(None),
            Some(t) => {
                if t.as_str().is_empty() {
                    return Ok(None);
                }
                let n = t.as_str().as_bytes().len();
                if n > self.max_size {
                    return Err(ClipboardError::TooLarge(n, self.max_size));
                }
                Ok(self.poll_local(Some(t)))
            },
        }
    }

    /// Handles a clipboard update from a remote peer. Data over the limit is
    /// `TooLarge(size, limit)`; plain text and HTML must be UTF-8
    /// (`InvalidData` with the decoder's message otherwise), their hash
    /// becomes the last hash (so the text is not sent back), and the text is
    /// returned to be applied. Other content types are ignored.
    pub fn handle_remote_update(&mut self, content_type: ClipboardContentType, data: Vec<u8>) -> (r: Result<ClipboardApply, ClipboardError>)
        ensures
            data@.len() > old(self)@.max_size ==> {
                &&& final(self)@ == old(self)@
                &&& r matches Err(ClipboardError::TooLarge(n, limit))
                &&& n == data@.len() && limit == old(self)@.max_size
            },
            data@.len() <= old(self)@.max_size ==> match content_type {
                ClipboardContentType::PlainText | ClipboardContentType::Html => {
                    if valid_utf8(data@) {
                        &&& final(self)@ == (ClipboardModel { last_hash: text_hash(decode_utf8(data@)), ..old(self)@ })
                        &&& (content_type is PlainText ==> (r matches Ok(ClipboardApply::SetText(s)) && s@ == decode_utf8(data@)))
                        &&& (content_type is Html ==> (r matches Ok(ClipboardApply::SetHtml(s)) && s@ == decode_utf8(data@)))
                    } else {
                        &&& final(self)@ == old(self)@
                        &&& r matches Err(ClipboardError::InvalidData(m))
                        &&& m@ == utf8_error_text(data@)
                    }
                },
                _ => final(self)@ == old(self)@ && r matches Ok(ClipboardApply::Ignore),
            },
    {
        if data.len() > self.max_size {
            return Err(ClipboardError::TooLarge(data.len(), self.max_size));
        }
        match content_type {
            ClipboardContentType::PlainText => {
                match string_from_utf8(data) {
                    Ok(text) => {
                        self.last_hash = simple_hash(text.as_str());
                        Ok(ClipboardApply::SetText(text))
                    },
                    Err(m) => Err(ClipboardError::InvalidData(m)),
                }
            },
            ClipboardContentType::Html => {
                match string_from_utf8(data) {
                    Ok(text) => {
                        self.last_hash = simple_hash(text.as_str());
                        Ok(ClipboardApply::SetHtml(text))
                    },
                    Err(m) => Err(ClipboardError::InvalidData(m)),
                }
            },
            _ => Ok(ClipboardApply::Ignore),
        }
    }
}

/// Echo suppression: once a remote text update has been applied, reading
/// the same text back from the local clipboard sends nothing, until the
/// text changes.
pub proof fn law_remote_update_not_echoed(m: ClipboardModel, data: Seq<u8>, local: Seq<char>)
    requires
        valid_utf8(data),
        local == decode_utf8(data),
    ensures
        !poll_sends(ClipboardModel { last_hash: text_hash(decode_utf8(data)), ..m }, local),
{
}

/// Change detection: a poll that sent a text leaves the manager in a state
/// where polling the same text again sends nothing.
pub proof fn law_change_sent_once(m: ClipboardModel, text: Seq<char>)
    requires
        poll_sends(m, text),
    ensures
        !poll_sends(ClipboardModel { last_hash: text_hash(text), ..m }, text),
{
}

} // verus!
