//! What the viewer is given and what is published for the head of the queue.
//!
//! A file that carries the recording extension is played and published under
//! its own name. Any other name is the standard base64 form of the identifier
//! to publish; that file is renamed to a fixed name before it is played.

use base64::Engine;
use vstd::prelude::*;
use vstd::utf8::{decode_utf8, encode_utf8, valid_utf8};

verus! {

/// The name an encoded file is renamed to before it is played.
pub const CANONICAL_NAME: &'static str = "next_replay.rep";

/// The name ends in the recording extension `.rep`, with something before it.
pub open spec fn recording_name(name: Seq<char>) -> bool {
    name.len() > 4 && name.subrange(name.len() - 4, name.len() as int) == seq!['.', 'r', 'e', 'p']
}

/// What standard base64 (with padding) decodes `s` to, if `s` is valid base64.
pub uninterp spec fn standard_base64(s: Seq<char>) -> Option<Seq<u8>>;

/// Relies on base64's `STANDARD` engine `decode`, applied to the bytes of `s`.
#[verifier::external_body]
fn decode_base64(s: &String) -> (r: Option<Vec<u8>>)
    ensures
        match r {
            Some(b) => standard_base64(s@) == Some(b@),
            None => standard_base64(s@) is None,
        },
{
    base64::engine::general_purpose::STANDARD.decode(s.as_bytes()).ok()
}

/// Relies on `String::from_utf8`: it accepts exactly the valid UTF-8 byte
/// strings and gives the characters they encode.
#[verifier::external_body]
fn utf8_text(b: Vec<u8>) -> (r: Option<String>)
    ensures
        match r {
            Some(s) => valid_utf8(b@) && s@ == decode_utf8(b@),
            None => !valid_utf8(b@),
        },
{
    String::from_utf8(b).ok()
}

/// The digits of a percent escape.
pub open spec fn upper_hex(d: u8) -> char
    recommends
        d < 16,
{
    seq!['0', '1', '2', '3', '4', '5', '6', '7', '8', '9', 'A', 'B', 'C', 'D', 'E', 'F'][d as int]
}

/// Bytes that form encoding keeps as they are.
pub open spec fn form_unchanged(b: u8) -> bool {
    b == 42 || b == 45 || b == 46 || b == 95 || (48 <= b <= 57) || (65 <= b <= 90) || (97 <= b <= 122)
}

/// The `application/x-www-form-urlencoded` form of one byte.
pub open spec fn form_byte(b: u8) -> Seq<char> {
    if form_unchanged(b) {
        seq![b as char]
    } else if b == 32 {
        seq!['+']
    } else {
        seq!['%', upper_hex(b / 16), upper_hex(b % 16)]
    }
}

/// The `application/x-www-form-urlencoded` form of a byte string.
pub open spec fn form_encoded(bytes: Seq<u8>) -> Seq<char>
    decreases bytes.len(),
{
    if bytes.len() == 0 {
        Seq::empty()
    } else {
        form_encoded(bytes.drop_last()) + form_byte(bytes.last())
    }
}

/// Relies on `url::form_urlencoded::byte_serialize`, whose pieces together
/// give each byte's form encoding in turn.
#[verifier::external_body]
fn form_encode(b: &Vec<u8>) -> (r: String)
    ensures
        r@ == form_encoded(b@),
{
    url::form_urlencoded::byte_serialize(b).collect()
}

/// How the head item is played.
pub enum PlayTarget {
    /// A recording stored under its own name, which is also published.
    Direct { name: String },
    /// A file named by the base64 form of `label`, the identifier to publish;
    /// it is played once renamed to `CANONICAL_NAME`.
    Encoded { stored: String, label: String },
}

/// Why a queued name gives no playback target.
pub enum TargetError {
    /// Without the recording extension, the name is not standard base64.
    NotBase64,
    /// The name decodes to bytes that are not UTF-8.
    NotText,
}

/// The identifier published for a target.
pub open spec fn label_of(t: PlayTarget) -> Seq<char> {
    match t {
        PlayTarget::Direct { name } => name@,
        PlayTarget::Encoded { label, .. } => label@,
    }
}

/// `r` is the target, or the error, for a name without the recording
/// extension that decodes as `decoded`.
pub open spec fn decoded_target(name: Seq<char>, decoded: Option<Seq<u8>>, r: Result<PlayTarget, TargetError>) -> bool {
    match decoded {
        None => r matches Err(TargetError::NotBase64),
        Some(b) => if valid_utf8(b) {
            r matches Ok(PlayTarget::Encoded { stored, label }) && stored@ == name && label@ == decode_utf8(b)
        } else {
            r matches Err(TargetError::NotText)
        },
    }
}

/// `r` is the target, or the error, for the queued name `name`.
pub open spec fn classified(name: Seq<char>, r: Result<PlayTarget, TargetError>) -> bool {
    if recording_name(name) {
        r matches Ok(PlayTarget::Direct { name: n }) && n@ == name
    } else {
        decoded_target(name, standard_base64(name), r)
    }
}

/// Whether `name` carries the recording extension.
pub fn is_recording_name(name: &String) -> (r: bool)
    ensures
        r == recording_name(name@),
{
    let s = name.as_str();
    let n = s.unicode_len();
    if n <= 4 {
        return false;
    }
    let r = s.get_char(n - 4) == '.' && s.get_char(n - 3) == 'r' && s.get_char(n - 2) == 'e'
        && s.get_char(n - 1) == 'p';
    proof {
        let tail = name@.subrange(n - 4, n as int);
        if r {
            assert(tail =~= seq!['.', 'r', 'e', 'p']);
        } else if tail == seq!['.', 'r', 'e', 'p'] {
            assert(tail[0] == name@[n - 4]);
            assert(tail[1] == name@[n - 3]);
            assert(tail[2] == name@[n - 2]);
            assert(tail[3] == name@[n - 1]);
        }
    }
    r
}

/// The contents of an optional byte vector.
pub open spec fn bytes_view(o: Option<Vec<u8>>) -> Option<Seq<u8>> {
    match o {
        Some(b) => Some(b@),
        None => None,
    }
}

/// The target for a name without the recording extension, given what the
/// name decodes to as base64.
pub fn target_from_decoded(name: &String, decoded: Option<Vec<u8>>) -> (r: Result<PlayTarget, TargetError>)
    ensures
        decoded_target(name@, bytes_view(decoded), r),
{
    match decoded {
        None => Err(TargetError::NotBase64),
        Some(bytes) => match utf8_text(bytes) {
            Some(label) => Ok(PlayTarget::Encoded { stored: name.clone(), label }),
            None => Err(TargetError::NotText),
        },
    }
}

/// The playback target of a queued name.
pub fn classify(name: &String) -> (r: Result<PlayTarget, TargetError>)
    ensures
        classified(name@, r),
{
    if is_recording_name(name) {
        Ok(PlayTarget::Direct { name: name.clone() })
    } else {
        let decoded = decode_base64(name);
        target_from_decoded(name, decoded)
    }
}

/// The published address of a target: `base` followed by the form encoding
/// of the target's identifier.
pub fn playable_url(base: &String, target: &PlayTarget) -> (r: String)
    ensures
        r@ == base@ + form_encoded(encode_utf8(label_of(*target))),
{
    let label = match target {
        PlayTarget::Direct { name } => name,
        PlayTarget::Encoded { label, .. } => label,
    };
    let bytes = label.as_str().as_bytes_vec();
    let suffix = form_encode(&bytes);
    base.clone().concat(suffix.as_str())
}

impl PlayTarget {
    /// The name of the file the viewer is given.
    pub fn launch_name(&self) -> (r: String)
        ensures
            self matches PlayTarget::Direct { name } ==> r@ == name@,
            self is Encoded ==> r@ == CANONICAL_NAME@,
    {
        match self {
            PlayTarget::Direct { name } => name.clone(),
            PlayTarget::Encoded { .. } => String::from_str(CANONICAL_NAME),
        }
    }

    /// The stored name to rename to `CANONICAL_NAME` before playing, if any.
    pub fn rename_from(&self) -> (r: Option<String>)
        ensures
            self is Direct ==> r is None,
            self matches PlayTarget::Encoded { stored, .. } ==> (r matches Some(s) && s@ == stored@),
    {
        match self {
            PlayTarget::Direct { .. } => None,
            PlayTarget::Encoded { stored, .. } => Some(stored.clone()),
        }
    }
}

} // verus!
