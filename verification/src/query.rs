//! The queries: one per identity fact and form.
//!
//! Each takes what the host's resolver answered and returns the fact as this
//! crate reports it. Names of the user and of the device are reported as they
//! were resolved; a host name has its ASCII case folded; a missing
//! distribution name is made up from the platform; classifications and
//! language tags pass through.

use vstd::prelude::*;
use vstd::string::*;
use vstd::utf8::*;
use crate::taxonomy::DesktopEnv;
use crate::taxonomy::Platform;
use crate::text::ascii_lower;
use crate::text::ascii_lowercase;
use crate::text::is_ascii_upper;
use crate::text::lemma_ascii_lower_settled;
use crate::text::raw_of;
use crate::text::text_from_raw;
use crate::text::text_of;

verus! {

/// The host name that is reported for a resolved one: its text, with ASCII
/// case folded.
pub open spec fn hostname_text(raw: Seq<u8>) -> Seq<char> {
    ascii_lower(text_of(raw))
}

/// The distribution name that is reported where the resolver has none.
pub open spec fn distro_fallback(platform: Platform) -> Seq<char> {
    "Unknown "@ + platform.display()
}

/// A raw value that is UTF-8 has the text that it decodes to, and that text
/// has the raw value as its raw form.
pub proof fn lemma_text_of_representable(raw: Seq<u8>)
    requires
        valid_utf8(raw),
    ensures
        text_of(raw) == decode_utf8(raw),
        raw_of(text_of(raw)) == raw,
{
    decode_utf8_encode_utf8(raw);
}

/// The raw form of a text is UTF-8 and has that text as its text form.
pub proof fn lemma_raw_of_text(text: Seq<char>)
    ensures
        valid_utf8(raw_of(text)),
        decode_utf8(raw_of(text)) == text,
        text_of(raw_of(text)) == text,
{
    encode_utf8_valid_utf8(text);
    encode_utf8_decode_utf8(text);
}

/// A reported host name holds none of the letters `A` to `Z`, and reporting
/// it once more, from its raw form, gives the same name.
pub proof fn lemma_hostname_settled(raw: Seq<u8>)
    ensures
        forall|i: int|
            0 <= i < hostname_text(raw).len() ==> !is_ascii_upper(#[trigger] hostname_text(raw)[i]),
        hostname_text(raw_of(hostname_text(raw))) == hostname_text(raw),
{
    lemma_ascii_lower_settled(text_of(raw));
    lemma_raw_of_text(hostname_text(raw));
}

/// The user's login name, as text.
pub fn username(raw: Vec<u8>) -> (name: String)
    ensures
        name@ == text_of(raw@),
{
    text_from_raw(raw.as_slice())
}

/// The user's login name, in raw form: the resolved value itself.
pub fn username_os(raw: Vec<u8>) -> (name: Vec<u8>)
    ensures
        name@ == raw@,
{
    raw
}

/// The user's full name, as text.
pub fn realname(raw: Vec<u8>) -> (name: String)
    ensures
        name@ == text_of(raw@),
{
    text_from_raw(raw.as_slice())
}

/// The user's full name, in raw form: the resolved value itself.
pub fn realname_os(raw: Vec<u8>) -> (name: Vec<u8>)
    ensures
        name@ == raw@,
{
    raw
}

/// The device's pretty name, as text. Spaces and mixed case stay.
pub fn devicename(raw: Vec<u8>) -> (name: String)
    ensures
        name@ == text_of(raw@),
{
    text_from_raw(raw.as_slice())
}

/// The device's pretty name, in raw form: the resolved value itself.
pub fn devicename_os(raw: Vec<u8>) -> (name: Vec<u8>)
    ensures
        name@ == raw@,
{
    raw
}

/// The host name, as text with ASCII case folded. Host names do not
/// distinguish case, so one case is reported; characters outside ASCII stay.
pub fn hostname(raw: Vec<u8>) -> (name: String)
    ensures
        name@ == hostname_text(raw@),
        forall|i: int| 0 <= i < name@.len() ==> !is_ascii_upper(#[trigger] name@[i]),
{
    let text = text_from_raw(raw.as_slice());
    proof {
        lemma_hostname_settled(raw@);
    }
    ascii_lowercase(text.as_str())
}

/// The host name, in raw form. It is the raw form of the text that
/// `hostname` reports, so the two forms never disagree.
pub fn hostname_os(raw: Vec<u8>) -> (name: Vec<u8>)
    ensures
        name@ == raw_of(hostname_text(raw@)),
        valid_utf8(name@),
        decode_utf8(name@) == hostname_text(raw@),
{
    let text = hostname(raw);
    proof {
        lemma_raw_of_text(text@);
    }
    text.as_str().as_bytes_vec()
}

/// The name of the operating system's distribution, as text. Where the
/// resolver has none, it is `Unknown ` followed by the platform as shown.
pub fn distro(raw: Option<Vec<u8>>, platform: &Platform) -> (name: String)
    ensures
        name@ == match raw {
            Some(bytes) => text_of(bytes@),
            None => distro_fallback(*platform),
        },
{
    match raw {
        Some(bytes) => text_from_raw(bytes.as_slice()),
        None => {
            let mut name = "Unknown ".to_owned();
            name.append(platform.to_string().as_str());
            name
        },
    }
}

/// The name of the operating system's distribution, in raw form: the resolved
/// value itself, or the raw form of the fallback that `distro` reports.
pub fn distro_os(raw: Option<Vec<u8>>, platform: &Platform) -> (name: Vec<u8>)
    ensures
        name@ == match raw {
            Some(bytes) => bytes@,
            None => raw_of(distro_fallback(*platform)),
        },
{
    match raw {
        Some(bytes) => bytes,
        None => distro(None, platform).as_str().as_bytes_vec(),
    }
}

/// The desktop environment, as the resolver classified it.
pub fn desktop_env(resolved: DesktopEnv) -> (env: DesktopEnv)
    ensures
        env == resolved,
{
    resolved
}

/// The platform, as the resolver classified it.
pub fn platform(resolved: Platform) -> (family: Platform)
    ensures
        family == resolved,
{
    resolved
}

/// The user's preferred languages, most preferred first: the resolved tags,
/// each unchanged and in the resolver's order.
pub fn lang(resolved: Vec<String>) -> (tags: Vec<String>)
    ensures
        tags == resolved,
{
    resolved
}

} // verus!
