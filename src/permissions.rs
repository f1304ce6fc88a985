use vstd::prelude::*;
use crate::safety::views;
use crate::text::{has_prefix, has_substring, contains_text, starts_with_text};

verus! {

/// Trees that System Integrity Protection keeps read-only.
pub open spec fn sip_prefixes() -> Seq<Seq<char>> {
    seq!["/System"@, "/usr"@, "/bin"@, "/sbin"@, "/var"@, "/Applications/Utilities"@]
}

/// Fragments of paths that are readable only with Full Disk Access.
pub open spec fn fda_fragments() -> Seq<Seq<char>> {
    seq![
        "Library/Mail"@, "Library/Messages"@, "Library/Safari"@, "Library/Cookies"@,
        "Library/HomeKit"@, "Library/IdentityServices"@, "Library/Metadata/CoreSpotlight"@,
        "Library/PersonalizationPortrait"@, "Library/Suggestions"@,
    ]
}

pub open spec fn sip_spec(p: Seq<char>) -> bool {
    exists|k: int| 0 <= k < sip_prefixes().len() && has_prefix(p, #[trigger] sip_prefixes()[k])
}

pub open spec fn fda_spec(p: Seq<char>) -> bool {
    exists|k: int| 0 <= k < fda_fragments().len() && has_substring(p, #[trigger] fda_fragments()[k])
}

fn sip_list() -> (r: Vec<String>)
    ensures
        views(r@) == sip_prefixes(),
{
    let r = vec![
        String::from_str("/System"), String::from_str("/usr"), String::from_str("/bin"),
        String::from_str("/sbin"), String::from_str("/var"),
        String::from_str("/Applications/Utilities"),
    ];
    assert(views(r@) =~= sip_prefixes());
    r
}

fn fda_list() -> (r: Vec<String>)
    ensures
        views(r@) == fda_fragments(),
{
    let r = vec![
        String::from_str("Library/Mail"), String::from_str("Library/Messages"),
        String::from_str("Library/Safari"), String::from_str("Library/Cookies"),
        String::from_str("Library/HomeKit"), String::from_str("Library/IdentityServices"),
        String::from_str("Library/Metadata/CoreSpotlight"),
        String::from_str("Library/PersonalizationPortrait"),
        String::from_str("Library/Suggestions"),
    ];
    assert(views(r@) =~= fda_fragments());
    r
}

/// Whether the path lies in a tree that System Integrity Protection guards
/// (a plain prefix test on the path text).
pub fn is_sip_protected(path: &str) -> (r: bool)
    ensures
        r == sip_spec(path@),
{
    let list = sip_list();
    let mut i: usize = 0;
    while i < list.len()
        invariant
            views(list@) == sip_prefixes(),
            forall|j: int| 0 <= j < i ==> !has_prefix(path@, #[trigger] sip_prefixes()[j]),
        decreases list@.len() - i,
    {
        assert(views(list@)[i as int] == list@[i as int]@);
        if starts_with_text(path, list[i].as_str()) {
            return true;
        }
        i = i + 1;
    }
    false
}

/// Whether the path probably needs Full Disk Access to be read.
pub fn requires_full_disk_access(path: &str) -> (r: bool)
    ensures
        r == fda_spec(path@),
{
    let list = fda_list();
    let mut i: usize = 0;
    while i < list.len()
        invariant
            views(list@) == fda_fragments(),
            forall|j: int| 0 <= j < i ==> !has_substring(path@, #[trigger] fda_fragments()[j]),
        decreases list@.len() - i,
    {
        assert(views(list@)[i as int] == list@[i as int]@);
        if contains_text(path, list[i].as_str()) {
            return true;
        }
        i = i + 1;
    }
    false
}

pub open spec fn sip_hint() -> Seq<char> {
    "This path is protected by System Integrity Protection (SIP) and cannot be modified."@
}

pub open spec fn fda_hint() -> Seq<char> {
    "This path requires Full Disk Access. Grant it in System Settings > Privacy & Security > Full Disk Access."@
}

pub open spec fn generic_hint(p: Seq<char>) -> Seq<char> {
    "Check file permissions for '"@ + p
        + "'. You may need to run with sudo for system paths."@
}

/// A hint for a permission failure on `path`: SIP first, then Full Disk Access,
/// else a generic hint naming the path.
pub fn permission_hint(path: &str) -> (r: String)
    ensures
        r@ == (if sip_spec(path@) {
            sip_hint()
        } else if fda_spec(path@) {
            fda_hint()
        } else {
            generic_hint(path@)
        }),
{
    if is_sip_protected(path) {
        String::from_str(
            "This path is protected by System Integrity Protection (SIP) and cannot be modified.",
        )
    } else if requires_full_disk_access(path) {
        String::from_str(
            "This path requires Full Disk Access. Grant it in System Settings > Privacy & Security > Full Disk Access.",
        )
    } else {
        String::from_str("Check file permissions for '").concat(path).concat(
            "'. You may need to run with sudo for system paths.",
        )
    }
}

} // verus!
