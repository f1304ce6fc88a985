use vstd::prelude::*;
use crate::text::{has_substring, lower_of, lowercase, contains_text};

verus! {

/// A login or launch item.
#[derive(Debug, Clone)]
pub struct StartupItem {
    pub name: String,
    pub label: String,
    pub path: String,
    pub kind: StartupKind,
    pub enabled: bool,
    pub program: Option<String>,
    pub run_at_load: bool,
}

#[derive(Debug, Clone, Copy, PartialEq, Eq, Structural)]
pub enum StartupKind {
    UserLaunchAgent,
    SystemLaunchAgent,
    SystemLaunchDaemon,
}

/// The item's name or label contains the query, ignoring case.
pub open spec fn item_matches(i: StartupItem, q: Seq<char>) -> bool {
    has_substring(lower_of(i.name@), lower_of(q)) || has_substring(lower_of(i.label@), lower_of(q))
}

pub open spec fn items_named(items: Seq<StartupItem>, q: Seq<char>) -> Seq<StartupItem>
    decreases items.len(),
{
    if items.len() == 0 {
        Seq::empty()
    } else if item_matches(items.last(), q) {
        items_named(items.drop_last(), q).push(items.last())
    } else {
        items_named(items.drop_last(), q)
    }
}

/// The items whose name or label contains `name`, ignoring case, in their order.
pub fn find_item_by_name<'a>(items: &'a Vec<StartupItem>, name: &str) -> (r: Vec<&'a StartupItem>)
    ensures
        r@.map_values(|a: &StartupItem| *a) == items_named(items@, name@),
{
    let lower = lowercase(name);
    let mut out: Vec<&'a StartupItem> = Vec::new();
    let mut i: usize = 0;
    while i < items.len()
        invariant
            i <= items@.len(),
            lower@ == lower_of(name@),
            out@.map_values(|a: &StartupItem| *a) == items_named(items@.subrange(0, i as int), name@),
        decreases items@.len() - i,
    {
        assert(items@.subrange(0, i + 1).drop_last() =~= items@.subrange(0, i as int));
        let n = lowercase(items[i].name.as_str());
        let l = lowercase(items[i].label.as_str());
        if contains_text(n.as_str(), lower.as_str()) || contains_text(l.as_str(), lower.as_str()) {
            out.push(&items[i]);
            assert(out@.map_values(|a: &StartupItem| *a) =~= items_named(items@.subrange(0, i as int), name@).push(items@[i as int]));
        }
        i = i + 1;
    }
    assert(items@.subrange(0, items@.len() as int) =~= items@);
    out
}

/// The display name of a value of `StartupKind`.
pub open spec fn startup_kind_text(k: StartupKind) -> Seq<char> {
    match k {
        StartupKind::UserLaunchAgent => "User Agent"@,
        StartupKind::SystemLaunchAgent => "System Agent"@,
        StartupKind::SystemLaunchDaemon => "System Daemon"@,
    }
}

/// The display name of a value of `StartupKind`.
pub fn startup_kind_label(k: StartupKind) -> (r: String)
    ensures
        r@ == startup_kind_text(k),
{
    match k {
        StartupKind::UserLaunchAgent => String::from_str("User Agent"),
        StartupKind::SystemLaunchAgent => String::from_str("System Agent"),
        StartupKind::SystemLaunchDaemon => String::from_str("System Daemon"),
    }
}

} // verus!
