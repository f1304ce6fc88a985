use vstd::prelude::*;

verus! {

/// Largest number of files one clean operation may touch.
pub const MAX_FILES_PER_OPERATION: usize = 100_000;

/// Byte total above which a clean operation needs an explicit override (50 GiB).
pub const MAX_BYTES_WARNING_THRESHOLD: u64 = 53_687_091_200;

/// The character sequences of a list of strings.
pub open spec fn views(v: Seq<String>) -> Seq<Seq<char>> {
    v.map_values(|s: String| s@)
}

/// System paths that are never removed.
pub open spec fn root_protected() -> Seq<Seq<char>> {
    seq![
        "/"@, "/System"@, "/Applications"@, "/Users"@, "/Library"@, "/usr"@, "/bin"@,
        "/sbin"@, "/var"@, "/etc"@, "/opt"@, "/private"@, "/cores"@, "/Volumes"@,
    ]
}

/// Personal directories directly under home that are never removed.
pub open spec fn home_protected_names() -> Seq<Seq<char>> {
    seq![
        "Desktop"@, "Documents"@, "Downloads"@, "Pictures"@, "Music"@, "Movies"@,
        "Library"@, "Applications"@, ".ssh"@, ".gnupg"@,
    ]
}

/// `name` joined under `dir` with one separator.
pub open spec fn join_path(dir: Seq<char>, name: Seq<char>) -> Seq<char> {
    dir + "/"@ + name
}

/// The protected set, given the user's home directory if it is known.
pub open spec fn protected_spec(p: Seq<char>, home: Option<Seq<char>>) -> bool {
    ||| root_protected().contains(p)
    ||| (home is Some && p == home->0)
    ||| (home is Some && exists|k: int|
        0 <= k < home_protected_names().len() && p == #[trigger] join_path(
            home->0,
            home_protected_names()[k],
        ))
}

/// Why a bulk operation was refused.
#[derive(Debug, Clone, Copy, PartialEq, Eq, Structural)]
pub enum BulkLimit {
    TooManyFiles,
    TooManyBytes,
}

/// The bulk gate: too many files first, then too many bytes.
pub open spec fn bulk_verdict(file_count: nat, total_bytes: nat) -> Result<(), BulkLimit> {
    if file_count > MAX_FILES_PER_OPERATION as nat {
        Err(BulkLimit::TooManyFiles)
    } else if total_bytes > MAX_BYTES_WARNING_THRESHOLD as nat {
        Err(BulkLimit::TooManyBytes)
    } else {
        Ok(())
    }
}

fn root_list() -> (r: Vec<String>)
    ensures
        views(r@) == root_protected(),
{
    let r = vec![
        String::from_str("/"), String::from_str("/System"), String::from_str("/Applications"),
        String::from_str("/Users"), String::from_str("/Library"), String::from_str("/usr"),
        String::from_str("/bin"), String::from_str("/sbin"), String::from_str("/var"),
        String::from_str("/etc"), String::from_str("/opt"), String::from_str("/private"),
        String::from_str("/cores"), String::from_str("/Volumes"),
    ];
    assert(views(r@) =~= root_protected());
    r
}

fn home_name_list() -> (r: Vec<String>)
    ensures
        views(r@) == home_protected_names(),
{
    let r = vec![
        String::from_str("Desktop"), String::from_str("Documents"),
        String::from_str("Downloads"), String::from_str("Pictures"), String::from_str("Music"),
        String::from_str("Movies"), String::from_str("Library"),
        String::from_str("Applications"), String::from_str(".ssh"), String::from_str(".gnupg"),
    ];
    assert(views(r@) =~= home_protected_names());
    r
}

/// `name` joined under `dir` with one separator.
pub fn join(dir: &str, name: &str) -> (r: String)
    ensures
        r@ == join_path(dir@, name@),
{
    String::from_str(dir).concat("/").concat(name)
}

/// Whether `path` is one of the protected paths, compared as exact strings.
/// Children of a protected path are not protected themselves.
pub fn is_protected(path: &str, home: &Option<String>) -> (r: bool)
    ensures
        r == protected_spec(path@, home_view(*home)),
{
    let p = String::from_str(path);
    let roots = root_list();
    let mut i: usize = 0;
    while i < roots.len()
        invariant
            views(roots@) == root_protected(),
            p@ == path@,
            forall|j: int| 0 <= j < i ==> root_protected()[j] != path@,
        decreases roots@.len() - i,
    {
        if roots[i] == p {
            assert(root_protected()[i as int] == path@);
            return true;
        }
        i = i + 1;
    }
    match home {
        None => false,
        Some(h) => {
            if *h == p {
                return true;
            }
            let names = home_name_list();
            let mut k: usize = 0;
            while k < names.len()
                invariant
                    views(names@) == home_protected_names(),
                    home_view(*home) == Some(h@),
                    p@ == path@,
                    !root_protected().contains(path@),
                    forall|j: int|
                        0 <= j < k ==> join_path(h@, #[trigger] home_protected_names()[j]) != path@,
                decreases names@.len() - k,
            {
                let full = join(h.as_str(), names[k].as_str());
                assert(views(names@)[k as int] == names@[k as int]@);
                if full == p {
                    assert(join_path(h@, home_protected_names()[k as int]) == path@);
                    return true;
                }
                k = k + 1;
            }
            false
        }
    }
}

/// The protected paths among `paths`, in their order.
pub open spec fn protected_among(paths: Seq<Seq<char>>, home: Option<Seq<char>>) -> Seq<
    Seq<char>,
>
    decreases paths.len(),
{
    if paths.len() == 0 {
        Seq::empty()
    } else {
        let rest = protected_among(paths.drop_last(), home);
        if protected_spec(paths.last(), home) {
            rest.push(paths.last())
        } else {
            rest
        }
    }
}

/// The view of an optional home directory.
pub open spec fn home_view(home: Option<String>) -> Option<Seq<char>> {
    match home {
        Some(h) => Some(h@),
        None => None,
    }
}

/// The paths that are not safe to remove (protected ones), in input order.
pub fn check_paths(paths: &Vec<String>, home: &Option<String>) -> (r: Vec<String>)
    ensures
        views(r@) == protected_among(views(paths@), home_view(*home)),
{
    let mut out: Vec<String> = Vec::new();
    let mut i: usize = 0;
    while i < paths.len()
        invariant
            i <= paths@.len(),
            views(out@) == protected_among(views(paths@).subrange(0, i as int), home_view(*home)),
        decreases paths@.len() - i,
    {
        let ghost before = views(paths@).subrange(0, i as int);
        let ghost after = views(paths@).subrange(0, i + 1);
        assert(after.drop_last() =~= before);
        assert(after.last() == paths@[i as int]@);
        if is_protected(paths[i].as_str(), home) {
            out.push(paths[i].clone());
            assert(views(out@) =~= protected_among(before, home_view(*home)).push(paths@[i as int]@));
        }
        i = i + 1;
    }
    assert(views(paths@).subrange(0, paths@.len() as int) =~= views(paths@));
    out
}

/// Validate a clean operation's size before anything is removed.
pub fn validate_clean_operation(file_count: usize, total_bytes: u64) -> (r: Result<(), BulkLimit>)
    ensures
        r == bulk_verdict(file_count as nat, total_bytes as nat),
{
    if file_count > MAX_FILES_PER_OPERATION {
        Err(BulkLimit::TooManyFiles)
    } else if total_bytes > MAX_BYTES_WARNING_THRESHOLD {
        Err(BulkLimit::TooManyBytes)
    } else {
        Ok(())
    }
}

} // verus!
