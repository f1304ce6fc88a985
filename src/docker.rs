use vstd::prelude::*;
use crate::manifest::sat_add;
use crate::safety::views;
use crate::errors::TidyError;
use crate::text::{has_prefix, starts_with_text};
use crate::format::{decimal, decimal_text};

verus! {

/// Disk usage of the container engine, by kind of object.
#[derive(Debug, Clone)]
pub struct DockerUsage {
    pub installed: bool,
    pub running: bool,
    pub images: DockerCategory,
    pub containers: DockerCategory,
    pub volumes: DockerCategory,
    pub build_cache: DockerCategory,
    pub total_size: u64,
    pub reclaimable: u64,
}

/// Usage of one kind of object.
#[derive(Debug, Clone)]
pub struct DockerCategory {
    pub label: String,
    pub count: usize,
    pub size: u64,
    pub reclaimable: u64,
    pub details: Vec<DockerItem>,
}

/// One image, container or volume as the engine lists it.
#[derive(Debug, Clone)]
pub struct DockerItem {
    pub id: String,
    pub name: String,
    pub size: String,
    pub created: String,
    pub status: String,
}

/// What a prune of dangling objects did.
#[derive(Debug, Clone)]
pub struct DockerPruneReport {
    pub images_removed: usize,
    pub containers_removed: usize,
    pub volumes_removed: usize,
    pub build_cache_cleared: bool,
    pub space_freed: String,
    pub errors: Vec<String>,
}

impl DockerCategory {
    /// A category with nothing in it.
    pub fn empty(label: &str) -> (r: DockerCategory)
        ensures
            r.label@ == label@,
            r.count == 0,
            r.size == 0,
            r.reclaimable == 0,
            r.details@.len() == 0,
    {
        DockerCategory {
            label: String::from_str(label),
            count: 0,
            size: 0,
            reclaimable: 0,
            details: Vec::new(),
        }
    }

    /// The category holds nothing.
    pub open spec fn is_empty_spec(&self) -> bool {
        self.count == 0 && self.size == 0 && self.reclaimable == 0 && self.details@.len() == 0
    }
}

impl DockerUsage {
    /// The report when the engine is not available: nothing installed, nothing used.
    pub fn unavailable() -> (r: DockerUsage)
        ensures
            !r.installed,
            !r.running,
            r.total_size == 0,
            r.reclaimable == 0,
            r.images.is_empty_spec() && r.images.label@ == "Images"@,
            r.containers.is_empty_spec() && r.containers.label@ == "Containers"@,
            r.volumes.is_empty_spec() && r.volumes.label@ == "Volumes"@,
            r.build_cache.is_empty_spec() && r.build_cache.label@ == "Build Cache"@,
    {
        DockerUsage {
            installed: false,
            running: false,
            images: DockerCategory::empty("Images"),
            containers: DockerCategory::empty("Containers"),
            volumes: DockerCategory::empty("Volumes"),
            build_cache: DockerCategory::empty("Build Cache"),
            total_size: 0,
            reclaimable: 0,
        }
    }
}

/// The usage report from what was learnt of the engine: whether it is installed
/// and running and, when it is, the four categories. Totals are capped sums.
pub fn get_docker_usage(
    installed: bool,
    running: bool,
    images: DockerCategory,
    containers: DockerCategory,
    volumes: DockerCategory,
    build_cache: DockerCategory,
) -> (r: DockerUsage)
    ensures
        r.installed == installed,
        r.running == (installed && running),
        !(installed && running) ==> r.total_size == 0 && r.reclaimable == 0
            && r.images.is_empty_spec() && r.containers.is_empty_spec()
            && r.volumes.is_empty_spec() && r.build_cache.is_empty_spec(),
        installed && running ==> {
            &&& r.images == images
            &&& r.containers == containers
            &&& r.volumes == volumes
            &&& r.build_cache == build_cache
            &&& r.total_size == sat_add(sat_add(sat_add(images.size, containers.size), volumes.size), build_cache.size)
            &&& r.reclaimable == sat_add(
                sat_add(sat_add(images.reclaimable, containers.reclaimable), volumes.reclaimable),
                build_cache.reclaimable,
            )
        },
{
    if !installed {
        return DockerUsage::unavailable();
    }
    if !running {
        let mut usage = DockerUsage::unavailable();
        usage.installed = true;
        return usage;
    }
    let total = images.size.saturating_add(containers.size).saturating_add(volumes.size).saturating_add(
        build_cache.size,
    );
    let reclaimable = images.reclaimable.saturating_add(containers.reclaimable).saturating_add(
        volumes.reclaimable,
    ).saturating_add(build_cache.reclaimable);
    DockerUsage {
        installed: true,
        running: true,
        images,
        containers,
        volumes,
        build_cache,
        total_size: total,
        reclaimable,
    }
}

/// Blank characters trimmed around a size text.
pub open spec fn is_blank(c: char) -> bool {
    c == ' ' || c == '\t' || c == '\n' || c == '\r' || c == '\x0B' || c == '\x0C'
}

/// Characters of the numeric part of a size text.
pub open spec fn is_num_char(c: char) -> bool {
    ('0' <= c && c <= '9') || c == '.'
}

/// First index at or after `i` (below `hi`) that is not blank.
pub open spec fn skip_blank(s: Seq<char>, i: int, hi: int) -> int
    decreases hi - i,
{
    if i < hi && is_blank(s[i]) { skip_blank(s, i + 1, hi) } else { i }
}

/// End of the text before `j` once trailing blanks (down to `lo`) are dropped.
pub open spec fn drop_blank_end(s: Seq<char>, j: int, lo: int) -> int
    decreases j - lo,
{
    if j > lo && is_blank(s[j - 1]) { drop_blank_end(s, j - 1, lo) } else { j }
}

/// End of the run of numeric characters starting at `i`.
pub open spec fn num_run_end(s: Seq<char>, i: int, hi: int) -> int
    decreases hi - i,
{
    if i < hi && is_num_char(s[i]) { num_run_end(s, i + 1, hi) } else { i }
}

/// Number of dots in `s[lo..hi]`.
pub open spec fn dots(s: Seq<char>, lo: int, hi: int) -> nat
    decreases hi - lo,
{
    if hi <= lo { 0 } else { dots(s, lo, hi - 1) + (if s[hi - 1] == '.' { 1nat } else { 0 }) }
}

/// Index of the first dot in `s[lo..hi]`, or `hi`.
pub open spec fn dot_at(s: Seq<char>, lo: int, hi: int) -> int
    decreases hi - lo,
{
    if lo >= hi { hi } else if s[lo] == '.' { lo } else { dot_at(s, lo + 1, hi) }
}

pub open spec fn digit(c: char) -> nat {
    (c as u32 - '0' as u32) as nat
}

/// The integer written by the digits `s[lo..hi]`.
pub open spec fn digits_value(s: Seq<char>, lo: int, hi: int) -> nat
    decreases hi - lo,
{
    if hi <= lo { 0 } else { digits_value(s, lo, hi - 1) * 10 + digit(s[hi - 1]) }
}

/// `floor(0.d1d2...dk * m)` for the fraction digits `s[lo..hi]`.
pub open spec fn frac_scaled(s: Seq<char>, lo: int, hi: int, m: nat) -> nat
    decreases hi - lo,
{
    if hi <= lo { 0 } else { (digit(s[lo]) * m + frac_scaled(s, lo + 1, hi, m)) / 10 }
}

/// The unit `s[lo..hi]` is `u1 u2` (or `u1` alone when `u2` is a space), case ignored.
pub open spec fn unit_is(s: Seq<char>, lo: int, hi: int, up: Seq<char>, low: Seq<char>) -> bool {
    hi - lo == up.len() && forall|k: int| 0 <= k < up.len() ==> s[lo + k] == up[k] || s[lo + k] == low[k]
}

/// Bytes per unit: B, KB, MB, GB, TB (powers of 1024, case ignored); anything else counts as bytes.
pub open spec fn unit_multiplier(s: Seq<char>, lo: int, hi: int) -> nat {
    if unit_is(s, lo, hi, seq!['K', 'B'], seq!['k', 'b']) {
        1024
    } else if unit_is(s, lo, hi, seq!['M', 'B'], seq!['m', 'b']) {
        1048576
    } else if unit_is(s, lo, hi, seq!['G', 'B'], seq!['g', 'b']) {
        1073741824
    } else if unit_is(s, lo, hi, seq!['T', 'B'], seq!['t', 'b']) {
        1099511627776
    } else {
        1
    }
}

/// The byte count a size text such as `2.5GB` or `150MB` stands for, rounded
/// down and capped at the largest `u64`. The text is trimmed; its numeric part is
/// the leading run of digits and dots and must be a decimal number (at most one
/// dot, at least one digit), else the value is 0. The rest, trimmed, is the unit.
pub open spec fn size_text_value(s: Seq<char>) -> u64 {
    let a = skip_blank(s, 0, s.len() as int);
    let b = drop_blank_end(s, s.len() as int, a);
    let ne = num_run_end(s, a, b);
    let ua = skip_blank(s, ne, b);
    let ub = drop_blank_end(s, b, ua);
    let m = unit_multiplier(s, ua, ub);
    let d = dot_at(s, a, ne);
    if dots(s, a, ne) > 1 || ne - a == dots(s, a, ne) {
        0
    } else {
        let v = digits_value(s, a, d) * m + frac_scaled(s, d + 1, ne, m);
        if v <= u64::MAX as nat { v as u64 } else { u64::MAX }
    }
}

fn blank(c: char) -> (r: bool)
    ensures
        r == is_blank(c),
{
    c == ' ' || c == '\t' || c == '\n' || c == '\r' || c == '\x0B' || c == '\x0C'
}

fn unit_match(s: &Vec<char>, lo: usize, hi: usize, u1: char, l1: char) -> (r: bool)
    requires
        lo <= hi <= s@.len(),
    ensures
        r == unit_is(s@, lo as int, hi as int, seq![u1, 'B'], seq![l1, 'b']),
{
    if hi - lo != 2 {
        return false;
    }
    let ok = (s[lo] == u1 || s[lo] == l1) && (s[lo + 1] == 'B' || s[lo + 1] == 'b');
    assert(ok ==> unit_is(s@, lo as int, hi as int, seq![u1, 'B'], seq![l1, 'b'])) by {
        if ok {
            assert forall|k: int| 0 <= k < 2 implies s@[lo + k] == seq![u1, 'B'][k] || s@[lo + k] == seq![l1, 'b'][k] by {
                if k == 0 {} else {}
            }
        }
    }
    assert(unit_is(s@, lo as int, hi as int, seq![u1, 'B'], seq![l1, 'b']) ==> ok) by {
        if unit_is(s@, lo as int, hi as int, seq![u1, 'B'], seq![l1, 'b']) {
            assert(s@[lo + 0] == seq![u1, 'B'][0] || s@[lo + 0] == seq![l1, 'b'][0]);
            assert(s@[lo + 1] == seq![u1, 'B'][1] || s@[lo + 1] == seq![l1, 'b'][1]);
        }
    }
    ok
}

/// Cap for the integer part while it is read.
pub const BIG: u128 = 0x1_0000_0000_0000_0000;

proof fn lemma_cap_step(v: nat, c: nat, d: nat)
    requires
        c == (if v < BIG as nat { v } else { BIG as nat }),
        d < 10,
    ensures
        (if c * 10 + d < BIG as nat { c * 10 + d } else { BIG as nat }) == (if v * 10 + d < BIG as nat { v * 10 + d } else { BIG as nat }),
{
    if v >= BIG as nat {
        assert(v * 10 + d >= BIG as nat) by (nonlinear_arith)
            requires v >= BIG as nat;
        assert(c * 10 + d >= BIG as nat) by (nonlinear_arith)
            requires c == BIG as nat;
    }
}

proof fn lemma_cap_mul(v: nat, c: nat, m: nat, f: nat)
    requires
        c == (if v < BIG as nat { v } else { BIG as nat }),
        m >= 1,
    ensures
        (c * m + f <= u64::MAX as nat) == (v * m + f <= u64::MAX as nat),
        c * m + f <= u64::MAX as nat ==> c * m + f == v * m + f,
{
    if v >= BIG as nat {
        assert(v * m >= BIG as nat) by (nonlinear_arith)
            requires v >= BIG as nat, m >= 1;
        assert(c * m >= BIG as nat) by (nonlinear_arith)
            requires c == BIG as nat, m >= 1;
    }
}

proof fn lemma_frac_lt(s: Seq<char>, lo: int, hi: int, m: nat)
    requires
        forall|k: int| lo <= k < hi ==> '0' <= #[trigger] s[k] && s[k] <= '9',
    ensures
        frac_scaled(s, lo, hi, m) <= m,
    decreases hi - lo,
{
    if hi > lo {
        lemma_frac_lt(s, lo + 1, hi, m);
        let w = frac_scaled(s, lo + 1, hi, m);
        let dd = digit(s[lo]);
        assert(dd <= 9);
        assert(dd * m + w <= 10 * m) by (nonlinear_arith)
            requires dd <= 9, w <= m;
    }
}

proof fn lemma_dot_skip(s: Seq<char>, lo: int, hi: int, h2: int)
    requires
        lo <= hi <= h2,
        forall|q: int| lo <= q < hi ==> #[trigger] s[q] != '.',
    ensures
        dot_at(s, lo, h2) == dot_at(s, hi, h2),
    decreases hi - lo,
{
    if lo < hi {
        lemma_dot_skip(s, lo + 1, hi, h2);
    }
}

fn trim_bounds(c: &Vec<char>, lo: usize, hi: usize) -> (r: (usize, usize))
    requires
        lo <= hi <= c@.len(),
    ensures
        r.0 == skip_blank(c@, lo as int, hi as int),
        r.1 == drop_blank_end(c@, hi as int, r.0 as int),
        lo <= r.0 <= r.1 <= hi,
{
    let mut a: usize = lo;
    while a < hi && blank(c[a])
        invariant
            lo <= a <= hi <= c@.len(),
            skip_blank(c@, lo as int, hi as int) == skip_blank(c@, a as int, hi as int),
        decreases hi - a,
    {
        a = a + 1;
    }
    let mut b: usize = hi;
    while b > a && blank(c[b - 1])
        invariant
            a <= b <= hi,
            hi <= c@.len(),
            drop_blank_end(c@, hi as int, a as int) == drop_blank_end(c@, b as int, a as int),
        decreases b,
    {
        b = b - 1;
    }
    (a, b)
}

fn scan_number(c: &Vec<char>, a: usize, b: usize) -> (r: (usize, usize, usize))
    requires
        a <= b <= c@.len(),
    ensures
        r.0 == num_run_end(c@, a as int, b as int),
        a <= r.0 <= b,
        r.1 == dots(c@, a as int, r.0 as int),
        r.1 <= r.0 - a,
        r.2 == dot_at(c@, a as int, r.0 as int),
        a <= r.2 <= r.0,
        forall|q: int| a <= q < r.0 ==> is_num_char(#[trigger] c@[q]),
        forall|q: int| a <= q < r.2 ==> #[trigger] c@[q] != '.',
        r.1 <= 1 ==> forall|q: int| r.2 < q < r.0 ==> #[trigger] c@[q] != '.',
{
    let mut ne: usize = a;
    let mut count: usize = 0;
    let mut d: usize = a;
    while ne < b && ((c[ne] >= '0' && c[ne] <= '9') || c[ne] == '.')
        invariant
            a <= ne <= b <= c@.len(),
            num_run_end(c@, a as int, b as int) == num_run_end(c@, ne as int, b as int),
            count == dots(c@, a as int, ne as int),
            count <= ne - a,
            forall|q: int| a <= q < ne ==> is_num_char(#[trigger] c@[q]),
            count == 0 ==> d == ne,
            a <= d <= ne,
            d == dot_at(c@, a as int, ne as int),
            forall|q: int| a <= q < d ==> #[trigger] c@[q] != '.',
            count > 0 ==> d < ne && c@[d as int] == '.',
            count <= 1 ==> forall|q: int| d < q < ne ==> #[trigger] c@[q] != '.',
        decreases b - ne,
    {
        proof {
            lemma_dot_skip(c@, a as int, d as int, ne + 1);
            lemma_dot_skip(c@, a as int, d as int, ne as int);
        }
        let ghost old_ne = ne as int;
        let ghost old_d = d as int;
        if c[ne] == '.' {
            count = count + 1;
        } else if count == 0 {
            d = d + 1;
        }
        ne = ne + 1;
        if count == 0 {
            d = ne;
        }
        proof {
            if old_d < old_ne {
                assert(dot_at(c@, old_d, old_ne + 1) == old_d);
            } else {
                assert(old_d == old_ne);
                if c@[old_ne] == '.' {
                    assert(dot_at(c@, old_ne, old_ne + 1) == old_ne);
                } else {
                    assert(dot_at(c@, old_ne + 1, old_ne + 1) == old_ne + 1);
                    assert(dot_at(c@, old_ne, old_ne + 1) == old_ne + 1);
                }
            }
        }
    }
    (ne, count, d)
}

fn int_value_capped(c: &Vec<char>, a: usize, d: usize) -> (v: u128)
    requires
        a <= d <= c@.len(),
        forall|q: int| a <= q < d ==> '0' <= #[trigger] c@[q] && c@[q] <= '9',
    ensures
        v as nat == (if digits_value(c@, a as int, d as int) < BIG as nat { digits_value(c@, a as int, d as int) } else { BIG as nat }),
{
    let mut v: u128 = 0;
    let mut k: usize = a;
    while k < d
        invariant
            a <= k <= d <= c@.len(),
            forall|q: int| a <= q < d ==> '0' <= #[trigger] c@[q] && c@[q] <= '9',
            v as nat == (if digits_value(c@, a as int, k as int) < BIG as nat { digits_value(c@, a as int, k as int) } else { BIG as nat }),
        decreases d - k,
    {
        assert('0' <= c@[k as int] && c@[k as int] <= '9');
        let dd = (c[k] as u32 - '0' as u32) as u128;
        proof {
            lemma_cap_step(digits_value(c@, a as int, k as int), v as nat, dd as nat);
        }
        let nv = v * 10 + dd;
        v = if nv < BIG { nv } else { BIG };
        k = k + 1;
    }
    v
}

fn frac_value(c: &Vec<char>, lo: usize, ne: usize, m: u64) -> (w: u128)
    requires
        lo <= ne <= c@.len(),
        forall|q: int| lo <= q < ne ==> '0' <= #[trigger] c@[q] && c@[q] <= '9',
        m <= 1099511627776,
    ensures
        w as nat == frac_scaled(c@, lo as int, ne as int, m as nat),
        w <= m,
{
    let mut w: u128 = 0;
    let mut j: usize = ne;
    while j > lo
        invariant
            lo <= j <= ne <= c@.len(),
            forall|q: int| lo <= q < ne ==> '0' <= #[trigger] c@[q] && c@[q] <= '9',
            w as nat == frac_scaled(c@, j as int, ne as int, m as nat),
            m <= 1099511627776,
        decreases j,
    {
        proof {
            lemma_frac_lt(c@, j as int, ne as int, m as nat);
        }
        j = j - 1;
        assert('0' <= c@[j as int] && c@[j as int] <= '9');
        let dd = (c[j] as u32 - '0' as u32) as u128;
        assert(dd * (m as u128) <= 9 * 1099511627776) by (nonlinear_arith)
            requires dd <= 9, m <= 1099511627776;
        w = (dd * (m as u128) + w) / 10;
    }
    proof {
        lemma_frac_lt(c@, lo as int, ne as int, m as nat);
    }
    w
}

/// Parse a size as the container engine prints it (`2.5GB`, `150MB`, `1.2kB`).
pub fn parse_size_string(s: &str) -> (r: u64)
    ensures
        r == size_text_value(s@),
{
    let c = crate::text::chars_of(s);
    let n = c.len();
    let (a, b) = trim_bounds(&c, 0, n);
    let (ne, dot_count, d) = scan_number(&c, a, b);
    let (ua, ub) = trim_bounds(&c, ne, b);
    let m: u64 = if unit_match(&c, ua, ub, 'K', 'k') {
        1024
    } else if unit_match(&c, ua, ub, 'M', 'm') {
        1048576
    } else if unit_match(&c, ua, ub, 'G', 'g') {
        1073741824
    } else if unit_match(&c, ua, ub, 'T', 't') {
        1099511627776
    } else {
        1
    };
    if dot_count > 1 || ne - a == dot_count {
        return 0;
    }
    let v = int_value_capped(&c, a, d);
    let lo = if d < ne { d + 1 } else { ne };
    assert forall|q: int| lo <= q < ne implies '0' <= #[trigger] c@[q] && c@[q] <= '9' by {
        assert(is_num_char(c@[q]));
    }
    let w = frac_value(&c, lo, ne, m);
    proof {
        lemma_cap_mul(digits_value(c@, a as int, d as int), v as nat, m as nat, w as nat);
        assert(v as nat * m as nat <= 0x1_0000_0000_0000_0000 * 1099511627776) by (nonlinear_arith)
            requires v <= 0x1_0000_0000_0000_0000u128, m <= 1099511627776u64;
        if d == ne {
            assert(frac_scaled(c@, d + 1, ne as int, m as nat) == 0);
        }
    }
    let total: u128 = v * (m as u128) + w;
    if total <= u64::MAX as u128 {
        total as u64
    } else {
        u64::MAX
    }
}

/// A line without its trailing carriage return.
pub open spec fn strip_cr(l: Seq<char>) -> Seq<char> {
    if l.len() > 0 && l.last() == '\r' { l.drop_last() } else { l }
}

/// The lines of `s` from position `i`, the current one starting at `start`:
/// split at each newline, a final empty line left out, as `str::lines` does.
pub open spec fn lines_scan(s: Seq<char>, start: int, i: int) -> Seq<Seq<char>>
    decreases s.len() - i,
{
    if i >= s.len() {
        if start < s.len() { seq![strip_cr(s.subrange(start, s.len() as int))] } else { Seq::empty() }
    } else if s[i] == '\n' {
        seq![strip_cr(s.subrange(start, i))] + lines_scan(s, i + 1, i + 1)
    } else {
        lines_scan(s, start, i + 1)
    }
}

/// The lines of a text.
pub open spec fn lines_of(s: Seq<char>) -> Seq<Seq<char>> {
    lines_scan(s, 0, 0)
}

fn strip_cr_exec(s: &str, start: usize, end: usize) -> (r: String)
    requires
        start <= end <= s@.len(),
    ensures
        r@ == strip_cr(s@.subrange(start as int, end as int)),
{
    let mut e = end;
    if e > start && s.get_char(e - 1) == '\r' {
        e = e - 1;
        assert(s@.subrange(start as int, end as int).drop_last() =~= s@.subrange(start as int, e as int));
    }
    String::from_str(s.substring_char(start, e))
}

/// The lines of a text, as `str::lines` gives them.
pub fn split_lines(s: &str) -> (r: Vec<String>)
    ensures
        views(r@) == lines_of(s@),
{
    let c = crate::text::chars_of(s);
    let n = c.len();
    let mut out: Vec<String> = Vec::new();
    let mut start: usize = 0;
    let mut i: usize = 0;
    while i < n
        invariant
            start <= i <= n,
            n == s@.len(),
            c@ == s@,
            views(out@) + lines_scan(s@, start as int, i as int) == lines_of(s@),
        decreases n - i,
    {
        if c[i] == '\n' {
            let line = strip_cr_exec(s, start, i);
            let ghost before = out@;
            out.push(line);
            assert(views(out@) =~= views(before).push(line@));
            assert(views(out@) + lines_scan(s@, i + 1, i + 1) =~= views(before) + (seq![line@] + lines_scan(s@, i + 1, i + 1)));
            start = i + 1;
        }
        i = i + 1;
    }
    if start < n {
        let line = strip_cr_exec(s, start, n);
        let ghost before = out@;
        out.push(line);
        assert(views(out@) =~= views(before) + seq![line@]);
    } else {
        assert(views(out@) =~= views(out@) + Seq::<Seq<char>>::empty());
    }
    out
}

/// Number of lines that satisfy `keep`.
pub open spec fn count_lines(ls: Seq<Seq<char>>, keep: spec_fn(Seq<char>) -> bool) -> nat
    decreases ls.len(),
{
    if ls.len() == 0 { 0 } else { count_lines(ls.drop_last(), keep) + (if keep(ls.last()) { 1nat } else { 0 }) }
}

/// A line that is a container identifier, short or long.
pub open spec fn container_line(l: Seq<char>) -> bool {
    l.len() == 64 || l.len() == 12
}

/// A line that reports a removed image.
pub open spec fn image_line(l: Seq<char>) -> bool {
    has_prefix(l, "deleted:"@) || has_prefix(l, "untagged:"@)
}

/// A line that names a removed volume.
pub open spec fn volume_line(l: Seq<char>) -> bool {
    l.len() > 0 && !has_prefix(l, "Total"@) && !has_prefix(l, "Deleted"@)
}

/// Which of the three line kinds to count: 0 containers, 1 images, else volumes.
pub open spec fn line_kind(kind: u8) -> spec_fn(Seq<char>) -> bool {
    if kind == 0 {
        |l: Seq<char>| container_line(l)
    } else if kind == 1 {
        |l: Seq<char>| image_line(l)
    } else {
        |l: Seq<char>| volume_line(l)
    }
}

fn line_matches(l: &String, kind: u8) -> (r: bool)
    ensures
        r == (line_kind(kind))(l@),
{
    if kind == 0 {
        let n = l.as_str().unicode_len();
        n == 64 || n == 12
    } else if kind == 1 {
        starts_with_text(l.as_str(), "deleted:") || starts_with_text(l.as_str(), "untagged:")
    } else {
        l.as_str().unicode_len() > 0 && !starts_with_text(l.as_str(), "Total") && !starts_with_text(l.as_str(), "Deleted")
    }
}

/// Count the lines of a command's output that report a removal of one kind.
pub fn count_removed(output: &str, kind: u8) -> (r: usize)
    ensures
        r as nat == count_lines(lines_of(output@), line_kind(kind)),
{
    let lines = split_lines(output);
    let mut k: usize = 0;
    let mut i: usize = 0;
    while i < lines.len()
        invariant
            i <= lines@.len(),
            views(lines@) == lines_of(output@),
            k as nat == count_lines(views(lines@).subrange(0, i as int), line_kind(kind)),
            k <= i,
        decreases lines@.len() - i,
    {
        assert(views(lines@).subrange(0, i + 1).drop_last() =~= views(lines@).subrange(0, i as int));
        if line_matches(&lines[i], kind) {
            k = k + 1;
        }
        i = i + 1;
    }
    assert(views(lines@).subrange(0, lines@.len() as int) =~= views(lines@));
    k
}

fn count_or_error(out: &Result<String, String>, kind: u8, label: &str, errors: &mut Vec<String>) -> (r: usize)
    ensures
        out matches Ok(o) ==> r as nat == count_lines(lines_of(o@), line_kind(kind)) && final(errors)@ == old(errors)@,
        out is Err ==> r == 0 && final(errors)@.len() == old(errors)@.len() + 1,
{
    match out {
        Ok(o) => count_removed(o.as_str(), kind),
        Err(e) => {
            errors.push(String::from_str(label).concat(": ").concat(e.as_str()));
            0
        },
    }
}

/// Prune dangling objects of the container engine. A dry run reports what
/// could be reclaimed. Otherwise `outputs` are the outputs of the container,
/// image, volume and build-cache prune commands, in that order, and the report
/// counts what each removed.
pub fn prune_dangling(running: bool, dry_run: bool, reclaimable: u64, outputs: &Vec<Result<String, String>>) -> (r: Result<DockerPruneReport, TidyError>)
    requires
        dry_run || outputs@.len() == 4,
    ensures
        !running <==> r is Err,
        running && dry_run ==> (r matches Ok(rep) && rep.containers_removed == 0 && rep.images_removed == 0
            && rep.volumes_removed == 0 && !rep.build_cache_cleared
            && rep.space_freed@ == decimal_text(reclaimable as nat) + " B"@),
        running && !dry_run ==> (r matches Ok(rep) && {
            &&& (outputs@[0] matches Ok(o) ==> rep.containers_removed as nat == count_lines(lines_of(o@), line_kind(0)))
            &&& (outputs@[1] matches Ok(o) ==> rep.images_removed as nat == count_lines(lines_of(o@), line_kind(1)))
            &&& (outputs@[2] matches Ok(o) ==> rep.volumes_removed as nat == count_lines(lines_of(o@), line_kind(2)))
            &&& rep.build_cache_cleared == outputs@[3] is Ok
        }),
{
    if !running {
        return Err(TidyError::Other { message: String::from_str("Docker is not running") });
    }
    if dry_run {
        return Ok(DockerPruneReport {
            images_removed: 0,
            containers_removed: 0,
            volumes_removed: 0,
            build_cache_cleared: false,
            space_freed: decimal(reclaimable).concat(" B"),
            errors: Vec::new(),
        });
    }
    let mut errors: Vec<String> = Vec::new();
    let containers = count_or_error(&outputs[0], 0, "Container prune", &mut errors);
    let images = count_or_error(&outputs[1], 1, "Image prune", &mut errors);
    let volumes = count_or_error(&outputs[2], 2, "Volume prune", &mut errors);
    let cleared = match &outputs[3] {
        Ok(_) => true,
        Err(e) => {
            errors.push(String::from_str("Builder prune: ").concat(e.as_str()));
            false
        },
    };
    Ok(DockerPruneReport {
        images_removed: images,
        containers_removed: containers,
        volumes_removed: volumes,
        build_cache_cleared: cleared,
        space_freed: String::from_str("completed"),
        errors,
    })
}

} // verus!
