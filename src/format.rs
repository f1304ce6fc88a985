use vstd::prelude::*;

verus! {

/// The character of a decimal digit.
pub open spec fn digit_char(d: nat) -> char {
    if d == 0 { '0' } else if d == 1 { '1' } else if d == 2 { '2' } else if d == 3 { '3' }
    else if d == 4 { '4' } else if d == 5 { '5' } else if d == 6 { '6' } else if d == 7 { '7' }
    else if d == 8 { '8' } else { '9' }
}

/// The decimal text of a number, without leading zeros.
pub open spec fn decimal_text(n: nat) -> Seq<char>
    decreases n,
{
    if n < 10 {
        seq![digit_char(n)]
    } else {
        decimal_text(n / 10).push(digit_char(n % 10))
    }
}

/// `k` copies of the character `c`.
pub open spec fn repeat_char(c: char, k: nat) -> Seq<char>
    decreases k,
{
    if k == 0 {
        Seq::empty()
    } else {
        repeat_char(c, (k - 1) as nat).push(c)
    }
}

/// The decimal text of `n`, left-padded with zeros to at least `width` characters.
pub open spec fn padded_text(n: nat, width: nat) -> Seq<char> {
    let d = decimal_text(n);
    if d.len() >= width {
        d
    } else {
        repeat_char('0', (width - d.len()) as nat) + d
    }
}

fn digit_str(d: u64) -> (r: &'static str)
    requires
        d < 10,
    ensures
        r@ == seq![digit_char(d as nat)],
{
    proof {
        reveal_strlit("0");
        reveal_strlit("1");
        reveal_strlit("2");
        reveal_strlit("3");
        reveal_strlit("4");
        reveal_strlit("5");
        reveal_strlit("6");
        reveal_strlit("7");
        reveal_strlit("8");
        reveal_strlit("9");
    }
    if d == 0 { "0" } else if d == 1 { "1" } else if d == 2 { "2" } else if d == 3 { "3" }
    else if d == 4 { "4" } else if d == 5 { "5" } else if d == 6 { "6" } else if d == 7 { "7" }
    else if d == 8 { "8" } else { "9" }
}

/// The decimal text of `n`.
pub fn decimal(n: u64) -> (r: String)
    ensures
        r@ == decimal_text(n as nat),
    decreases n,
{
    if n < 10 {
        String::from_str(digit_str(n))
    } else {
        let head = decimal(n / 10);
        head.concat(digit_str(n % 10))
    }
}

/// `k` copies of one character, built from a one-character string.
fn repeat_str(unit: &str, k: usize) -> (r: String)
    requires
        unit@.len() == 1,
    ensures
        r@ == repeat_char(unit@[0], k as nat),
{
    let mut out = String::new();
    let mut i: usize = 0;
    while i < k
        invariant
            i <= k,
            unit@.len() == 1,
            out@ == repeat_char(unit@[0], i as nat),
        decreases k - i,
    {
        out = out.concat(unit);
        assert(unit@ =~= seq![unit@[0]]);
        i = i + 1;
    }
    out
}

/// The decimal text of `n` padded with zeros to `width` characters.
pub fn zero_padded(n: u64, width: usize) -> (r: String)
    ensures
        r@ == padded_text(n as nat, width as nat),
{
    let d = decimal(n);
    let len = d.as_str().unicode_len();
    if len >= width {
        d
    } else {
        proof {
            reveal_strlit("0");
        }
        let zeros = repeat_str("0", width - len);
        zeros.concat(d.as_str())
    }
}

/// The result of shortening `s` to at most `max_len` characters, marking the cut
/// with an ellipsis. When `max_len` is 3 or less only dots remain.
pub open spec fn truncate_text(s: Seq<char>, max_len: nat) -> Seq<char> {
    if s.len() <= max_len {
        s
    } else if max_len <= 3 {
        repeat_char('.', max_len)
    } else {
        s.subrange(0, max_len - 3) + seq!['.', '.', '.']
    }
}

/// Shorten `s` to at most `max_len` characters with an ellipsis.
pub fn truncate(s: &str, max_len: usize) -> (r: String)
    ensures
        r@ == truncate_text(s@, max_len as nat),
        r@.len() <= max_len || r@ == s@,
{
    let n = s.unicode_len();
    proof {
        reveal_strlit(".");
        reveal_strlit("...");
    }
    if n <= max_len {
        String::from_str(s)
    } else if max_len <= 3 {
        let r = repeat_str(".", max_len);
        proof {
            lemma_repeat_len('.', max_len as nat);
        }
        r
    } else {
        let head = s.substring_char(0, max_len - 3);
        let r = String::from_str(head).concat("...");
        assert("..."@ =~= seq!['.', '.', '.']);
        r
    }
}

proof fn lemma_repeat_len(c: char, k: nat)
    ensures
        repeat_char(c, k).len() == k,
    decreases k,
{
    if k > 0 {
        lemma_repeat_len(c, (k - 1) as nat);
    }
}

/// `1 file`, else the count followed by `files`.
pub open spec fn count_text(n: nat) -> Seq<char> {
    if n == 1 { "1 file"@ } else { decimal_text(n) + " files"@ }
}

/// A file count with the right plural.
pub fn format_count(count: usize) -> (r: String)
    ensures
        r@ == count_text(count as nat),
{
    if count == 1 {
        String::from_str("1 file")
    } else {
        decimal(count as u64).concat(" files")
    }
}

/// A path as shown to users: inside the home directory it starts with `~/`.
pub open spec fn display_path(p: Seq<char>, home: Option<Seq<char>>) -> Seq<char> {
    match home {
        Some(h) => if p == h {
            "~/"@
        } else if crate::text::has_prefix(p, h + "/"@) {
            "~/"@ + p.subrange(h.len() as int + 1, p.len() as int)
        } else {
            p
        },
        None => p,
    }
}

/// Show a path with the home directory written as `~`.
pub fn format_path(path: &str, home: &Option<String>) -> (r: String)
    ensures
        r@ == display_path(path@, crate::safety::home_view(*home)),
{
    match home {
        Some(h) => {
            let p = String::from_str(path);
            if p == *h {
                return String::from_str("~/");
            }
            proof {
                reveal_strlit("/");
            }
            let prefix = h.clone().concat("/");
            if crate::text::starts_with_text(path, prefix.as_str()) {
                let n = path.unicode_len();
                let hl = h.as_str().unicode_len();
                assert(prefix@.len() == hl + 1);
                let rest = path.substring_char(hl + 1, n);
                String::from_str("~/").concat(rest)
            } else {
                String::from_str(path)
            }
        },
        None => String::from_str(path),
    }
}

} // verus!
