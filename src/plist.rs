use vstd::prelude::*;
use crate::text::{chars_of, occurs, occurs_at};

verus! {

/// Why no bundle identifier could be read from an `Info.plist` document.
#[derive(Clone, Copy, Debug, PartialEq, Eq, Structural)]
pub enum PlistError {
    /// No `CFBundleIdentifier` key followed by a one-line string value.
    MissingBundleId,
}

pub open spec fn key_tag() -> Seq<char> {
    "<key>CFBundleIdentifier</key>"@
}

pub open spec fn open_tag() -> Seq<char> {
    "<string>"@
}

pub open spec fn close_tag() -> Seq<char> {
    "</string>"@
}

/// Unicode white space, the characters that `\s` stands for in the pattern.
pub open spec fn is_white_space(c: char) -> bool {
    let n = c as u32;
    ||| 9 <= n <= 13
    ||| n == 32
    ||| n == 0x85
    ||| n == 0xa0
    ||| n == 0x1680
    ||| 0x2000 <= n <= 0x200a
    ||| n == 0x2028
    ||| n == 0x2029
    ||| n == 0x202f
    ||| n == 0x205f
    ||| n == 0x3000
}

/// The end of the run of white space that starts at `k`.
pub open spec fn white_space_end(s: Seq<char>, k: int) -> int
    decreases s.len() - k,
{
    if 0 <= k < s.len() && is_white_space(s[k]) {
        white_space_end(s, k + 1)
    } else {
        k
    }
}

/// The first position from `k` on where the closing tag starts, provided no
/// line break comes before it.
pub open spec fn close_from(s: Seq<char>, k: int) -> Option<int>
    decreases s.len() - k,
{
    if occurs_at(close_tag(), s, k) {
        Some(k)
    } else if k < 0 || k >= s.len() || s[k] == '\n' {
        None
    } else {
        close_from(s, k + 1)
    }
}

/// The bounds of the value when the key, white space, the opening tag, a
/// one-line value and the closing tag start at `i`.
pub open spec fn value_at(s: Seq<char>, i: int) -> Option<(int, int)> {
    if occurs_at(key_tag(), s, i) {
        let j = white_space_end(s, i + key_tag().len());
        if occurs_at(open_tag(), s, j) {
            let c = j + open_tag().len();
            match close_from(s, c) {
                Some(e) => Some((c, e)),
                None => None,
            }
        } else {
            None
        }
    } else {
        None
    }
}

/// The bounds of the value of the leftmost match at or after `i`.
pub open spec fn first_value(s: Seq<char>, i: int) -> Option<(int, int)>
    decreases s.len() + 1 - i,
{
    if i < 0 || i > s.len() {
        None
    } else {
        match value_at(s, i) {
            Some(m) => Some(m),
            None => first_value(s, i + 1),
        }
    }
}

/// The bundle identifier that an `Info.plist` document declares: the value of
/// the leftmost `CFBundleIdentifier` key whose `<string>` value fits on one line.
pub open spec fn bundle_id_of(s: Seq<char>) -> Option<Seq<char>> {
    match first_value(s, 0) {
        Some((c, e)) => Some(s.subrange(c, e)),
        None => None,
    }
}

fn skip_white_space(s: &Vec<char>, k: usize) -> (r: usize)
    requires
        k <= s@.len(),
    ensures
        r == white_space_end(s@, k as int),
        r <= s@.len(),
{
    let mut j: usize = k;
    while j < s.len() && is_white_space_char(s[j])
        invariant
            k <= j <= s@.len(),
            white_space_end(s@, k as int) == white_space_end(s@, j as int),
        decreases s@.len() - j,
    {
        j = j + 1;
    }
    j
}

fn is_white_space_char(c: char) -> (r: bool)
    ensures
        r == is_white_space(c),
{
    let n = c as u32;
    (9 <= n && n <= 13) || n == 32 || n == 0x85 || n == 0xa0 || n == 0x1680 || (0x2000 <= n && n
        <= 0x200a) || n == 0x2028 || n == 0x2029 || n == 0x202f || n == 0x205f || n == 0x3000
}

fn find_close(s: &Vec<char>, close: &Vec<char>, k: usize) -> (r: Option<usize>)
    requires
        close@ == close_tag(),
        k <= s@.len(),
    ensures
        match r {
            Some(e) => close_from(s@, k as int) == Some(e as int),
            None => close_from(s@, k as int) is None,
        },
{
    let mut j: usize = k;
    loop
        invariant
            k <= j <= s@.len(),
            close@ == close_tag(),
            close_from(s@, k as int) == close_from(s@, j as int),
        decreases s@.len() - j,
    {
        if occurs(close, s, j) {
            return Some(j);
        }
        if j >= s.len() || s[j] == '\n' {
            return None;
        }
        j = j + 1;
    }
}

/// Reads the bundle identifier that an `Info.plist` document declares.
pub fn bundle_id_from_xml(content: &str) -> (r: Result<String, PlistError>)
    ensures
        match bundle_id_of(content@) {
            Some(id) => r is Ok && r->Ok_0@ == id,
            None => r == Err::<String, PlistError>(PlistError::MissingBundleId),
        },
{
    let s = chars_of(content);
    let key = chars_of("<key>CFBundleIdentifier</key>");
    let open = chars_of("<string>");
    let close = chars_of("</string>");
    let mut i: usize = 0;
    while i < s.len()
        invariant
            i <= s@.len(),
            s@ == content@,
            key@ == key_tag(),
            open@ == open_tag(),
            close@ == close_tag(),
            first_value(s@, 0) == first_value(s@, i as int),
        decreases s@.len() + 1 - i,
    {
        if occurs(&key, &s, i) {
            let j = skip_white_space(&s, i + key.len());
            if occurs(&open, &s, j) {
                let c = j + open.len();
                match find_close(&s, &close, c) {
                    Some(e) => {
                        proof {
                            lemma_close_in_bounds(s@, c as int);
                        }
                        let id = content.substring_char(c, e);
                        return Ok(id.to_owned());
                    },
                    None => {},
                }
            }
        }
        i = i + 1;
    }
    proof {
        reveal_strlit("<key>CFBundleIdentifier</key>");
        assert(first_value(s@, s@.len() + 1int) is None);
        assert(value_at(s@, s@.len() as int) is None);
    }
    Err(PlistError::MissingBundleId)
}

proof fn lemma_close_in_bounds(s: Seq<char>, k: int)
    requires
        0 <= k,
    ensures
        close_from(s, k) matches Some(e) ==> k <= e <= s.len(),
    decreases s.len() - k,
{
    if !occurs_at(close_tag(), s, k) && !(k >= s.len() || s[k] == '\n') {
        lemma_close_in_bounds(s, k + 1);
    }
}

} // verus!
