//! Reading the values that a user gives on the command line.

use vstd::prelude::*;

use crate::number::parse_unsigned;
use crate::number::parse_unsigned_at;

verus! {

/// Why a window size could not be read.
#[derive(Clone, Copy, Debug, PartialEq, Eq, Structural)]
pub enum WindowSizeError {
    /// There is no separator, so no height.
    MissingHeight,
    /// There is more than one separator.
    TrailingInput,
    /// The width is not a number.
    MalformedWidth,
    /// The height is not a number.
    MalformedHeight,
}

/// Whether `c` separates width from height: `x`, `,` or a space.
pub open spec fn is_size_separator(c: char) -> bool {
    c == 'x' || c == ',' || c == ' '
}

/// The first index at or after `i` that holds a separator.
pub open spec fn find_separator(s: Seq<char>, i: int) -> Option<int>
    decreases s.len() - i,
{
    if i < 0 || i >= s.len() {
        None
    } else if is_size_separator(s[i]) {
        Some(i)
    } else {
        find_separator(s, i + 1)
    }
}

/// The byte that stands for `c` when reading digits: itself when ASCII, and
/// otherwise a byte that is no digit.
pub open spec fn ascii_byte(c: char) -> u8 {
    if (c as u32) < 128 {
        (c as u32) as u8
    } else {
        255
    }
}

/// The bytes that stand for the characters of `s` when reading digits.
pub open spec fn ascii_bytes(s: Seq<char>) -> Seq<u8> {
    s.map_values(|c: char| ascii_byte(c))
}

/// What a window size `WxH` (or `W,H`, or `W H`) says: two decimal numbers
/// around exactly one separator.
pub open spec fn spec_parse_window_size(s: Seq<char>) -> Result<(usize, usize), WindowSizeError> {
    match find_separator(s, 0) {
        None => Err(WindowSizeError::MissingHeight),
        Some(a) => match find_separator(s, a + 1) {
            Some(_) => Err(WindowSizeError::TrailingInput),
            None => match parse_unsigned(ascii_bytes(s.take(a)), 10, usize::MAX as nat) {
                None => Err(WindowSizeError::MalformedWidth),
                Some(w) => match parse_unsigned(ascii_bytes(s.skip(a + 1)), 10, usize::MAX as nat) {
                    None => Err(WindowSizeError::MalformedHeight),
                    Some(h) => Ok((w as usize, h as usize)),
                },
            },
        },
    }
}

fn to_ascii_byte(c: char) -> (r: u8)
    ensures
        r == ascii_byte(c),
{
    let v = c as u32;
    if v < 128 {
        v as u8
    } else {
        255
    }
}

fn separator_from(s: &str, n: usize, i: usize) -> (r: Option<usize>)
    requires
        n == s@.len(),
        i <= n,
    ensures
        r matches Some(k) ==> find_separator(s@, i as int) == Some(k as int) && i <= k < n,
        r is None ==> find_separator(s@, i as int) is None,
{
    let mut j = i;
    while j < n
        invariant
            n == s@.len(),
            i <= j <= n,
            find_separator(s@, i as int) == find_separator(s@, j as int),
        decreases n - j,
    {
        let c = s.get_char(j);
        if c == 'x' || c == ',' || c == ' ' {
            return Some(j);
        }
        j = j + 1;
    }
    None
}

/// Parse a window size specification from a string.
pub fn parse_window_size(s: &str) -> (r: Result<(usize, usize), WindowSizeError>)
    ensures
        r == spec_parse_window_size(s@),
{
    let n = s.unicode_len();
    let mut bytes: Vec<u8> = Vec::new();
    let mut i: usize = 0;
    while i < n
        invariant
            n == s@.len(),
            i <= n,
            bytes@ == ascii_bytes(s@.take(i as int)),
        decreases n - i,
    {
        let c = s.get_char(i);
        bytes.push(to_ascii_byte(c));
        assert(ascii_bytes(s@.take(i + 1)) =~= ascii_bytes(s@.take(i as int)).push(ascii_byte(c)));
        i = i + 1;
    }
    assert(s@.take(n as int) =~= s@);
    let a = match separator_from(s, n, 0) {
        None => return Err(WindowSizeError::MissingHeight),
        Some(a) => a,
    };
    if separator_from(s, n, a + 1).is_some() {
        return Err(WindowSizeError::TrailingInput);
    }
    assert(bytes@.subrange(0, a as int) =~= ascii_bytes(s@.take(a as int)));
    assert(bytes@.subrange(a + 1, n as int) =~= ascii_bytes(s@.skip(a + 1)));
    let w = match parse_unsigned_at(bytes.as_slice(), 0, a, 10, usize::MAX as u64) {
        None => return Err(WindowSizeError::MalformedWidth),
        Some(w) => w,
    };
    let h = match parse_unsigned_at(bytes.as_slice(), a + 1, n, 10, usize::MAX as u64) {
        None => return Err(WindowSizeError::MalformedHeight),
        Some(h) => h,
    };
    Ok((w as usize, h as usize))
}

/// Where a screenshot goes.
#[derive(Clone, Debug, PartialEq, Eq)]
pub enum Output {
    /// Save the screenshot to the file identified by the given path.
    Path(String),
    /// Write the PNG screenshot data to standard output.
    Stdout,
}

impl Output {
    /// Reads an output: `-` is standard output, anything else a path.
    pub fn parse(s: &str) -> (r: Output)
        ensures
            s@ == seq!['-'] ==> r == Output::Stdout,
            s@ != seq!['-'] ==> (r matches Output::Path(p) && p@ == s@),
    {
        if s.unicode_len() == 1 && s.get_char(0) == '-' {
            assert(s@ =~= seq!['-']);
            Output::Stdout
        } else {
            Output::Path(String::from_str(s))
        }
    }
}

impl std::str::FromStr for Output {
    type Err = std::convert::Infallible;

    fn from_str(s: &str) -> Result<Output, std::convert::Infallible> {
        Ok(Output::parse(s))
    }
}

} // verus!
