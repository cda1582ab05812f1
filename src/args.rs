use vstd::prelude::*;
use vstd::string::*;

verus! {

broadcast use vstd::string::group_string_axioms;

/// A validated request: how many folders, how many bytes in all, and the
/// root folder under which everything is created.
pub struct Request {
    pub num_folders: usize,
    pub disk_size: usize,
    pub root_folder: String,
}

/// Why a command line was refused.
#[derive(Debug, Clone, Copy, PartialEq, Eq, Structural)]
pub enum ArgError {
    /// Not exactly three arguments after the program name.
    Usage,
    /// The folder count is not a positive integer.
    InvalidFolders,
    /// The disk size is not a non-negative integer.
    InvalidDiskSize,
}

impl ArgError {
    /// The message shown to the user for this error.
    pub fn message(&self) -> (r: &'static str)
        ensures
            *self == ArgError::Usage ==> r@
                == "Usage: ./file-craft <folder_count> <disk_size_bytes> <root_folder_name>\n\nExample: ./file-craft 100 204800 data_repo"@,
            *self == ArgError::InvalidFolders ==> r@ == "Invalid number of folders"@,
            *self == ArgError::InvalidDiskSize ==> r@ == "Invalid disk size"@,
    {
        match self {
            ArgError::Usage => "Usage: ./file-craft <folder_count> <disk_size_bytes> <root_folder_name>\n\nExample: ./file-craft 100 204800 data_repo",
            ArgError::InvalidFolders => "Invalid number of folders",
            ArgError::InvalidDiskSize => "Invalid disk size",
        }
    }
}

/// A decimal digit.
pub open spec fn is_digit(c: char) -> bool {
    '0' <= c <= '9'
}

/// Every character of `d` is a decimal digit.
pub open spec fn all_digits(d: Seq<char>) -> bool {
    forall|i: int| 0 <= i < d.len() ==> is_digit(#[trigger] d[i])
}

/// The digits of a number written with an optional leading plus sign.
pub open spec fn unsigned_digits(s: Seq<char>) -> Seq<char> {
    if s.len() > 0 && s[0] == '+' {
        s.drop_first()
    } else {
        s
    }
}

/// The value of a run of decimal digits.
pub open spec fn digits_value(d: Seq<char>) -> nat
    decreases d.len(),
{
    if d.len() == 0 {
        0
    } else {
        digits_value(d.drop_last()) * 10 + ((d.last() as int) - ('0' as int)) as nat
    }
}

/// What parsing `s` as a `usize` gives: an optional plus sign and at least
/// one decimal digit, with a value that fits.
pub open spec fn parsed_usize(s: Seq<char>) -> Option<usize> {
    let d = unsigned_digits(s);
    if d.len() > 0 && all_digits(d) && digits_value(d) <= usize::MAX {
        Some(digits_value(d) as usize)
    } else {
        None
    }
}

/// A run of digits is worth at least any of its prefixes.
proof fn lemma_prefix_value_le(d: Seq<char>, k: int)
    requires
        0 <= k <= d.len(),
    ensures
        digits_value(d.subrange(0, k)) <= digits_value(d),
    decreases d.len(),
{
    if k < d.len() {
        lemma_prefix_value_le(d.drop_last(), k);
        assert(d.drop_last().subrange(0, k) =~= d.subrange(0, k));
    } else {
        assert(d.subrange(0, k) =~= d);
    }
}

/// Parses a `usize` written in decimal, with an optional leading plus sign.
pub fn parse_usize(s: &str) -> (r: Option<usize>)
    ensures
        r == parsed_usize(s@),
{
    let n = s.unicode_len();
    let mut start: usize = 0;
    if n > 0 && s.get_char(0) == '+' {
        start = 1;
    }
    let ghost d = unsigned_digits(s@);
    assert(d =~= s@.subrange(start as int, n as int));
    if start == n {
        return None;
    }
    let mut value: usize = 0;
    let mut i: usize = start;
    while i < n
        invariant
            start <= i <= n,
            n == s@.len(),
            d == s@.subrange(start as int, n as int),
            d == unsigned_digits(s@),
            forall|j: int| 0 <= j < i - start ==> is_digit(#[trigger] d[j]),
            value as nat == digits_value(d.subrange(0, i - start)),
        decreases n - i,
    {
        let c = s.get_char(i);
        assert(d[i - start] == c);
        if !('0' <= c && c <= '9') {
            assert(!is_digit(d[i - start]));
            assert(!all_digits(d));
            return None;
        }
        let digit = (c as u32 - '0' as u32) as usize;
        let ghost next = d.subrange(0, i - start + 1);
        assert(next.drop_last() =~= d.subrange(0, i - start));
        assert(next.last() == c);
        assert(digits_value(next) == value * 10 + digit);
        let m = value.checked_mul(10);
        if m.is_none() {
            proof {
                lemma_prefix_value_le(d, i - start + 1);
                if all_digits(d) {
                    assert(digits_value(d) > usize::MAX);
                }
            }
            return None;
        }
        let m = m.unwrap();
        let v = m.checked_add(digit);
        if v.is_none() {
            proof {
                lemma_prefix_value_le(d, i - start + 1);
                if all_digits(d) {
                    assert(digits_value(d) > usize::MAX);
                }
            }
            return None;
        }
        value = v.unwrap();
        i = i + 1;
    }
    assert(d.subrange(0, d.len() as int) =~= d);
    Some(value)
}

/// The outcome of a command line, `args` holding the program name first.
pub open spec fn parse_outcome(args: Seq<String>) -> Result<(usize, usize, Seq<char>), ArgError> {
    if args.len() != 4 {
        Err(ArgError::Usage)
    } else {
        match parsed_usize(args[1]@) {
            None => Err(ArgError::InvalidFolders),
            Some(n) => if n == 0 {
                Err(ArgError::InvalidFolders)
            } else {
                match parsed_usize(args[2]@) {
                    None => Err(ArgError::InvalidDiskSize),
                    Some(d) => Ok((n, d, args[3]@)),
                }
            },
        }
    }
}

/// Reads `<folder_count> <disk_size_bytes> <root_folder_name>` after the
/// program name.
pub fn parse_args(args: &Vec<String>) -> (r: Result<Request, ArgError>)
    ensures
        match (r, parse_outcome(args@)) {
            (Ok(req), Ok((n, d, root))) => req.num_folders == n && req.disk_size == d
                && req.root_folder@ == root,
            (Err(e), Err(f)) => e == f,
            _ => false,
        },
{
    if args.len() != 4 {
        return Err(ArgError::Usage);
    }
    let num_folders = match parse_usize(args[1].as_str()) {
        Some(n) => n,
        None => {
            return Err(ArgError::InvalidFolders);
        },
    };
    if num_folders == 0 {
        return Err(ArgError::InvalidFolders);
    }
    let disk_size = match parse_usize(args[2].as_str()) {
        Some(d) => d,
        None => {
            return Err(ArgError::InvalidDiskSize);
        },
    };
    Ok(Request { num_folders, disk_size, root_folder: args[3].clone() })
}

} // verus!
