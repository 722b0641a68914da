//! Path-name checks: deciding whether a path names a Rust source file.
//!
//! Paths are modelled as `/`-separated strings of characters.

use vstd::prelude::*;
use vstd::string::*;
use crate::errors::ObfuscatorError;

verus! {

/// `c` is the letter `r`, in either case.
pub open spec fn is_letter_r(c: char) -> bool {
    c == 'r' || c == 'R'
}

/// `c` is the letter `s`, in either case.
pub open spec fn is_letter_s(c: char) -> bool {
    c == 's' || c == 'S'
}

/// The path names a Rust source file: its file name has a nonempty stem
/// followed by an `rs` extension, compared ignoring case.  A file name that
/// is only `.rs` has no extension, it is a hidden file called `.rs`.
pub open spec fn is_rust_path(s: Seq<char>) -> bool {
    &&& s.len() >= 4
    &&& s[s.len() - 3] == '.'
    &&& is_letter_r(s[s.len() - 2])
    &&& is_letter_s(s[s.len() - 1])
    &&& s[s.len() - 4] != '/'
}

/// Checks that `file` names a Rust source file; otherwise reports the
/// offending path.
pub fn ensure_rust_file(file: &str) -> (r: Result<(), ObfuscatorError>)
    ensures
        r is Ok <==> is_rust_path(file@),
        r matches Err(e) ==> e matches ObfuscatorError::InvalidFileExtension { path } && path@
            == file@,
{
    let n = file.unicode_len();
    let mut is_rs: bool = false;
    if n >= 4 {
        let dot = file.get_char(n - 3);
        let cr = file.get_char(n - 2);
        let cs = file.get_char(n - 1);
        let before = file.get_char(n - 4);
        is_rs = dot == '.' && (cr == 'r' || cr == 'R') && (cs == 's' || cs == 'S') && before
            != '/';
    }
    if is_rs {
        Ok(())
    } else {
        Err(ObfuscatorError::InvalidFileExtension { path: file.to_owned() })
    }
}

} // verus!
