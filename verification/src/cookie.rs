//! Choosing and reading the account's cookie file.

use vstd::prelude::*;
use vstd::string::*;
use crate::text::{decimal, decimal_string, parse_usize, trim, trimmed, usize_from_text};

verus! {

/// The folder that holds one cookie file per account.
pub const COOKIE_DIR: &'static str = "./akun";

/// Where the cookie file `name` is read from: `./akun/<name>`.
pub fn cookie_file_path(name: &str) -> (r: String)
    ensures
        r@ == "./akun/"@ + name@,
{
    let mut r = String::from_str("./akun/");
    r.append(name);
    r
}

/// The cookie sent with every request, from the text of a cookie file.
pub open spec fn cookie_of_text(content: Seq<char>) -> Seq<char> {
    if trimmed(content).len() == 0 {
        " "@
    } else {
        trimmed(content)
    }
}

/// The cookie held by a cookie file: its text without surrounding whitespace,
/// or a single space when nothing else is left.
pub fn cookie_from_file_text(content: &str) -> (r: String)
    ensures
        r@ == cookie_of_text(content@),
        r@.len() > 0,
        trimmed(content@).len() > 0 ==> r@ == trimmed(content@),
        trimmed(content@).len() == 0 ==> r@ == seq![' '],
{
    let t = trim(content);
    if t.unicode_len() == 0 {
        proof {
            reveal_strlit(" ");
        }
        String::from_str(" ")
    } else {
        String::from_str(t)
    }
}

/// The line that lists file `name` at position `index` (counted from zero) of
/// the folder listing: `<index + 1>. <name>`.
pub fn cookie_menu_line(index: usize, name: &str) -> (r: String)
    requires
        index < usize::MAX,
    ensures
        r@ == decimal((index + 1) as nat) + ". "@ + name@,
{
    let mut r = decimal_string((index + 1) as u64);
    r.append(". ");
    r.append(name);
    r
}

/// The file picked by the answer `input` from the listed `files`: the answer,
/// without surrounding whitespace, must be a number from 1 to the number of
/// files.
pub open spec fn picked_file(files: Seq<String>, input: Seq<char>) -> Option<String> {
    match usize_from_text(trimmed(input)) {
        Some(k) => if 1 <= k && k <= files.len() {
            Some(files[k - 1])
        } else {
            None
        },
        None => None,
    }
}

/// The cookie file chosen by the answer `input`, or `None` when the answer is
/// not the number of a listed file (the question is then asked again).
pub fn pick_cookie_file(files: &Vec<String>, input: &str) -> (r: Option<String>)
    ensures
        match picked_file(files@, input@) {
            Some(f) => r matches Some(g) && g@ == f@,
            None => r is None,
        },
{
    match parse_usize(trim(input)) {
        Some(k) => {
            if 1 <= k && k <= files.len() {
                Some(files[k - 1].clone())
            } else {
                None
            }
        },
        None => None,
    }
}

} // verus!
