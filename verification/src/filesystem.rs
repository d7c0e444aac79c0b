//! Path derivation for the blob store. Content of a document or resource
//! lives at `root/project_id/name`; the project's directory is
//! `root/project_id`. Derivation is pure: these functions build the path
//! string and prove it equal to the specified character sequence.

use vstd::prelude::*;
use vstd::string::StringExecFns;

use crate::domain::{Document, Resource};

verus! {

/// Outcome of a blob-store write: `Missing` when the path does not exist and
/// creation was not requested, `Unknown` for any other storage failure.
#[derive(Debug, PartialEq, Eq)]
pub enum FileWriteError {
    Missing,
    Unknown,
}

/// Outcome of a blob-store read: `Missing` when the path does not exist,
/// `Unknown` for any other storage failure.
#[derive(Debug, PartialEq, Eq)]
pub enum FileReadError {
    Missing,
    Unknown,
}

pub open spec fn dec_digit(d: int) -> char {
    if d == 0 {
        '0'
    } else if d == 1 {
        '1'
    } else if d == 2 {
        '2'
    } else if d == 3 {
        '3'
    } else if d == 4 {
        '4'
    } else if d == 5 {
        '5'
    } else if d == 6 {
        '6'
    } else if d == 7 {
        '7'
    } else if d == 8 {
        '8'
    } else {
        '9'
    }
}

/// Decimal digits of a non-negative integer, most significant first.
pub open spec fn dec_digits(n: int) -> Seq<char>
    decreases n,
{
    if n < 10 {
        seq![dec_digit(n)]
    } else {
        dec_digits(n / 10).push(dec_digit(n % 10))
    }
}

/// The decimal rendering of an integer, as `to_string` produces it.
pub open spec fn int_string(n: int) -> Seq<char> {
    if n >= 0 {
        dec_digits(n)
    } else {
        seq!['-'] + dec_digits(-n)
    }
}

/// The directory that holds a project's blobs.
pub open spec fn project_dir_path(root: Seq<char>, project_id: int) -> Seq<char> {
    root + seq!['/'] + int_string(project_id)
}

/// The path of a document's or resource's content.
pub open spec fn blob_path(root: Seq<char>, project_id: int, name: Seq<char>) -> Seq<char> {
    project_dir_path(root, project_id) + seq!['/'] + name
}

fn digit_str(d: u64) -> (r: &'static str)
    requires
        d < 10,
    ensures
        r@ == seq![dec_digit(d as int)],
{
    proof {
        reveal_strlit("0");
        reveal_strlit("1");
        reveal_strlit("2");
        reveal_strlit("3");
        reveal_strlit("4");
        reveal_strlit("5");
        reveal_strlit("6");
        reveal_strlit("7");
        reveal_strlit("8");
        reveal_strlit("9");
    }
    let r: &'static str = if d == 0 {
        "0"
    } else if d == 1 {
        "1"
    } else if d == 2 {
        "2"
    } else if d == 3 {
        "3"
    } else if d == 4 {
        "4"
    } else if d == 5 {
        "5"
    } else if d == 6 {
        "6"
    } else if d == 7 {
        "7"
    } else if d == 8 {
        "8"
    } else {
        "9"
    };
    proof {
        assert(r@ =~= seq![dec_digit(d as int)]);
    }
    r
}

/// Decimal rendering of an unsigned integer.
pub fn u64_string(n: u64) -> (r: String)
    ensures
        r@ == dec_digits(n as int),
    decreases n,
{
    if n < 10 {
        digit_str(n).to_owned()
    } else {
        let mut s = u64_string(n / 10);
        s.append(digit_str(n % 10));
        proof {
            assert(s@ =~= dec_digits((n / 10) as int).push(dec_digit((n % 10) as int)));
        }
        s
    }
}

/// Decimal rendering of a signed integer, as `to_string` produces it.
pub fn i32_string(n: i32) -> (r: String)
    ensures
        r@ == int_string(n as int),
{
    if n >= 0 {
        u64_string(n as u64)
    } else {
        let wide: i64 = n as i64;
        let mag: u64 = (-wide) as u64;
        let mut s = "-".to_owned();
        let digits = u64_string(mag);
        s.append(digits.as_str());
        proof {
            reveal_strlit("-");
            assert(s@ =~= seq!['-'] + dec_digits(-(n as int)));
        }
        s
    }
}

/// The directory of a project's blobs: `root/project_id`.
pub fn get_project_path(root: &str, project_id: i32) -> (r: String)
    ensures
        r@ == project_dir_path(root@, project_id as int),
{
    let mut s = root.to_owned();
    s.append("/");
    let num = i32_string(project_id);
    s.append(num.as_str());
    proof {
        reveal_strlit("/");
        assert(s@ =~= project_dir_path(root@, project_id as int));
    }
    s
}

/// The path of a document's content: `root/project_id/name`.
pub fn get_document_path(root: &str, document: &Document) -> (r: String)
    ensures
        r@ == blob_path(root@, document.project_id as int, document.name@),
{
    let mut s = get_project_path(root, document.project_id);
    s.append("/");
    s.append(document.name.as_str());
    proof {
        reveal_strlit("/");
        assert(s@ =~= blob_path(root@, document.project_id as int, document.name@));
    }
    s
}

/// The path of a resource's content: `root/project_id/name`.
pub fn get_resource_path(root: &str, resource: &Resource) -> (r: String)
    ensures
        r@ == blob_path(root@, resource.project_id as int, resource.name@),
{
    let mut s = get_project_path(root, resource.project_id);
    s.append("/");
    s.append(resource.name.as_str());
    proof {
        reveal_strlit("/");
        assert(s@ =~= blob_path(root@, resource.project_id as int, resource.name@));
    }
    s
}

} // verus!
