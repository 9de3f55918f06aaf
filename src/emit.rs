use vstd::prelude::*;
use vstd::string::*;

verus! {

/// The banner written above generated code when no header is given.
pub const GENERATED_CODE_HEADER: &'static str = "// This file is generated using \"proto-code-gen\".\n// DO NOT EDIT BY HAND!!\n";

/// Where the service stub is written, relative to the project root.
pub const SERVICE_FILE: &'static str = "src/service.rs";

/// Where the handlers are written, relative to the project root.
pub const HANDLERS_FILE: &'static str = "src/handlers.rs";

/// The header put above generated code: the given one, else the banner.
pub open spec fn chosen_header(header: Option<&str>) -> Seq<char> {
    match header {
        Some(h) => h@,
        None => GENERATED_CODE_HEADER@,
    }
}

/// The file contents for `code` under a header.
pub fn with_header(code: &str, header: Option<&str>) -> (r: String)
    ensures
        r@ == chosen_header(header) + code@,
{
    let mut r = match header {
        Some(h) => String::from_str(h),
        None => String::from_str(GENERATED_CODE_HEADER),
    };
    r.append(code);
    r
}

/// What to write when writing only where no file exists yet: nothing when the
/// target exists, so that its content is left as it was; else the code under
/// its header.
pub fn contents_if_not_exist(exists: bool, code: &str, header: Option<&str>) -> (r: Option<String>)
    ensures
        exists ==> r is None,
        !exists ==> r is Some && r->Some_0@ == chosen_header(header) + code@,
{
    if exists {
        None
    } else {
        Some(with_header(code, header))
    }
}

/// The path of `pathname` under the project root.
pub fn get_abs_path_from_root(root: &str, pathname: &str) -> (r: String)
    ensures
        r@ == root@ + "/"@ + pathname@,
{
    let mut r = String::from_str(root);
    r.append("/");
    r.append(pathname);
    r
}

/// Whether a file name ends in `.rs`.
pub open spec fn is_rust_file(name: Seq<char>) -> bool {
    name.len() >= 3 && name.subrange(name.len() - 3, name.len() as int) == ".rs"@
}

/// Whether the formatter is run on a file of this name.
pub fn is_rust_source(file_name: &str) -> (r: bool)
    ensures
        r == is_rust_file(file_name@),
{
    let n = file_name.unicode_len();
    if n < 3 {
        return false;
    }
    let a = file_name.get_char(n - 3);
    let b = file_name.get_char(n - 2);
    let c = file_name.get_char(n - 1);
    proof {
        reveal_strlit(".rs");
    }
    let r = a == '.' && b == 'r' && c == 's';
    let ghost tail = file_name@.subrange(n - 3, n as int);
    assert(r ==> tail =~= ".rs"@);
    assert(tail == ".rs"@ ==> (tail[0] == '.' && tail[1] == 'r' && tail[2] == 's'));
    r
}

/// The exit code when the formatter fails: its own, else 1.
pub fn formatter_exit_code(code: Option<i32>) -> (r: i32)
    ensures
        r == match code {
            Some(c) => c,
            None => 1,
        },
{
    match code {
        Some(c) => c,
        None => 1,
    }
}

} // verus!
