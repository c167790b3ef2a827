use vstd::prelude::*;

verus! {

/// A directory and a relative name joined with one separator: none is added
/// when the directory already ends with `/` or is empty.
pub open spec fn joined(dir: Seq<char>, name: Seq<char>) -> Seq<char> {
    if dir.len() == 0 || dir.last() == '/' {
        dir + name
    } else {
        dir + seq!['/'] + name
    }
}

/// Joins a relative name onto a directory.
pub fn join_path(dir: &str, name: &str) -> (r: String)
    ensures
        r@ == joined(dir@, name@),
{
    let n = dir.unicode_len();
    let out = String::from_str(dir);
    if n == 0 || dir.get_char(n - 1) == '/' {
        out.concat(name)
    } else {
        let sep = "/";
        proof {
            reveal_strlit("/");
        }
        let out = out.concat(sep);
        out.concat(name)
    }
}

} // verus!
