use vstd::prelude::*;

verus! {

/// Every `from` turned into `to`, every other character kept.
pub open spec fn replaced(s: Seq<char>, from: char, to: char) -> Seq<char> {
    s.map_values(|c: char| if c == from { to } else { c })
}

/// Spaces turned into hyphens, every other character kept.
pub open spec fn hyphenated(s: Seq<char>) -> Seq<char> {
    replaced(s, ' ', '-')
}

/// Relies on `str::replace`, which replaces every match of a pattern (here
/// one character) by a string (here one character).
#[verifier::external_body]
pub(crate) fn replace_char(s: &str, from: char, to: char) -> (r: String)
    ensures
        r@ == replaced(s@, from, to),
{
    s.replace(from, &to.to_string())
}

/// What `relative_path` makes of a base path joined with another path and
/// normalized (`.` dropped, `..` folded into the segment before it), without
/// a leading separator.
pub uninterp spec fn normalized_join(base: Seq<char>, path: Seq<char>) -> Seq<char>;

/// Relies on `relative_path::RelativePath::join_normalized`, whose result is
/// a function of its two arguments.
#[verifier::external_body]
fn join_normalized(base: &str, path: &str) -> (r: String)
    ensures
        r@ == normalized_join(base@, path@),
{
    relative_path::RelativePath::new(base).join_normalized(path).to_string()
}

/// Relies on `chrono::Local::now`, formatted as `%Y-%m-%d`: today's date on
/// this machine, of which nothing is known in advance.
#[verifier::external_body]
pub(crate) fn today() -> (r: String) {
    chrono::Local::now().format("%Y-%m-%d").to_string()
}

/// The model and serial that are known, joined by `_`.
pub open spec fn model_serial(model: Option<String>, serial: Option<String>) -> Seq<char> {
    match (model, serial) {
        (Some(m), Some(s)) => m@ + seq!['_'] + s@,
        (Some(m), None) => m@,
        (None, Some(s)) => s@,
        (None, None) => Seq::empty(),
    }
}

/// The stable, date-free end of a device's backup file names:
/// `<model>_<serial>.img`, with spaces as hyphens.
pub open spec fn suffix_of(model: Option<String>, serial: Option<String>) -> Seq<char> {
    hyphenated(model_serial(model, serial)) + seq!['.', 'i', 'm', 'g']
}

/// A dated backup file name: `<date>_<device name>_<suffix>`.
pub open spec fn dated_name(date: Seq<char>, name: Seq<char>, suffix: Seq<char>) -> Seq<char> {
    date + seq!['_'] + name + seq!['_'] + suffix
}

/// An absolute path: `/` before the normalized join of two paths.
pub open spec fn rooted_join(base: Seq<char>, path: Seq<char>) -> Seq<char> {
    seq!['/'] + normalized_join(base, path)
}

/// The suffix that names a device's backups.
pub fn suffix_file_name_pattern(model: &Option<String>, serial: &Option<String>) -> (r: String)
    ensures
        r@ == suffix_of(*model, *serial),
{
    let joined = match (model, serial) {
        (Some(m), Some(s)) => {
            let sep = "_";
            proof {
                reveal_strlit("_");
            }
            m.clone().concat(sep).concat(s.as_str())
        },
        (Some(m), None) => m.clone(),
        (None, Some(s)) => s.clone(),
        (None, None) => String::new(),
    };
    let ext = ".img";
    proof {
        reveal_strlit(".img");
    }
    replace_char(joined.as_str(), ' ', '-').concat(ext)
}

/// The file name of today's backup of a device.
pub fn file_name(date: &str, name: &str, suffix: &str) -> (r: String)
    ensures
        r@ == dated_name(date@, name@, suffix@),
{
    let sep = "_";
    proof {
        reveal_strlit("_");
    }
    String::from_str(date).concat(sep).concat(name).concat(sep).concat(suffix)
}

/// `base` joined with `path`, normalized, as an absolute path.
pub fn rooted_path(base: &str, path: &str) -> (r: String)
    ensures
        r@ == rooted_join(base@, path@),
{
    let root = "/";
    proof {
        reveal_strlit("/");
    }
    let joined = join_normalized(base, path);
    String::from_str(root).concat(joined.as_str())
}

} // verus!
