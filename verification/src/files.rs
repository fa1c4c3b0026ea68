//! Selection of the files a run works on.
//!
//! Walking directories and testing what exists on disk is the caller's
//! work; the logic here only decides, from what the caller found, which
//! configuration file a run should load.

use vstd::prelude::*;

use vstd::string::StringExecFns;

use crate::config::{contains_name, views_of};

verus! {

/// What a run works on: the files to lint, and the configuration file to
/// load, when one was found.
pub struct Files {
    pub files: Vec<String>,
    pub config: Option<String>,
}

/// The file names a configuration may live under, in lookup order.
pub open spec fn spec_config_file_names() -> Seq<Seq<char>> {
    seq![
        ".eslintrc.js"@,
        ".eslintrc.cjs"@,
        ".eslintrc.yaml"@,
        ".eslintrc.yml"@,
        ".eslintrc.json"@,
        "package.json"@,
    ]
}

/// A candidate path: the root, a separator, and the file name.
pub open spec fn spec_join(root: Seq<char>, name: Seq<char>) -> Seq<char> {
    root + "/"@ + name
}

/// The first candidate under `root`, trying names from `i` on, that stands
/// among the paths found to exist.
pub open spec fn spec_first_existing(
    root: Seq<char>,
    existing: Seq<Seq<char>>,
    i: int,
) -> Option<Seq<char>>
    decreases spec_config_file_names().len() - i,
{
    if i < 0 || i >= spec_config_file_names().len() {
        None
    } else if existing.contains(spec_join(root, spec_config_file_names()[i])) {
        Some(spec_join(root, spec_config_file_names()[i]))
    } else {
        spec_first_existing(root, existing, i + 1)
    }
}

/// Join the root and one candidate file name.
fn join_path(root: &String, name: &str) -> (r: String)
    ensures
        r@ == spec_join(root@, name@),
{
    let mut p = root.clone();
    p.append("/");
    p.append(name);
    p
}

/// Pick the configuration file of a run.  An explicitly named file is
/// used as given — the caller must have made sure it exists.  With none
/// named, the candidates under `root` are tried in lookup order against
/// the paths the caller found to exist, and the first hit wins.
#[verifier::loop_isolation(false)]
pub fn get_config_file(config: Option<String>, root: &String, existing: &Vec<String>) -> (r:
    Option<String>)
    ensures
        (match config {
            Some(path) => r == Some(path),
            None => (match r {
                Some(path) => Some(path@) == spec_first_existing(
                    root@,
                    views_of(existing@),
                    0,
                ),
                None => spec_first_existing(root@, views_of(existing@), 0) is None,
            }),
        }),
{
    match config {
        Some(path) => Some(path),
        None => {
            let mut candidates: Vec<String> = Vec::new();
            candidates.push(join_path(root, ".eslintrc.js"));
            candidates.push(join_path(root, ".eslintrc.cjs"));
            candidates.push(join_path(root, ".eslintrc.yaml"));
            candidates.push(join_path(root, ".eslintrc.yml"));
            candidates.push(join_path(root, ".eslintrc.json"));
            candidates.push(join_path(root, "package.json"));
            proof {
                assert(candidates@[0]@ == spec_join(root@, spec_config_file_names()[0]));
                assert(candidates@[1]@ == spec_join(root@, spec_config_file_names()[1]));
                assert(candidates@[2]@ == spec_join(root@, spec_config_file_names()[2]));
                assert(candidates@[3]@ == spec_join(root@, spec_config_file_names()[3]));
                assert(candidates@[4]@ == spec_join(root@, spec_config_file_names()[4]));
                assert(candidates@[5]@ == spec_join(root@, spec_config_file_names()[5]));
            }
            let mut i: usize = 0;
            while i < 6
                invariant
                    i <= 6,
                    spec_first_existing(root@, views_of(existing@), 0) == spec_first_existing(
                        root@,
                        views_of(existing@),
                        i as int,
                    ),
                decreases 6 - i,
            {
                let candidate = candidates[i].clone();
                if contains_name(existing, &candidate) {
                    return Some(candidate);
                }
                i = i + 1;
            }
            None
        },
    }
}

} // verus!
