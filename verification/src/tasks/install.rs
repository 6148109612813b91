//! The self-installation command: where the tool's binary belongs and
//! whether that place is already on the search path.

use vstd::prelude::*;

use crate::text::{split_at_char, split_on_char};

verus! {

/// Why the installation directory could not be determined: no home
/// directory is known.
#[derive(Debug)]
pub enum InstallError {
    NoHome,
}

/// The directory the binary is installed into: `.local/bin` under the home
/// directory. Fails exactly when no home directory is known.
pub fn get_install_dir(home: Option<&str>) -> (r: Result<String, InstallError>)
    ensures
        home matches Some(h) ==> (r matches Ok(d) && d@ == h@ + "/.local/bin"@),
        home is None ==> r matches Err(InstallError::NoHome),
{
    match home {
        Some(h) => {
            let mut d = h.to_owned();
            d.append("/.local/bin");
            Ok(d)
        },
        None => Err(InstallError::NoHome),
    }
}

/// Check whether `dir` is one of the entries of the search-path variable
/// `path_var` (entries separated by `:`).
pub fn is_in_path(dir: &str, path_var: &str) -> (r: bool)
    ensures
        r == split_at_char(path_var@, ':').contains(dir@),
{
    let parts = split_on_char(path_var, ':');
    let d = dir.to_owned();
    let mut i: usize = 0;
    while i < parts.len()
        invariant
            i <= parts@.len(),
            d@ == dir@,
            parts.deep_view() == split_at_char(path_var@, ':'),
            forall|j: int| 0 <= j < i ==> parts.deep_view()[j] != dir@,
        decreases parts@.len() - i,
    {
        proof {
            assert(parts.deep_view()[i as int] == parts@[i as int]@);
        }
        if parts[i].eq(&d) {
            proof {
                assert(split_at_char(path_var@, ':')[i as int] == dir@);
            }
            return true;
        }
        i = i + 1;
    }
    proof {
        assert(!split_at_char(path_var@, ':').contains(dir@)) by {
            if split_at_char(path_var@, ':').contains(dir@) {
                let j = choose|j: int|
                    0 <= j < split_at_char(path_var@, ':').len() && split_at_char(path_var@, ':')[j]
                        == dir@;
                assert(parts.deep_view()[j] != dir@);
            }
        }
    }
    false
}

} // verus!
