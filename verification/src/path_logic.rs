use vstd::prelude::*;

verus! {

/// A file name carries the canonical definition extension exactly when it
/// ends in `.toml` with something before the dot: the bare name `.toml` is a
/// hidden file without an extension and is not a definition file.
pub open spec fn has_toml_extension(name: Seq<char>) -> bool {
    name.len() > 5 && name.subrange(name.len() - 5, name.len() as int) == ".toml"@
}

/// Decides `has_toml_extension` for a file name.
pub fn is_toml_file_name(name: &str) -> (r: bool)
    ensures
        r == has_toml_extension(name@),
{
    proof {
        reveal_strlit(".toml");
    }
    let l = name.unicode_len();
    if l <= 5 {
        return false;
    }
    let r = name.get_char(l - 5) == '.' && name.get_char(l - 4) == 't' && name.get_char(l - 3)
        == 'o' && name.get_char(l - 2) == 'm' && name.get_char(l - 1) == 'l';
    proof {
        let ghost tail = name@.subrange(name@.len() - 5, name@.len() as int);
        if r {
            assert(tail =~= ".toml"@);
        } else if tail == ".toml"@ {
            assert(name@[name@.len() - 5] == tail[0]);
            assert(name@[name@.len() - 4] == tail[1]);
            assert(name@[name@.len() - 3] == tail[2]);
            assert(name@[name@.len() - 2] == tail[3]);
            assert(name@[name@.len() - 1] == tail[4]);
        }
    }
    r
}

/// The path handed to canonicalization for a flash-test binary: an absolute
/// path stands as it is; a relative one is taken under `dir`, the directory
/// of the defining file. An empty `dir` leaves the path relative, to be
/// resolved against the current directory.
pub open spec fn flash_candidate(path: Seq<char>, path_is_absolute: bool, dir: Seq<char>) -> Seq<
    char,
> {
    if path_is_absolute {
        path
    } else if dir.len() == 0 {
        path
    } else if dir.last() == '/' {
        dir + path
    } else {
        dir + "/"@ + path
    }
}

/// `suffix` stands at the end of `s`.
pub open spec fn seq_ends_with(s: Seq<char>, suffix: Seq<char>) -> bool {
    s.len() >= suffix.len() && s.subrange(s.len() - suffix.len(), s.len() as int) == suffix
}

/// Whatever the base directory and the absolute/relative decision, the
/// candidate handed to canonicalization ends with the configured path, so a
/// path-resolution diagnostic always shows it.
pub proof fn lemma_flash_candidate_ends_with(path: Seq<char>, path_is_absolute: bool, dir: Seq<char>)
    ensures
        seq_ends_with(flash_candidate(path, path_is_absolute, dir), path),
{
    let c = flash_candidate(path, path_is_absolute, dir);
    assert(c.subrange(c.len() - path.len(), c.len() as int) =~= path);
}

/// Builds `flash_candidate` for a flash-test-binary path.
pub fn flash_binary_candidate(path: &str, path_is_absolute: bool, dir: &str) -> (r: String)
    ensures
        r@ == flash_candidate(path@, path_is_absolute, dir@),
{
    if path_is_absolute {
        return path.to_owned();
    }
    let l = dir.unicode_len();
    if l == 0 {
        return path.to_owned();
    }
    let mut out = dir.to_owned();
    if dir.get_char(l - 1) != '/' {
        out.append("/");
    }
    out.append(path);
    out
}

} // verus!
