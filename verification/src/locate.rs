//! Locating the FFmpeg headers and libraries: which environment variables are
//! consulted, in which order, and how their values are combined with what
//! pkg-config (or vcpkg) reports.
use vstd::prelude::*;

verus! {

/// The result of `str::to_uppercase` (Unicode upper case mapping).
pub uninterp spec fn uppercase_of(s: Seq<char>) -> Seq<char>;

/// `s` with every occurrence of the character `from` replaced by `to`.
pub open spec fn replace_char_of(s: Seq<char>, from: char, to: Seq<char>) -> Seq<char>
    decreases s.len(),
{
    if s.len() == 0 {
        Seq::empty()
    } else {
        (if s[0] == from {
            to
        } else {
            seq![s[0]]
        }) + replace_char_of(s.drop_first(), from, to)
    }
}

/// Calls `str::to_uppercase`: the Unicode upper case of `s`, a function of
/// `s` alone.
#[verifier::external_body]
fn to_uppercase(s: &str) -> (r: String)
    ensures
        r@ == uppercase_of(s@),
{
    s.to_uppercase()
}

/// What one character of `s` becomes in `replace_char_of`.
pub open spec fn replaced_piece(c: char, from: char, to: Seq<char>) -> Seq<char> {
    if c == from {
        to
    } else {
        seq![c]
    }
}

/// Replacing in a sequence with one more character at the end gives the
/// replaced sequence followed by what that character becomes.
pub proof fn lemma_replace_char_push(x: Seq<char>, c: char, from: char, to: Seq<char>)
    ensures
        replace_char_of(x.push(c), from, to) == replace_char_of(x, from, to) + replaced_piece(
            c,
            from,
            to,
        ),
    decreases x.len(),
{
    if x.len() == 0 {
        assert(x.push(c).drop_first() =~= Seq::<char>::empty());
        assert(replace_char_of(x.push(c).drop_first(), from, to) == Seq::<char>::empty());
        assert(x.push(c)[0] == c);
        assert(replace_char_of(x.push(c), from, to) == replaced_piece(c, from, to)
            + Seq::<char>::empty());
        assert(replace_char_of(x.push(c), from, to) =~= replaced_piece(c, from, to));
        assert(replace_char_of(x, from, to) == Seq::<char>::empty());
        assert(Seq::<char>::empty() + replaced_piece(c, from, to) =~= replaced_piece(c, from, to));
    } else {
        assert(x.push(c).drop_first() =~= x.drop_first().push(c));
        assert(x.push(c)[0] == x[0]);
        lemma_replace_char_push(x.drop_first(), c, from, to);
        assert(replace_char_of(x.push(c), from, to) =~= replaced_piece(x[0], from, to) + (
        replace_char_of(x.drop_first(), from, to) + replaced_piece(c, from, to)));
        assert(replace_char_of(x, from, to) =~= replaced_piece(x[0], from, to) + replace_char_of(
            x.drop_first(),
            from,
            to,
        ));
    }
}

/// `s` with every occurrence of the character `from` replaced by `to` (what
/// `str::replace` does with a character pattern).
pub fn replace_char(s: &str, from: char, to: &str) -> (r: String)
    ensures
        r@ == replace_char_of(s@, from, to@),
{
    let n = s.unicode_len();
    let mut res = String::new();
    let mut i: usize = 0;
    while i < n
        invariant
            n == s@.len(),
            i <= n,
            res@ == replace_char_of(s@.subrange(0, i as int), from, to@),
        decreases n - i,
    {
        let c = s.get_char(i);
        proof {
            lemma_replace_char_push(s@.subrange(0, i as int), c, from, to@);
            assert(s@.subrange(0, i as int).push(c) =~= s@.subrange(0, i + 1));
        }
        if c == from {
            res = res.concat(to);
        } else {
            let one = s.substring_char(i, i + 1);
            assert(one@ =~= seq![c]);
            res = res.concat(one);
        }
        i = i + 1;
    }
    assert(s@.subrange(0, n as int) =~= s@);
    res
}

/// The target triple in upper case with dashes replaced by underscores, as
/// used in target-specific variable names.
pub fn normalized_target(target: &str) -> (r: String)
    ensures
        r@ == replace_char_of(uppercase_of(target@), '-', "_"@),
{
    let upper = to_uppercase(target);
    replace_char(upper.as_str(), '-', "_")
}

/// The name of the target-specific variant of the variable `name`:
/// `{name}_{target}`.
pub fn target_var_name(name: &str, target: &str) -> (r: String)
    ensures
        r@ == name@ + "_"@ + target@,
{
    let res = String::from_str(name);
    let res = res.concat("_");
    res.concat(target)
}

/// Get a given path from the environment: the target-specific variable wins
/// over the plain one; `None` when neither is set.
pub fn path_from_env<T>(target_specific: Option<T>, plain: Option<T>) -> (r: Option<T>)
    ensures
        target_specific is Some ==> r == target_specific,
        target_specific is None ==> r == plain,
{
    match target_specific {
        Some(path) => Some(path),
        None => plain,
    }
}

/// The directories to use: the directory from the environment if it is set
/// and is a directory, otherwise the directories that the library probe
/// found (`None` when it found nothing).
pub fn ffmpeg_dirs<T>(env_dir: Option<T>, env_dir_is_dir: bool, probed: Option<Vec<T>>) -> (r:
    Option<Vec<T>>)
    ensures
        (env_dir matches Some(d) && env_dir_is_dir) ==> (r matches Some(v) && v@ == seq![
            env_dir.unwrap(),
        ]),
        !(env_dir is Some && env_dir_is_dir) ==> r == probed,
{
    match env_dir {
        Some(dir) => {
            if env_dir_is_dir {
                let mut v: Vec<T> = Vec::new();
                v.push(dir);
                Some(v)
            } else {
                probed
            }
        },
        None => probed,
    }
}

/// How the FFmpeg libraries are linked, given the value of `FFMPEG_STATIC`
/// (if set): `"0"` means dynamic linking, any other value static linking,
/// and dynamic linking when it is not set.
pub fn link_mode(static_var: Option<&str>) -> (r: &'static str)
    ensures
        static_var is None ==> r@ == "dylib"@,
        static_var matches Some(v) && v@ == "0"@ ==> r@ == "dylib"@,
        static_var matches Some(v) && v@ != "0"@ ==> r@ == "static"@,
{
    proof {
        reveal_strlit("0");
    }
    match static_var {
        None => "dylib",
        Some(v) => {
            if v.unicode_len() == 1 && v.get_char(0) == '0' {
                assert(v@ =~= "0"@);
                "dylib"
            } else {
                "static"
            }
        },
    }
}

} // verus!
