//! Scanning tokenized manifest text. The collaborator that tokenizes a
//! manifest hands over its quoted strings in order; here the key/value
//! conventions are read off them: the value standing right after a key
//! token, every such value for a repeated key, and the backslash
//! unescaping the library list needs.

use vstd::prelude::*;

verus! {

/// The values standing right after each occurrence of `key` at or beyond
/// position `i`, in token order. A key at the very end, with nothing
/// after it, yields no value; every position is scanned, so a value can
/// itself serve as the next key.
pub open spec fn spec_key_values_from(tokens: Seq<Seq<char>>, key: Seq<char>, i: int) -> Seq<
    Seq<char>,
>
    decreases tokens.len() - i,
{
    if i >= tokens.len() {
        Seq::empty()
    } else if tokens[i] == key && i + 1 < tokens.len() {
        seq![tokens[i + 1]] + spec_key_values_from(tokens, key, i + 1)
    } else {
        spec_key_values_from(tokens, key, i + 1)
    }
}

/// The values standing right after each occurrence of `key`.
pub open spec fn spec_key_values(tokens: Seq<Seq<char>>, key: Seq<char>) -> Seq<Seq<char>> {
    spec_key_values_from(tokens, key, 0)
}

/// Collects the value standing right after each occurrence of `key`.
pub fn key_values(tokens: &Vec<String>, key: &String) -> (r: Vec<String>)
    ensures
        r.deep_view() == spec_key_values(tokens.deep_view(), key@),
{
    let mut out: Vec<String> = Vec::new();
    let mut i: usize = 0;
    proof {
        assert(out.deep_view() =~= Seq::<Seq<char>>::empty());
    }
    while i < tokens.len()
        invariant
            i <= tokens.len(),
            tokens.deep_view().len() == tokens.len(),
            spec_key_values(tokens.deep_view(), key@) == out.deep_view() + spec_key_values_from(
                tokens.deep_view(),
                key@,
                i as int,
            ),
        decreases tokens.len() - i,
    {
        let t = &tokens[i];
        let ghost pre_out = out.deep_view();
        if t.eq(key) && i + 1 < tokens.len() {
            let v = &tokens[i + 1];
            out.push(v.clone());
            proof {
                assert(out.deep_view() =~= pre_out.push(tokens.deep_view()[i + 1]));
                assert(pre_out + (seq![tokens.deep_view()[i + 1]] + spec_key_values_from(
                    tokens.deep_view(),
                    key@,
                    i + 1,
                )) =~= pre_out.push(tokens.deep_view()[i + 1]) + spec_key_values_from(
                    tokens.deep_view(),
                    key@,
                    i + 1,
                ));
            }
        }
        i = i + 1;
    }
    proof {
        assert(out.deep_view() + Seq::<Seq<char>>::empty() =~= out.deep_view());
    }
    out
}

/// The value after the first occurrence of `key` that has a value at all,
/// scanning from position `i`.
pub open spec fn spec_first_key_value_from(
    tokens: Seq<Seq<char>>,
    key: Seq<char>,
    i: int,
) -> Option<Seq<char>>
    decreases tokens.len() - i,
{
    if i >= tokens.len() {
        None
    } else if tokens[i] == key && i + 1 < tokens.len() {
        Some(tokens[i + 1])
    } else {
        spec_first_key_value_from(tokens, key, i + 1)
    }
}

/// The value after the first occurrence of `key` that has one.
pub open spec fn spec_first_key_value(tokens: Seq<Seq<char>>, key: Seq<char>) -> Option<
    Seq<char>,
> {
    spec_first_key_value_from(tokens, key, 0)
}

/// Finds the value after the first occurrence of `key` that has one:
/// how an installation directory is read out of a tokenized manifest.
pub fn first_key_value(tokens: &Vec<String>, key: &String) -> (r: Option<String>)
    ensures
        match r {
            Some(v) => spec_first_key_value(tokens.deep_view(), key@) == Some(v@),
            None => spec_first_key_value(tokens.deep_view(), key@) is None,
        },
{
    let mut i: usize = 0;
    while i < tokens.len()
        invariant
            i <= tokens.len(),
            tokens.deep_view().len() == tokens.len(),
            spec_first_key_value(tokens.deep_view(), key@) == spec_first_key_value_from(
                tokens.deep_view(),
                key@,
                i as int,
            ),
        decreases tokens.len() - i,
    {
        let t = &tokens[i];
        if t.eq(key) && i + 1 < tokens.len() {
            let v = &tokens[i + 1];
            return Some(v.clone());
        }
        i = i + 1;
    }
    None
}

/// A character sequence with every leftmost pair of backslashes collapsed
/// to a single backslash, scanning left to right.
pub open spec fn spec_collapse_backslashes(s: Seq<char>) -> Seq<char>
    decreases s.len(),
{
    if s.len() == 0 {
        Seq::empty()
    } else if s.len() >= 2 && s[0] == '\\' && s[1] == '\\' {
        seq!['\\'] + spec_collapse_backslashes(s.skip(2))
    } else {
        seq![s[0]] + spec_collapse_backslashes(s.skip(1))
    }
}

/// Relies on str::replace, replacing every leftmost non-overlapping
/// occurrence of two backslashes with one: exactly the collapse
/// [`spec_collapse_backslashes`] describes.
#[verifier::external_body]
fn replace_double_backslashes(s: &str) -> (r: String)
    ensures
        r@ == spec_collapse_backslashes(s@),
{
    s.replace("\\\\", "\\")
}

/// The library paths listed in tokenized library metadata: the value
/// after each `path` key, in order, with doubled backslashes collapsed.
pub open spec fn spec_library_paths(tokens: Seq<Seq<char>>) -> Seq<Seq<char>> {
    spec_key_values(tokens, "path"@).map(|i: int, v: Seq<char>| spec_collapse_backslashes(v))
}

/// Reads the library folder paths out of tokenized library metadata.
pub fn library_paths_from_tokens(tokens: &Vec<String>) -> (r: Vec<String>)
    ensures
        r.deep_view() == spec_library_paths(tokens.deep_view()),
{
    let key = "path".to_owned();
    proof {
        assert(key@ == "path"@);
    }
    let vals = key_values(tokens, &key);
    let mut out: Vec<String> = Vec::new();
    let mut i: usize = 0;
    while i < vals.len()
        invariant
            i <= vals.len(),
            vals.deep_view().len() == vals.len(),
            vals.deep_view() == spec_key_values(tokens.deep_view(), "path"@),
            out.deep_view().len() == i,
            forall|j: int|
                0 <= j < i as int ==> out.deep_view()[j] == spec_collapse_backslashes(
                    #[trigger] vals.deep_view()[j],
                ),
        decreases vals.len() - i,
    {
        let v = &vals[i];
        let ghost pre_out = out.deep_view();
        out.push(replace_double_backslashes(v.as_str()));
        proof {
            assert(out.deep_view() =~= pre_out.push(
                spec_collapse_backslashes(vals.deep_view()[i as int]),
            ));
        }
        i = i + 1;
    }
    proof {
        assert(out.deep_view() =~= spec_library_paths(tokens.deep_view()));
    }
    out
}

/// Reads the installation directory out of a tokenized application
/// manifest: the value after the first `installdir` key.
pub fn install_dir_from_tokens(tokens: &Vec<String>) -> (r: Option<String>)
    ensures
        match r {
            Some(v) => spec_first_key_value(tokens.deep_view(), "installdir"@) == Some(v@),
            None => spec_first_key_value(tokens.deep_view(), "installdir"@) is None,
        },
{
    let key = "installdir".to_owned();
    proof {
        assert(key@ == "installdir"@);
    }
    first_key_value(tokens, &key)
}

} // verus!
