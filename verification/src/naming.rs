//! Names the commands give to things: the logical path of an added file, the
//! base name of an ingested directory, decimal numerals, and slash-joined paths.

use vstd::prelude::*;

verus! {

/// The decimal digit for `d` (taken modulo ten).
pub open spec fn digit_char(d: nat) -> char {
    let d = d % 10;
    if d == 0 { '0' }
    else if d == 1 { '1' }
    else if d == 2 { '2' }
    else if d == 3 { '3' }
    else if d == 4 { '4' }
    else if d == 5 { '5' }
    else if d == 6 { '6' }
    else if d == 7 { '7' }
    else if d == 8 { '8' }
    else { '9' }
}

/// The decimal numeral of `n`, without leading zeros.
pub open spec fn decimal(n: nat) -> Seq<char>
    decreases n,
{
    if n < 10 {
        seq![digit_char(n)]
    } else {
        decimal(n / 10).push(digit_char(n % 10))
    }
}

/// The number a numeral of decimal digits stands for.
pub open spec fn numeral_value(s: Seq<char>) -> nat
    decreases s.len(),
{
    if s.len() == 0 {
        0
    } else {
        numeral_value(s.drop_last()) * 10 + digit_value(s.last())
    }
}

/// The value of a decimal digit character (0 for any other character).
pub open spec fn digit_value(c: char) -> nat {
    if c == '1' { 1 }
    else if c == '2' { 2 }
    else if c == '3' { 3 }
    else if c == '4' { 4 }
    else if c == '5' { 5 }
    else if c == '6' { 6 }
    else if c == '7' { 7 }
    else if c == '8' { 8 }
    else if c == '9' { 9 }
    else { 0 }
}

/// Reading a numeral back gives the number it was written for.
pub proof fn lemma_decimal_value(n: nat)
    ensures
        numeral_value(decimal(n)) == n,
        decimal(n).len() >= 1,
    decreases n,
{
    if n < 10 {
        assert(decimal(n).drop_last() =~= Seq::<char>::empty());
        assert(digit_value(digit_char(n)) == n);
        assert(numeral_value(decimal(n)) == numeral_value(decimal(n).drop_last()) * 10 + digit_value(decimal(n).last()));
    } else {
        lemma_decimal_value(n / 10);
        assert(decimal(n).drop_last() =~= decimal(n / 10));
        let d = n % 10;
        assert(d % 10 == d);
        assert(digit_value(digit_char(d)) == d);
        assert(n == (n / 10) * 10 + n % 10);
        assert(decimal(n).last() == digit_char(d));
        assert(numeral_value(decimal(n)) == numeral_value(decimal(n).drop_last()) * 10 + digit_value(decimal(n).last()));
    }
}

/// Distinct numbers have distinct numerals.
pub proof fn lemma_decimal_injective(a: nat, b: nat)
    ensures
        decimal(a) == decimal(b) ==> a == b,
{
    lemma_decimal_value(a);
    lemma_decimal_value(b);
}

fn digit_str(d: usize) -> (r: &'static str)
    requires
        d < 10,
    ensures
        r@ == seq![digit_char(d as nat)],
{
    proof {
        reveal_strlit("0");
        reveal_strlit("1");
        reveal_strlit("2");
        reveal_strlit("3");
        reveal_strlit("4");
        reveal_strlit("5");
        reveal_strlit("6");
        reveal_strlit("7");
        reveal_strlit("8");
        reveal_strlit("9");
    }
    if d == 0 { "0" }
    else if d == 1 { "1" }
    else if d == 2 { "2" }
    else if d == 3 { "3" }
    else if d == 4 { "4" }
    else if d == 5 { "5" }
    else if d == 6 { "6" }
    else if d == 7 { "7" }
    else if d == 8 { "8" }
    else { "9" }
}

/// Writes `n` in decimal, as `n.to_string()` does.
pub fn decimal_string(n: usize) -> (r: String)
    ensures
        r@ == decimal(n as nat),
    decreases n,
{
    if n < 10 {
        String::from_str(digit_str(n))
    } else {
        let mut s = decimal_string(n / 10);
        s.append(digit_str(n % 10));
        s
    }
}

/// The logical path given to a file that is added or modified: the one
/// requested, else the file's own name, else `unnamed`.
pub open spec fn logical_path_for(requested: Option<Seq<char>>, file_name: Option<Seq<char>>) -> Seq<char> {
    match requested {
        Some(p) => p,
        None => match file_name {
            Some(n) => n,
            None => "unnamed"@,
        },
    }
}

/// Chooses the logical path of a file to add or modify. `file_name` is the
/// file's name on disk where it is valid UTF-8.
pub fn resolve_logical_path(requested: Option<String>, file_name: Option<String>) -> (r: String)
    ensures
        r@ == logical_path_for(
            match requested { Some(p) => Some(p@), None => None },
            match file_name { Some(n) => Some(n@), None => None },
        ),
{
    match requested {
        Some(p) => p,
        None => match file_name {
            Some(n) => n,
            None => String::from_str("unnamed"),
        },
    }
}

/// The name under which an ingested directory is namespaced: its own name
/// where that is valid UTF-8 and not empty, else `input`.
pub open spec fn directory_base_for(name: Option<Seq<char>>) -> Seq<char> {
    match name {
        Some(n) => if n.len() > 0 { n } else { "input"@ },
        None => "input"@,
    }
}

/// Chooses the base name of an ingested directory from its name on disk.
pub fn directory_base(name: &Option<String>) -> (r: String)
    ensures
        r@ == directory_base_for(match name { Some(n) => Some(n@), None => None }),
{
    match name {
        Some(n) => {
            if n.as_str().is_empty() {
                String::from_str("input")
            } else {
                n.clone()
            }
        },
        None => String::from_str("input"),
    }
}

/// The parts of a path joined with `/`.
pub open spec fn slash_joined(parts: Seq<Seq<char>>) -> Seq<char>
    decreases parts.len(),
{
    if parts.len() == 0 {
        Seq::empty()
    } else if parts.len() == 1 {
        parts[0]
    } else {
        slash_joined(parts.drop_last()) + "/"@ + parts.last()
    }
}

/// The views of a list of strings.
pub open spec fn string_views(v: Seq<String>) -> Seq<Seq<char>> {
    v.map_values(|s: String| s@)
}

/// Joins the parts `parts[from..]` with `/`.
pub fn join_with_slash(parts: &Vec<String>, from: usize) -> (r: String)
    requires
        from <= parts.len(),
    ensures
        r@ == slash_joined(string_views(parts@).skip(from as int)),
{
    let ghost all = string_views(parts@);
    let mut out = String::new();
    let mut i = from;
    proof {
        reveal_strlit("/");
        assert(all.skip(from as int).take(0) =~= Seq::<Seq<char>>::empty());
    }
    while i < parts.len()
        invariant
            from <= i <= parts.len(),
            all == string_views(parts@),
            out@ == slash_joined(all.skip(from as int).take(i - from)),
            "/"@ == seq!['/'],
        decreases parts.len() - i,
    {
        let ghost before = all.skip(from as int).take(i - from);
        let ghost after = all.skip(from as int).take(i + 1 - from);
        assert(after.drop_last() =~= before);
        assert(after.last() == parts@[i as int]@);
        if i > from {
            out.append("/");
        } else {
            assert(before.len() == 0);
        }
        out.append(parts[i].as_str());
        i = i + 1;
    }
    assert(all.skip(from as int).take(i - from) =~= all.skip(from as int));
    out
}

/// The logical path of a file input, from the parts of its absolute path and
/// of the working directory: the path relative to the working directory,
/// joined with `/`, when the file lies below it; otherwise the file's name.
pub open spec fn file_logical_path(path: Seq<Seq<char>>, cwd: Seq<Seq<char>>) -> Seq<char> {
    if cwd.len() < path.len() && path.take(cwd.len() as int) == cwd {
        slash_joined(path.skip(cwd.len() as int))
    } else if path.len() > 0 {
        path.last()
    } else {
        Seq::empty()
    }
}

/// Chooses the logical path of a file input. `path_parts` are the parts of
/// the file's absolute path and `cwd_parts` those of the working directory.
pub fn file_input_logical_path(path_parts: &Vec<String>, cwd_parts: &Vec<String>) -> (r: String)
    ensures
        r@ == file_logical_path(string_views(path_parts@), string_views(cwd_parts@)),
{
    let ghost path = string_views(path_parts@);
    let ghost cwd = string_views(cwd_parts@);
    let mut below = cwd_parts.len() < path_parts.len();
    let mut i: usize = 0;
    while below && i < cwd_parts.len()
        invariant
            i <= cwd_parts.len(),
            below ==> cwd_parts.len() < path_parts.len(),
            below ==> forall|j: int| 0 <= j < i ==> path[j] == cwd[j],
            !below ==> !(cwd.len() < path.len() && path.take(cwd.len() as int) == cwd),
            path == string_views(path_parts@),
            cwd == string_views(cwd_parts@),
        decreases cwd_parts.len() - i,
    {
        if path_parts[i] != cwd_parts[i] {
            below = false;
            assert(path.take(cwd.len() as int)[i as int] == path[i as int]);
        }
        i = i + 1;
    }
    if below {
        assert(path.take(cwd.len() as int) =~= cwd);
        join_with_slash(path_parts, cwd_parts.len())
    } else if path_parts.len() > 0 {
        path_parts[path_parts.len() - 1].clone()
    } else {
        String::new()
    }
}

} // verus!
