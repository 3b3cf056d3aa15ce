//! Lambda function names and the directories that hold their code.
use vstd::prelude::*;
use vstd::string::StringSliceAdditionalSpecFns;
use crate::text::{chars_of, concat2, owned, utf8_width, wider_than};

verus! {

/// Whether `c` may appear in a function name: an ASCII letter, digit, hyphen or underscore.
pub open spec fn is_name_char(c: char) -> bool {
    ('a' <= c && c <= 'z') || ('A' <= c && c <= 'Z') || ('0' <= c && c <= '9') || c == '-' || c == '_'
}

/// Every character of `s` may appear in a function name.
pub open spec fn all_name_chars(s: Seq<char>) -> bool {
    forall|i: int| 0 <= i < s.len() ==> is_name_char(s[i])
}

/// The reason a name is refused, or `None` for a valid name. A name is at
/// most 64 bytes long and made of ASCII letters, digits, hyphens and underscores.
pub open spec fn name_problem(name: Seq<char>) -> Option<Seq<char>> {
    if name.len() == 0 {
        Some("name must not be empty"@)
    } else if utf8_width(name) > 64 {
        Some("name must be at most 64 characters"@)
    } else if !all_name_chars(name) {
        Some("name can only contain letters, numbers, hyphens, and underscores"@)
    } else {
        None
    }
}

fn name_char_ok(c: char) -> (b: bool)
    ensures b == is_name_char(c),
{
    ('a' <= c && c <= 'z') || ('A' <= c && c <= 'Z') || ('0' <= c && c <= '9') || c == '-' || c == '_'
}

/// Checks a function name; the error says which rule it breaks.
pub fn validate(name: &str) -> (r: Result<(), &'static str>)
    ensures
        match name_problem(name@) {
            None => r is Ok,
            Some(msg) => r matches Err(m) && m@ == msg,
        },
{
    if name.is_empty() {
        return Err("name must not be empty");
    }
    if wider_than(name, 64) {
        return Err("name must be at most 64 characters");
    }
    let cs = chars_of(name);
    let mut i: usize = 0;
    while i < cs.len()
        invariant
            cs@ == name@,
            name@.len() > 0,
            utf8_width(name@) <= 64,
            0 <= i <= cs.len(),
            forall|j: int| 0 <= j < i ==> is_name_char(cs@[j]),
        decreases cs.len() - i,
    {
        if !name_char_ok(cs[i]) {
            assert(!is_name_char(name@[i as int]));
            return Err("name can only contain letters, numbers, hyphens, and underscores");
        }
        i += 1;
    }
    assert(all_name_chars(name@));
    Ok(())
}

/// A text of ASCII characters takes one byte per character.
proof fn lemma_ascii_width(s: Seq<char>)
    requires forall|i: int| 0 <= i < s.len() ==> ((#[trigger] s[i]) as u32) < 0x80,
    ensures utf8_width(s) == s.len(),
    decreases s.len(),
{
    if s.len() > 0 {
        assert forall|i: int| 0 <= i < s.drop_last().len() implies ((#[trigger] s.drop_last()[i]) as u32) < 0x80 by {
            assert(s.drop_last()[i] == s[i]);
        }
        lemma_ascii_width(s.drop_last());
        assert(s.last() == s[s.len() - 1]);
    }
}

/// Every name of one to 64 characters, each an ASCII letter (either case),
/// digit, hyphen or underscore, is accepted.
pub proof fn lemma_valid_names_accepted(name: Seq<char>)
    requires
        1 <= name.len() <= 64,
        forall|i: int| 0 <= i < name.len() ==>
            ('A' <= #[trigger] name[i] && name[i] <= 'Z') || ('a' <= name[i] && name[i] <= 'z')
            || ('0' <= name[i] && name[i] <= '9') || name[i] == '-' || name[i] == '_',
    ensures name_problem(name) is None,
{
    assert forall|i: int| 0 <= i < name.len() implies ((#[trigger] name[i]) as u32) < 0x80 by {
        let c = name[i];
        assert(('A' <= c && c <= 'Z') || ('a' <= c && c <= 'z') || ('0' <= c && c <= '9') || c == '-' || c == '_');
    }
    lemma_ascii_width(name);
}

/// A text takes at least one byte per character.
proof fn lemma_width_at_least_len(s: Seq<char>)
    ensures utf8_width(s) >= s.len(),
    decreases s.len(),
{
    if s.len() > 0 {
        lemma_width_at_least_len(s.drop_last());
    }
}

/// The empty name is refused, and so is any name of more than 64 characters,
/// whatever they are.
pub proof fn lemma_empty_or_long_names_refused(name: Seq<char>)
    ensures
        name.len() == 0 ==> name_problem(name) == Some("name must not be empty"@),
        name.len() > 64 ==> name_problem(name) == Some("name must be at most 64 characters"@),
{
    lemma_width_at_least_len(name);
}

/// A non-empty name of at most 64 bytes that holds a character other than an
/// ASCII letter, digit, hyphen or underscore is refused for it.
pub proof fn lemma_bad_char_refused(name: Seq<char>, i: int)
    requires
        1 <= utf8_width(name) <= 64,
        0 <= i < name.len(),
        !(('A' <= name[i] && name[i] <= 'Z') || ('a' <= name[i] && name[i] <= 'z')
            || ('0' <= name[i] && name[i] <= '9') || name[i] == '-' || name[i] == '_'),
    ensures name_problem(name) == Some("name can only contain letters, numbers, hyphens, and underscores"@),
{
    assert(!is_name_char(name[i]));
}

/// The directory that receives the code of function `name`: `{base}/{name}`,
/// where `base` is the data directory, or `./lambdas` where none is set.
pub fn data_dir_fn(data_dir: &Option<String>, name: &str) -> (dir: String)
    ensures
        dir@ == (match data_dir {
            Some(d) => d@,
            None => "./lambdas"@,
        }) + "/"@ + name@,
{
    let mut dir = match data_dir {
        Some(d) => d.clone(),
        None => owned("./lambdas"),
    };
    dir.append("/");
    dir.append(name);
    dir
}

/// The directory removed when function `name` is deleted:
/// `{data_dir}/lambdas/{name}`, and none where no data directory is set.
pub fn removal_dir(data_dir: &Option<String>, name: &str) -> (dir: Option<String>)
    ensures
        match data_dir {
            Some(d) => dir matches Some(p) && p@ == d@ + "/lambdas/"@ + name@,
            None => dir is None,
        },
{
    match data_dir {
        Some(d) => {
            let mut p = concat2(d.as_str(), "/lambdas/");
            p.append(name);
            Some(p)
        }
        None => None,
    }
}

} // verus!
