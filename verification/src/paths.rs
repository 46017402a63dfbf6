use vstd::prelude::*;
use vstd::string::*;

verus! {

/// Index of the last occurrence of `c` in `s`, or -1 if `c` does not occur.
pub open spec fn last_pos(s: Seq<char>, c: char) -> int
    decreases s.len(),
{
    if s.len() == 0 {
        -1
    } else if s[s.len() - 1] == c {
        s.len() - 1
    } else {
        last_pos(s.drop_last(), c)
    }
}

/// `last_pos` is the largest index that holds `c`, or -1 if there is none.
pub proof fn lemma_last_pos(s: Seq<char>, c: char)
    ensures
        -1 <= last_pos(s, c) < s.len(),
        last_pos(s, c) >= 0 ==> s[last_pos(s, c)] == c,
        forall|i: int| last_pos(s, c) < i < s.len() ==> s[i] != c,
    decreases s.len(),
{
    if s.len() == 0 {
    } else if s[s.len() - 1] == c {
    } else {
        lemma_last_pos(s.drop_last(), c);
        assert(forall|i: int| 0 <= i < s.len() - 1 ==> s[i] == s.drop_last()[i]);
    }
}

/// Index of the last occurrence of `c` in `s`, if there is one.
fn find_last(s: &str, c: char) -> (r: Option<usize>)
    ensures
        match r {
            Some(i) => last_pos(s@, c) == i,
            None => last_pos(s@, c) == -1,
        },
{
    let len = s.unicode_len();
    proof {
        lemma_last_pos(s@, c);
    }
    let mut i = len;
    while i > 0
        invariant
            i <= len,
            len == s@.len(),
            last_pos(s@, c) < i,
        decreases i,
    {
        i = i - 1;
        if s.get_char(i) == c {
            proof {
                lemma_last_pos(s@, c);
            }
            return Some(i);
        }
        proof {
            lemma_last_pos(s@, c);
        }
    }
    None
}

/// Whether two strings hold the same characters.
pub fn str_eq(a: &str, b: &str) -> (r: bool)
    ensures
        r == (a@ == b@),
{
    let a_len = a.unicode_len();
    let b_len = b.unicode_len();
    if a_len != b_len {
        return false;
    }
    let mut i: usize = 0;
    while i < a_len
        invariant
            a_len == a@.len(),
            b_len == b@.len(),
            a_len == b_len,
            i <= a_len,
            forall|j: int| 0 <= j < i ==> a@[j] == b@[j],
        decreases a_len - i,
    {
        if a.get_char(i) != b.get_char(i) {
            return false;
        }
        i = i + 1;
    }
    proof {
        assert(a@ =~= b@);
    }
    true
}

/// The extension of `path`: the text after the last `.`, provided that dot
/// lies strictly inside the file name (the part after the last `/`). A name
/// whose only dot is its first character, like `.profile`, has none.
pub open spec fn spec_extension(p: Seq<char>) -> Option<Seq<char>> {
    let dot = last_pos(p, '.');
    let slash = last_pos(p, '/');
    if dot > slash + 1 {
        Some(p.subrange(dot + 1, p.len() as int))
    } else {
        None
    }
}

/// `path` with its extension replaced by `ext`: the text up to the last `.`
/// of the file name, then `.`, then `ext`. A path without an extension gets
/// `.` and `ext` appended.
pub open spec fn spec_with_extension(p: Seq<char>, ext: Seq<char>) -> Seq<char> {
    let dot = last_pos(p, '.');
    let slash = last_pos(p, '/');
    if dot > slash + 1 {
        p.subrange(0, dot) + seq!['.'] + ext
    } else {
        p + seq!['.'] + ext
    }
}

/// The extension of `path`, if it has one.
pub fn extension_of(path: &str) -> (r: Option<String>)
    ensures
        r is Some <==> spec_extension(path@) is Some,
        r is Some ==> r->Some_0@ == spec_extension(path@)->Some_0,
{
    let len = path.unicode_len();
    let dot = find_last(path, '.');
    let slash = find_last(path, '/');
    proof {
        lemma_last_pos(path@, '.');
        lemma_last_pos(path@, '/');
    }
    match dot {
        None => None,
        Some(d) => {
            let inside_name = match slash {
                None => d > 0,
                Some(sl) => d > sl + 1,
            };
            if inside_name {
                let ext = path.substring_char(d + 1, len);
                Some(ext.to_owned())
            } else {
                None
            }
        },
    }
}

/// `path` with its extension replaced by `ext`.
pub fn replace_extension(path: &str, ext: &str) -> (r: String)
    ensures
        r@ == spec_with_extension(path@, ext@),
{
    let len = path.unicode_len();
    let dot = find_last(path, '.');
    let slash = find_last(path, '/');
    proof {
        lemma_last_pos(path@, '.');
        lemma_last_pos(path@, '/');
    }
    let stem: &str = match dot {
        None => path,
        Some(d) => {
            let inside_name = match slash {
                None => d > 0,
                Some(sl) => d > sl + 1,
            };
            if inside_name {
                path.substring_char(0, d)
            } else {
                path
            }
        },
    };
    let mut out = stem.to_owned();
    out.append(".");
    out.append(ext);
    proof {
        reveal_strlit(".");
        assert(out@ =~= spec_with_extension(path@, ext@));
    }
    out
}

} // verus!
