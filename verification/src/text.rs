//! Small verified text utilities: character-wise string comparison, byte
//! comparison, and extraction of a path's file extension.

use vstd::prelude::*;
use vstd::string::StrSliceExecFns;

verus! {

/// Character-wise equality of two string slices.
pub fn str_eq_chars(a: &str, b: &str) -> (r: bool)
    ensures
        r == (a@ == b@),
{
    let an = a.unicode_len();
    let bn = b.unicode_len();
    if an != bn {
        return false;
    }
    let mut i: usize = 0;
    while i < an
        invariant
            an == a@.len(),
            bn == b@.len(),
            an == bn,
            i <= an,
            forall|k: int| 0 <= k < i ==> a@[k] == b@[k],
        decreases an - i,
    {
        if a.get_char(i) != b.get_char(i) {
            return false;
        }
        i += 1;
    }
    proof {
        assert(a@ =~= b@);
    }
    true
}

/// Element-wise equality of two byte vectors.
pub fn bytes_eq(a: &Vec<u8>, b: &Vec<u8>) -> (r: bool)
    ensures
        r == (a@ == b@),
{
    if a.len() != b.len() {
        return false;
    }
    let mut i: usize = 0;
    while i < a.len()
        invariant
            a@.len() == b@.len(),
            i <= a@.len(),
            forall|k: int| 0 <= k < i ==> a@[k] == b@[k],
        decreases a@.len() - i,
    {
        if a[i] != b[i] {
            return false;
        }
        i += 1;
    }
    proof {
        assert(a@ =~= b@);
    }
    true
}

/// The index of the last occurrence of `c` in `s`, or -1 when `c` does not
/// occur.
pub open spec fn last_index_of_spec(s: Seq<char>, c: char) -> int
    decreases s.len(),
{
    if s.len() == 0 {
        -1
    } else if s[s.len() - 1] == c {
        s.len() - 1
    } else {
        last_index_of_spec(s.drop_last(), c)
    }
}

pub proof fn lemma_last_index_of(s: Seq<char>, c: char)
    ensures
        -1 <= last_index_of_spec(s, c) < s.len(),
        last_index_of_spec(s, c) >= 0 ==> s[last_index_of_spec(s, c)] == c,
        forall|k: int| last_index_of_spec(s, c) < k < s.len() ==> s[k] != c,
    decreases s.len(),
{
    if s.len() == 0 {
    } else if s[s.len() - 1] == c {
    } else {
        lemma_last_index_of(s.drop_last(), c);
        assert(forall|k: int| 0 <= k < s.len() - 1 ==> s.drop_last()[k] == s[k]);
    }
}

/// The last occurrence of `c` in `s`, if any.
pub fn last_index_of(s: &str, c: char) -> (r: Option<usize>)
    ensures
        match r {
            Some(i) => i as int == last_index_of_spec(s@, c) && i < s@.len(),
            None => last_index_of_spec(s@, c) == -1,
        },
{
    let n = s.unicode_len();
    let mut j: usize = n;
    while j > 0
        invariant
            n == s@.len(),
            j <= n,
            forall|k: int| j <= k < n ==> s@[k] != c,
        decreases j,
    {
        j = j - 1;
        if s.get_char(j) == c {
            proof {
                lemma_last_index_of(s@, c);
                let li = last_index_of_spec(s@, c);
                if li < j {
                    assert(s@[j as int] != c);
                }
                if li > j {
                    assert(s@[li] != c);
                }
            }
            return Some(j);
        }
    }
    proof {
        lemma_last_index_of(s@, c);
        let li = last_index_of_spec(s@, c);
        if li >= 0 {
            assert(s@[li] != c);
        }
    }
    None
}

/// The final path component: everything after the last `/` separator, or the
/// whole path when there is none.
pub open spec fn file_name_spec(p: Seq<char>) -> Seq<char> {
    p.subrange(last_index_of_spec(p, '/') + 1, p.len() as int)
}

/// The path's extension: the text after the last `.` of the final path
/// component, empty when that component has no `.`, or only a leading one
/// (a dotfile has no extension).
pub open spec fn extension_spec(p: Seq<char>) -> Seq<char> {
    let name = file_name_spec(p);
    let d = last_index_of_spec(name, '.');
    if d <= 0 {
        Seq::empty()
    } else {
        name.subrange(d + 1, name.len() as int)
    }
}

/// Extracts the extension of `path`, as [`extension_spec`] defines it.
pub fn extension_of(path: &str) -> (r: String)
    ensures
        r@ == extension_spec(path@),
{
    let n = path.unicode_len();
    let name_start: usize = match last_index_of(path, '/') {
        Some(i) => i + 1,
        None => 0,
    };
    let name = path.substring_char(name_start, n);
    proof {
        lemma_last_index_of(path@, '/');
        assert(name@ == file_name_spec(path@));
    }
    let m = name.unicode_len();
    match last_index_of(name, '.') {
        Some(d) => {
            if d > 0 {
                let ext = name.substring_char(d + 1, m);
                ext.to_owned()
            } else {
                String::new()
            }
        },
        None => String::new(),
    }
}

} // verus!
