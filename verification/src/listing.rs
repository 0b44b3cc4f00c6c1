use vstd::prelude::*;
use vstd::utf8::{decode_utf8, encode_utf8, is_char_boundary};

use crate::laws::{holds_text, law_filter_is_substring};

verus! {

broadcast use {vstd::utf8::encode_utf8_decode_utf8, vstd::utf8::encode_utf8_valid_utf8};

/// A path can lose its first two bytes: they end on a character boundary.
pub open spec fn strippable(path: Seq<char>) -> bool {
    is_char_boundary(encode_utf8(path), 2)
}

/// A path without its first two bytes (the `./` in front of an entry of the
/// current directory).
pub open spec fn stripped(path: Seq<char>) -> Seq<char> {
    decode_utf8(encode_utf8(path).subrange(2, encode_utf8(path).len() as int))
}

/// The name of a directory entry: its path without the first two bytes.
pub fn entry_name(path: &String) -> (r: String)
    requires
        strippable(path@),
    ensures
        r@ == stripped(path@),
        encode_utf8(r@) == encode_utf8(path@).subrange(2, encode_utf8(path@).len() as int),
{
    let (_head, tail) = path.as_str().split_at(2);
    let r = tail.to_string();
    proof {
        assert(decode_utf8(encode_utf8(r@)) == r@);
    }
    r
}

/// `pat` occurs in `s` at position `i`.
pub open spec fn occurs_at(s: Seq<char>, pat: Seq<char>, i: int) -> bool {
    0 <= i && i + pat.len() <= s.len() && s.subrange(i, i + pat.len()) == pat
}

/// `pat` occurs somewhere in `s`.
pub open spec fn occurs_in(s: Seq<char>, pat: Seq<char>) -> bool {
    exists|i: int| occurs_at(s, pat, i)
}

/// The characters of a text, in order.
fn chars_of(s: &str) -> (r: Vec<char>)
    ensures
        r@ == s@,
{
    let n: usize = s.unicode_len();
    let mut out: Vec<char> = Vec::new();
    let mut i: usize = 0;
    while i < n
        invariant
            n == s@.len(),
            i <= n,
            out@ == s@.take(i as int),
        decreases n - i,
    {
        let c = s.get_char(i);
        out.push(c);
        assert(s@.take(i + 1) == s@.take(i as int).push(c));
        i = i + 1;
    }
    assert(s@.take(n as int) == s@);
    out
}

/// Whether `pat` occurs in `s` at position `i`.
fn occurs_at_exec(s: &Vec<char>, pat: &Vec<char>, i: usize) -> (r: bool)
    requires
        i + pat@.len() <= s@.len(),
    ensures
        r == occurs_at(s@, pat@, i as int),
{
    let slen: usize = s.len();
    let mut k: usize = 0;
    while k < pat.len()
        invariant
            slen == s@.len(),
            i + pat@.len() <= s@.len(),
            k <= pat@.len(),
            forall|m: int| 0 <= m < k ==> s@[i + m] == pat@[m],
        decreases pat@.len() - k,
    {
        if s[i + k] != pat[k] {
            assert(s@.subrange(i as int, i + pat@.len())[k as int] != pat@[k as int]);
            return false;
        }
        k = k + 1;
    }
    assert(s@.subrange(i as int, i + pat@.len()) == pat@);
    true
}

/// Whether `pat` occurs in `s`, as `str::contains` answers it.
pub fn contains_text(s: &String, pat: &String) -> (r: bool)
    ensures
        r == occurs_in(s@, pat@),
        r == holds_text(s@, pat@),
{
    proof {
        law_filter_is_substring(s@, pat@);
    }
    let sc = chars_of(s.as_str());
    let pc = chars_of(pat.as_str());
    if pc.len() > sc.len() {
        assert forall|i: int| !occurs_at(s@, pat@, i) by {}
        return false;
    }
    let last: usize = sc.len() - pc.len();
    let mut i: usize = 0;
    loop
        invariant
            sc@ == s@,
            pc@ == pat@,
            last == sc@.len() - pc@.len(),
            i <= last,
            forall|j: int| 0 <= j < i ==> !occurs_at(s@, pat@, j),
        ensures
            forall|j: int| 0 <= j <= last ==> !occurs_at(s@, pat@, j),
        decreases last - i,
    {
        if occurs_at_exec(&sc, &pc, i) {
            proof {
                law_filter_is_substring(s@, pat@);
            }
            return true;
        }
        if i == last {
            break;
        }
        i = i + 1;
    }
    assert forall|j: int| !occurs_at(s@, pat@, j) by {}
    false
}

/// An entry stays in the listing where the filter is empty or occurs in its
/// name.
pub open spec fn passes_filter(name: Seq<char>, filtres: Seq<char>) -> bool {
    filtres.len() == 0 || occurs_in(name, filtres)
}

/// Whether the entry `f` stays in the listing under the filter `filtres`.
pub fn keep_entry(f: &String, filtres: &String) -> (r: bool)
    ensures
        r == passes_filter(f@, filtres@),
        r == holds_text(f@, filtres@),
{
    proof {
        law_filter_is_substring(f@, filtres@);
    }
    filtres.as_str().is_empty() || contains_text(f, filtres)
}

/// The names of the entries `paths` that pass the filter, in their order.
pub open spec fn selected(paths: Seq<Seq<char>>, filtres: Seq<char>) -> Seq<Seq<char>>
    decreases paths.len(),
{
    if paths.len() == 0 {
        seq![]
    } else {
        let rest = selected(paths.drop_last(), filtres);
        let name = stripped(paths.last());
        if passes_filter(name, filtres) {
            rest.push(name)
        } else {
            rest
        }
    }
}

/// The listing of a directory whose entries have the paths `paths`: each
/// entry's name, without the first two bytes of its path, where it passes
/// the filter `filtres`, in the order of `paths`.
pub fn select_entries(paths: &Vec<String>, filtres: &String) -> (r: Vec<String>)
    requires
        forall|i: int| 0 <= i < paths@.len() ==> strippable(#[trigger] paths@[i]@),
    ensures
        r@.map_values(|s: String| s@) == selected(paths@.map_values(|s: String| s@), filtres@),
{
    let ghost views = paths@.map_values(|s: String| s@);
    let mut out: Vec<String> = Vec::new();
    let mut i: usize = 0;
    while i < paths.len()
        invariant
            i <= paths@.len(),
            views == paths@.map_values(|s: String| s@),
            forall|k: int| 0 <= k < paths@.len() ==> strippable(#[trigger] paths@[k]@),
            out@.map_values(|s: String| s@) == selected(views.take(i as int), filtres@),
        decreases paths@.len() - i,
    {
        let name = entry_name(&paths[i]);
        proof {
            assert(views.take(i + 1).drop_last() == views.take(i as int));
            assert(views.take(i + 1).last() == paths@[i as int]@);
        }
        if keep_entry(&name, filtres) {
            let ghost before = out@;
            out.push(name);
            assert(out@.map_values(|s: String| s@) == before.map_values(|s: String| s@).push(name@));
        }
        i = i + 1;
    }
    assert(views.take(paths@.len() as int) == views);
    out
}

/// Whether the listing must first resolve `start` to its canonical path: it
/// does for every start but `./`.
pub fn wants_canonical_start(start: &String) -> (r: bool)
    ensures
        r == (start@ != "./"@),
{
    proof {
        reveal_strlit("./");
    }
    let s = start.as_str();
    if s.unicode_len() != 2 {
        return true;
    }
    let c0 = s.get_char(0);
    let c1 = s.get_char(1);
    if c0 == '.' && c1 == '/' {
        assert(start@ == "./"@);
        false
    } else {
        true
    }
}

} // verus!
