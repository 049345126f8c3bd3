//! Path-component sanitization.
//!
//! The destination filesystem rejects a handful of characters inside a path
//! component.  Sanitization replaces every occurrence of such a character
//! with `'_'` and leaves everything else — spaces and non-ASCII characters
//! included — untouched, so the result always has the same length as the
//! input.

use vstd::prelude::*;

verus! {

/// The characters the destination filesystem refuses inside a path component.
pub open spec fn is_forbidden_char(c: char) -> bool {
    c == '"' || c == '*' || c == '/' || c == ':' || c == '<' || c == '>' || c == '?' || c == '\\'
        || c == '|'
}

/// How one character is sanitized: forbidden characters become `'_'`,
/// everything else passes through.
pub open spec fn sanitize_char(c: char) -> char {
    if is_forbidden_char(c) {
        '_'
    } else {
        c
    }
}

/// The sanitized form of a whole component, character by character.
pub open spec fn sanitize_component(s: Seq<char>) -> Seq<char> {
    s.map_values(|c: char| sanitize_char(c))
}

/// Relies on `String::push`: appends exactly the given character at the end.
pub assume_specification[ String::push ](s: &mut String, ch: char)
    ensures
        final(s)@ == old(s)@.push(ch),
;

/// The executable form of [`sanitize_char`].
pub fn sanitized_of(c: char) -> (r: char)
    ensures
        r == sanitize_char(c),
{
    if c == '"' || c == '*' || c == '/' || c == ':' || c == '<' || c == '>' || c == '?'
        || c == '\\' || c == '|' {
        '_'
    } else {
        c
    }
}

/// Replaces every destination-forbidden character of the component with `'_'`.
pub fn underscore_non_windows_chars(filename: String) -> (r: String)
    ensures
        r@ == sanitize_component(filename@),
{
    let n: usize = filename.as_str().unicode_len();
    let mut r = String::new();
    let mut i: usize = 0;
    while i < n
        invariant
            n == filename@.len(),
            i <= n,
            r@ == sanitize_component(filename@.subrange(0, i as int)),
        decreases n - i,
    {
        let c = filename.as_str().get_char(i);
        let sc = sanitized_of(c);
        r.push(sc);
        proof {
            assert(r@ =~= sanitize_component(filename@.subrange(0, i + 1)));
        }
        i = i + 1;
    }
    proof {
        assert(filename@.subrange(0, n as int) =~= filename@);
    }
    r
}

/// Index just past the last separator of `s`; `0` when `s` has no separator.
/// The final component of a path is everything from this index on.
pub open spec fn file_name_start(s: Seq<char>) -> int
    decreases s.len(),
{
    if s.len() == 0 {
        0
    } else if s.last() == '/' {
        s.len() as int
    } else {
        file_name_start(s.drop_last())
    }
}

pub proof fn lemma_file_name_start_bounds(s: Seq<char>)
    ensures
        0 <= file_name_start(s) <= s.len(),
    decreases s.len(),
{
    if s.len() > 0 && s.last() != '/' {
        lemma_file_name_start_bounds(s.drop_last());
    }
}

proof fn lemma_file_name_start_step(s: Seq<char>, i: int)
    requires
        0 <= i < s.len(),
    ensures
        file_name_start(s.subrange(0, i + 1)) == if s[i] == '/' {
            i + 1
        } else {
            file_name_start(s.subrange(0, i))
        },
{
    let t = s.subrange(0, i + 1);
    assert(t.last() == s[i]);
    assert(t.drop_last() =~= s.subrange(0, i));
}

/// A path equal to `s` except that its final component is sanitized.
pub open spec fn repair_final_component(s: Seq<char>) -> Seq<char> {
    s.subrange(0, file_name_start(s)) + sanitize_component(
        s.subrange(file_name_start(s), s.len() as int),
    )
}

/// Re-sanitizes only the final component of a destination path, used as the
/// one retry after the destination filesystem rejects a creation or copy
/// with an invalid-argument error.
pub fn replace_forbidden_characters(path: &String) -> (r: String)
    ensures
        r@ == repair_final_component(path@),
{
    let n: usize = path.as_str().unicode_len();
    let mut cut: usize = 0;
    let mut i: usize = 0;
    proof {
        assert(path@.subrange(0, 0) =~= Seq::<char>::empty());
    }
    while i < n
        invariant
            n == path@.len(),
            i <= n,
            cut <= i,
            cut == file_name_start(path@.subrange(0, i as int)),
        decreases n - i,
    {
        let c = path.as_str().get_char(i);
        proof {
            lemma_file_name_start_step(path@, i as int);
        }
        if c == '/' {
            cut = i + 1;
        }
        i = i + 1;
    }
    proof {
        assert(path@.subrange(0, n as int) =~= path@);
        lemma_file_name_start_bounds(path@);
    }
    let head = path.as_str().substring_char(0, cut);
    let tail = path.as_str().substring_char(cut, n);
    let sanitized_tail = underscore_non_windows_chars(tail.to_owned());
    let mut r = head.to_owned();
    r.append(sanitized_tail.as_str());
    r
}

/// Sanitization is idempotent: a component that has already been sanitized
/// is left exactly as it is by a second pass.
pub proof fn lemma_sanitize_idempotent(s: Seq<char>)
    ensures
        sanitize_component(sanitize_component(s)) == sanitize_component(s),
{
    assert(sanitize_component(sanitize_component(s)) =~= sanitize_component(s));
}

proof fn lemma_file_name_start_char(s: Seq<char>)
    ensures
        file_name_start(s) > 0 ==> s[file_name_start(s) - 1] == '/',
        forall|i: int| file_name_start(s) <= i < s.len() ==> s[i] != '/',
    decreases s.len(),
{
    lemma_file_name_start_bounds(s);
    if s.len() > 0 && s.last() != '/' {
        let t = s.drop_last();
        lemma_file_name_start_char(t);
        lemma_file_name_start_bounds(t);
        let k = file_name_start(t);
        assert(file_name_start(s) == k);
        if k > 0 {
            assert(t[k - 1] == s[k - 1]);
        }
        assert forall|i: int| k <= i < s.len() implies s[i] != '/' by {
            if i < s.len() - 1 {
                assert(t[i] != '/');
                assert(s[i] == t[i]);
            }
        }
    }
}

proof fn lemma_file_name_start_extend(a: Seq<char>, t: Seq<char>)
    requires
        forall|i: int| 0 <= i < t.len() ==> t[i] != '/',
    ensures
        file_name_start(a + t) == file_name_start(a),
    decreases t.len(),
{
    if t.len() == 0 {
        assert(a + t =~= a);
    } else {
        let u = a + t;
        assert(u.last() == t.last());
        assert(u.drop_last() =~= a + t.drop_last());
        lemma_file_name_start_extend(a, t.drop_last());
    }
}

/// The final-component repair is idempotent: repairing a path a second time
/// changes nothing, because the repaired final component is already
/// sanitized and the repair introduces no new separator.
pub proof fn lemma_repair_idempotent(s: Seq<char>)
    ensures
        repair_final_component(repair_final_component(s)) == repair_final_component(s),
{
    let k = file_name_start(s);
    lemma_file_name_start_bounds(s);
    lemma_file_name_start_char(s);
    let head = s.subrange(0, k);
    let tail = s.subrange(k, s.len() as int);
    let r = repair_final_component(s);
    assert(forall|i: int| 0 <= i < tail.len() ==> tail[i] != '/');
    assert(forall|i: int|
        0 <= i < tail.len() ==> #[trigger] sanitize_component(tail)[i] != '/');
    lemma_file_name_start_extend(head, sanitize_component(tail));
    if k > 0 {
        assert(head.last() == '/');
    }
    assert(file_name_start(head) == k);
    assert(file_name_start(r) == k);
    assert(r.subrange(0, k) =~= head);
    assert(r.subrange(k, r.len() as int) =~= sanitize_component(tail));
    lemma_sanitize_idempotent(tail);
    assert(repair_final_component(r) =~= r);
}

/// The sanitized component has the length of the input and contains no
/// forbidden character.
pub proof fn lemma_sanitize_clean(s: Seq<char>)
    ensures
        sanitize_component(s).len() == s.len(),
        forall|i: int|
            0 <= i < s.len() ==> !is_forbidden_char(#[trigger] sanitize_component(s)[i]),
{
}

} // verus!
