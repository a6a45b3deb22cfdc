use vstd::prelude::*;

verus! {

/// Appends one character to a string (`String::push`).
#[verifier::external_body]
pub(crate) fn push_char(s: &mut String, c: char)
    ensures
        final(s)@ == old(s)@.push(c),
{
    s.push(c);
}

/// The characters of a string, in order (`str::chars` collected).
#[verifier::external_body]
pub(crate) fn chars_of(s: &str) -> (r: Vec<char>)
    ensures
        r@ == s@,
{
    s.chars().collect()
}

/// Equality of two string slices (`<str as PartialEq>::eq`).
#[verifier::external_body]
pub(crate) fn str_eq(a: &str, b: &str) -> (r: bool)
    ensures
        r == (a@ == b@),
{
    a == b
}

/// The string made of the characters `cs[from..to]`, in order.
pub fn string_of_range(cs: &[char], from: usize, to: usize) -> (r: String)
    requires
        from <= to <= cs@.len(),
    ensures
        r@ == cs@.subrange(from as int, to as int),
{
    let mut r = String::new();
    let mut i: usize = from;
    while i < to
        invariant
            from <= i <= to,
            to <= cs@.len(),
            r@ == cs@.subrange(from as int, i as int),
        decreases to - i,
    {
        push_char(&mut r, cs[i]);
        i = i + 1;
        assert(r@ =~= cs@.subrange(from as int, i as int));
    }
    r
}

/// Every non-overlapping occurrence of `from`, scanning left to right,
/// replaced by `to`.
pub open spec fn spec_replace(s: Seq<char>, from: Seq<char>, to: Seq<char>) -> Seq<char>
    decreases s.len(),
{
    if from.len() == 0 || s.len() < from.len() {
        s
    } else if s.subrange(0, from.len() as int) == from {
        to + spec_replace(s.subrange(from.len() as int, s.len() as int), from, to)
    } else {
        seq![s[0]] + spec_replace(s.subrange(1, s.len() as int), from, to)
    }
}

/// Whether `pat` occurs in `s` at position `i`.
pub open spec fn occurs_at(s: Seq<char>, pat: Seq<char>, i: int) -> bool {
    0 <= i && i + pat.len() <= s.len() && s.subrange(i, i + pat.len()) == pat
}

/// Whether `pat` occurs somewhere in `s`.
pub open spec fn spec_contains(s: Seq<char>, pat: Seq<char>) -> bool {
    exists|i: int| occurs_at(s, pat, i)
}

fn matches_at(s: &Vec<char>, pat: &Vec<char>, i: usize) -> (r: bool)
    ensures
        r == occurs_at(s@, pat@, i as int),
{
    if pat.len() > s.len() || i > s.len() - pat.len() {
        return false;
    }
    let mut k: usize = 0;
    while k < pat.len()
        invariant
            i + pat@.len() <= s@.len(),
            s@.len() == s.len(),
            k <= pat@.len(),
            forall|j: int| 0 <= j < k ==> s@[i + j] == pat@[j],
        decreases pat@.len() - k,
    {
        if s[i + k] != pat[k] {
            assert(s@.subrange(i as int, i + pat@.len())[k as int] != pat@[k as int]);
            return false;
        }
        k = k + 1;
    }
    assert(s@.subrange(i as int, i + pat@.len()) =~= pat@);
    true
}

/// Whether `pat` occurs in `s` (`str::contains` with a string pattern).
pub fn contains_str(s: &str, pat: &str) -> (r: bool)
    ensures
        r == spec_contains(s@, pat@),
{
    let sv = chars_of(s);
    let pv = chars_of(pat);
    if pv.len() == 0 {
        assert(s@.subrange(0, 0) =~= pat@);
        assert(occurs_at(s@, pat@, 0));
        return true;
    }
    if pv.len() > sv.len() {
        assert forall|i: int| !occurs_at(s@, pat@, i) by {}
        return false;
    }
    let mut i: usize = 0;
    while i <= sv.len() - pv.len()
        invariant
            sv@ == s@,
            pv@ == pat@,
            pv@.len() <= sv@.len(),
            pv@.len() > 0,
            i <= sv@.len() - pv@.len() + 1,
            forall|j: int| 0 <= j < i ==> !occurs_at(s@, pat@, j),
        decreases sv@.len() - pv@.len() + 1 - i,
    {
        if matches_at(&sv, &pv, i) {
            return true;
        }
        i = i + 1;
    }
    assert forall|j: int| !occurs_at(s@, pat@, j) by {
        if 0 <= j < i {
        }
    }
    false
}

proof fn lemma_replace_step(s: Seq<char>, from: Seq<char>, to: Seq<char>, i: int)
    requires
        from.len() > 0,
        0 <= i < s.len(),
    ensures
        i + from.len() <= s.len() && s.subrange(i, i + from.len()) == from ==>
            spec_replace(s.subrange(i, s.len() as int), from, to) == to + spec_replace(
                s.subrange(i + from.len(), s.len() as int),
                from,
                to,
            ),
        !(i + from.len() <= s.len() && s.subrange(i, i + from.len()) == from) ==>
            spec_replace(s.subrange(i, s.len() as int), from, to) == seq![s[i]] + spec_replace(
                s.subrange(i + 1, s.len() as int),
                from,
                to,
            ),
{
    let t = s.subrange(i, s.len() as int);
    if t.len() >= from.len() {
        assert(t.subrange(0, from.len() as int) =~= s.subrange(i, i + from.len()));
        assert(t.subrange(from.len() as int, t.len() as int) =~= s.subrange(
            i + from.len(),
            s.len() as int,
        ));
    } else {
        if from.len() > 0 && t.len() >= 1 {
            // spec_replace of a short tail is the tail itself
            assert(spec_replace(t, from, to) == t);
            let u = s.subrange(i + 1, s.len() as int);
            assert(u.len() < from.len());
            assert(spec_replace(u, from, to) == u);
            assert(t =~= seq![s[i]] + u);
        }
    }
    assert(t.subrange(1, t.len() as int) =~= s.subrange(i + 1, s.len() as int));
}

/// `s` with every occurrence of `from` replaced by `to` (`str::replace`).
pub fn replace_all(s: &str, from: &str, to: &str) -> (r: String)
    requires
        from@.len() > 0,
    ensures
        r@ == spec_replace(s@, from@, to@),
{
    let sv = chars_of(s);
    let fv = chars_of(from);
    let mut out = String::new();
    let mut i: usize = 0;
    assert(sv@.subrange(0, sv@.len() as int) =~= sv@);
    while i < sv.len()
        invariant
            sv@ == s@,
            fv@ == from@,
            fv@.len() > 0,
            i <= sv@.len(),
            out@ + spec_replace(sv@.subrange(i as int, sv@.len() as int), fv@, to@)
                == spec_replace(s@, from@, to@),
        decreases sv@.len() - i,
    {
        proof {
            lemma_replace_step(sv@, fv@, to@, i as int);
        }
        if matches_at(&sv, &fv, i) {
            out.append(to);
            assert(out@ + spec_replace(sv@.subrange(i + fv@.len(), sv@.len() as int), fv@, to@)
                =~= spec_replace(s@, from@, to@));
            i = i + fv.len();
        } else {
            push_char(&mut out, sv[i]);
            assert(out@ + spec_replace(sv@.subrange(i + 1, sv@.len() as int), fv@, to@)
                =~= spec_replace(s@, from@, to@));
            i = i + 1;
        }
    }
    assert(spec_replace(sv@.subrange(i as int, sv@.len() as int), fv@, to@) =~= Seq::empty());
    assert(out@ =~= spec_replace(s@, from@, to@));
    out
}

/// What `str::to_lowercase` gives for a string: the full Unicode
/// lower-case mapping of each character.
pub uninterp spec fn spec_lowercase(s: Seq<char>) -> Seq<char>;

/// Whether every character is ASCII.
pub open spec fn all_ascii(s: Seq<char>) -> bool {
    forall|i: int| 0 <= i < s.len() ==> (#[trigger] s[i] as u32) < 128
}

/// Whether `t` is `s` with each ASCII letter from `from` to `to` (as code
/// points) moved by `shift`, and every other character kept.
pub open spec fn ascii_case_moved(s: Seq<char>, t: Seq<char>, from: u32, to: u32, shift: int) -> bool {
    &&& t.len() == s.len()
    &&& forall|i: int|
        0 <= i < s.len() ==> if from <= (#[trigger] s[i] as u32) <= to {
            t[i] as u32 == s[i] as u32 + shift
        } else {
            t[i] == s[i]
        }
}

/// Lower-cases a string (`str::to_lowercase`). Its result is named by
/// `spec_lowercase`; of the Unicode mapping, only what it does to ASCII
/// text is stated: `A` to `Z` become `a` to `z`, and the rest is kept.
#[verifier::external_body]
pub(crate) fn lowercase(s: &str) -> (r: String)
    ensures
        r@ == spec_lowercase(s@),
        all_ascii(s@) ==> ascii_case_moved(s@, r@, 65, 90, 32),
{
    s.to_lowercase()
}

/// What `str::to_uppercase` gives for a string: the full Unicode
/// upper-case mapping of each character.
pub uninterp spec fn spec_uppercase(s: Seq<char>) -> Seq<char>;

/// Upper-cases a string (`str::to_uppercase`). Its result is named by
/// `spec_uppercase`; of the Unicode mapping, only what it does to ASCII
/// text is stated: `a` to `z` become `A` to `Z`, and the rest is kept.
#[verifier::external_body]
pub(crate) fn uppercase(s: &str) -> (r: String)
    ensures
        r@ == spec_uppercase(s@),
        all_ascii(s@) ==> ascii_case_moved(s@, r@, 97, 122, -32),
{
    s.to_uppercase()
}

/// Decodes UTF-8 bytes (`std::str::from_utf8`): `None` exactly when the
/// bytes are not valid UTF-8.
#[verifier::external_body]
pub(crate) fn utf8_decode(bytes: &[u8]) -> (r: Option<String>)
    ensures
        r is Some <==> vstd::utf8::valid_utf8(bytes@),
        r matches Some(s) ==> s@ == vstd::utf8::decode_utf8(bytes@),
{
    match std::str::from_utf8(bytes) {
        Ok(s) => Some(s.to_string()),
        Err(_) => None,
    }
}

/// The bytes of a string slice in UTF-8 (`str::as_bytes`).
#[verifier::external_body]
pub(crate) fn utf8_bytes(s: &str) -> (r: Vec<u8>)
    ensures
        r@ == vstd::utf8::encode_utf8(s@),
{
    s.as_bytes().to_vec()
}

} // verus!
