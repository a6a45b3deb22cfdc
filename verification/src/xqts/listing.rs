use vstd::prelude::*;
use vstd::relations::{sorted_by, total_ordering};
use crate::xqts::text::{chars_of, replace_all, spec_replace, str_eq};
use crate::xqts::codegen::{folder, last_slash_before, spec_folder};

verus! {

/// Lexicographic order of texts by code point, which is the order of their
/// UTF-8 bytes and so the order of `String`.
pub open spec fn text_le(a: Seq<char>, b: Seq<char>) -> bool
    decreases a.len(),
{
    if a.len() == 0 {
        true
    } else if b.len() == 0 {
        false
    } else if a[0] != b[0] {
        a[0] < b[0]
    } else {
        text_le(a.drop_first(), b.drop_first())
    }
}

pub open spec fn text_order() -> spec_fn(Seq<char>, Seq<char>) -> bool {
    |a: Seq<char>, b: Seq<char>| text_le(a, b)
}

proof fn lemma_text_le_reflexive(a: Seq<char>)
    ensures
        text_le(a, a),
    decreases a.len(),
{
    if a.len() > 0 {
        lemma_text_le_reflexive(a.drop_first());
    }
}

proof fn lemma_text_le_antisymmetric(a: Seq<char>, b: Seq<char>)
    requires
        text_le(a, b),
        text_le(b, a),
    ensures
        a == b,
    decreases a.len(),
{
    if a.len() > 0 && b.len() > 0 {
        if a[0] == b[0] {
            lemma_text_le_antisymmetric(a.drop_first(), b.drop_first());
            assert(a =~= seq![a[0]] + a.drop_first());
            assert(b =~= seq![b[0]] + b.drop_first());
        } else {
        }
    }
    if a.len() == 0 {
        assert(b.len() == 0);
        assert(a =~= b);
    }
}

proof fn lemma_text_le_transitive(a: Seq<char>, b: Seq<char>, c: Seq<char>)
    requires
        text_le(a, b),
        text_le(b, c),
    ensures
        text_le(a, c),
    decreases a.len(),
{
    if a.len() > 0 && b.len() > 0 && c.len() > 0 {
        if a[0] == b[0] && b[0] == c[0] {
            lemma_text_le_transitive(a.drop_first(), b.drop_first(), c.drop_first());
        } else if a[0] == b[0] {
        } else if b[0] == c[0] {
        } else {
        }
    }
}

proof fn lemma_text_le_total(a: Seq<char>, b: Seq<char>)
    ensures
        text_le(a, b) || text_le(b, a),
    decreases a.len(),
{
    if a.len() > 0 && b.len() > 0 {
        if a[0] == b[0] {
            lemma_text_le_total(a.drop_first(), b.drop_first());
        } else {
        }
    }
}

/// The order of texts is a total order.
pub proof fn lemma_text_order_total()
    ensures
        total_ordering(text_order()),
{
    assert forall|a: Seq<char>| #[trigger] text_order()(a, a) by {
        lemma_text_le_reflexive(a);
    }
    assert forall|a: Seq<char>, b: Seq<char>| #[trigger] text_order()(a, b) && #[trigger] text_order()(b, a) implies a == b by {
        lemma_text_le_antisymmetric(a, b);
    }
    assert forall|a: Seq<char>, b: Seq<char>, c: Seq<char>| #[trigger] text_order()(a, b) && #[trigger] text_order()(b, c) implies text_order()(a, c) by {
        lemma_text_le_transitive(a, b, c);
    }
    assert forall|a: Seq<char>, b: Seq<char>| #[trigger] text_order()(a, b) || #[trigger] text_order()(b, a) by {
        lemma_text_le_total(a, b);
    }
}

/// Whether `a` comes before or equals `b`.
pub fn text_less_or_equal(a: &String, b: &String) -> (r: bool)
    ensures
        r == text_le(a@, b@),
{
    let av = chars_of(a.as_str());
    let bv = chars_of(b.as_str());
    let mut i: usize = 0;
    assert(a@.subrange(0, a@.len() as int) =~= a@);
    assert(b@.subrange(0, b@.len() as int) =~= b@);
    while i < av.len() && i < bv.len() && av[i] == bv[i]
        invariant
            av@ == a@,
            bv@ == b@,
            i <= av@.len(),
            i <= bv@.len(),
            text_le(a@, b@) == text_le(
                a@.subrange(i as int, a@.len() as int),
                b@.subrange(i as int, b@.len() as int),
            ),
        decreases av@.len() - i,
    {
        let ghost sa = a@.subrange(i as int, a@.len() as int);
        let ghost sb = b@.subrange(i as int, b@.len() as int);
        assert(sa.drop_first() =~= a@.subrange(i + 1, a@.len() as int));
        assert(sb.drop_first() =~= b@.subrange(i + 1, b@.len() as int));
        i = i + 1;
    }
    if i == av.len() {
        true
    } else if i == bv.len() {
        false
    } else {
        av[i] < bv[i]
    }
}

pub open spec fn texts_view(v: Seq<String>) -> Seq<Seq<char>> {
    v.map_values(|s: String| s@)
}

/// Sorts texts in their order (`Vec::sort` on strings).
pub fn sort_texts(v: &Vec<String>) -> (r: Vec<String>)
    ensures
        texts_view(r@) == texts_view(v@).sort_by(text_order()),
{
    proof {
        lemma_text_order_total();
    }
    let mut out: Vec<String> = Vec::new();
    let mut i: usize = 0;
    assert(texts_view(out@) =~= texts_view(v@.subrange(0, 0)));
    while i < v.len()
        invariant
            i <= v@.len(),
            total_ordering(text_order()),
            sorted_by(texts_view(out@), text_order()),
            texts_view(out@).to_multiset() == texts_view(v@.subrange(0, i as int)).to_multiset(),
        decreases v@.len() - i,
    {
        let x = v[i].clone();
        let mut p: usize = 0;
        while p < out.len() && text_less_or_equal(&out[p], &x)
            invariant
                p <= out@.len(),
                forall|k: int| 0 <= k < p ==> text_le(#[trigger] out@[k]@, x@),
            decreases out@.len() - p,
        {
            p = p + 1;
        }
        let ghost old_view = texts_view(out@);
        proof {
            if p < out@.len() {
                lemma_text_le_total(out@[p as int]@, x@);
            }
        }
        out.insert(p, x);
        proof {
            let nv = texts_view(out@);
            assert(nv =~= old_view.insert(p as int, x@));
            assert forall|a: int, b: int| 0 <= a < b < nv.len() implies #[trigger] text_order()(nv[a], nv[b]) by {
                if b < p {
                } else if a < p && b == p {
                } else if a < p && b > p {
                    assert(text_le(old_view[a], x@));
                    assert(text_le(x@, old_view[p as int]));
                    lemma_text_le_transitive(old_view[a], x@, old_view[p as int]);
                    if b - 1 > p {
                        assert(text_order()(old_view[p as int], old_view[b - 1]));
                        lemma_text_le_transitive(old_view[a], old_view[p as int], old_view[b - 1]);
                    }
                } else if a == p {
                    assert(text_le(x@, old_view[p as int]));
                    if b - 1 > p {
                        assert(text_order()(old_view[p as int], old_view[b - 1]));
                        lemma_text_le_transitive(x@, old_view[p as int], old_view[b - 1]);
                    }
                } else {
                    assert(text_order()(old_view[a - 1], old_view[b - 1]));
                }
            }
            vstd::seq_lib::to_multiset_insert(old_view, p as int, x@);
            let pre = texts_view(v@.subrange(0, i + 1));
            assert(pre =~= texts_view(v@.subrange(0, i as int)).push(v@[i as int]@));
            vstd::seq_lib::to_multiset_build(texts_view(v@.subrange(0, i as int)), v@[i as int]@);
        }
        i = i + 1;
    }
    proof {
        assert(v@.subrange(0, v@.len() as int) =~= v@);
        texts_view(v@).lemma_sort_by_ensures(text_order());
        vstd::seq_lib::lemma_sorted_unique(texts_view(out@), texts_view(v@).sort_by(text_order()), text_order());
    }
    out
}

proof fn lemma_last_slash(s: Seq<char>, end: int)
    requires
        0 <= end <= s.len(),
    ensures
        last_slash_before(s, end) matches Some(i) ==> 0 <= i < end && s[i] == '/',
    decreases end,
{
    if end > 0 && s[end - 1] != '/' {
        lemma_last_slash(s, end - 1);
    }
}

/// A directory part is never empty.
proof fn lemma_folder_not_empty(path: Seq<char>)
    ensures
        spec_folder(path).len() > 0,
{
    lemma_last_slash(path, path.len() as int);
}

/// Where the module file text of `dir` is in `mods`, if anywhere.
pub open spec fn dir_index(mods: Seq<(Seq<char>, Seq<char>)>, dir: Seq<char>) -> Option<int>
    decreases mods.len(),
{
    if mods.len() == 0 {
        None
    } else if mods.last().0 == dir {
        Some(mods.len() - 1)
    } else {
        dir_index(mods.drop_last(), dir)
    }
}

/// `line` appended to the module file text of `dir`, which is started if
/// there is none yet.
pub open spec fn append_to_dir(mods: Seq<(Seq<char>, Seq<char>)>, dir: Seq<char>, line: Seq<char>) -> Seq<(Seq<char>, Seq<char>)> {
    match dir_index(mods, dir) {
        Some(i) => mods.update(i, (dir, mods[i].1 + line)),
        None => mods.push((dir, line)),
    }
}

/// The listing after one more module file: the `mod` line of the file in
/// its directory's module file, and the `mod` line of the parent directory
/// in the top module file, the first time that parent is seen.
pub open spec fn listing_step(
    acc: (Seq<(Seq<char>, Seq<char>)>, Seq<char>, Seq<Seq<char>>),
    file: Seq<char>,
) -> (Seq<(Seq<char>, Seq<char>)>, Seq<char>, Seq<Seq<char>>) {
    let dir = spec_folder(file);
    let line = "mod "@ + spec_replace(spec_replace(file, dir, ""@), ".rs"@, ""@) + ";\n"@;
    let mods = append_to_dir(acc.0, dir, line);
    let parent = spec_folder(dir);
    if acc.2.contains(parent) {
        (mods, acc.1, acc.2)
    } else {
        (mods, acc.1 + "mod "@ + spec_replace(parent, "/"@, ""@) + ";\n"@, acc.2.push(parent))
    }
}

pub open spec fn spec_listing(files: Seq<Seq<char>>) -> (Seq<(Seq<char>, Seq<char>)>, Seq<char>, Seq<Seq<char>>)
    decreases files.len(),
{
    if files.len() == 0 {
        (seq![], seq![], seq![])
    } else {
        listing_step(spec_listing(files.drop_last()), files.last())
    }
}

pub open spec fn pairs_view(v: Seq<(String, String)>) -> Seq<(Seq<char>, Seq<char>)> {
    v.map_values(|p: (String, String)| (p.0@, p.1@))
}

fn dir_position(mods: &Vec<(String, String)>, dir: &String) -> (r: Option<usize>)
    ensures
        match r {
            Some(k) => k < mods@.len() && dir_index(pairs_view(mods@), dir@) == Some(k as int),
            None => dir_index(pairs_view(mods@), dir@) is None,
        },
{
    let ghost pv = pairs_view(mods@);
    let mut k: usize = mods.len();
    assert(pv.subrange(0, k as int) =~= pv);
    while k > 0
        invariant
            k <= mods@.len(),
            pv == pairs_view(mods@),
            dir_index(pv, dir@) == dir_index(pv.subrange(0, k as int), dir@),
        decreases k,
    {
        let ghost sub = pv.subrange(0, k as int);
        assert(sub.drop_last() =~= pv.subrange(0, k - 1));
        if str_eq(mods[k - 1].0.as_str(), dir.as_str()) {
            return Some(k - 1);
        }
        k = k - 1;
    }
    None
}

fn contains_text(v: &Vec<String>, t: &String) -> (r: bool)
    ensures
        r == texts_view(v@).contains(t@),
{
    let mut j: usize = 0;
    while j < v.len()
        invariant
            j <= v@.len(),
            forall|q: int| 0 <= q < j ==> texts_view(v@)[q] != t@,
        decreases v@.len() - j,
    {
        if str_eq(v[j].as_str(), t.as_str()) {
            assert(texts_view(v@)[j as int] == t@);
            return true;
        }
        j = j + 1;
    }
    false
}

/// The module files that declare the generated test modules: for each
/// directory, its `mod.rs` text, and the text of the top `mod.rs`. The
/// files are taken in sorted order.
pub fn module_listing(files: &Vec<String>) -> (r: (Vec<(String, String)>, String))
    ensures
        pairs_view(r.0@) == spec_listing(texts_view(files@).sort_by(text_order())).0,
        r.1@ == spec_listing(texts_view(files@).sort_by(text_order())).1 + "\n"@,
{
    let sorted = sort_texts(files);
    let ghost sv = texts_view(sorted@);
    let mut mods: Vec<(String, String)> = Vec::new();
    let mut top = String::new();
    let mut processed: Vec<String> = Vec::new();
    let mut i: usize = 0;
    proof {
        reveal_strlit(".rs");
        reveal_strlit("/");
        assert(sv.subrange(0, 0) =~= Seq::<Seq<char>>::empty());
        assert(pairs_view(mods@) =~= seq![]);
        assert(texts_view(processed@) =~= seq![]);
    }
    while i < sorted.len()
        invariant
            i <= sorted@.len(),
            sv == texts_view(sorted@),
            pairs_view(mods@) == spec_listing(sv.subrange(0, i as int)).0,
            top@ == spec_listing(sv.subrange(0, i as int)).1,
            texts_view(processed@) == spec_listing(sv.subrange(0, i as int)).2,
        decreases sorted@.len() - i,
    {
        proof {
            reveal_strlit(".rs");
            reveal_strlit("/");
        }
        let file = &sorted[i];
        let dir = folder(file.clone());
        proof {
            lemma_folder_not_empty(file@);
        }
        let stem = replace_all(file.as_str(), dir.as_str(), "");
        let stem = replace_all(stem.as_str(), ".rs", "");
        let mut line = String::from_str("mod ");
        line.append(stem.as_str());
        line.append(";\n");
        let ghost old_mods = pairs_view(mods@);
        match dir_position(&mods, &dir) {
            Some(k) => {
                let mut data = mods[k].1.clone();
                data.append(line.as_str());
                let d2 = dir.clone();
                mods.set(k, (d2, data));
                assert(pairs_view(mods@) =~= append_to_dir(old_mods, dir@, line@));
            },
            None => {
                mods.push((dir.clone(), line));
                assert(pairs_view(mods@) =~= append_to_dir(old_mods, dir@, line@));
            },
        }
        let parent = folder(dir.clone());
        let seen = contains_text(&processed, &parent);
        let ghost old_processed = texts_view(processed@);
        if !seen {
            proof {
                assert(!old_processed.contains(parent@));
                lemma_folder_not_empty(dir@);
            }
            top.append("mod ");
            top.append(replace_all(parent.as_str(), "/", "").as_str());
            top.append(";\n");
            let ghost pv = parent@;
            processed.push(parent);
            assert(texts_view(processed@) =~= old_processed.push(pv));
        }
        proof {
            let pre = sv.subrange(0, i + 1);
            assert(pre.drop_last() =~= sv.subrange(0, i as int));
            assert(pre.last() == file@);
        }
        i = i + 1;
    }
    top.append("\n");
    assert(sv.subrange(0, sorted@.len() as int) =~= sv);
    (mods, top)
}



/// Sorted texts are in order and are the texts given, each as often.
pub proof fn law_sorted_texts(texts: Seq<Seq<char>>)
    ensures
        sorted_by(texts.sort_by(text_order()), text_order()),
        texts.sort_by(text_order()).to_multiset() == texts.to_multiset(),
{
    lemma_text_order_total();
    texts.lemma_sort_by_ensures(text_order());
}

} // verus!
