//! The decisions behind the asset index file: whether it needs the mesh
//! patch descriptor type, and which wrapper files it pulls in, in which order.
//! Writing the files is the application's.
use vstd::prelude::*;

use std::path::PathBuf;

use crate::asset::types::GeneratedAsset;
use crate::text::{decimal_text, push_decimal, string_push};

verus! {

broadcast use vstd::seq_lib::to_multiset_build, vstd::seq_lib::to_multiset_insert;

/// `t` occurs in `s` starting at position `i`.
pub open spec fn occurs_at(s: Seq<char>, t: Seq<char>, i: int) -> bool {
    0 <= i && i + t.len() <= s.len() && s.subrange(i, i + t.len()) == t
}

/// `t` occurs somewhere in `s`.
pub open spec fn contains_text(s: Seq<char>, t: Seq<char>) -> bool {
    exists|i: int| occurs_at(s, t, i)
}

/// The marker that mesh patch identifiers carry.
pub open spec fn patch_marker() -> Seq<char> {
    seq!['P', 'A', 'T', 'C', 'H']
}

/// The characters of `s`.
fn chars_of(s: &str) -> (v: Vec<char>)
    ensures
        v@ == s@,
{
    broadcast use vstd::string::group_string_axioms;

    let mut v: Vec<char> = Vec::new();
    for ch in it: s.chars()
        invariant
            it.seq() == s@,
            v@ == s@.take(it.index() as int),
    {
        let ghost i = it.index();
        assert(s@.take(i + 1) =~= s@.take(i as int).push(ch));
        v.push(ch);
    }
    assert(s@.take(s@.len() as int) =~= s@);
    v
}

/// Whether `t` occurs in `s`.
fn text_contains(s: &Vec<char>, t: &Vec<char>) -> (b: bool)
    ensures
        b == contains_text(s@, t@),
{
    let n = s.len();
    let m = t.len();
    if m == 0 {
        assert(s@.subrange(0, 0) =~= t@);
        assert(occurs_at(s@, t@, 0));
        return true;
    }
    if m > n {
        return false;
    }
    let last = n - m;
    let mut i: usize = 0;
    while i <= last
        invariant
            n == s@.len(),
            m == t@.len(),
            last == n - m,
            0 < m <= n,
            forall|p: int| 0 <= p < i ==> !occurs_at(s@, t@, p),
        decreases last + 1 - i,
    {
        let mut k: usize = 0;
        let mut same = true;
        while k < m
            invariant
                n == s@.len(),
                m == t@.len(),
                last == n - m,
                0 < m <= n,
                i <= last,
                forall|p: int| 0 <= p < i ==> !occurs_at(s@, t@, p),
                k <= m,
                same ==> forall|q: int| 0 <= q < k ==> s@[i + q] == t@[q],
                !same ==> !occurs_at(s@, t@, i as int),
            decreases m - k,
        {
            if s[i + k] != t[k] {
                assert(s@.subrange(i as int, i + t@.len())[k as int] != t@[k as int]);
                same = false;
            }
            k = k + 1;
        }
        if same {
            assert(s@.subrange(i as int, i + t@.len()) =~= t@);
            assert(occurs_at(s@, t@, i as int));
            return true;
        }
        i = i + 1;
    }
    false
}

/// Whether any generated asset is a mesh patch, that is, whether the index
/// file needs the mesh patch descriptor type: some identifier contains
/// `PATCH`.
pub fn has_mesh_assets(generated: &[GeneratedAsset]) -> (b: bool)
    ensures
        b == exists|k: int| 0 <= k < generated@.len() && contains_text(#[trigger] generated@[k].identifier@, patch_marker()),
{
    let marker: Vec<char> = vec!['P', 'A', 'T', 'C', 'H'];
    assert(marker@ =~= patch_marker());
    let mut k: usize = 0;
    while k < generated.len()
        invariant
            k <= generated@.len(),
            marker@ == patch_marker(),
            forall|m: int| 0 <= m < k ==> !contains_text(#[trigger] generated@[m].identifier@, patch_marker()),
        decreases generated@.len() - k,
    {
        let id = chars_of(generated[k].identifier.as_str());
        if text_contains(&id, &marker) {
            return true;
        }
        k = k + 1;
    }
    false
}

/// The result of `str::to_lowercase` (std) on the characters `s`: the
/// Unicode lowercase mapping, which may lengthen the text.
pub uninterp spec fn lowercase_text(s: Seq<char>) -> Seq<char>;

/// `str::to_lowercase` (std). Claimed: the result is `lowercase_text` of the
/// input characters, a function of those characters alone.
#[verifier::external_body]
fn str_to_lowercase(s: &str) -> (r: String)
    ensures
        r@ == lowercase_text(s@),
{
    s.to_lowercase()
}

/// The file stem (module name) of an asset's wrapper and data files: its
/// identifier in lower case.
pub fn asset_file_stem(identifier: &str) -> (r: String)
    ensures
        r@ == lowercase_text(identifier@),
{
    str_to_lowercase(identifier)
}

/// File stem of patch `k` of a mesh: `<stem>_patch<k>`, where `<stem>` is
/// the mesh's file stem.
pub open spec fn patch_file_stem(identifier: Seq<char>, k: nat) -> Seq<char> {
    lowercase_text(identifier) + seq!['_', 'p', 'a', 't', 'c', 'h'] + decimal_text(k)
}

/// Constant prefix of patch `k` of a mesh: `<IDENTIFIER>_PATCH<k>`.
pub open spec fn patch_const_prefix(identifier: Seq<char>, k: nat) -> Seq<char> {
    identifier + seq!['_', 'P', 'A', 'T', 'C', 'H'] + decimal_text(k)
}

/// The names of patch `patch_index` of the mesh `identifier`: its file stem
/// and its constant prefix.
pub fn patch_names(identifier: &str, patch_index: usize) -> (r: (String, String))
    ensures
        r.0@ == patch_file_stem(identifier@, patch_index as nat),
        r.1@ == patch_const_prefix(identifier@, patch_index as nat),
{
    let mut base = str_to_lowercase(identifier);
    string_push(&mut base, '_');
    string_push(&mut base, 'p');
    string_push(&mut base, 'a');
    string_push(&mut base, 't');
    string_push(&mut base, 'c');
    string_push(&mut base, 'h');
    push_decimal(&mut base, patch_index as u64);
    let mut name = String::from_str(identifier);
    string_push(&mut name, '_');
    string_push(&mut name, 'P');
    string_push(&mut name, 'A');
    string_push(&mut name, 'T');
    string_push(&mut name, 'C');
    string_push(&mut name, 'H');
    push_decimal(&mut name, patch_index as u64);
    assert(base@ =~= patch_file_stem(identifier@, patch_index as nat));
    assert(name@ =~= patch_const_prefix(identifier@, patch_index as nat));
    (base, name)
}

/// `PathBuf::from` (std) on a `String`: the path with that text. Paths are
/// opaque here, so nothing is claimed of it.
#[verifier::external_body]
fn path_buf_from_text(s: String) -> (r: PathBuf) {
    PathBuf::from(s)
}

/// The wrapper file name of an asset with file stem `stem`: `<stem>.rs`.
fn rs_file_name(stem: &String) -> (r: String)
    ensures
        r@ == stem@ + seq!['.', 'r', 's'],
{
    let mut name = stem.clone();
    string_push(&mut name, '.');
    string_push(&mut name, 'r');
    string_push(&mut name, 's');
    name
}

/// The generated-asset record of a texture, or of a mesh as a whole: module
/// name `asset_file_stem` of its identifier, the identifier itself, wrapper `<module>.rs`, and the
/// source file. (The two paths are std paths; nothing is stated of them.)
pub fn asset_record(identifier: &String, source: &PathBuf) -> (r: GeneratedAsset)
    ensures
        r.module_name@ == lowercase_text(identifier@),
        r.identifier@ == identifier@,
{
    let module_name = str_to_lowercase(identifier.as_str());
    let rs = rs_file_name(&module_name);
    GeneratedAsset {
        module_name,
        identifier: identifier.clone(),
        rs_path: path_buf_from_text(rs),
        source_path: source.clone(),
    }
}

/// The generated-asset records of a mesh whose patches have the indices
/// `patch_indices`: one per patch, in order (module name `patch_file_stem`,
/// identifier `patch_const_prefix`, wrapper `<module>.rs`), then one for the
/// mesh itself (module name `asset_file_stem` of its identifier, the
/// identifier, wrapper `<module>.rs`); each with the mesh's source file.
/// (The paths are std paths; nothing is stated of them.)
pub fn mesh_generated_assets(identifier: &String, patch_indices: &[usize], source: &PathBuf) -> (r: Vec<GeneratedAsset>)
    ensures
        r@.len() == patch_indices@.len() + 1,
        forall|k: int|
            0 <= k < patch_indices@.len() ==> {
                &&& (#[trigger] r@[k]).module_name@ == patch_file_stem(identifier@, patch_indices@[k] as nat)
                &&& r@[k].identifier@ == patch_const_prefix(identifier@, patch_indices@[k] as nat)
            },
        r@[patch_indices@.len() as int].module_name@ == lowercase_text(identifier@),
        r@[patch_indices@.len() as int].identifier@ == identifier@,
{
    let mut out: Vec<GeneratedAsset> = Vec::new();
    let mut k: usize = 0;
    while k < patch_indices.len()
        invariant
            k <= patch_indices@.len(),
            out@.len() == k,
            forall|m: int|
                0 <= m < k ==> {
                    &&& (#[trigger] out@[m]).module_name@ == patch_file_stem(identifier@, patch_indices@[m] as nat)
                    &&& out@[m].identifier@ == patch_const_prefix(identifier@, patch_indices@[m] as nat)
                },
        decreases patch_indices@.len() - k,
    {
        let (base, name) = patch_names(identifier.as_str(), patch_indices[k]);
        let rs = rs_file_name(&base);
        out.push(
            GeneratedAsset {
                module_name: base,
                identifier: name,
                rs_path: path_buf_from_text(rs),
                source_path: source.clone(),
            },
        );
        k = k + 1;
    }
    out.push(asset_record(identifier, source));
    out
}

/// Every patch's constant prefix carries the `PATCH` marker, so an index
/// that lists a mesh patch also declares the patch descriptor type.
pub proof fn law_patch_names_carry_marker(identifier: Seq<char>, k: nat)
    ensures
        contains_text(patch_const_prefix(identifier, k), patch_marker()),
{
    let p = patch_const_prefix(identifier, k);
    let i: int = identifier.len() as int + 1;
    assert(p.subrange(i, i + 5) =~= patch_marker());
    assert(occurs_at(p, patch_marker(), i));
}

/// Code-point lexicographic order on texts, which is the order of `str`
/// (UTF-8 keeps code point order): a prefix comes first.
pub open spec fn text_le(a: Seq<char>, b: Seq<char>) -> bool
    decreases a.len(),
{
    if a.len() == 0 {
        true
    } else if b.len() == 0 {
        false
    } else if a[0] != b[0] {
        (a[0] as int) < (b[0] as int)
    } else {
        text_le(a.drop_first(), b.drop_first())
    }
}

proof fn lemma_text_le_refl(a: Seq<char>)
    ensures
        text_le(a, a),
    decreases a.len(),
{
    if a.len() > 0 {
        lemma_text_le_refl(a.drop_first());
    }
}

proof fn lemma_text_le_total(a: Seq<char>, b: Seq<char>)
    ensures
        text_le(a, b) || text_le(b, a),
    decreases a.len(),
{
    if a.len() > 0 && b.len() > 0 && a[0] == b[0] {
        lemma_text_le_total(a.drop_first(), b.drop_first());
    }
}

proof fn lemma_text_le_trans(a: Seq<char>, b: Seq<char>, c: Seq<char>)
    requires
        text_le(a, b),
        text_le(b, c),
    ensures
        text_le(a, c),
    decreases a.len(),
{
    if a.len() > 0 && b.len() > 0 && c.len() > 0 && a[0] == b[0] && b[0] == c[0] {
        lemma_text_le_trans(a.drop_first(), b.drop_first(), c.drop_first());
    }
}

/// Whether `a` comes strictly before `b`.
fn text_lt(a: &Vec<char>, b: &Vec<char>) -> (r: bool)
    ensures
        r == !text_le(b@, a@),
{
    let mut i: usize = 0;
    assert(a@.skip(0) =~= a@ && b@.skip(0) =~= b@);
    while i < a.len() && i < b.len()
        invariant
            i <= a@.len(),
            i <= b@.len(),
            text_le(b@, a@) == text_le(b@.skip(i as int), a@.skip(i as int)),
        decreases a@.len() - i,
    {
        let x = a[i];
        let y = b[i];
        assert(b@.skip(i as int)[0] == y && a@.skip(i as int)[0] == x);
        if x != y {
            return !(y < x);
        }
        assert(b@.skip(i as int).drop_first() =~= b@.skip(i + 1));
        assert(a@.skip(i as int).drop_first() =~= a@.skip(i + 1));
        i = i + 1;
    }
    if i == b.len() {
        assert(b@.skip(i as int).len() == 0);
        false
    } else {
        assert(a@.skip(i as int).len() == 0 && b@.skip(i as int).len() > 0);
        true
    }
}

/// The texts of a list of strings.
pub open spec fn texts(v: Seq<String>) -> Seq<Seq<char>> {
    v.map_values(|s: String| s@)
}

/// The non-empty texts of `s`, in order.
pub open spec fn nonempty_texts(s: Seq<Seq<char>>) -> Seq<Seq<char>>
    decreases s.len(),
{
    if s.len() == 0 {
        seq![]
    } else if s.last().len() > 0 {
        nonempty_texts(s.drop_last()).push(s.last())
    } else {
        nonempty_texts(s.drop_last())
    }
}

/// `s` is in `text_le` order.
pub open spec fn sorted_texts(s: Seq<Seq<char>>) -> bool {
    forall|i: int, j: int| 0 <= i < j < s.len() ==> text_le(#[trigger] s[i], #[trigger] s[j])
}

proof fn lemma_insert_sorted(s: Seq<Seq<char>>, k: int, x: Seq<char>)
    requires
        sorted_texts(s),
        0 <= k <= s.len(),
        forall|m: int| 0 <= m < k ==> text_le(#[trigger] s[m], x),
        k < s.len() ==> text_le(x, s[k]),
    ensures
        sorted_texts(s.insert(k, x)),
{
    let t = s.insert(k, x);
    assert forall|i: int, j: int| 0 <= i < j < t.len() implies text_le(#[trigger] t[i], #[trigger] t[j]) by {
        if j < k {
            assert(t[i] == s[i] && t[j] == s[j]);
        } else if j == k {
            assert(t[i] == s[i] && t[j] == x);
        } else if i < k {
            assert(t[i] == s[i] && t[j] == s[j - 1]);
        } else if i == k {
            assert(t[i] == x && t[j] == s[j - 1]);
            if j - 1 > k {
                assert(text_le(s[k], s[j - 1]));
            } else {
                lemma_text_le_refl(s[k]);
            }
            lemma_text_le_trans(x, s[k], s[j - 1]);
        } else {
            assert(t[i] == s[i - 1] && t[j] == s[j - 1]);
        }
    }
}

/// The wrapper files the asset index includes: the non-empty names among
/// `files`, sorted (as `str` sorts) so that the index is the same from run
/// to run.
pub fn include_order(files: &[String]) -> (r: Vec<String>)
    ensures
        sorted_texts(texts(r@)),
        texts(r@).to_multiset() == nonempty_texts(texts(files@)).to_multiset(),
{
    let mut out: Vec<String> = Vec::new();
    let mut keys: Vec<Vec<char>> = Vec::new();
    let mut j: usize = 0;
    assert(texts(files@).take(0) =~= Seq::<Seq<char>>::empty());
    assert(texts(out@) =~= Seq::<Seq<char>>::empty());
    while j < files.len()
        invariant
            j <= files@.len(),
            keys@.len() == out@.len(),
            forall|m: int| 0 <= m < out@.len() ==> #[trigger] keys@[m]@ == out@[m]@,
            sorted_texts(texts(out@)),
            texts(out@).to_multiset() == nonempty_texts(texts(files@).take(j as int)).to_multiset(),
        decreases files@.len() - j,
    {
        let ghost before = texts(files@).take(j as int);
        assert(texts(files@).take(j + 1).drop_last() =~= before);
        assert(texts(files@).take(j + 1).last() == files@[j as int]@);
        let x = files[j].clone();
        let xk = chars_of(x.as_str());
        if xk.len() > 0 {
            let mut k: usize = 0;
            while k < out.len() && !text_lt(&xk, &keys[k])
                invariant
                    k <= out@.len(),
                    keys@.len() == out@.len(),
                    forall|m: int| 0 <= m < out@.len() ==> #[trigger] keys@[m]@ == out@[m]@,
                    forall|m: int| 0 <= m < k ==> text_le(#[trigger] texts(out@)[m], xk@),
                decreases out@.len() - k,
            {
                assert(texts(out@)[k as int] == keys@[k as int]@);
                k = k + 1;
            }
            proof {
                if k < out@.len() {
                    assert(texts(out@)[k as int] == keys@[k as int]@);
                    lemma_text_le_total(xk@, keys@[k as int]@);
                }
                lemma_insert_sorted(texts(out@), k as int, xk@);
                assert(texts(out@.insert(k as int, x)) =~= texts(out@).insert(k as int, xk@));
            }
            let ghost keys0 = keys@;
            let ghost out0 = out@;
            out.insert(k, x);
            keys.insert(k, xk);
            assert forall|m: int| 0 <= m < out@.len() implies #[trigger] keys@[m]@ == out@[m]@ by {
                if m < k {
                    assert(keys@[m] == keys0[m] && out@[m] == out0[m]);
                } else if m > k {
                    assert(keys@[m] == keys0[m - 1] && out@[m] == out0[m - 1]);
                }
            }
        }
        j = j + 1;
    }
    assert(texts(files@).take(files@.len() as int) =~= texts(files@));
    out
}

} // verus!
