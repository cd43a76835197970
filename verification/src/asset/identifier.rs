//! Rust identifiers for asset files.
use vstd::prelude::*;

use std::path::{Path, PathBuf};

use crate::asset::error::AssetError;
use crate::text::string_push;

verus! {

#[verifier::external_type_specification]
#[verifier::external_body]
pub struct ExPath(std::path::Path);

/// Whether `char::is_alphabetic` (std) holds of a character: the Unicode
/// Alphabetic property.
pub uninterp spec fn alphabetic(c: char) -> bool;

/// Whether `char::is_numeric` (std) holds of a character: its general
/// category is Nd, Nl or No.
pub uninterp spec fn numeric(c: char) -> bool;

/// `char::is_alphabetic` (std). Claimed: its result is `alphabetic(c)`,
/// which depends on the character alone.
#[verifier::external_body]
fn char_is_alphabetic(c: char) -> (r: bool)
    ensures
        r == alphabetic(c),
{
    c.is_alphabetic()
}

/// `char::is_numeric` (std). Claimed: its result is `numeric(c)`, which
/// depends on the character alone.
#[verifier::external_body]
fn char_is_numeric(c: char) -> (r: bool)
    ensures
        r == numeric(c),
{
    c.is_numeric()
}

/// Whether a character is alphabetic or numeric, as `char::is_alphanumeric`
/// (std) is documented to decide.
fn char_is_alphanumeric(c: char) -> (r: bool)
    ensures
        r == (alphabetic(c) || numeric(c)),
{
    char_is_alphabetic(c) || char_is_numeric(c)
}

/// What one character of the input becomes in the sanitized identifier.
/// The first character is kept when alphabetic or `_`, gets a `_` in front
/// when numeric, and is replaced by `_` otherwise; later characters are kept
/// when alphanumeric or `_` and replaced by `_` otherwise.
pub open spec fn sanitize_step(first: bool, c: char) -> Seq<char> {
    if first {
        if alphabetic(c) || c == '_' {
            seq![c]
        } else if numeric(c) {
            seq!['_', c]
        } else {
            seq!['_']
        }
    } else if alphabetic(c) || numeric(c) || c == '_' {
        seq![c]
    } else {
        seq!['_']
    }
}

/// The sanitized form of the characters `s`, character by character.
pub open spec fn sanitize_chars(s: Seq<char>) -> Seq<char>
    decreases s.len(),
{
    if s.len() == 0 {
        seq![]
    } else {
        sanitize_chars(s.drop_last()) + sanitize_step(s.len() == 1, s.last())
    }
}

/// The identifier component for `s`: its sanitized characters, or `ASSET`
/// when `s` is empty.
pub open spec fn sanitized_ident(s: Seq<char>) -> Seq<char> {
    if s.len() == 0 {
        seq!['A', 'S', 'S', 'E', 'T']
    } else {
        sanitize_chars(s)
    }
}

/// `t` has the shape of an identifier component: non-empty, starting with
/// an alphabetic character or `_`, and continuing with alphanumeric
/// characters or `_`.
pub open spec fn ident_shaped(t: Seq<char>) -> bool {
    &&& t.len() > 0
    &&& alphabetic(t[0]) || t[0] == '_'
    &&& forall|i: int| 1 <= i < t.len() ==> alphabetic(#[trigger] t[i]) || numeric(t[i]) || t[i] == '_'
}

/// Sanitizing non-empty text gives an identifier-shaped component.
pub proof fn law_sanitize_gives_identifier(s: Seq<char>)
    requires
        s.len() > 0,
    ensures
        ident_shaped(sanitize_chars(s)),
    decreases s.len(),
{
    let c = s.last();
    if s.len() == 1 {
        assert(s.drop_last() =~= Seq::<char>::empty());
        assert(sanitize_chars(s.drop_last()) =~= Seq::<char>::empty());
        assert(sanitize_chars(s) =~= sanitize_step(true, c));
    } else {
        law_sanitize_gives_identifier(s.drop_last());
        let pre = sanitize_chars(s.drop_last());
        let t = sanitize_chars(s);
        assert(t == pre + sanitize_step(false, c));
        assert forall|i: int| 1 <= i < t.len() implies alphabetic(#[trigger] t[i]) || numeric(t[i])
            || t[i] == '_' by {
            if i < pre.len() {
                assert(t[i] == pre[i]);
            }
        }
    }
}

/// An identifier-shaped component is left as it is by sanitizing.
pub proof fn law_sanitize_keeps_identifier(t: Seq<char>)
    requires
        ident_shaped(t),
    ensures
        sanitize_chars(t) == t,
    decreases t.len(),
{
    if t.len() == 1 {
        assert(t.drop_last() =~= Seq::<char>::empty());
        assert(sanitize_chars(t.drop_last()) =~= Seq::<char>::empty());
        assert(sanitize_chars(t) =~= t);
    } else {
        let pre = t.drop_last();
        assert(ident_shaped(pre)) by {
            assert forall|i: int| 1 <= i < pre.len() implies alphabetic(#[trigger] pre[i]) || numeric(
                pre[i],
            ) || pre[i] == '_' by {
                assert(pre[i] == t[i]);
            }
        }
        law_sanitize_keeps_identifier(pre);
        assert(alphabetic(t[t.len() - 1]) || numeric(t[t.len() - 1]) || t[t.len() - 1] == '_');
        assert(sanitize_chars(t) =~= t);
    }
}

/// Sanitizing is idempotent on non-empty text: sanitizing a sanitized
/// component changes nothing.
pub proof fn law_sanitize_idempotent(s: Seq<char>)
    requires
        s.len() > 0,
    ensures
        sanitized_ident(sanitized_ident(s)) == sanitized_ident(s),
{
    law_sanitize_gives_identifier(s);
    law_sanitize_keeps_identifier(sanitize_chars(s));
}

/// Sanitize a string to a valid Rust identifier component.
pub fn sanitize_to_rust_ident(s: &str) -> (r: String)
    ensures
        r@ == sanitized_ident(s@),
{
    broadcast use vstd::string::group_string_axioms;

    let mut result = String::new();
    let mut first = true;
    for ch in it: s.chars()
        invariant
            it.seq() == s@,
            first == (it.index() == 0),
            result@ == sanitize_chars(s@.take(it.index() as int)),
    {
        let ghost i = it.index();
        assert(s@.take(i + 1).drop_last() =~= s@.take(i as int));
        if first {
            if char_is_alphabetic(ch) || ch == '_' {
                string_push(&mut result, ch);
            } else if char_is_numeric(ch) {
                string_push(&mut result, '_');
                string_push(&mut result, ch);
            } else {
                string_push(&mut result, '_');
            }
        } else if char_is_alphanumeric(ch) || ch == '_' {
            string_push(&mut result, ch);
        } else {
            string_push(&mut result, '_');
        }
        assert(result@ =~= sanitize_chars(s@.take(i + 1)));
        first = false;
    }
    assert(s@.take(s@.len() as int) =~= s@);
    if result.as_str().is_empty() {
        string_push(&mut result, 'A');
        string_push(&mut result, 'S');
        string_push(&mut result, 'S');
        string_push(&mut result, 'E');
        string_push(&mut result, 'T');
    }
    result
}

/// The result of `str::to_uppercase` (std) on the characters `s`: the
/// Unicode uppercase mapping, which may lengthen the text.
pub uninterp spec fn uppercase_text(s: Seq<char>) -> Seq<char>;

/// `str::to_uppercase` (std). Claimed: the result is `uppercase_text` of the
/// input characters, a function of those characters alone.
#[verifier::external_body]
fn str_to_uppercase(s: &str) -> (r: String)
    ensures
        r@ == uppercase_text(s@),
{
    s.to_uppercase()
}

/// `Path::file_stem` (std), with the stem converted to `&str`. Nothing is
/// claimed: path syntax depends on the platform, and the conversion fails
/// for a stem that is not valid UTF-8.
#[verifier::external_body]
fn path_file_stem_text(path: &Path) -> (r: Option<&str>) {
    path.file_stem().and_then(|s| s.to_str())
}

/// `Path::parent` (std). Nothing is claimed: path syntax depends on the
/// platform.
#[verifier::external_body]
fn path_parent(path: &Path) -> (r: Option<&Path>) {
    path.parent()
}

/// `Path::file_name` (std), with the name converted to `&str`. Nothing is
/// claimed: path syntax depends on the platform, and the conversion fails
/// for a name that is not valid UTF-8.
#[verifier::external_body]
fn path_file_name_text(path: &Path) -> (r: Option<&str>) {
    path.file_name().and_then(|s| s.to_str())
}

/// `Path::display` (std), rendered to a `String`. Nothing is claimed: the
/// rendering depends on the platform.
#[verifier::external_body]
fn path_display_text(path: &Path) -> (r: String) {
    format!("{}", path.display())
}

/// `Path::to_path_buf` (std). Paths are opaque here, so nothing is claimed
/// of the copy.
#[verifier::external_body]
fn path_to_path_buf(path: &Path) -> (r: PathBuf) {
    path.to_path_buf()
}

/// The identifier for a file with stem `filename` in a directory named
/// `parent` (if any): the sanitized parent, `_`, and the sanitized stem,
/// upper-cased; or the upper-cased sanitized stem alone.
pub open spec fn identifier_text(filename: Seq<char>, parent: Option<Seq<char>>) -> Seq<char> {
    match parent {
        Some(p) => uppercase_text(sanitized_ident(p) + seq!['_'] + sanitized_ident(filename)),
        None => uppercase_text(sanitized_ident(filename)),
    }
}

/// Build the identifier for a file stem and optional parent directory name.
pub fn identifier_from_parts(filename: &str, parent: Option<&str>) -> (r: String)
    ensures
        r@ == identifier_text(filename@, match parent {
            Some(p) => Some(p@),
            None => None,
        }),
{
    let sanitized_filename = sanitize_to_rust_ident(filename);
    match parent {
        Some(parent_name) => {
            let mut joined = sanitize_to_rust_ident(parent_name);
            string_push(&mut joined, '_');
            joined.append(sanitized_filename.as_str());
            assert(joined@ =~= sanitized_ident(parent_name@) + seq!['_'] + sanitized_ident(filename@));
            str_to_uppercase(joined.as_str())
        },
        None => str_to_uppercase(sanitized_filename.as_str()),
    }
}

/// Generate a Rust identifier from a file path: the immediate parent
/// directory's name (when there is one), `_`, and the file stem, each
/// sanitized, upper-cased (e.g. `textures/player.png` gives `TEXTURES_PLAYER`).
///
/// Which stem and parent name a path has is decided by `std::path`; the
/// identifier is `identifier_text` of what it reports. A path with no stem, or
/// one that is not UTF-8, is a validation error.
pub fn generate_identifier(path: &Path) -> (r: Result<String, AssetError>)
    ensures
        r matches Ok(id) ==> exists|f: Seq<char>, p: Option<Seq<char>>| id@ == identifier_text(f, p),
        r matches Err(e) ==> e is Validation,
{
    let filename = match path_file_stem_text(path) {
        Some(f) => f,
        None => {
            let mut message = String::from_str("Invalid filename: ");
            let shown = path_display_text(path);
            message.append(shown.as_str());
            return Err(AssetError::Validation(message));
        },
    };
    let parent = match path_parent(path) {
        Some(p) => path_file_name_text(p),
        None => None,
    };
    let id = identifier_from_parts(filename, parent);
    let ghost p = match parent {
        Some(p) => Some(p@),
        None => None,
    };
    assert(id@ == identifier_text(filename@, p));
    Ok(id)
}

/// Position of `ident` among the identifiers produced so far: the first `k`
/// with `seen[k] == ident`, or `None` when it is new.
pub fn find_identifier(seen: &[String], ident: &String) -> (r: Option<usize>)
    ensures
        r is None <==> forall|m: int| 0 <= m < seen@.len() ==> seen@[m]@ != ident@,
        r matches Some(k) ==> k < seen@.len() && seen@[k as int]@ == ident@ && forall|m: int|
            0 <= m < k ==> seen@[m]@ != ident@,
{
    let mut k: usize = 0;
    while k < seen.len()
        invariant
            k <= seen@.len(),
            forall|m: int| 0 <= m < k ==> seen@[m]@ != ident@,
        decreases seen@.len() - k,
    {
        if seen[k] == *ident {
            return Some(k);
        }
        k = k + 1;
    }
    None
}

/// The texts of a list of identifiers.
pub open spec fn id_texts(ids: Seq<String>) -> Seq<Seq<char>> {
    ids.map_values(|s: String| s@)
}

/// No identifier occurs twice in `ids`.
pub open spec fn distinct_ids(ids: Seq<Seq<char>>) -> bool {
    forall|i: int, j: int| 0 <= i < j < ids.len() ==> ids[i] != ids[j]
}

/// `(i, j)` is the first repeat of `ids`: `j` is the least position whose
/// identifier occurred before, and `i` the first position where it did.
pub open spec fn first_repeat_at(ids: Seq<Seq<char>>, i: int, j: int) -> bool {
    &&& 0 <= i < j < ids.len()
    &&& ids[i] == ids[j]
    &&& distinct_ids(ids.take(j))
    &&& forall|m: int| 0 <= m < i ==> ids[m] != ids[j]
}

/// The first repeated identifier of `ids`: `None` when all are distinct,
/// else `Some((i, j))` with `j` the least position whose identifier occurred
/// before and `i` the first position where it did.
pub fn first_repeat(ids: &[String]) -> (r: Option<(usize, usize)>)
    ensures
        r is None <==> distinct_ids(id_texts(ids@)),
        r matches Some((i, j)) ==> first_repeat_at(id_texts(ids@), i as int, j as int),
{
    let ghost t = id_texts(ids@);
    let mut seen: Vec<String> = Vec::new();
    let mut j: usize = 0;
    while j < ids.len()
        invariant
            t == id_texts(ids@),
            j <= ids@.len(),
            seen@.len() == j,
            id_texts(seen@) == t.take(j as int),
            distinct_ids(t.take(j as int)),
        decreases ids@.len() - j,
    {
        let id = ids[j].clone();
        assert(id@ == t[j as int]);
        match find_identifier(seen.as_slice(), &id) {
            Some(k) => {
                assert(id_texts(seen@)[k as int] == seen@[k as int]@);
                assert(t.take(j as int)[k as int] == t[k as int]);
                assert forall|m: int| 0 <= m < k implies t[m] != t[j as int] by {
                    assert(id_texts(seen@)[m] == seen@[m]@);
                    assert(t.take(j as int)[m] == t[m]);
                }
                return Some((k, j));
            },
            None => {},
        }
        let ghost next = t.take(j + 1);
        assert forall|a: int, b: int| 0 <= a < b < next.len() implies #[trigger] next[a] != #[trigger] next[b] by {
            if b == j {
                assert(id_texts(seen@)[a] == seen@[a]@);
            } else {
                assert(t.take(j as int)[a] == t[a] && t.take(j as int)[b] == t[b]);
            }
        }
        seen.push(id);
        assert(id_texts(seen@) =~= t.take(j + 1));
        j = j + 1;
    }
    assert(t.take(ids@.len() as int) =~= t);
    None
}

/// What the collision check reports once the identifiers of the first
/// `ids.len()` paths have been generated, and `failure` is the error of the
/// next path's identifier (if it had one): the first repeat among `ids` as an
/// `IdentifierCollision` (with that identifier, the earlier path and the later
/// one); without a repeat, `failure`; without either, `Ok(())`. A repeat thus
/// wins over a failure that comes after it.
pub fn collision_report(paths: &[&Path], ids: &[String], failure: Option<AssetError>) -> (r: Result<(), AssetError>)
    requires
        ids@.len() <= paths@.len(),
    ensures
        distinct_ids(id_texts(ids@)) ==> r == match failure {
            Some(e) => Err::<(), AssetError>(e),
            None => Ok(()),
        },
        !distinct_ids(id_texts(ids@)) ==> (r matches Err(AssetError::IdentifierCollision { identifier, .. })
            && exists|i: int, j: int| first_repeat_at(id_texts(ids@), i, j) && identifier@ == ids@[j]@),
{
    match first_repeat(ids) {
        Some((i, j)) => {
            let identifier = ids[j].clone();
            Err(
                AssetError::IdentifierCollision {
                    identifier,
                    path_a: path_to_path_buf(paths[i]),
                    path_b: path_to_path_buf(paths[j]),
                },
            )
        },
        None => match failure {
            Some(e) => Err(e),
            None => Ok(()),
        },
    }
}

/// Check a list of source paths for identifier collisions.
///
/// Generates the identifiers in order (see `generate_identifier`) up to the
/// first path whose identifier cannot be generated, and reports as
/// `collision_report` decides on them: the first path whose identifier was
/// already produced gives `IdentifierCollision` with that identifier and the
/// two paths; otherwise the generation error, if there was one; otherwise
/// `Ok(())`.
///
/// Which identifier a path gives is decided by `std::path`, whose path
/// syntax depends on the platform, so the contract does not say which paths
/// collide; it says what holds for every outcome.
pub fn check_collisions(paths: &[&Path]) -> (r: Result<(), AssetError>)
    ensures
        paths@.len() == 0 ==> r is Ok,
        paths@.len() <= 1 ==> !(r matches Err(AssetError::IdentifierCollision { .. })),
        r matches Err(e) ==> e is IdentifierCollision || e is Validation,
{
    let mut ids: Vec<String> = Vec::new();
    let mut failure: Option<AssetError> = None;
    let mut j: usize = 0;
    while j < paths.len()
        invariant_except_break
            failure is None,
        invariant
            j <= paths@.len(),
            ids@.len() == j,
            failure matches Some(e) ==> e is Validation,
        ensures
            ids@.len() <= paths@.len(),
            failure matches Some(e) ==> e is Validation,
            failure is Some ==> ids@.len() < paths@.len(),
        decreases paths@.len() - j,
    {
        match generate_identifier(paths[j]) {
            Ok(id) => ids.push(id),
            Err(e) => {
                failure = Some(e);
                break;
            },
        }
        j = j + 1;
    }
    assert(failure matches Some(e) ==> e is Validation);
    assert(ids@.len() <= 1 ==> distinct_ids(id_texts(ids@)));
    collision_report(paths, ids.as_slice(), failure)
}

} // verus!
