//! Choosing where a received file is written without overwriting an existing one.
use vstd::prelude::*;
use crate::text::text_of;
use crate::paths::{extension_of, file_stem_of, parent_of, path_exists, path_extension, path_file_stem, path_parent};
use crate::text::{append_decimal, decimal, push_char};

verus! {

/// The largest suffix number tried (`i32::MAX`, the largest the index can reach).
pub const MAX_SUFFIX: u32 = 2147483647;

pub open spec fn text_or(o: Option<Seq<char>>, default: Seq<char>) -> Seq<char> {
    match o {
        Some(t) => t,
        None => default,
    }
}

/// The directory part of a save path: its parent, or empty.
pub open spec fn dir_part(p: Seq<char>) -> Seq<char> {
    text_or(path_parent(p), seq![])
}

/// The stem of a save path, or `file`.
pub open spec fn stem_part(p: Seq<char>) -> Seq<char> {
    text_or(path_file_stem(p), seq!['f', 'i', 'l', 'e'])
}

/// The extension of a save path, or empty.
pub open spec fn ext_part(p: Seq<char>) -> Seq<char> {
    text_or(path_extension(p), seq![])
}

/// The `i`-th alternative to a save path: `{dir}/{stem}_{i}`, followed by `.{ext}`
/// where the extension is not empty.
pub open spec fn candidate(dir: Seq<char>, stem: Seq<char>, ext: Seq<char>, i: nat) -> Seq<char> {
    let base = dir.push('/') + stem.push('_') + decimal(i);
    if ext.len() == 0 {
        base
    } else {
        base.push('.') + ext
    }
}

/// The `i`-th alternative to the save path `p`.
pub open spec fn alternative(p: Seq<char>, i: nat) -> Seq<char> {
    candidate(dir_part(p), stem_part(p), ext_part(p), i)
}

/// The parts of a save path from which its alternatives are built.
#[derive(Debug, Clone, PartialEq, Eq)]
pub struct SavePathParts {
    pub dir: String,
    pub stem: String,
    pub ext: String,
}

fn text_or_default(o: Option<String>, default: &str) -> (res: String)
    ensures
        res@ == text_or(text_of(o), default@),
{
    match o {
        Some(t) => t,
        None => String::from_str(default),
    }
}

/// Splits a save path into the directory, stem and extension that its alternatives use.
pub fn save_path_parts(save_path: &str) -> (parts: SavePathParts)
    ensures
        parts.dir@ == dir_part(save_path@),
        parts.stem@ == stem_part(save_path@),
        parts.ext@ == ext_part(save_path@),
{
    let mut file = String::new();
    push_char(&mut file, 'f');
    push_char(&mut file, 'i');
    push_char(&mut file, 'l');
    push_char(&mut file, 'e');
    let stem = match file_stem_of(save_path) {
        Some(s) => s,
        None => file,
    };
    let ext = match extension_of(save_path) {
        Some(e) => e,
        None => String::new(),
    };
    let dir = match parent_of(save_path) {
        Some(d) => d,
        None => String::new(),
    };
    assert(file@ =~= seq!['f', 'i', 'l', 'e']);
    SavePathParts { dir, stem, ext }
}

/// The `i`-th alternative built from `parts`.
pub fn alternative_path(parts: &SavePathParts, i: u32) -> (res: String)
    ensures
        res@ == candidate(parts.dir@, parts.stem@, parts.ext@, i as nat),
{
    let mut s = parts.dir.clone();
    push_char(&mut s, '/');
    s.append(parts.stem.as_str());
    push_char(&mut s, '_');
    append_decimal(&mut s, i);
    let ghost base = s@;
    assert(base =~= parts.dir@.push('/') + parts.stem@.push('_') + decimal(i as nat));
    if parts.ext.as_str().is_empty() {
        s
    } else {
        push_char(&mut s, '.');
        s.append(parts.ext.as_str());
        s
    }
}

/// Whether the check `occupied`, asked about the path `p`, may have answered `answer`.
pub open spec fn answered<F: Fn(&str) -> bool>(occupied: F, p: Seq<char>, answer: bool) -> bool {
    exists|x: &str| x@ == p && #[trigger] occupied.ensures((x,), answer)
}

/// Picks the path to write a received file to, asking `occupied` whether something is
/// already at a path. The save path itself is taken when `occupied` says it is free;
/// otherwise the first of its alternatives 1, 2, ... that `occupied` says is free.
/// `None` when the save path and every alternative up to [`MAX_SUFFIX`] are taken.
pub fn compute_save_path_with<F: Fn(&str) -> bool>(save_path: &str, occupied: F) -> (res: Option<
    String,
>)
    requires
        forall|x: &str| #[trigger] occupied.requires((x,)),
    ensures
        match res {
            Some(r) => (r@ == save_path@ && answered(occupied, save_path@, false))
            || (answered(occupied, save_path@, true) && exists|i: int|
                1 <= i <= MAX_SUFFIX && r@ == #[trigger] alternative(save_path@, i as nat) && answered(
                    occupied,
                    r@,
                    false,
                ) && forall|j: int|
                    1 <= j < i ==> #[trigger] answered(
                        occupied,
                        alternative(save_path@, j as nat),
                        true,
                    )),
            None => answered(occupied, save_path@, true) && forall|j: int|
                1 <= j <= MAX_SUFFIX ==> #[trigger] answered(
                    occupied,
                    alternative(save_path@, j as nat),
                    true,
                ),
        },
{
    let taken = occupied(save_path);
    assert(answered(occupied, save_path@, taken));
    if !taken {
        return Some(String::from_str(save_path));
    }
    let parts = save_path_parts(save_path);
    let mut i: u32 = 1;
    loop
        invariant
            1 <= i <= MAX_SUFFIX,
            forall|x: &str| #[trigger] occupied.requires((x,)),
            answered(occupied, save_path@, true),
            parts.dir@ == dir_part(save_path@),
            parts.stem@ == stem_part(save_path@),
            parts.ext@ == ext_part(save_path@),
            forall|j: int|
                1 <= j < i ==> #[trigger] answered(
                    occupied,
                    alternative(save_path@, j as nat),
                    true,
                ),
        decreases MAX_SUFFIX - i,
    {
        let alt = alternative_path(&parts, i);
        let alt_taken = occupied(alt.as_str());
        assert(answered(occupied, alternative(save_path@, i as nat), alt_taken));
        if !alt_taken {
            proof {
                let ii: int = i as int;
                assert(alt@ == alternative(save_path@, ii as nat));
                assert(answered(occupied, alt@, false));
                assert(forall|j: int|
                    1 <= j < ii ==> #[trigger] answered(
                        occupied,
                        alternative(save_path@, j as nat),
                        true,
                    ));
            }
            return Some(alt);
        }
        if i == MAX_SUFFIX {
            assert forall|j: int| 1 <= j <= MAX_SUFFIX implies #[trigger] answered(
                occupied,
                alternative(save_path@, j as nat),
                true,
            ) by {
                if j < i {
                }
            }
            return None;
        }
        i = i + 1;
    }
}

/// Whether the disk check (`Path::exists`, through [`crate::paths`]) may have answered
/// `taken` about the path `p`.
pub closed spec fn disk_reported(p: Seq<char>, taken: bool) -> bool {
    answered(path_exists, p, taken)
}

/// Picks the path to write a received file to: the save path if nothing is on disk
/// there, else the first alternative `{dir}/{stem}_{i}[.{ext}]` with nothing on disk;
/// `None` only when the disk check reported the save path and every alternative up to
/// [`MAX_SUFFIX`] as taken.
pub fn compute_save_path(save_path: &str) -> (res: Option<String>)
    ensures
        match res {
            Some(r) => (r@ == save_path@ && disk_reported(save_path@, false))
            || (disk_reported(save_path@, true) && exists|i: int|
                1 <= i <= MAX_SUFFIX && r@ == #[trigger] alternative(save_path@, i as nat)
                    && disk_reported(r@, false) && forall|j: int|
                    1 <= j < i ==> #[trigger] disk_reported(alternative(save_path@, j as nat), true)),
            None => disk_reported(save_path@, true) && forall|j: int|
                1 <= j <= MAX_SUFFIX ==> #[trigger] disk_reported(alternative(save_path@, j as nat), true),
        },
{
    compute_save_path_with(save_path, path_exists)
}

/// The `i`-th alternative is the directory, `/`, the stem, `_` and the decimal `i`,
/// followed, for every non-empty extension `e` (of any length), by `.` and `e`; so with
/// an extension it ends with `.{e}`.
pub proof fn law_alternative_shape(dir: Seq<char>, stem: Seq<char>, ext: Seq<char>, i: nat)
    ensures
        ext.len() > 0 ==> candidate(dir, stem, ext, i) == dir + seq!['/'] + stem + seq!['_'] + decimal(
            i,
        ) + seq!['.'] + ext,
        ext.len() == 0 ==> candidate(dir, stem, ext, i) == dir + seq!['/'] + stem + seq!['_']
            + decimal(i),
        ext.len() > 0 ==> ({
            let c = candidate(dir, stem, ext, i);
            c.subrange(c.len() - ext.len() - 1, c.len() as int) == seq!['.'] + ext
        }),
{
    let base = dir.push('/') + stem.push('_') + decimal(i);
    assert(base =~= dir + seq!['/'] + stem + seq!['_'] + decimal(i));
    if ext.len() > 0 {
        let c = base.push('.') + ext;
        assert(c =~= dir + seq!['/'] + stem + seq!['_'] + decimal(i) + seq!['.'] + ext);
        assert(c.subrange(c.len() - ext.len() - 1, c.len() as int) =~= seq!['.'] + ext);
    }
}

/// Where the save path has an extension `e`, every alternative to it ends with `.{e}`,
/// and starts with its parent directory followed by `/`.
pub proof fn law_alternative_keeps_extension(p: Seq<char>, e: Seq<char>, i: nat)
    requires
        path_extension(p) == Some(e),
        e.len() > 0,
    ensures
        ({
            let a = alternative(p, i);
            &&& a.subrange(a.len() - e.len() - 1, a.len() as int) == seq!['.'] + e
            &&& a.subrange(0, dir_part(p).len() + 1int) == dir_part(p).push('/')
        }),
{
    law_alternative_shape(dir_part(p), stem_part(p), e, i);
    let a = alternative(p, i);
    assert(a.subrange(0, dir_part(p).len() + 1int) =~= dir_part(p).push('/'));
}

/// The parts of a save path: its parent (or nothing), its stem (or `file`), its
/// extension (or nothing), as `std::path` splits it.
pub proof fn law_save_path_parts(p: Seq<char>)
    ensures
        path_parent(p) matches Some(d) ==> dir_part(p) == d,
        path_parent(p) is None ==> dir_part(p) == Seq::<char>::empty(),
        path_file_stem(p) matches Some(x) ==> stem_part(p) == x,
        path_file_stem(p) is None ==> stem_part(p) == seq!['f', 'i', 'l', 'e'],
        path_extension(p) matches Some(e) ==> ext_part(p) == e,
        path_extension(p) is None ==> ext_part(p) == Seq::<char>::empty(),
{
}

} // verus!
