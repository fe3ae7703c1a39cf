//! Which uploaded file names count as images.
use vstd::prelude::*;

verus! {

/// Position of the last `'.'` in `s`, or `-1` when `s` holds none.
pub open spec fn last_dot_index(s: Seq<char>) -> int
    decreases s.len(),
{
    if s.len() == 0 {
        -1
    } else if s.last() == '.' {
        s.len() - 1
    } else {
        last_dot_index(s.drop_last())
    }
}

/// The last piece of `s` when it is split at every `'.'`: everything after
/// the last dot, or all of `s` when it holds no dot.
pub open spec fn last_dot_segment(s: Seq<char>) -> Seq<char> {
    s.subrange(last_dot_index(s) + 1, s.len() as int)
}

/// The extensions that the service accepts as images (compared exactly,
/// case included).
pub open spec fn is_image_extension(ext: Seq<char>) -> bool {
    ||| ext == "jpg"@
    ||| ext == "jpeg"@
    ||| ext == "png"@
    ||| ext == "gif"@
    ||| ext == "webp"@
}

/// A file name is an image name when its last dot-separated piece is one of
/// the image extensions.
pub open spec fn is_image_name(name: Seq<char>) -> bool {
    is_image_extension(last_dot_segment(name))
}

pub proof fn lemma_last_dot_index_bounds(s: Seq<char>)
    ensures
        -1 <= last_dot_index(s) < s.len(),
        last_dot_index(s) >= 0 ==> s[last_dot_index(s)] == '.',
        forall|j: int| last_dot_index(s) < j < s.len() ==> s[j] != '.',
    decreases s.len(),
{
    if s.len() > 0 && s.last() != '.' {
        lemma_last_dot_index_bounds(s.drop_last());
        assert forall|j: int| last_dot_index(s) < j < s.len() implies s[j] != '.' by {
            if j < s.len() - 1 {
                assert(s.drop_last()[j] == s[j]);
            }
        }
    }
}

/// Whether `s` holds no `'.'`.
pub open spec fn dot_free(s: Seq<char>) -> bool {
    forall|j: int| 0 <= j < s.len() ==> s[j] != '.'
}

proof fn lemma_dot_index_of_dotted(stem: Seq<char>, ext: Seq<char>)
    requires
        dot_free(ext),
    ensures
        last_dot_index(stem + "."@ + ext) == stem.len(),
    decreases ext.len(),
{
    reveal_strlit(".");
    let s = stem + "."@ + ext;
    if ext.len() == 0 {
        assert(s =~= stem.push('.'));
    } else {
        assert(s.last() == ext.last());
        assert(s.drop_last() =~= stem + "."@ + ext.drop_last());
        lemma_dot_index_of_dotted(stem, ext.drop_last());
    }
}

proof fn lemma_dot_index_of_dot_free(s: Seq<char>)
    requires
        dot_free(s),
    ensures
        last_dot_index(s) == -1,
    decreases s.len(),
{
    if s.len() > 0 {
        assert(s.drop_last().len() < s.len());
        lemma_dot_index_of_dot_free(s.drop_last());
    }
}

/// The extension of `stem.ext`, for an `ext` without dots, is `ext`
/// whatever the stem holds; so such a name is an image name exactly when
/// `ext` is an image extension.
pub proof fn law_extension_of_dotted_name(stem: Seq<char>, ext: Seq<char>)
    requires
        dot_free(ext),
    ensures
        last_dot_segment(stem + "."@ + ext) == ext,
        is_image_name(stem + "."@ + ext) == is_image_extension(ext),
{
    reveal_strlit(".");
    lemma_dot_index_of_dotted(stem, ext);
    let s = stem + "."@ + ext;
    assert(s.subrange(stem.len() + 1int, s.len() as int) =~= ext);
}

/// A name without any dot is its own extension: the bare name `png` is
/// accepted as an image name.
pub proof fn law_extension_of_dot_free_name(name: Seq<char>)
    requires
        dot_free(name),
    ensures
        last_dot_segment(name) == name,
{
    lemma_dot_index_of_dot_free(name);
    assert(name.subrange(0, name.len() as int) =~= name);
}

/// The extension is always a dot-free suffix of the name.
pub proof fn law_extension_is_dot_free_suffix(name: Seq<char>)
    ensures
        dot_free(last_dot_segment(name)),
        last_dot_segment(name).len() <= name.len(),
        name.subrange(name.len() - last_dot_segment(name).len(), name.len() as int)
            == last_dot_segment(name),
{
    lemma_last_dot_index_bounds(name);
    let k: int = last_dot_index(name) + 1;
    assert(name.len() - last_dot_segment(name).len() == k);
    assert forall|j: int| 0 <= j < last_dot_segment(name).len() implies last_dot_segment(name)[j] != '.' by {
        assert(last_dot_segment(name)[j] == name[k + j]);
    }
}

/// The accepted image names, by their extension: a name `stem.ext` whose
/// `ext` holds no dot is an image name exactly when `ext` is one of `jpg`,
/// `jpeg`, `png`, `gif` and `webp` (compared exactly), whatever the stem;
/// so `report.pdf` or `photo.JPG` is refused.
pub proof fn law_image_names_by_extension(stem: Seq<char>, ext: Seq<char>)
    requires
        dot_free(ext),
    ensures
        is_image_name(stem + "."@ + ext) <==> {
            ||| ext == "jpg"@
            ||| ext == "jpeg"@
            ||| ext == "png"@
            ||| ext == "gif"@
            ||| ext == "webp"@
        },
{
    law_extension_of_dotted_name(stem, ext);
}

/// A name without a dot is an image name exactly when the whole name is
/// one of `jpg`, `jpeg`, `png`, `gif` and `webp`.
pub proof fn law_dot_free_image_names(name: Seq<char>)
    requires
        dot_free(name),
    ensures
        is_image_name(name) <==> {
            ||| name == "jpg"@
            ||| name == "jpeg"@
            ||| name == "png"@
            ||| name == "gif"@
            ||| name == "webp"@
        },
{
    law_extension_of_dot_free_name(name);
}

/// For every name: it is an image name exactly when the part after its last
/// dot (the whole name when it has none) is one of `jpg`, `jpeg`, `png`,
/// `gif` and `webp`.
pub proof fn law_image_names(name: Seq<char>, k: int)
    requires
        -1 <= k < name.len(),
        k >= 0 ==> name[k] == '.',
        forall|j: int| k < j < name.len() ==> name[j] != '.',
    ensures
        is_image_name(name) <==> {
            let ext = name.subrange(k + 1, name.len() as int);
            ||| ext == "jpg"@
            ||| ext == "jpeg"@
            ||| ext == "png"@
            ||| ext == "gif"@
            ||| ext == "webp"@
        },
{
    reveal_strlit(".");
    let ext = name.subrange(k + 1, name.len() as int);
    assert(dot_free(ext)) by {
        assert forall|j: int| 0 <= j < ext.len() implies ext[j] != '.' by {
            assert(ext[j] == name[k + 1 + j]);
        }
    }
    if k >= 0 {
        let stem = name.subrange(0, k);
        assert(name =~= stem + "."@ + ext);
        law_image_names_by_extension(stem, ext);
    } else {
        assert(name =~= ext);
        law_dot_free_image_names(name);
    }
}

/// Copies the characters of `s` into a vector.
fn chars_of(s: &str) -> (v: Vec<char>)
    ensures
        v@ == s@,
{
    let n: usize = s.unicode_len();
    let mut v: Vec<char> = Vec::new();
    for i in 0..n
        invariant
            n == s@.len(),
            v@ == s@.subrange(0, i as int),
    {
        let c = s.get_char(i);
        v.push(c);
        assert(v@ =~= s@.subrange(0, i + 1));
    }
    assert(v@ =~= s@);
    v
}

/// Index just after the last `'.'` of `v` (0 when there is none).
fn segment_start(v: &Vec<char>) -> (k: usize)
    ensures
        k as int == last_dot_index(v@) + 1,
{
    let mut i: usize = v.len();
    assert(v@.subrange(0, i as int) =~= v@);
    while i > 0
        invariant
            i <= v.len(),
            forall|j: int| i <= j < v.len() ==> v@[j] != '.',
            last_dot_index(v@) == last_dot_index(v@.subrange(0, i as int)),
        decreases i,
    {
        if v[i - 1] == '.' {
            proof {
                let p = v@.subrange(0, i as int);
                assert(p.last() == '.');
            }
            return i;
        }
        proof {
            let p = v@.subrange(0, i as int);
            assert(p.drop_last() =~= v@.subrange(0, i - 1));
        }
        i = i - 1;
    }
    assert(v@.subrange(0, 0).len() == 0);
    0
}

/// The last dot-separated piece of `name` (what `name.split('.').last()`
/// yields).
pub fn file_extension(name: &str) -> (ext: String)
    ensures
        ext@ == last_dot_segment(name@),
{
    let v = chars_of(name);
    let k: usize = segment_start(&v);
    proof {
        lemma_last_dot_index_bounds(name@);
    }
    let n: usize = name.unicode_len();
    let piece = name.substring_char(k, n);
    String::from_str(piece)
}

/// Whether `name` is accepted as an image file name.
pub fn is_image_file_name(name: &str) -> (b: bool)
    ensures
        b == is_image_name(name@),
{
    let ext = file_extension(name);
    let jpg = String::from_str("jpg");
    let jpeg = String::from_str("jpeg");
    let png = String::from_str("png");
    let gif = String::from_str("gif");
    let webp = String::from_str("webp");
    ext == jpg || ext == jpeg || ext == png || ext == gif || ext == webp
}

} // verus!
