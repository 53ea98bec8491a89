//! Keys for the files of a static-asset bucket. Paths are `/`-separated; a
//! path is read as its components, with empty and `.` components dropped.
//! A file's key is its path relative to the bucket directory with the
//! SHA-256 digest of its (base64) contents inserted before the extension.
use vstd::prelude::*;
use vstd::string::*;
use crate::text::{join, join_spec, split_on, split_spec, starts_with, str_eq, views};

verus! {

/// Why no key could be made for a file.
#[derive(Debug, Clone, Copy, PartialEq, Eq, Structural)]
pub enum BucketError {
    /// The file does not lie under the bucket directory.
    NotInDirectory,
    /// The path names no file.
    NoFileStem,
}

pub open spec fn keep_normal(fs: Seq<Seq<char>>) -> Seq<Seq<char>>
    decreases fs.len(),
{
    if fs.len() == 0 {
        Seq::<Seq<char>>::empty()
    } else if fs.last().len() == 0 || fs.last() == "."@ {
        keep_normal(fs.drop_last())
    } else {
        keep_normal(fs.drop_last()).push(fs.last())
    }
}

/// The components of a path.
pub open spec fn components_spec(p: Seq<char>) -> Seq<Seq<char>> {
    keep_normal(split_spec(p, '/'))
}

/// The components of `p`.
pub fn path_components(p: &str) -> (r: Vec<String>)
    ensures
        views(r@) == components_spec(p@),
{
    proof {
        reveal_strlit(".");
    }
    let fields = split_on(p, '/');
    let mut out: Vec<String> = Vec::new();
    let mut i: usize = 0;
    while i < fields.len()
        invariant
            i <= fields@.len(),
            views(out@) == keep_normal(views(fields@.subrange(0, i as int))),
        decreases fields@.len() - i,
    {
        let ghost pre = views(fields@.subrange(0, i as int));
        let ghost next = views(fields@.subrange(0, i as int + 1));
        assert(next.drop_last() =~= pre);
        assert(next.last() == fields@[i as int]@);
        let f = &fields[i];
        if f.as_str().unicode_len() != 0 && !str_eq(f.as_str(), ".") {
            let ghost before = views(out@);
            out.push(f.clone());
            assert(views(out@) =~= before.push(f@));
        }
        i += 1;
    }
    assert(fields@.subrange(0, fields@.len() as int) =~= fields@);
    out
}

/// The path with `/` between components, as used in URLs.
pub open spec fn url_safe_spec(p: Seq<char>) -> Seq<char> {
    join_spec(components_spec(p), "/"@)
}

/// The path `p` with `/` between its components.
pub fn generate_url_safe_path(p: &str) -> (r: String)
    ensures
        r@ == url_safe_spec(p@),
{
    proof {
        reveal_strlit("/");
    }
    let comps = path_components(p);
    join(&comps, "/")
}

/// The index of the last `.` in `name`.
pub open spec fn last_dot(name: Seq<char>) -> Option<int>
    decreases name.len(),
{
    if name.len() == 0 {
        None
    } else if name.last() == '.' {
        Some(name.len() - 1)
    } else {
        last_dot(name.drop_last())
    }
}

/// A file name cut into stem and extension: at the last `.`, unless that
/// `.` starts the name.
pub open spec fn stem_ext(name: Seq<char>) -> (Seq<char>, Option<Seq<char>>) {
    match last_dot(name) {
        Some(k) => if k > 0 {
            (name.subrange(0, k), Some(name.subrange(k + 1, name.len() as int)))
        } else {
            (name, None)
        },
        None => (name, None),
    }
}

/// The file name with `hash` inserted before the extension.
pub open spec fn hashed_name(name: Seq<char>, hash: Seq<char>) -> Seq<char> {
    let (stem, ext) = stem_ext(name);
    stem + "."@ + hash + match ext {
        Some(e) => "."@ + e,
        None => Seq::<char>::empty(),
    }
}

/// The path `rel` (as components) with `hash` put into its file name.
pub open spec fn path_with_hash_spec(rel: Seq<Seq<char>>, hash: Seq<char>) -> Option<Seq<char>> {
    if rel.len() == 0 || rel.last() == ".."@ {
        None
    } else {
        Some(join_spec(rel.drop_last().push(hashed_name(rel.last(), hash)), "/"@))
    }
}

fn find_last_dot(name: &str) -> (r: Option<usize>)
    ensures
        match r {
            Some(k) => last_dot(name@) == Some(k as int) && k < name@.len(),
            None => last_dot(name@) is None,
        },
{
    let n = name.unicode_len();
    let mut found: Option<usize> = None;
    let mut i: usize = 0;
    while i < n
        invariant
            n == name@.len(),
            i <= n,
            match found {
                Some(k) => last_dot(name@.subrange(0, i as int)) == Some(k as int) && k < i,
                None => last_dot(name@.subrange(0, i as int)) is None,
            },
        decreases n - i,
    {
        let ghost next = name@.subrange(0, i as int + 1);
        assert(next.drop_last() =~= name@.subrange(0, i as int));
        if name.get_char(i) == '.' {
            found = Some(i);
        }
        i += 1;
    }
    assert(name@.subrange(0, n as int) =~= name@);
    found
}

fn hash_file_name(name: &str, hash: &str) -> (r: String)
    ensures
        r@ == hashed_name(name@, hash@),
{
    proof {
        reveal_strlit(".");
    }
    let n = name.unicode_len();
    let (stem, ext) = match find_last_dot(name) {
        Some(k) => if k > 0 {
            (name.substring_char(0, k).to_owned(), Some(name.substring_char(k + 1, n).to_owned()))
        } else {
            (name.to_owned(), None)
        },
        None => (name.to_owned(), None),
    };
    let mut r = stem;
    r.append(".");
    r.append(hash);
    match ext {
        Some(e) => {
            r.append(".");
            r.append(e.as_str());
        },
        None => {
            assert(r@ + Seq::<char>::empty() =~= r@);
        },
    }
    r
}

fn components_with_hash(rel: &Vec<String>, hashed_value: &str) -> (r: Result<String, BucketError>)
    ensures
        match r {
            Ok(k) => path_with_hash_spec(views(rel@), hashed_value@) == Some(k@),
            Err(e) => path_with_hash_spec(views(rel@), hashed_value@) is None && e
                == BucketError::NoFileStem,
        },
{
    proof {
        reveal_strlit("..");
        reveal_strlit("/");
    }
    let n = rel.len();
    if n == 0 {
        return Err(BucketError::NoFileStem);
    }
    assert(views(rel@).last() == rel@[n - 1]@);
    if str_eq(rel[n - 1].as_str(), "..") {
        return Err(BucketError::NoFileStem);
    }
    let mut parts: Vec<String> = Vec::new();
    let mut i: usize = 0;
    while i < n - 1
        invariant
            n == rel@.len(),
            n > 0,
            i <= n - 1,
            views(parts@) == views(rel@).subrange(0, i as int),
        decreases n - 1 - i,
    {
        let ghost before = views(parts@);
        parts.push(rel[i].clone());
        assert(views(parts@) =~= before.push(rel@[i as int]@));
        assert(views(parts@) =~= views(rel@).subrange(0, i as int + 1));
        i += 1;
    }
    let ghost before = views(parts@);
    parts.push(hash_file_name(rel[n - 1].as_str(), hashed_value));
    assert(views(parts@) =~= views(rel@).drop_last().push(
        hashed_name(views(rel@).last(), hashed_value@),
    ));
    Ok(join(&parts, "/"))
}

/// Inserts `hashed_value` before the extension of the file that `path`
/// names, and writes the result with `/` between components.
pub fn generate_path_with_hash(path: &str, hashed_value: &str) -> (r: Result<String, BucketError>)
    ensures
        match r {
            Ok(k) => path_with_hash_spec(components_spec(path@), hashed_value@) == Some(k@),
            Err(e) => path_with_hash_spec(components_spec(path@), hashed_value@) is None && e
                == BucketError::NoFileStem,
        },
{
    let comps = path_components(path);
    components_with_hash(&comps, hashed_value)
}

// ---------------------------------------------------------------- digests

/// The SHA-256 digest of the UTF-8 bytes of `s`.
pub uninterp spec fn sha256_of(s: Seq<char>) -> Seq<u8>;

/// Relies on sha2::Sha256::digest (through the Digest trait): the 32-byte
/// SHA-256 digest of the string's bytes.
#[verifier::external_body]
fn sha256_digest(value: &str) -> (r: Vec<u8>)
    ensures
        r@ == sha256_of(value@),
        r@.len() == 32,
{
    <sha2::Sha256 as sha2::Digest>::digest(value.as_bytes()).to_vec()
}

pub open spec fn hex_digit(d: nat) -> char {
    if d < 10 {
        ((d + '0' as nat) as u32) as char
    } else {
        ((d - 10 + 'a' as nat) as u32) as char
    }
}

/// Two lowercase hexadecimal digits per byte, high nibble first.
pub open spec fn hex_spec(b: Seq<u8>) -> Seq<char>
    decreases b.len(),
{
    if b.len() == 0 {
        Seq::<char>::empty()
    } else {
        hex_spec(b.drop_last()) + seq![
            hex_digit(b.last() as nat / 16),
            hex_digit(b.last() as nat % 16),
        ]
    }
}

/// Relies on data_encoding::HEXLOWER.encode: lowercase hexadecimal, two
/// digits per byte, high nibble first.
#[verifier::external_body]
fn hex_lower(bytes: &Vec<u8>) -> (r: String)
    ensures
        r@ == hex_spec(bytes@),
{
    data_encoding::HEXLOWER.encode(bytes.as_slice())
}

/// The digest written into asset keys; 64 digits, as the digest has 32 bytes.
pub open spec fn digest_spec(value: Seq<char>) -> Seq<char> {
    hex_spec(sha256_of(value))
}

/// Two digits per byte.
pub proof fn lemma_hex_len(b: Seq<u8>)
    ensures
        hex_spec(b).len() == 2 * b.len(),
    decreases b.len(),
{
    if b.len() > 0 {
        lemma_hex_len(b.drop_last());
    }
}

/// The lowercase hexadecimal SHA-256 digest of `value`: 64 digits.
pub fn get_digest(value: &str) -> (r: String)
    ensures
        r@ == digest_spec(value@),
        r@.len() == 64,
{
    let d = sha256_digest(value);
    proof {
        lemma_hex_len(d@);
    }
    hex_lower(&d)
}

// ---------------------------------------------------------------- keys

pub open spec fn is_prefix_of(a: Seq<Seq<char>>, b: Seq<Seq<char>>) -> bool {
    a.len() <= b.len() && b.subrange(0, a.len() as int) == a
}

/// The components of `path` below `directory`, when it lies under it.
pub open spec fn relative_spec(path: Seq<char>, directory: Seq<char>) -> Option<Seq<Seq<char>>> {
    let c = components_spec(path);
    let d = components_spec(directory);
    if is_prefix_of(d, c) {
        Some(c.subrange(d.len() as int, c.len() as int))
    } else {
        None
    }
}

/// URL-safe path and key of the file at `path` in the bucket `directory`,
/// for its contents `value`: without contents the key is the path itself.
pub open spec fn path_and_key_spec(
    path: Seq<char>,
    directory: Seq<char>,
    value: Option<Seq<char>>,
) -> Result<(Seq<char>, Seq<char>), BucketError> {
    match relative_spec(path, directory) {
        None => Err(BucketError::NotInDirectory),
        Some(rel) => {
            let url_safe = join_spec(rel, "/"@);
            match value {
                None => Ok((url_safe, url_safe)),
                Some(v) => match path_with_hash_spec(rel, digest_spec(v)) {
                    Some(k) => Ok((url_safe, k)),
                    None => Err(BucketError::NoFileStem),
                },
            }
        },
    }
}

pub open spec fn path_key_view(r: Result<(String, String), BucketError>) -> Result<
    (Seq<char>, Seq<char>),
    BucketError,
> {
    match r {
        Ok((p, k)) => Ok((p@, k@)),
        Err(e) => Err(e),
    }
}

/// The URL-safe path of the file at `path` relative to the bucket
/// `directory`, and its key: the same path with the digest of `value`
/// inserted before the extension.
pub fn generate_path_and_key(path: &str, directory: &str, value: Option<String>) -> (r: Result<
    (String, String),
    BucketError,
>)
    ensures
        path_key_view(r) == path_and_key_spec(
            path@,
            directory@,
            match value {
                Some(v) => Some(v@),
                None => None,
            },
        ),
{
    proof {
        reveal_strlit("/");
    }
    let c = path_components(path);
    let d = path_components(directory);
    if d.len() > c.len() {
        return Err(BucketError::NotInDirectory);
    }
    let mut i: usize = 0;
    while i < d.len()
        invariant
            views(c@) == components_spec(path@),
            views(d@) == components_spec(directory@),
            d@.len() <= c@.len(),
            i <= d@.len(),
            views(c@).subrange(0, i as int) == views(d@).subrange(0, i as int),
        decreases d@.len() - i,
    {
        assert(views(c@)[i as int] == c@[i as int]@);
        assert(views(d@)[i as int] == d@[i as int]@);
        if !str_eq(c[i].as_str(), d[i].as_str()) {
            assert(views(c@).subrange(0, d@.len() as int)[i as int] != views(d@)[i as int]);
            return Err(BucketError::NotInDirectory);
        }
        assert(views(c@).subrange(0, i as int + 1) =~= views(d@).subrange(0, i as int + 1));
        i += 1;
    }
    assert(views(d@).subrange(0, d@.len() as int) =~= views(d@));
    let mut rel: Vec<String> = Vec::new();
    let mut j: usize = d.len();
    while j < c.len()
        invariant
            d@.len() <= j <= c@.len(),
            views(rel@) == views(c@).subrange(d@.len() as int, j as int),
        decreases c@.len() - j,
    {
        let ghost before = views(rel@);
        rel.push(c[j].clone());
        assert(views(rel@) =~= before.push(c@[j as int]@));
        assert(views(rel@) =~= views(c@).subrange(d@.len() as int, j as int + 1));
        j += 1;
    }
    assert(is_prefix_of(views(d@), views(c@)));
    assert(relative_spec(path@, directory@) == Some(views(rel@)));
    let url_safe = join(&rel, "/");
    match value {
        None => {
            let k = url_safe.clone();
            Ok((url_safe, k))
        },
        Some(v) => {
            let digest = get_digest(v.as_str());
            match components_with_hash(&rel, digest.as_str()) {
                Ok(k) => Ok((url_safe, k)),
                Err(e) => Err(e),
            }
        },
    }
}

/// Names never uploaded: hidden files, Gatsby source maps and npm's vendor
/// directory.
pub open spec fn is_ignored_spec(name: Seq<char>) -> bool {
    (name.len() >= 12 && name.subrange(0, 12) == "component---"@) || (name.len() >= 1 && name[0]
        == '.') || name == "node_modules"@
}

/// Whether the directory entry named `file_name` is left out of the upload.
pub fn is_ignored(file_name: &str) -> (r: bool)
    ensures
        r == is_ignored_spec(file_name@),
{
    proof {
        reveal_strlit("component---");
        reveal_strlit(".");
        reveal_strlit("node_modules");
    }
    if starts_with(file_name, "component---") {
        return true;
    }
    if starts_with(file_name, ".") {
        assert(file_name@.subrange(0, 1)[0] == file_name@[0]);
        return true;
    }
    assert(!(file_name@.len() >= 1 && file_name@[0] == '.')) by {
        if file_name@.len() >= 1 && file_name@[0] == '.' {
            assert(file_name@.subrange(0, 1) =~= "."@);
        }
    }
    str_eq(file_name, "node_modules")
}

} // verus!
