//! Type definitions for the SDK: which package matches the installed SDK,
//! where it is fetched from and where its library lies once unpacked.

use crate::assets::ArchiveKind;
use crate::text::{chars_of, joined};
use vstd::prelude::*;
use vstd::string::*;
use vstd::utf8::{decode_utf8, valid_utf8};

verus! {

/// The text that lossy decoding makes of bytes: valid UTF-8 decoded, and the
/// replacement character in place of what is not.
pub uninterp spec fn utf8_lossy(bytes: Seq<u8>) -> Seq<char>;

/// `String::from_utf8_lossy`. Trusted: the result is the lossy decoding of
/// `bytes`, and where `bytes` is valid UTF-8 it is the text they encode.
#[verifier::external_body]
fn decode_lossy(bytes: &[u8]) -> (r: String)
    ensures
        r@ == utf8_lossy(bytes@),
        valid_utf8(bytes@) ==> r@ == decode_utf8(bytes@),
{
    String::from_utf8_lossy(bytes).into_owned()
}

/// Whether a character is white space, as Unicode defines it.
pub open spec fn is_whitespace_spec(c: char) -> bool {
    let u = c as u32;
    ||| 0x09 <= u <= 0x0d
    ||| u == 0x20
    ||| u == 0x85
    ||| u == 0xa0
    ||| u == 0x1680
    ||| 0x2000 <= u <= 0x200a
    ||| u == 0x2028
    ||| u == 0x2029
    ||| u == 0x202f
    ||| u == 0x205f
    ||| u == 0x3000
}

/// The number of white-space characters that `s` starts with.
pub open spec fn leading_whitespace(s: Seq<char>) -> nat
    decreases s.len(),
{
    if s.len() > 0 && is_whitespace_spec(s[0]) {
        1 + leading_whitespace(s.drop_first())
    } else {
        0
    }
}

/// The number of white-space characters that `s` ends with.
pub open spec fn trailing_whitespace(s: Seq<char>) -> nat
    decreases s.len(),
{
    if s.len() > 0 && is_whitespace_spec(s.last()) {
        1 + trailing_whitespace(s.drop_last())
    } else {
        0
    }
}

/// `s` without the white space at its start.
pub open spec fn trim_start_spec(s: Seq<char>) -> Seq<char> {
    s.skip(leading_whitespace(s) as int)
}

/// `s` without the white space at its end.
pub open spec fn trim_end_spec(s: Seq<char>) -> Seq<char> {
    s.take(s.len() - trailing_whitespace(s))
}

/// `s` without the white space at its start and at its end.
pub open spec fn trim_spec(s: Seq<char>) -> Seq<char> {
    trim_end_spec(trim_start_spec(s))
}

/// Whether a character is white space, as Unicode defines it.
pub fn is_whitespace(c: char) -> (r: bool)
    ensures
        r == is_whitespace_spec(c),
{
    let u: u32 = c as u32;
    (0x09 <= u && u <= 0x0d) || u == 0x20 || u == 0x85 || u == 0xa0 || u == 0x1680 || (0x2000 <= u
        && u <= 0x200a) || u == 0x2028 || u == 0x2029 || u == 0x202f || u == 0x205f || u == 0x3000
}

/// Removes the white space at both ends of `s`.
pub fn trim(s: &str) -> (r: String)
    ensures
        r@ == trim_spec(s@),
{
    let v = chars_of(s);
    let n = v.len();
    let mut start: usize = 0;
    proof {
        assert(s@.skip(0) =~= s@);
    }
    while start < n && is_whitespace(v[start])
        invariant
            v@ == s@,
            n == v@.len(),
            start <= n,
            leading_whitespace(s@) == start + leading_whitespace(s@.skip(start as int)),
        decreases n - start,
    {
        proof {
            assert(s@.skip(start as int).drop_first() =~= s@.skip(start + 1));
        }
        start = start + 1;
    }
    assert(leading_whitespace(s@) == start);
    let ghost t = trim_start_spec(s@);
    let mut end: usize = n;
    proof {
        assert(t =~= s@.subrange(start as int, n as int));
        assert(t.take(t.len() as int) =~= t);
    }
    while end > start && is_whitespace(v[end - 1])
        invariant
            v@ == s@,
            n == v@.len(),
            start <= end <= n,
            t == s@.subrange(start as int, n as int),
            trailing_whitespace(t) == (n - end) + trailing_whitespace(t.take(end - start)),
        decreases end,
    {
        proof {
            assert(t.take(end - start).last() == v@[end - 1]);
            assert(t.take(end - start).drop_last() =~= t.take(end - start - 1));
        }
        end = end - 1;
    }
    proof {
        let u = t.take(end - start);
        if u.len() > 0 {
            assert(u.last() == v@[end - 1]);
        }
        assert(trailing_whitespace(u) == 0);
        assert(trim_spec(s@) =~= s@.subrange(start as int, end as int));
    }
    String::from_str(s.substring_char(start, end))
}

/// The SDK's version as its compiler reports it: the compiler's output,
/// decoded leniently, without the white space round it.
pub open spec fn sdk_version_spec(output: Seq<u8>) -> Seq<char> {
    trim_spec(utf8_lossy(output))
}

/// The tag under which the type definitions for `version` are published.
pub open spec fn luacats_tag_spec(version: Seq<char>) -> Seq<char> {
    "v"@ + version + "-luacats1"@
}

/// The directory that the archive for `version` unpacks into.
pub open spec fn luacats_dir_spec(version: Seq<char>) -> Seq<char> {
    "playdate-luacats-"@ + version + "-luacats1"@
}

/// The address of the source archive of `tag`.
pub open spec fn luacats_url_spec(tag: Seq<char>) -> Seq<char> {
    "https://github.com/notpeter/playdate-luacats/archive/refs/tags/"@ + tag + ".tar.gz"@
}

/// Reads the SDK's version from what `pdc --version` printed.
pub fn sdk_version(output: &[u8]) -> (r: String)
    ensures
        r@ == sdk_version_spec(output@),
        valid_utf8(output@) ==> r@ == trim_spec(decode_utf8(output@)),
{
    let text = decode_lossy(output);
    trim(text.as_str())
}

/// The tag under which the type definitions for `version` are published.
pub fn luacats_tag(version: &str) -> (r: String)
    ensures
        r@ == luacats_tag_spec(version@),
{
    let mut tag = joined("v", version);
    tag.append("-luacats1");
    tag
}

/// The directory that the archive for `version` unpacks into.
pub fn luacats_dir(version: &str) -> (r: String)
    ensures
        r@ == luacats_dir_spec(version@),
{
    let mut dir = joined("playdate-luacats-", version);
    dir.append("-luacats1");
    dir
}

/// The address of the source archive of `tag`.
pub fn luacats_url(tag: &str) -> (r: String)
    ensures
        r@ == luacats_url_spec(tag@),
{
    let mut url = joined("https://github.com/notpeter/playdate-luacats/archive/refs/tags/", tag);
    url.append(".tar.gz");
    url
}

/// A program to run for its output.
#[derive(Clone, Debug, PartialEq, Eq)]
pub struct VersionProbe {
    pub program: String,
    pub args: Vec<String>,
}

/// The download of the type definitions for one SDK version: fetch `url` and
/// unpack it into `target`, where it makes the directory `dir`.
#[derive(Clone, Debug, PartialEq, Eq)]
pub struct LuacatsPlan {
    pub tag: String,
    pub url: String,
    pub target: String,
    pub kind: ArchiveKind,
    pub dir: String,
}

/// The name of the SDK's compiler.
pub open spec fn compiler_spec() -> Seq<char> {
    "pdc"@
}

/// Whether `plan` fetches the type definitions for `version`.
pub open spec fn luacats_plan_for(plan: LuacatsPlan, version: Seq<char>) -> bool {
    &&& plan.tag@ == luacats_tag_spec(version)
    &&& plan.url@ == luacats_url_spec(luacats_tag_spec(version))
    &&& plan.target@ == "."@
    &&& plan.kind == ArchiveKind::GzipTar
    &&& plan.dir@ == luacats_dir_spec(version)
}

/// The name of the SDK's compiler.
pub fn compiler() -> (s: &'static str)
    ensures
        s@ == compiler_spec(),
{
    "pdc"
}

/// What joining gives: the path of `component` below `base`, by the rules
/// of the platform that the library is built for.
pub uninterp spec fn path_joined(base: Seq<char>, component: Seq<char>) -> Seq<char>;

/// `Path::join`, on text. Trusted: the result is the join of the two paths,
/// which depends on their text alone.
#[verifier::external_body]
fn join_path(base: &str, component: &str) -> (r: String)
    ensures
        r@ == path_joined(base@, component@),
{
    std::path::Path::new(base).join(component).to_string_lossy().into_owned()
}

/// The library of the type definitions unpacked as `dir` in `work_dir`: the
/// directory `library` below `dir` below `work_dir`.
pub open spec fn library_path_spec(work_dir: Seq<char>, dir: Seq<char>) -> Seq<char> {
    path_joined(path_joined(work_dir, dir), "library"@)
}

/// The library of the type definitions unpacked as `dir` in `work_dir`.
pub fn library_path(work_dir: &str, dir: &str) -> (r: String)
    ensures
        r@ == library_path_spec(work_dir@, dir@),
{
    let unpacked = join_path(work_dir, dir);
    join_path(unpacked.as_str(), "library")
}

/// The download of the type definitions that match the SDK `version`.
pub fn luacats_plan(version: &str) -> (plan: LuacatsPlan)
    ensures
        luacats_plan_for(plan, version@),
{
    let tag = luacats_tag(version);
    let url = luacats_url(tag.as_str());
    LuacatsPlan {
        tag,
        url,
        target: String::from_str("."),
        kind: ArchiveKind::GzipTar,
        dir: luacats_dir(version),
    }
}

} // verus!
