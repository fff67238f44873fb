//! The container format of shader sources.
//!
//! A file holds one or more stages. A stage is a name, `Vertex`, `Fragment`
//! or `Geometry`, followed by the stage's source between `<` and `>`:
//!
//! ```text
//! Vertex < void main() {} >
//! Fragment < void main() {} >
//! ```
//!
//! Spaces, tabs and line breaks may stand before the name, around `<` and
//! after `>`. The source starts at the first byte after `<` that is not
//! white space and ends before the first `>`. Reading stops in front of the
//! first thing that is not a stage. When a stage occurs twice, the later
//! one counts.
use vstd::prelude::*;
use vstd::slice::slice_subrange;
use vstd::string::StringSliceAdditionalSpecFns;
use vstd::utf8::valid_utf8;

verus! {

/// The sources of the stages of one shader.
#[derive(Clone, Copy, PartialEq, Eq, Debug)]
pub struct ShaderSrc<'a> {
    pub vertex: &'a str,
    pub fragment: &'a str,
    pub geometry: Option<&'a str>,
}

/// The stage a source belongs to.
#[derive(Clone, Copy, PartialEq, Eq, Structural, Debug)]
pub enum ShaderStage {
    Vertex,
    Fragment,
    Geometry,
}

/// The sources found in a file, as bytes. A vertex or fragment stage that
/// does not occur has an empty source.
pub struct Stages {
    pub vertex: Seq<u8>,
    pub fragment: Seq<u8>,
    pub geometry: Option<Seq<u8>>,
}

/// Where a stage lies in a file.
pub struct StageSpan {
    pub name_start: int,
    pub name_end: int,
    pub body_start: int,
    pub body_end: int,
    /// Where the next stage starts, if there is one.
    pub next: int,
}

pub open spec fn is_space(byte: u8) -> bool {
    byte == 0x20 || byte == 0x09 || byte == 0x0d || byte == 0x0a
}

pub open spec fn is_alphanumeric(byte: u8) -> bool {
    (0x30 <= byte <= 0x39) || (0x41 <= byte <= 0x5a) || (0x61 <= byte <= 0x7a)
}

/// The first position from `pos` on that holds no white space, or the end.
pub open spec fn skip_spaces(s: Seq<u8>, pos: int) -> int
    decreases s.len() - pos,
{
    if 0 <= pos < s.len() && is_space(s[pos]) {
        skip_spaces(s, pos + 1)
    } else {
        pos
    }
}

/// The first position from `pos` on that holds no letter or digit, or the
/// end.
pub open spec fn word_end(s: Seq<u8>, pos: int) -> int
    decreases s.len() - pos,
{
    if 0 <= pos < s.len() && is_alphanumeric(s[pos]) {
        word_end(s, pos + 1)
    } else {
        pos
    }
}

/// The first position from `pos` on that holds `>`, or the end.
pub open spec fn find_close(s: Seq<u8>, pos: int) -> int
    decreases s.len() - pos,
{
    if 0 <= pos < s.len() && s[pos] != 0x3e {
        find_close(s, pos + 1)
    } else {
        pos
    }
}

/// The stage that starts at `pos`, if there is one: a name of at least one
/// letter or digit, `<`, and a `>` somewhere after it.
pub open spec fn stage_at(s: Seq<u8>, pos: int) -> Option<StageSpan> {
    let name_start = skip_spaces(s, pos);
    let name_end = word_end(s, name_start);
    let open = skip_spaces(s, name_end);
    if name_end == name_start || open >= s.len() || s[open] != 0x3c {
        None
    } else {
        let body_start = skip_spaces(s, open + 1);
        let body_end = find_close(s, body_start);
        if body_end >= s.len() {
            None
        } else {
            Some(
                StageSpan {
                    name_start,
                    name_end,
                    body_start,
                    body_end,
                    next: skip_spaces(s, body_end + 1),
                },
            )
        }
    }
}

/// The bytes of `Vertex`.
pub open spec fn vertex_name() -> Seq<u8> {
    seq![0x56u8, 0x65u8, 0x72u8, 0x74u8, 0x65u8, 0x78u8]
}

/// The bytes of `Fragment`.
pub open spec fn fragment_name() -> Seq<u8> {
    seq![0x46u8, 0x72u8, 0x61u8, 0x67u8, 0x6du8, 0x65u8, 0x6eu8, 0x74u8]
}

/// The bytes of `Geometry`.
pub open spec fn geometry_name() -> Seq<u8> {
    seq![0x47u8, 0x65u8, 0x6fu8, 0x6du8, 0x65u8, 0x74u8, 0x72u8, 0x79u8]
}

/// The stage a name stands for.
pub open spec fn stage_named(name: Seq<u8>) -> Option<ShaderStage> {
    if name == vertex_name() {
        Some(ShaderStage::Vertex)
    } else if name == fragment_name() {
        Some(ShaderStage::Fragment)
    } else if name == geometry_name() {
        Some(ShaderStage::Geometry)
    } else {
        None
    }
}

/// The sources after one more stage was read.
pub open spec fn with_stage(found: Stages, stage: ShaderStage, body: Seq<u8>) -> Stages {
    match stage {
        ShaderStage::Vertex => Stages { vertex: body, ..found },
        ShaderStage::Fragment => Stages { fragment: body, ..found },
        ShaderStage::Geometry => Stages { geometry: Some(body), ..found },
    }
}

pub proof fn lemma_skip_spaces_bounds(s: Seq<u8>, pos: int)
    requires
        0 <= pos <= s.len(),
    ensures
        pos <= skip_spaces(s, pos) <= s.len(),
    decreases s.len() - pos,
{
    if pos < s.len() && is_space(s[pos]) {
        lemma_skip_spaces_bounds(s, pos + 1);
    }
}

pub proof fn lemma_word_end_bounds(s: Seq<u8>, pos: int)
    requires
        0 <= pos <= s.len(),
    ensures
        pos <= word_end(s, pos) <= s.len(),
    decreases s.len() - pos,
{
    if pos < s.len() && is_alphanumeric(s[pos]) {
        lemma_word_end_bounds(s, pos + 1);
    }
}

pub proof fn lemma_find_close_bounds(s: Seq<u8>, pos: int)
    requires
        0 <= pos <= s.len(),
    ensures
        pos <= find_close(s, pos) <= s.len(),
    decreases s.len() - pos,
{
    if pos < s.len() && s[pos] != 0x3e {
        lemma_find_close_bounds(s, pos + 1);
    }
}

/// A stage lies within the file, its parts follow one another, and the
/// next stage starts behind it.
pub proof fn lemma_stage_bounds(s: Seq<u8>, pos: int)
    requires
        0 <= pos <= s.len(),
    ensures
        stage_at(s, pos) matches Some(span) ==> {
            &&& pos <= span.name_start < span.name_end < span.body_start <= span.body_end
                < span.next <= s.len()
        },
{
    lemma_skip_spaces_bounds(s, pos);
    let name_start = skip_spaces(s, pos);
    lemma_word_end_bounds(s, name_start);
    let name_end = word_end(s, name_start);
    lemma_skip_spaces_bounds(s, name_end);
    let open = skip_spaces(s, name_end);
    if open < s.len() {
        lemma_skip_spaces_bounds(s, open + 1);
        let body_start = skip_spaces(s, open + 1);
        lemma_find_close_bounds(s, body_start);
        let body_end = find_close(s, body_start);
        if body_end < s.len() {
            lemma_skip_spaces_bounds(s, body_end + 1);
        }
    }
}

/// The sources found from `pos` on, added to those in `found`. Reading
/// stops in front of the first thing that is not a stage. There is no
/// result when a stage has an unknown name or a source that is not UTF-8.
pub open spec fn parse_stages(s: Seq<u8>, pos: int, found: Stages) -> Option<Stages>
    decreases s.len() - pos,
    when 0 <= pos <= s.len()
    via parse_stages_decreases
{
    match stage_at(s, pos) {
        None => Some(found),
        Some(span) => {
            let body = s.subrange(span.body_start, span.body_end);
            match stage_named(s.subrange(span.name_start, span.name_end)) {
                Some(stage) if valid_utf8(body) => parse_stages(
                    s,
                    span.next,
                    with_stage(found, stage, body),
                ),
                _ => None,
            }
        },
    }
}

#[via_fn]
proof fn parse_stages_decreases(s: Seq<u8>, pos: int, found: Stages) {
    lemma_stage_bounds(s, pos);
}

/// The sources of a file that holds no stage yet.
pub open spec fn no_stages() -> Stages {
    Stages { vertex: Seq::empty(), fragment: Seq::empty(), geometry: None }
}

/// The sources of a file. There is no result when the file does not start
/// with a stage, or holds a stage with an unknown name or with a source
/// that is not UTF-8.
pub open spec fn parse(s: Seq<u8>) -> Option<Stages> {
    if stage_at(s, 0) is None {
        None
    } else {
        parse_stages(s, 0, no_stages())
    }
}

impl<'a> ShaderSrc<'a> {
    /// Whether the strings hold exactly the given sources.
    pub open spec fn holds(self, stages: Stages) -> bool {
        &&& self.vertex.spec_bytes() == stages.vertex
        &&& self.fragment.spec_bytes() == stages.fragment
        &&& match self.geometry {
            Some(geometry) => stages.geometry == Some(geometry.spec_bytes()),
            None => stages.geometry is None,
        }
    }
}

/// Decodes bytes with `core::str::from_utf8`, which accepts exactly the
/// byte sequences that are UTF-8 and then returns the same bytes as a
/// string.
#[verifier::external_body]
fn from_utf8<'a>(bytes: &'a [u8]) -> (text: Option<&'a str>)
    ensures
        text is Some <==> valid_utf8(bytes@),
        text matches Some(t) ==> t.spec_bytes() == bytes@,
{
    core::str::from_utf8(bytes).ok()
}

fn space(byte: u8) -> (r: bool)
    ensures
        r == is_space(byte),
{
    byte == 0x20 || byte == 0x09 || byte == 0x0d || byte == 0x0a
}

fn alphanumeric(byte: u8) -> (r: bool)
    ensures
        r == is_alphanumeric(byte),
{
    (0x30 <= byte && byte <= 0x39) || (0x41 <= byte && byte <= 0x5a) || (0x61 <= byte && byte
        <= 0x7a)
}

fn skip(slice: &[u8], pos: usize) -> (end: usize)
    requires
        pos <= slice@.len(),
    ensures
        end == skip_spaces(slice@, pos as int),
        pos <= end <= slice@.len(),
{
    let mut i: usize = pos;
    while i < slice.len() && space(slice[i])
        invariant
            pos <= i <= slice@.len(),
            skip_spaces(slice@, pos as int) == skip_spaces(slice@, i as int),
        decreases slice@.len() - i,
    {
        i += 1;
    }
    i
}

fn word(slice: &[u8], pos: usize) -> (end: usize)
    requires
        pos <= slice@.len(),
    ensures
        end == word_end(slice@, pos as int),
        pos <= end <= slice@.len(),
{
    let mut i: usize = pos;
    while i < slice.len() && alphanumeric(slice[i])
        invariant
            pos <= i <= slice@.len(),
            word_end(slice@, pos as int) == word_end(slice@, i as int),
        decreases slice@.len() - i,
    {
        i += 1;
    }
    i
}

fn close(slice: &[u8], pos: usize) -> (end: usize)
    requires
        pos <= slice@.len(),
    ensures
        end == find_close(slice@, pos as int),
        pos <= end <= slice@.len(),
{
    let mut i: usize = pos;
    while i < slice.len() && slice[i] != 0x3e
        invariant
            pos <= i <= slice@.len(),
            find_close(slice@, pos as int) == find_close(slice@, i as int),
        decreases slice@.len() - i,
    {
        i += 1;
    }
    i
}

/// The stage that starts at `pos`: the bounds of its name, the bounds of
/// its source, and where the next stage starts.
fn stage(slice: &[u8], pos: usize) -> (found: Option<(usize, usize, usize, usize, usize)>)
    requires
        pos <= slice@.len(),
    ensures
        match found {
            Some((name_start, name_end, body_start, body_end, next)) => stage_at(
                slice@,
                pos as int,
            ) == Some(
                StageSpan {
                    name_start: name_start as int,
                    name_end: name_end as int,
                    body_start: body_start as int,
                    body_end: body_end as int,
                    next: next as int,
                },
            ),
            None => stage_at(slice@, pos as int) is None,
        },
{
    let name_start = skip(slice, pos);
    let name_end = word(slice, name_start);
    let open = skip(slice, name_end);
    if name_end == name_start || open >= slice.len() || slice[open] != 0x3c {
        return None;
    }
    let body_start = skip(slice, open + 1);
    let body_end = close(slice, body_start);
    if body_end >= slice.len() {
        return None;
    }
    let next = skip(slice, body_end + 1);
    Some((name_start, name_end, body_start, body_end, next))
}

/// The stage a name stands for.
fn named(name: &[u8]) -> (stage: Option<ShaderStage>)
    ensures
        stage == stage_named(name@),
{
    if name.len() == 6 && name[0] == 0x56 && name[1] == 0x65 && name[2] == 0x72 && name[3] == 0x74
        && name[4] == 0x65 && name[5] == 0x78 {
        assert(name@ =~= vertex_name());
        Some(ShaderStage::Vertex)
    } else if name.len() == 8 && name[0] == 0x46 && name[1] == 0x72 && name[2] == 0x61 && name[3]
        == 0x67 && name[4] == 0x6d && name[5] == 0x65 && name[6] == 0x6e && name[7] == 0x74 {
        assert(name@ =~= fragment_name());
        assert(name@ != vertex_name());
        Some(ShaderStage::Fragment)
    } else if name.len() == 8 && name[0] == 0x47 && name[1] == 0x65 && name[2] == 0x6f && name[3]
        == 0x6d && name[4] == 0x65 && name[5] == 0x74 && name[6] == 0x72 && name[7] == 0x79 {
        assert(name@ =~= geometry_name());
        assert(name@ != vertex_name());
        assert(name@[0] != fragment_name()[0]);
        Some(ShaderStage::Geometry)
    } else {
        assert(name@ == vertex_name() ==> name@.len() == 6 && name@[0] == 0x56 && name@[1] == 0x65
            && name@[2] == 0x72 && name@[3] == 0x74 && name@[4] == 0x65 && name@[5] == 0x78);
        assert(name@ == fragment_name() ==> name@.len() == 8 && name@[0] == 0x46 && name@[1]
            == 0x72 && name@[2] == 0x61 && name@[3] == 0x67 && name@[4] == 0x6d && name@[5] == 0x65
            && name@[6] == 0x6e && name@[7] == 0x74);
        assert(name@ == geometry_name() ==> name@.len() == 8 && name@[0] == 0x47 && name@[1]
            == 0x65 && name@[2] == 0x6f && name@[3] == 0x6d && name@[4] == 0x65 && name@[5] == 0x74
            && name@[6] == 0x72 && name@[7] == 0x79);
        None
    }
}

/// Reads the stages of a shader file. Nothing is returned when the file
/// does not start with a stage, or holds a stage with an unknown name or
/// with a source that is not UTF-8.
pub fn try_parser<'a>(slice: &'a [u8]) -> (src: Option<ShaderSrc<'a>>)
    ensures
        src is Some <==> parse(slice@) is Some,
        src matches Some(found) ==> found.holds(parse(slice@).unwrap()),
{
    let mut vertex: &'a str = "";
    let mut fragment: &'a str = "";
    let mut geometry: Option<&'a str> = None;
    proof {
        reveal_strlit("");
        assert(""@ =~= Seq::<char>::empty());
        assert("".spec_bytes() =~= Seq::<u8>::empty());
    }
    let ghost mut found = no_stages();
    let mut pos: usize = 0;
    let mut stages: usize = 0;
    loop
        invariant
            pos <= slice@.len(),
            stages == 0 ==> pos == 0,
            stages > 0 ==> stage_at(slice@, 0) is Some,
            parse_stages(slice@, 0, no_stages()) == parse_stages(slice@, pos as int, found),
            (ShaderSrc { vertex, fragment, geometry }).holds(found),
        ensures
            stages == 0 ==> stage_at(slice@, 0) is None,
            stages > 0 ==> stage_at(slice@, 0) is Some,
            parse_stages(slice@, 0, no_stages()) == Some(found),
            (ShaderSrc { vertex, fragment, geometry }).holds(found),
        decreases slice@.len() - pos,
    {
        proof {
            lemma_stage_bounds(slice@, pos as int);
        }
        match stage(slice, pos) {
            None => {
                break ;
            },
            Some((name_start, name_end, body_start, body_end, next)) => {
                let body = slice_subrange(slice, body_start, body_end);
                let kind = match named(slice_subrange(slice, name_start, name_end)) {
                    Some(kind) => kind,
                    None => {
                        return None;
                    },
                };
                let text = match from_utf8(body) {
                    Some(text) => text,
                    None => {
                        return None;
                    },
                };
                match kind {
                    ShaderStage::Vertex => {
                        vertex = text;
                    },
                    ShaderStage::Fragment => {
                        fragment = text;
                    },
                    ShaderStage::Geometry => {
                        geometry = Some(text);
                    },
                }
                proof {
                    found = with_stage(found, kind, body@);
                }
                if stages < usize::MAX {
                    stages += 1;
                }
                pos = next;
            },
        }
    }
    if stages == 0 {
        None
    } else {
        Some(ShaderSrc { vertex, fragment, geometry })
    }
}

/// Reads the stages of a shader file that starts with a stage and in which
/// every stage has a known name and a source in UTF-8.
pub fn parser<'a>(slice: &'a [u8]) -> (src: ShaderSrc<'a>)
    requires
        parse(slice@) is Some,
    ensures
        src.holds(parse(slice@).unwrap()),
{
    match try_parser(slice) {
        Some(src) => src,
        None => ShaderSrc { vertex: "", fragment: "", geometry: None },
    }
}

} // verus!
