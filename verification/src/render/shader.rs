//! The sources of a shader program, and the reading of a combined source.
//!
//! A combined source holds several shaders in one text. Each starts with
//! the tag `#type `, the name of its kind and a space or a line break:
//!
//! ```text
//! #type vertex
//! void main() { .. }
//! #type fragment
//! void main() { .. }
//! ```

use vstd::prelude::*;
use vstd::std_specs::iter::IteratorSpec;
use vstd::string::StrSliceExecFns;
use crate::render::gl::ShaderType;

verus! {

broadcast use vstd::string::next_postcondition;

/// Why the sources of a shader program could not be had.
#[derive(Debug, PartialEq, Eq)]
pub enum ShaderError {
    /// A section of a combined source does not say of which kind it is.
    MissingTypeHeader,
    /// A section of a combined source names a kind that is not known.
    InvalidTypeHeader(String),
    /// The program has no shader of the kind with this OpenGL number.
    MissingShaderType(u32),
}

/// A `ShaderError` as contracts see it.
pub ghost enum ShaderFault {
    MissingTypeHeader,
    InvalidTypeHeader(Seq<char>),
    MissingShaderType(u32),
}

impl View for ShaderError {
    type V = ShaderFault;

    open spec fn view(&self) -> ShaderFault {
        match *self {
            ShaderError::MissingTypeHeader => ShaderFault::MissingTypeHeader,
            ShaderError::InvalidTypeHeader(header) => ShaderFault::InvalidTypeHeader(header@),
            ShaderError::MissingShaderType(kind) => ShaderFault::MissingShaderType(kind),
        }
    }
}

/// The sources that a program has so far.
pub ghost struct ProgramSources {
    /// The source of the vertex shader, if there is one.
    pub vertex: Option<Seq<char>>,
    /// The source of the fragment shader, if there is one.
    pub fragment: Option<Seq<char>>,
}

/// The tag that starts a section of a combined source.
pub open spec fn type_tag() -> Seq<char> {
    seq!['#', 't', 'y', 'p', 'e', ' ']
}

/// The name of the vertex shader's kind.
pub open spec fn vertex_word() -> Seq<char> {
    seq!['v', 'e', 'r', 't', 'e', 'x']
}

/// The name of the fragment shader's kind.
pub open spec fn fragment_word() -> Seq<char> {
    seq!['f', 'r', 'a', 'g', 'm', 'e', 'n', 't']
}

/// Whether `c` is white space, as Unicode defines it.
pub open spec fn is_whitespace(c: char) -> bool {
    let code = c as u32;
    ||| 0x09 <= code <= 0x0D
    ||| code == 0x20
    ||| code == 0x85
    ||| code == 0xA0
    ||| code == 0x1680
    ||| 0x2000 <= code <= 0x200A
    ||| code == 0x2028
    ||| code == 0x2029
    ||| code == 0x202F
    ||| code == 0x205F
    ||| code == 0x3000
}

/// Whether `c` ends the name of a kind: a space or a line break.
pub open spec fn is_break(c: char) -> bool {
    c == ' ' || c == '\n'
}

/// Whether `s` holds nothing but white space.
pub open spec fn is_blank(s: Seq<char>) -> bool {
    forall|k: int| 0 <= k < s.len() ==> is_whitespace(#[trigger] s[k])
}

/// Whether the tag stands in `s` at `at`.
pub open spec fn tag_at(s: Seq<char>, at: int) -> bool {
    0 <= at && at + 6 <= s.len() && s.subrange(at, at + 6) == type_tag()
}

/// Where the first tag at or after `from` stands in `s`: `s.len()` if there is
/// none.
pub open spec fn next_tag(s: Seq<char>, from: int) -> int
    decreases s.len() - from,
{
    if from < 0 || from + 6 > s.len() {
        s.len() as int
    } else if tag_at(s, from) {
        from
    } else {
        next_tag(s, from + 1)
    }
}

/// Where the first space or line break at or after `from` stands in `s`:
/// `s.len()` if there is none.
pub open spec fn first_break(s: Seq<char>, from: int) -> int
    decreases s.len() - from,
{
    if from < 0 || from >= s.len() {
        s.len() as int
    } else if is_break(s[from]) {
        from
    } else {
        first_break(s, from + 1)
    }
}

/// Where the white space that starts at `from` ends in `s`.
pub open spec fn skip_whitespace(s: Seq<char>, from: int) -> int
    decreases s.len() - from,
{
    if 0 <= from < s.len() && is_whitespace(s[from]) {
        skip_whitespace(s, from + 1)
    } else {
        from
    }
}

/// Where the white space that ends before `to` starts in `s`.
pub open spec fn drop_whitespace(s: Seq<char>, to: int) -> int
    decreases to,
{
    if 0 < to <= s.len() && is_whitespace(s[to - 1]) {
        drop_whitespace(s, to - 1)
    } else {
        to
    }
}

/// `s` without the white space at its start and at its end.
pub open spec fn trimmed(s: Seq<char>) -> Seq<char> {
    let from = skip_whitespace(s, 0);
    let to = drop_whitespace(s, s.len() as int);
    if from < to {
        s.subrange(from, to)
    } else {
        Seq::empty()
    }
}

/// What one section of a combined source adds to the sources. A blank
/// section adds nothing. Any other names its kind up to the first space or
/// line break, white space around the name not counting, and the rest is the
/// shader's source, which takes the place of an earlier one of that kind.
pub open spec fn read_section(sources: ProgramSources, section: Seq<char>) -> Result<
    ProgramSources,
    ShaderFault,
> {
    let end_of_header = first_break(section, 0);
    if is_blank(section) {
        Ok(sources)
    } else if end_of_header >= section.len() {
        Err(ShaderFault::MissingTypeHeader)
    } else {
        let header = trimmed(section.subrange(0, end_of_header));
        let source = section.subrange(end_of_header + 1, section.len() as int);
        if header == vertex_word() {
            Ok(ProgramSources { vertex: Some(source), ..sources })
        } else if header == fragment_word() {
            Ok(ProgramSources { fragment: Some(source), ..sources })
        } else {
            Err(ShaderFault::InvalidTypeHeader(header))
        }
    }
}

/// What the combined source `s`, read from `start` on, makes of the
/// sources. The text is cut at every tag, and the sections between the tags
/// are read in turn until one is at fault.
pub open spec fn read_combo(sources: ProgramSources, s: Seq<char>, start: int) -> Result<
    ProgramSources,
    ShaderFault,
>
    decreases s.len() - start,
{
    let end = next_tag(s, start);
    if start < 0 || end < start || end > s.len() {
        Ok(sources)
    } else {
        match read_section(sources, s.subrange(start, end)) {
            Err(fault) => Err(fault),
            Ok(read) => if end + 6 <= s.len() {
                read_combo(read, s, end + 6)
            } else {
                Ok(read)
            },
        }
    }
}

/// Whether `c` is white space, as Unicode defines it.
pub fn is_whitespace_char(c: char) -> (white: bool)
    ensures
        white == is_whitespace(c),
{
    let code = c as u32;
    (0x09 <= code && code <= 0x0D) || code == 0x20 || code == 0x85 || code == 0xA0 || code
        == 0x1680 || (0x2000 <= code && code <= 0x200A) || code == 0x2028 || code == 0x2029
        || code == 0x202F || code == 0x205F || code == 0x3000
}

/// The characters of `source`.
fn characters(source: &str) -> (chars: Vec<char>)
    ensures
        chars@ == source@,
{
    let mut chars: Vec<char> = Vec::new();
    let mut rest = source.chars();
    loop
        invariant
            chars@ + rest.remaining() == source@,
            rest.obeys_prophetic_iter_laws(),
            rest.decrease() is Some,
        decreases rest.decrease()->0,
    {
        let ghost before = rest.remaining();
        match rest.next() {
            Some(c) => {
                chars.push(c);
                assert(chars@ + rest.remaining() =~= source@);
            },
            None => {
                assert(chars@ =~= source@);
                return chars;
            },
        }
    }
}

/// Whether the tag stands in `chars` at `at`.
fn is_tag_at(chars: &Vec<char>, at: usize) -> (found: bool)
    requires
        at <= chars@.len(),
    ensures
        found == tag_at(chars@, at as int),
{
    if chars.len() - at < 6 {
        return false;
    }
    let found = chars[at] == '#' && chars[at + 1] == 't' && chars[at + 2] == 'y' && chars[at + 3]
        == 'p' && chars[at + 4] == 'e' && chars[at + 5] == ' ';
    proof {
        let piece = chars@.subrange(at as int, at + 6);
        if found {
            assert(piece =~= type_tag());
        } else {
            assert(piece[0] == chars@[at as int]);
            assert(piece[1] == chars@[at + 1]);
            assert(piece[2] == chars@[at + 2]);
            assert(piece[3] == chars@[at + 3]);
            assert(piece[4] == chars@[at + 4]);
            assert(piece[5] == chars@[at + 5]);
        }
    }
    found
}

/// Where the first tag at or after `from` stands: `chars.len()` if there is
/// none.
fn find_tag(chars: &Vec<char>, from: usize) -> (at: usize)
    requires
        from <= chars@.len(),
    ensures
        at == next_tag(chars@, from as int),
        from <= at <= chars@.len(),
        at < chars@.len() ==> at + 6 <= chars@.len(),
{
    let mut at = from;
    while at < chars.len()
        invariant
            from <= at <= chars@.len(),
            next_tag(chars@, from as int) == next_tag(chars@, at as int),
        decreases chars@.len() - at,
    {
        if is_tag_at(chars, at) {
            return at;
        }
        at += 1;
    }
    at
}

/// Whether `chars[from..to]` holds nothing but white space.
fn is_blank_range(chars: &Vec<char>, from: usize, to: usize) -> (blank: bool)
    requires
        from <= to <= chars@.len(),
    ensures
        blank == is_blank(chars@.subrange(from as int, to as int)),
{
    let ghost section = chars@.subrange(from as int, to as int);
    let mut at = from;
    while at < to
        invariant
            from <= at <= to <= chars@.len(),
            section == chars@.subrange(from as int, to as int),
            forall|k: int| 0 <= k < at - from ==> is_whitespace(#[trigger] section[k]),
        decreases to - at,
    {
        if !is_whitespace_char(chars[at]) {
            assert(!is_whitespace(section[at - from]));
            return false;
        }
        at += 1;
    }
    true
}

/// Where the first space or line break stands in `chars[from..to]`: `to` if
/// there is none.
fn find_break(chars: &Vec<char>, from: usize, to: usize) -> (at: usize)
    requires
        from <= to <= chars@.len(),
    ensures
        from <= at <= to,
        at - from == first_break(chars@.subrange(from as int, to as int), 0),
{
    let ghost section = chars@.subrange(from as int, to as int);
    let mut at = from;
    while at < to
        invariant
            from <= at <= to <= chars@.len(),
            section == chars@.subrange(from as int, to as int),
            first_break(section, 0) == first_break(section, at - from),
        decreases to - at,
    {
        let c = chars[at];
        assert(c == section[at - from]);
        if c == ' ' || c == '\n' {
            return at;
        }
        at += 1;
    }
    at
}

/// The bounds of `chars[from..to]` without the white space at its start and
/// at its end.
fn trim_range(chars: &Vec<char>, from: usize, to: usize) -> (bounds: (usize, usize))
    requires
        from <= to <= chars@.len(),
    ensures
        from <= bounds.0 <= bounds.1 <= to,
        chars@.subrange(bounds.0 as int, bounds.1 as int) == trimmed(
            chars@.subrange(from as int, to as int),
        ),
{
    let ghost piece = chars@.subrange(from as int, to as int);
    let mut first = from;
    while first < to && is_whitespace_char(chars[first])
        invariant
            from <= first <= to <= chars@.len(),
            piece == chars@.subrange(from as int, to as int),
            skip_whitespace(piece, 0) == skip_whitespace(piece, first - from),
        decreases to - first,
    {
        assert(chars@[first as int] == piece[first - from]);
        first += 1;
    }
    assert(skip_whitespace(piece, 0) == first - from) by {
        if first < to {
            assert(chars@[first as int] == piece[first - from]);
        }
    }
    let mut last = to;
    while last > from && is_whitespace_char(chars[last - 1])
        invariant
            from <= last <= to <= chars@.len(),
            piece == chars@.subrange(from as int, to as int),
            drop_whitespace(piece, piece.len() as int) == drop_whitespace(piece, last - from),
        decreases last,
    {
        assert(chars@[last - 1] == piece[last - 1 - from]);
        last -= 1;
    }
    assert(drop_whitespace(piece, piece.len() as int) == last - from) by {
        if last > from {
            assert(chars@[last - 1] == piece[last - 1 - from]);
        }
    }
    if first < last {
        assert(chars@.subrange(first as int, last as int) =~= piece.subrange(
            first - from,
            last - from,
        ));
        (first, last)
    } else {
        assert(chars@.subrange(first as int, first as int) =~= Seq::<char>::empty());
        (first, first)
    }
}

/// Whether `chars[from..to]` is `word`.
fn range_is(chars: &Vec<char>, from: usize, to: usize, word: &[char]) -> (same: bool)
    requires
        from <= to <= chars@.len(),
    ensures
        same == (chars@.subrange(from as int, to as int) == word@),
{
    let ghost piece = chars@.subrange(from as int, to as int);
    if to - from != word.len() {
        return false;
    }
    let mut k: usize = 0;
    while k < word.len()
        invariant
            k <= word@.len(),
            from <= to <= chars@.len(),
            to - from == word@.len(),
            piece == chars@.subrange(from as int, to as int),
            forall|j: int| 0 <= j < k ==> #[trigger] piece[j] == word@[j],
        decreases word@.len() - k,
    {
        if chars[from + k] != word[k] {
            assert(piece[k as int] != word@[k as int]);
            return false;
        }
        k += 1;
    }
    assert(piece =~= word@);
    true
}

/// Collects the sources of a shader program.
pub struct ProgramBuilder {
    vertex: Option<String>,
    fragment: Option<String>,
}

impl View for ProgramBuilder {
    type V = ProgramSources;

    closed spec fn view(&self) -> ProgramSources {
        ProgramSources {
            vertex: match self.vertex {
                Some(source) => Some(source@),
                None => None,
            },
            fragment: match self.fragment {
                Some(source) => Some(source@),
                None => None,
            },
        }
    }
}

/// Whether `result` is what the contract `expected` asks for.
pub open spec fn is_outcome(
    result: Result<ProgramBuilder, ShaderError>,
    expected: Result<ProgramSources, ShaderFault>,
) -> bool {
    match (result, expected) {
        (Ok(builder), Ok(sources)) => builder@ == sources,
        (Err(error), Err(fault)) => error@ == fault,
        _ => false,
    }
}

impl ProgramBuilder {
    /// No sources yet.
    pub fn new() -> (builder: Self)
        ensures
            builder@ == (ProgramSources { vertex: None, fragment: None }),
    {
        Self { vertex: None, fragment: None }
    }

    /// Sets the source of the vertex shader.
    pub fn with_vertex(self, source: &str) -> (builder: Self)
        ensures
            builder@ == (ProgramSources { vertex: Some(source@), ..self@ }),
    {
        Self { vertex: Some(source.to_owned()), fragment: self.fragment }
    }

    /// Sets the source of the fragment shader.
    pub fn with_fragment(self, source: &str) -> (builder: Self)
        ensures
            builder@ == (ProgramSources { fragment: Some(source@), ..self@ }),
    {
        Self { vertex: self.vertex, fragment: Some(source.to_owned()) }
    }

    /// Source contains multiple shaders marked with their `#type` tags.
    ///
    /// Each section sets the source of its kind. The first section at fault
    /// ends the reading with its error.
    pub fn with_combo(self, source: &str) -> (result: Result<Self, ShaderError>)
        ensures
            is_outcome(result, read_combo(self@, source@, 0)),
    {
        let chars = characters(source);
        let mut builder = self;
        let mut start: usize = 0;
        loop
            invariant
                chars@ == source@,
                start <= chars@.len(),
                read_combo(self@, source@, 0) == read_combo(builder@, source@, start as int),
            decreases chars@.len() - start,
        {
            let end = find_tag(&chars, start);
            let ghost section = chars@.subrange(start as int, end as int);
            if !is_blank_range(&chars, start, end) {
                let end_of_type_header = find_break(&chars, start, end);
                if end_of_type_header == end {
                    return Err(ShaderError::MissingTypeHeader);
                }
                let (first, last) = trim_range(&chars, start, end_of_type_header);
                proof {
                    assert(section.subrange(0, end_of_type_header - start) =~= chars@.subrange(
                        start as int,
                        end_of_type_header as int,
                    ));
                    assert(section.subrange(
                        end_of_type_header + 1 - start,
                        section.len() as int,
                    ) =~= chars@.subrange(end_of_type_header + 1, end as int));
                }
                let vertex: [char; 6] = ['v', 'e', 'r', 't', 'e', 'x'];
                let fragment: [char; 8] = ['f', 'r', 'a', 'g', 'm', 'e', 'n', 't'];
                assert(vertex@ =~= vertex_word());
                assert(fragment@ =~= fragment_word());
                if range_is(&chars, first, last, vertex.as_slice()) {
                    let text = source.substring_char(end_of_type_header + 1, end).to_owned();
                    builder = Self { vertex: Some(text), fragment: builder.fragment };
                } else if range_is(&chars, first, last, fragment.as_slice()) {
                    let text = source.substring_char(end_of_type_header + 1, end).to_owned();
                    builder = Self { vertex: builder.vertex, fragment: Some(text) };
                } else {
                    let type_header = source.substring_char(first, last).to_owned();
                    return Err(ShaderError::InvalidTypeHeader(type_header));
                }
            }
            if end == chars.len() {
                return Ok(builder);
            }
            start = end + 6;
        }
    }

    /// The sources of the vertex shader and of the fragment shader, in that
    /// order, if the program has both. The error names the first that is
    /// missing.
    pub fn sources(self) -> (result: Result<(String, String), ShaderError>)
        ensures
            match (self@.vertex, self@.fragment) {
                (Some(vertex), Some(fragment)) => result matches Ok(pair) && pair.0@ == vertex
                    && pair.1@ == fragment,
                (None, _) => result matches Err(ShaderError::MissingShaderType(kind)) && kind
                    == ShaderType::Vertex.spec_value(),
                (Some(_), None) => result matches Err(ShaderError::MissingShaderType(kind)) && kind
                    == ShaderType::Fragment.spec_value(),
            },
    {
        let vertex_source = match self.vertex {
            Some(source) => source,
            None => {
                return Err(ShaderError::MissingShaderType(ShaderType::Vertex.value()));
            },
        };
        let fragment_source = match self.fragment {
            Some(source) => source,
            None => {
                return Err(ShaderError::MissingShaderType(ShaderType::Fragment.value()));
            },
        };
        Ok((vertex_source, fragment_source))
    }
}

} // verus!
