//! The line template: a mini-language whose patterns mix literal text with
//! substitution fields written `{L}` (level), `{T}` (target), `{M}` (message),
//! `{t}` (timestamp in milliseconds) and `{F}` (source file).
//!
//! [`compile`] parses a pattern once into a [`Template`]; it rejects a
//! pattern that references an unknown field or whose braces are unbalanced.
//! [`Template::render`] substitutes a record's field texts verbatim (no
//! escaping) and is pure: the rendered text is a function of the compiled
//! template and the field set alone.

use vstd::prelude::*;
use crate::record::{Context, ContextView};

verus! {

/// A recognized substitution field.
#[derive(Clone, Copy, PartialEq, Eq, Structural, Debug)]
pub enum Field {
    /// `{L}`: the level column text.
    Level,
    /// `{T}`: the target name.
    Target,
    /// `{M}`: the message text.
    Message,
    /// `{t}`: the timestamp in milliseconds.
    Timestamp,
    /// `{F}`: the source file.
    SourceFile,
}

/// Mathematical view of one compiled segment: literal text, or a field to
/// substitute.
pub enum SegmentView {
    Literal(Seq<char>),
    Substitute(Field),
}

/// One compiled segment of a template.
pub enum Segment {
    /// Text inserted as it stands.
    Literal(String),
    /// A field whose text is substituted at render time.
    Substitute(Field),
}

impl View for Segment {
    type V = SegmentView;

    open spec fn view(&self) -> SegmentView {
        match self {
            Segment::Literal(s) => SegmentView::Literal(s@),
            Segment::Substitute(f) => SegmentView::Substitute(*f),
        }
    }
}

/// A compiled line template: the parsed segments of a valid pattern.
pub struct Template {
    /// The parsed segments, in pattern order.
    pub segments: Vec<Segment>,
}

impl View for Template {
    type V = Seq<SegmentView>;

    open spec fn view(&self) -> Seq<SegmentView> {
        self.segments@.map_values(|s: Segment| s@)
    }
}

/// A pattern the compiler rejects: it references an unknown field or its
/// substitution braces are unbalanced.
#[derive(PartialEq, Eq, Structural, Debug)]
pub struct TemplateError;

/// Whether `c` names a recognized substitution field.
pub open spec fn is_field_char(c: char) -> bool {
    c == 'L' || c == 'T' || c == 'M' || c == 't' || c == 'F'
}

/// The field named by a recognized field character.
pub open spec fn field_of(c: char) -> Field {
    if c == 'L' {
        Field::Level
    } else if c == 'T' {
        Field::Target
    } else if c == 'M' {
        Field::Message
    } else if c == 't' {
        Field::Timestamp
    } else {
        Field::SourceFile
    }
}

/// Whether a pattern is valid: every `{` opens a three-character substitution
/// `{<field>}` with a recognized field character, and `}` appears only as the
/// close of such a substitution.
pub open spec fn valid_pattern(p: Seq<char>) -> bool
    decreases p.len(),
{
    if p.len() == 0 {
        true
    } else if p[0] == '{' {
        p.len() >= 3 && is_field_char(p[1]) && p[2] == '}' && valid_pattern(p.skip(3))
    } else if p[0] == '}' {
        false
    } else {
        valid_pattern(p.skip(1))
    }
}

/// The segments of a valid pattern: each substitution becomes one
/// [`SegmentView::Substitute`], every other character one single-character
/// literal. (On an invalid pattern the result is not meaningful.)
pub open spec fn parse_pattern(p: Seq<char>) -> Seq<SegmentView>
    decreases p.len(),
{
    if p.len() == 0 {
        Seq::empty()
    } else if p[0] == '{' {
        if p.len() >= 3 {
            seq![SegmentView::Substitute(field_of(p[1]))] + parse_pattern(p.skip(3))
        } else {
            Seq::empty()
        }
    } else {
        seq![SegmentView::Literal(seq![p[0]])] + parse_pattern(p.skip(1))
    }
}

/// The text a segment contributes to a rendered line.
pub open spec fn segment_text(s: SegmentView, c: ContextView) -> Seq<char> {
    match s {
        SegmentView::Literal(text) => text,
        SegmentView::Substitute(f) => field_text(f, c),
    }
}

/// The field set text substituted for a field.
pub open spec fn field_text(f: Field, c: ContextView) -> Seq<char> {
    match f {
        Field::Level => c.L,
        Field::Target => c.T,
        Field::Message => c.M,
        Field::Timestamp => c.t,
        Field::SourceFile => c.F,
    }
}

/// The text rendered from compiled segments and a field set: the
/// concatenation of every segment's text, in order.
pub open spec fn spec_render(segs: Seq<SegmentView>, c: ContextView) -> Seq<char>
    decreases segs.len(),
{
    if segs.len() == 0 {
        Seq::empty()
    } else {
        segment_text(segs[0], c) + spec_render(segs.skip(1), c)
    }
}

/// The built-in default pattern: level, target and message, one line per
/// record. Used in place of any pattern the compiler rejects.
pub fn default_template() -> (r: &'static str)
    ensures
        r@ == spec_default_template(),
{
    "{L} {T} > {M}\n"
}

/// The characters of the built-in default pattern.
pub open spec fn spec_default_template() -> Seq<char> {
    "{L} {T} > {M}\n"@
}

/// The built-in default pattern is itself a valid pattern, so falling back
/// to it always succeeds.
pub proof fn lemma_default_template_valid()
    ensures
        valid_pattern(spec_default_template()),
{
    let p = spec_default_template();
    reveal_strlit("{L} {T} > {M}\n");
    assert(p.len() == 14);
    assert(p.skip(14) =~= Seq::<char>::empty());
    assert(valid_pattern(p.skip(14)));
    assert(p.skip(13).skip(1) =~= p.skip(14));
    assert(p.skip(13)[0] == '\n');
    assert(valid_pattern(p.skip(13)));
    assert(p.skip(10).skip(3) =~= p.skip(13));
    assert(p.skip(10)[0] == '{' && p.skip(10)[1] == 'M' && p.skip(10)[2] == '}');
    assert(valid_pattern(p.skip(10)));
    assert(p.skip(9).skip(1) =~= p.skip(10));
    assert(p.skip(9)[0] == ' ');
    assert(valid_pattern(p.skip(9)));
    assert(p.skip(8).skip(1) =~= p.skip(9));
    assert(p.skip(8)[0] == '>');
    assert(valid_pattern(p.skip(8)));
    assert(p.skip(7).skip(1) =~= p.skip(8));
    assert(p.skip(7)[0] == ' ');
    assert(valid_pattern(p.skip(7)));
    assert(p.skip(4).skip(3) =~= p.skip(7));
    assert(p.skip(4)[0] == '{' && p.skip(4)[1] == 'T' && p.skip(4)[2] == '}');
    assert(valid_pattern(p.skip(4)));
    assert(p.skip(3).skip(1) =~= p.skip(4));
    assert(p.skip(3)[0] == ' ');
    assert(valid_pattern(p.skip(3)));
    assert(p[0] == '{' && p[1] == 'L' && p[2] == '}');
    assert(valid_pattern(p));
}

/// Compile a pattern. Returns the parsed template exactly when the pattern
/// is valid, and reports [`TemplateError`] exactly when it is not: a caller
/// never receives a partially parsed template.
pub fn compile(pattern: &str) -> (r: Result<Template, TemplateError>)
    ensures
        r is Ok <==> valid_pattern(pattern@),
        r matches Ok(t) ==> t@ == parse_pattern(pattern@),
{
    let ghost p = pattern@;
    let n = pattern.unicode_len();
    let mut segments: Vec<Segment> = Vec::new();
    let mut i: usize = 0;
    proof {
        assert(p.skip(0) =~= p);
        assert(segments@.map_values(|s: Segment| s@) =~= Seq::<SegmentView>::empty());
        assert(Seq::<SegmentView>::empty() + parse_pattern(p) =~= parse_pattern(p));
    }
    while i < n
        invariant
            i <= n,
            n == p.len(),
            p == pattern@,
            valid_pattern(p) <==> valid_pattern(p.skip(i as int)),
            valid_pattern(p) ==> parse_pattern(p) == segments@.map_values(|s: Segment| s@)
                + parse_pattern(p.skip(i as int)),
        decreases n - i,
    {
        let ghost rest = p.skip(i as int);
        let ghost segs_before = segments@.map_values(|s: Segment| s@);
        let c = pattern.get_char(i);
        proof {
            assert(rest[0] == c);
        }
        if c == '{' {
            if n - i < 3 {
                proof {
                    assert(!valid_pattern(rest));
                }
                return Err(TemplateError);
            }
            let f = pattern.get_char(i + 1);
            let close = pattern.get_char(i + 2);
            proof {
                assert(rest[1] == f && rest[2] == close);
            }
            if close != '}' {
                proof {
                    assert(!valid_pattern(rest));
                }
                return Err(TemplateError);
            }
            let fld: Field = if f == 'L' {
                Field::Level
            } else if f == 'T' {
                Field::Target
            } else if f == 'M' {
                Field::Message
            } else if f == 't' {
                Field::Timestamp
            } else if f == 'F' {
                Field::SourceFile
            } else {
                proof {
                    assert(!is_field_char(rest[1]));
                    assert(!valid_pattern(rest));
                }
                return Err(TemplateError);
            };
            segments.push(Segment::Substitute(fld));
            proof {
                assert(fld == field_of(rest[1]));
                assert(rest.skip(3) =~= p.skip(i + 3));
                assert(segments@.map_values(|s: Segment| s@) =~= segs_before.push(
                    SegmentView::Substitute(fld),
                ));
                assert(parse_pattern(rest) == seq![SegmentView::Substitute(fld)] + parse_pattern(
                    p.skip(i + 3),
                ));
                assert(segs_before.push(SegmentView::Substitute(fld)) + parse_pattern(p.skip(i + 3))
                    =~= segs_before + parse_pattern(rest));
            }
            i = i + 3;
        } else if c == '}' {
            proof {
                assert(!valid_pattern(rest));
            }
            return Err(TemplateError);
        } else {
            let lit = pattern.substring_char(i, i + 1);
            segments.push(Segment::Literal(String::from_str(lit)));
            proof {
                assert(lit@ =~= seq![rest[0]]);
                assert(rest.skip(1) =~= p.skip(i + 1));
                assert(segments@.map_values(|s: Segment| s@) =~= segs_before.push(
                    SegmentView::Literal(seq![rest[0]]),
                ));
                assert(parse_pattern(rest) == seq![SegmentView::Literal(seq![rest[0]])]
                    + parse_pattern(p.skip(i + 1)));
                assert(segs_before.push(SegmentView::Literal(seq![rest[0]])) + parse_pattern(
                    p.skip(i + 1),
                ) =~= segs_before + parse_pattern(rest));
            }
            i = i + 1;
        }
    }
    proof {
        assert(p.skip(n as int) =~= Seq::<char>::empty());
        assert(valid_pattern(p));
        assert(parse_pattern(p) =~= segments@.map_values(|s: Segment| s@));
    }
    Ok(Template { segments })
}

impl Template {
    /// Render one line: substitute the field set into the compiled segments,
    /// verbatim and in order.
    pub fn render(&self, context: &Context) -> (r: String)
        ensures
            r@ == spec_render(self@, context@),
    {
        let ghost segs = self@;
        let ghost c = context@;
        let mut out = String::new();
        let m = self.segments.len();
        let mut j: usize = 0;
        proof {
            assert(segs.skip(0) =~= segs);
            assert(out@ + spec_render(segs, c) =~= spec_render(segs, c));
        }
        while j < m
            invariant
                j <= m,
                m == self.segments@.len(),
                segs == self@,
                c == context@,
                spec_render(segs, c) == out@ + spec_render(segs.skip(j as int), c),
            decreases m - j,
        {
            let ghost rest = segs.skip(j as int);
            let ghost out_before = out@;
            proof {
                assert(rest[0] == segs[j as int]);
            }
            match &self.segments[j] {
                Segment::Literal(s) => {
                    out.append(s.as_str());
                },
                Segment::Substitute(f) => {
                    match f {
                        Field::Level => out.append(context.L.as_str()),
                        Field::Target => out.append(context.T.as_str()),
                        Field::Message => out.append(context.M.as_str()),
                        Field::Timestamp => out.append(context.t.as_str()),
                        Field::SourceFile => out.append(context.F.as_str()),
                    }
                },
            }
            proof {
                assert(out@ == out_before + segment_text(rest[0], c));
                assert(rest.skip(1) =~= segs.skip(j + 1));
                assert(out_before + spec_render(rest, c) =~= out@ + spec_render(
                    segs.skip(j + 1),
                    c,
                ));
            }
            j = j + 1;
        }
        proof {
            assert(segs.skip(m as int) =~= Seq::<SegmentView>::empty());
            assert(out@ =~= spec_render(segs, c));
        }
        out
    }
}

/// Rendering is deterministic and referentially transparent: the rendered
/// text is a function of the compiled template and the field set alone, so
/// two renders of equal inputs give equal text.
pub proof fn lemma_render_deterministic(
    t1: Seq<SegmentView>,
    t2: Seq<SegmentView>,
    c1: ContextView,
    c2: ContextView,
)
    requires
        t1 == t2,
        c1 == c2,
    ensures
        spec_render(t1, c1) == spec_render(t2, c2),
{
}

/// Compiling and rendering is referentially transparent end to end: any two
/// templates compiled from the same pattern (which [`compile`] pins to the
/// pattern's parse) render the same field set to the same text.
pub proof fn lemma_compile_render_referentially_transparent(
    p: Seq<char>,
    t1: Seq<SegmentView>,
    t2: Seq<SegmentView>,
    c: ContextView,
)
    requires
        t1 == parse_pattern(p),
        t2 == parse_pattern(p),
    ensures
        spec_render(t1, c) == spec_render(t2, c),
{
}

} // verus!
