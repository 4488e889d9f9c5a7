//! The transformation engine: replacement patterns, the template
//! mini-language, and the one- and two-level transformation composition.
use vstd::prelude::*;

use crate::EngineError;
use crate::char_filter::{CharFilter, CharFilterComponent, filter_matches, spec_component_of};
use crate::chars::{
    chars_eq_str, chars_to_string, dec_chars, dec_digits, hex_chars, hex_digits, str_to_chars,
    zero_pad, zero_pad_left,
};
use crate::config::{
    CharacterRange, Config, ConfigView, Transformation, TransformationAction,
    TransformationActionView, TransformationProfile, TransformationProfileView, TransformationView,
    WrappedFilterView, ranges_all_valid, ranges_panic_free, spec_lookup_filter,
};

verus! {

/// One replacement fragment: a pure function from a matched character to an
/// output string fragment.
#[derive(Debug, Clone, PartialEq)]
pub enum ReplacementPattern {
    /// A string literal, emitted unchanged.
    Literal(String),
    /// Each byte of the 32-bit code point as an escaped, zero-padded hex
    /// value, e.g. `\x00\x00\x00\x41`.
    EscapedHexBytes,
    /// The code point as bare lowercase hex, zero-padded to 4 digits
    /// (8 digits above U+FFFF).
    SimpleUnicodeCodepoint,
    /// The padded code point behind `\u` (4 digits) or `\U` (8 digits).
    EscapedUnicode,
    /// The code point as `U+` followed by unpadded lowercase hex.
    UplusUnicode,
    /// The code point escaped in Rust debug style, e.g. `\u{fffd}`.
    RustDebugEscapedUnicode,
    /// The code point as an HTML/XML entity `&#<decimal>;`.
    Entity,
    /// The character itself, unmodified.
    Identity,
}

/// The abstract value of a [`ReplacementPattern`].
pub enum PatternView {
    Literal(Seq<char>),
    EscapedHexBytes,
    SimpleUnicodeCodepoint,
    EscapedUnicode,
    UplusUnicode,
    RustDebugEscapedUnicode,
    Entity,
    Identity,
}

impl View for ReplacementPattern {
    type V = PatternView;

    open spec fn view(&self) -> PatternView {
        match self {
            ReplacementPattern::Literal(t) => PatternView::Literal(t@),
            ReplacementPattern::EscapedHexBytes => PatternView::EscapedHexBytes,
            ReplacementPattern::SimpleUnicodeCodepoint => PatternView::SimpleUnicodeCodepoint,
            ReplacementPattern::EscapedUnicode => PatternView::EscapedUnicode,
            ReplacementPattern::UplusUnicode => PatternView::UplusUnicode,
            ReplacementPattern::RustDebugEscapedUnicode => PatternView::RustDebugEscapedUnicode,
            ReplacementPattern::Entity => PatternView::Entity,
            ReplacementPattern::Identity => PatternView::Identity,
        }
    }
}

impl DeepView for ReplacementPattern {
    type V = PatternView;

    open spec fn deep_view(&self) -> PatternView {
        self.view()
    }
}

/// One byte of a code point as `\x` plus two zero-padded lowercase hex digits.
pub open spec fn hex_byte_escape(b: u32) -> Seq<char> {
    seq!['\\', 'x'] + zero_pad(hex_digits(b as nat), 2)
}

/// The output fragment a pattern produces for the character `c`
/// (code point `n`).
pub open spec fn render_pattern(p: PatternView, c: char) -> Seq<char> {
    let n = c as u32;
    match p {
        PatternView::Literal(t) => t,
        PatternView::EscapedHexBytes => hex_byte_escape((n >> 24) & 0xFF) + hex_byte_escape(
            (n >> 16) & 0xFF,
        ) + hex_byte_escape((n >> 8) & 0xFF) + hex_byte_escape(n & 0xFF),
        PatternView::SimpleUnicodeCodepoint => if n > 0xFFFF {
            zero_pad(hex_digits(n as nat), 8)
        } else {
            zero_pad(hex_digits(n as nat), 4)
        },
        PatternView::EscapedUnicode => if n > 0xFFFF {
            seq!['\\', 'U'] + zero_pad(hex_digits(n as nat), 8)
        } else {
            seq!['\\', 'u'] + zero_pad(hex_digits(n as nat), 4)
        },
        PatternView::UplusUnicode => seq!['U', '+'] + hex_digits(n as nat),
        PatternView::RustDebugEscapedUnicode => seq!['\\', 'u', '{'] + hex_digits(n as nat) + seq![
            '}',
        ],
        PatternView::Entity => seq!['&', '#'] + dec_digits(n as nat) + seq![';'],
        PatternView::Identity => seq![c],
    }
}

/// Appends `\x` plus the two-digit hex form of `b` to `out`.
fn push_hex_byte_escape(out: &mut Vec<char>, b: u32)
    ensures
        final(out)@ == old(out)@ + hex_byte_escape(b),
{
    out.push('\\');
    out.push('x');
    let digits = zero_pad_left(hex_chars(b), 2);
    let mut tail = digits;
    out.append(&mut tail);
    proof {
        assert(final(out)@ =~= old(out)@ + hex_byte_escape(b));
    }
}

impl ReplacementPattern {
    /// The replacement fragment for the character `ch`.
    pub fn replace(&self, ch: char) -> (r: String)
        ensures
            r@ == render_pattern(self@, ch),
    {
        let v = self.replace_chars(ch);
        chars_to_string(&v)
    }

    /// The replacement fragment for `ch`, as a character vector.
    pub fn replace_chars(&self, ch: char) -> (r: Vec<char>)
        ensures
            r@ == render_pattern(self@, ch),
    {
        match self {
            ReplacementPattern::Literal(text) => str_to_chars(text.as_str()),
            ReplacementPattern::EscapedHexBytes => {
                let n = ch as u32;
                let mut out: Vec<char> = Vec::new();
                push_hex_byte_escape(&mut out, (n >> 24) & 0xFF);
                push_hex_byte_escape(&mut out, (n >> 16) & 0xFF);
                push_hex_byte_escape(&mut out, (n >> 8) & 0xFF);
                push_hex_byte_escape(&mut out, n & 0xFF);
                proof {
                    assert(out@ =~= render_pattern(self@, ch));
                }
                out
            },
            ReplacementPattern::SimpleUnicodeCodepoint => {
                let n = ch as u32;
                if n > 0xFFFF {
                    zero_pad_left(hex_chars(n), 8)
                } else {
                    zero_pad_left(hex_chars(n), 4)
                }
            },
            ReplacementPattern::EscapedUnicode => {
                let n = ch as u32;
                let mut out: Vec<char> = Vec::new();
                out.push('\\');
                if n > 0xFFFF {
                    out.push('U');
                    let mut digits = zero_pad_left(hex_chars(n), 8);
                    out.append(&mut digits);
                } else {
                    out.push('u');
                    let mut digits = zero_pad_left(hex_chars(n), 4);
                    out.append(&mut digits);
                }
                proof {
                    assert(out@ =~= render_pattern(self@, ch));
                }
                out
            },
            ReplacementPattern::UplusUnicode => {
                let n = ch as u32;
                let mut out: Vec<char> = Vec::new();
                out.push('U');
                out.push('+');
                let mut digits = hex_chars(n);
                out.append(&mut digits);
                proof {
                    assert(out@ =~= render_pattern(self@, ch));
                }
                out
            },
            ReplacementPattern::RustDebugEscapedUnicode => {
                let n = ch as u32;
                let mut out: Vec<char> = Vec::new();
                out.push('\\');
                out.push('u');
                out.push('{');
                let mut digits = hex_chars(n);
                out.append(&mut digits);
                out.push('}');
                proof {
                    assert(out@ =~= render_pattern(self@, ch));
                }
                out
            },
            ReplacementPattern::Entity => {
                let n = ch as u32;
                let mut out: Vec<char> = Vec::new();
                out.push('&');
                out.push('#');
                let mut digits = dec_chars(n);
                out.append(&mut digits);
                out.push(';');
                proof {
                    assert(out@ =~= render_pattern(self@, ch));
                }
                out
            },
            ReplacementPattern::Identity => {
                let mut out: Vec<char> = Vec::new();
                out.push(ch);
                proof {
                    assert(out@ =~= render_pattern(self@, ch));
                }
                out
            },
        }
    }
}

/// A compiled transformation action: drop the matched character, or replace
/// it through a compiled template.
#[derive(Debug, Clone, PartialEq)]
pub enum SimpleTransformationAction {
    Remove,
    Replace(Vec<ReplacementPattern>),
}

/// The abstract value of a [`SimpleTransformationAction`].
pub enum ActionView {
    Remove,
    Replace(Seq<PatternView>),
}

impl View for SimpleTransformationAction {
    type V = ActionView;

    open spec fn view(&self) -> ActionView {
        match self {
            SimpleTransformationAction::Remove => ActionView::Remove,
            SimpleTransformationAction::Replace(ps) => ActionView::Replace(ps.deep_view()),
        }
    }
}

impl DeepView for SimpleTransformationAction {
    type V = ActionView;

    open spec fn deep_view(&self) -> ActionView {
        self.view()
    }
}

/// The pattern a recognized `{tag}` body compiles to, `None` for an
/// unrecognized body.
pub open spec fn tag_pattern(t: Seq<char>) -> Option<PatternView> {
    if t == "ident"@ || t == "char"@ {
        Some(PatternView::Identity)
    } else if t == "hex-esc"@ {
        Some(PatternView::EscapedHexBytes)
    } else if t == "uni-simple"@ {
        Some(PatternView::SimpleUnicodeCodepoint)
    } else if t == "uni-esc"@ {
        Some(PatternView::EscapedUnicode)
    } else if t == "uni-codepoint"@ {
        Some(PatternView::UplusUnicode)
    } else if t == "rust"@ {
        Some(PatternView::RustDebugEscapedUnicode)
    } else if t == "entity"@ {
        Some(PatternView::Entity)
    } else {
        None
    }
}

/// The template grammar, as a character-by-character scan. Outside a tag,
/// `{` flushes the pending literal run (even when empty) and opens a tag;
/// inside a tag, `}` resolves the body through [`tag_pattern`], failing the
/// whole parse on an unrecognized body. Any other character joins the
/// pending run. At end of input a nonempty pending run — including the body
/// of an unterminated tag — is flushed as a trailing literal.
pub open spec fn parse_from(
    s: Seq<char>,
    i: int,
    special: bool,
    token: Seq<char>,
    acc: Seq<PatternView>,
) -> Option<Seq<PatternView>>
    decreases s.len() - i,
    when 0 <= i <= s.len()
{
    if i >= s.len() {
        if token.len() > 0 {
            Some(acc.push(PatternView::Literal(token)))
        } else {
            Some(acc)
        }
    } else {
        let c = s[i];
        if !special {
            if c == '{' {
                parse_from(s, i + 1, true, Seq::empty(), acc.push(PatternView::Literal(token)))
            } else {
                parse_from(s, i + 1, false, token.push(c), acc)
            }
        } else {
            if c == '}' {
                match tag_pattern(token) {
                    Some(p) => parse_from(s, i + 1, false, Seq::empty(), acc.push(p)),
                    None => None,
                }
            } else {
                parse_from(s, i + 1, true, token.push(c), acc)
            }
        }
    }
}

/// The compiled pattern sequence of a template string, `None` on an
/// unrecognized `{tag}`.
pub open spec fn spec_parse_template(s: Seq<char>) -> Option<Seq<PatternView>> {
    parse_from(s, 0, false, Seq::empty(), Seq::empty())
}

/// The concatenated output fragments of the patterns, in order, for `c`.
pub open spec fn render_patterns(ps: Seq<PatternView>, c: char) -> Seq<char>
    decreases ps.len(),
{
    if ps.len() == 0 {
        Seq::empty()
    } else {
        render_pattern(ps[0], c) + render_patterns(ps.drop_first(), c)
    }
}

/// What an action contributes for a matched character: nothing for
/// `Remove`, the rendered template for `Replace`.
pub open spec fn apply_action(a: ActionView, c: char) -> Option<Seq<char>> {
    match a {
        ActionView::Remove => None,
        ActionView::Replace(ps) => Some(render_patterns(ps, c)),
    }
}

proof fn lemma_render_patterns_step(ps: Seq<PatternView>, i: int, c: char)
    requires
        0 <= i < ps.len(),
    ensures
        render_patterns(ps.skip(i), c) == render_pattern(ps[i], c) + render_patterns(
            ps.skip(i + 1),
            c,
        ),
{
    assert(ps.skip(i).drop_first() =~= ps.skip(i + 1));
    assert(ps.skip(i)[0] == ps[i]);
}

impl SimpleTransformationAction {
    /// Compiles a template string into a `Replace` action. Fails exactly on
    /// an unrecognized `{tag}`.
    pub fn from_str(pattern: &str) -> (r: Result<SimpleTransformationAction, EngineError>)
        ensures
            match r {
                Ok(a) => {
                    &&& spec_parse_template(pattern@) is Some
                    &&& a@ == ActionView::Replace(spec_parse_template(pattern@)->0)
                },
                Err(e) => {
                    &&& e == EngineError::PatternSyntax
                    &&& spec_parse_template(pattern@) is None
                },
            },
    {
        let cs = str_to_chars(pattern);
        let mut result: Vec<ReplacementPattern> = Vec::new();
        let mut special = false;
        let mut token: Vec<char> = Vec::new();
        let mut i: usize = 0;
        proof {
            assert(token@ =~= Seq::<char>::empty());
            assert(result.deep_view() =~= Seq::<PatternView>::empty());
        }
        while i < cs.len()
            invariant
                i <= cs.len(),
                cs@ == pattern@,
                spec_parse_template(pattern@) == parse_from(
                    pattern@,
                    i as int,
                    special,
                    token@,
                    result.deep_view(),
                ),
            decreases cs.len() - i,
        {
            let ghost pre_i = i as int;
            let ghost pre_special = special;
            let ghost pre_token = token@;
            let ghost pre_acc = result.deep_view();
            let ch = cs[i];
            if (!special && ch != '{') || (special && ch != '}') {
                token.push(ch);
                proof {
                    assert(token@ =~= pre_token.push(pattern@[pre_i]));
                }
            } else if !special {
                special = true;
                result.push(ReplacementPattern::Literal(chars_to_string(&token)));
                token.clear();
                proof {
                    assert(token@ =~= Seq::<char>::empty());
                    assert(result.deep_view() =~= pre_acc.push(PatternView::Literal(pre_token)));
                }
            } else {
                special = false;
                let parsed: Option<ReplacementPattern> = if chars_eq_str(&token, "ident")
                    || chars_eq_str(&token, "char") {
                    Some(ReplacementPattern::Identity)
                } else if chars_eq_str(&token, "hex-esc") {
                    Some(ReplacementPattern::EscapedHexBytes)
                } else if chars_eq_str(&token, "uni-simple") {
                    Some(ReplacementPattern::SimpleUnicodeCodepoint)
                } else if chars_eq_str(&token, "uni-esc") {
                    Some(ReplacementPattern::EscapedUnicode)
                } else if chars_eq_str(&token, "uni-codepoint") {
                    Some(ReplacementPattern::UplusUnicode)
                } else if chars_eq_str(&token, "rust") {
                    Some(ReplacementPattern::RustDebugEscapedUnicode)
                } else if chars_eq_str(&token, "entity") {
                    Some(ReplacementPattern::Entity)
                } else {
                    None
                };
                match parsed {
                    Some(p) => {
                        proof {
                            assert(tag_pattern(pre_token) == Some(p@));
                        }
                        result.push(p);
                        token.clear();
                        proof {
                            assert(token@ =~= Seq::<char>::empty());
                            assert(result.deep_view() =~= pre_acc.push(
                                tag_pattern(pre_token)->0,
                            ));
                        }
                    },
                    None => {
                        proof {
                            assert(tag_pattern(pre_token) is None);
                        }
                        return Err(EngineError::PatternSyntax);
                    },
                }
            }
            i += 1;
            proof {
                assert(parse_from(pattern@, pre_i, pre_special, pre_token, pre_acc) == parse_from(
                    pattern@,
                    i as int,
                    special,
                    token@,
                    result.deep_view(),
                ));
            }
        }
        let ghost end_acc = result.deep_view();
        let ghost end_token = token@;
        if token.len() > 0 {
            result.push(ReplacementPattern::Literal(chars_to_string(&token)));
            proof {
                assert(result.deep_view() =~= end_acc.push(PatternView::Literal(end_token)));
            }
        }
        proof {
            assert(spec_parse_template(pattern@) == Some(result.deep_view()));
        }
        Ok(SimpleTransformationAction::Replace(result))
    }

    /// Compiles an action descriptor: `Remove` as it stands, `Replace` by
    /// compiling its template string.
    pub fn from_config(action_config: &TransformationAction) -> (r: Result<
        SimpleTransformationAction,
        EngineError,
    >)
        ensures
            match r {
                Ok(a) => {
                    &&& action_ok(action_config@)
                    &&& a@ == compiled_action(action_config@)
                },
                Err(e) => {
                    &&& !action_ok(action_config@)
                    &&& e == EngineError::PatternSyntax
                },
            },
    {
        match action_config {
            TransformationAction::Remove => Ok(SimpleTransformationAction::Remove),
            TransformationAction::Replace(pattern) => {
                SimpleTransformationAction::from_str(pattern.as_str())
            },
        }
    }

    /// What this action contributes for the matched character `ch`.
    pub fn execute(&self, ch: char) -> (r: Option<String>)
        ensures
            match r {
                Some(s) => apply_action(self@, ch) == Some(s@),
                None => apply_action(self@, ch) is None,
            },
    {
        match self.execute_chars(ch) {
            Some(v) => Some(chars_to_string(&v)),
            None => None,
        }
    }

    /// What this action contributes for `ch`, as a character vector.
    pub fn execute_chars(&self, ch: char) -> (r: Option<Vec<char>>)
        ensures
            match r {
                Some(v) => apply_action(self@, ch) == Some(v@),
                None => apply_action(self@, ch) is None,
            },
    {
        match self {
            SimpleTransformationAction::Remove => None,
            SimpleTransformationAction::Replace(patterns) => {
                let ghost ps = patterns.deep_view();
                let mut out: Vec<char> = Vec::new();
                let mut i: usize = 0;
                proof {
                    assert(ps.skip(0) =~= ps);
                }
                while i < patterns.len()
                    invariant
                        i <= patterns.len(),
                        ps == patterns.deep_view(),
                        render_patterns(ps, ch) == out@ + render_patterns(ps.skip(i as int), ch),
                    decreases patterns.len() - i,
                {
                    proof {
                        lemma_render_patterns_step(ps, i as int, ch);
                    }
                    let mut fragment = patterns[i].replace_chars(ch);
                    out.append(&mut fragment);
                    i += 1;
                }
                proof {
                    assert(render_patterns(ps.skip(patterns.len() as int), ch) =~= Seq::<
                        char,
                    >::empty());
                    assert(out@ =~= out@ + render_patterns(ps.skip(patterns.len() as int), ch));
                }
                Some(out)
            },
        }
    }
}

/// The filter definitions a transformation step materializes, in order:
/// named references are looked up in the configuration (a name that is
/// absent is silently skipped), inline values are taken as they stand.
pub open spec fn resolved_filters(cfg: ConfigView, wfs: Seq<WrappedFilterView>) -> Seq<
    Seq<CharacterRange>,
>
    decreases wfs.len(),
{
    if wfs.len() == 0 {
        Seq::empty()
    } else {
        let rest = resolved_filters(cfg, wfs.drop_first());
        match wfs[0] {
            WrappedFilterView::Reference(n) => match spec_lookup_filter(cfg.filters, n) {
                Some(v) => seq![v] + rest,
                None => rest,
            },
            WrappedFilterView::Value(v) => seq![v] + rest,
        }
    }
}

/// The compiled components of a well-formed filter definition.
pub open spec fn compile_filter_def(rs: Seq<CharacterRange>) -> Seq<CharFilterComponent> {
    rs.map_values(|rr: CharacterRange| spec_component_of(rr))
}

/// Whether an action descriptor compiles: `Remove` always, `Replace` when
/// its template parses.
pub open spec fn action_ok(a: TransformationActionView) -> bool {
    match a {
        TransformationActionView::Remove => true,
        TransformationActionView::Replace(t) => spec_parse_template(t) is Some,
    }
}

/// The compiled form of a compilable action descriptor.
pub open spec fn compiled_action(a: TransformationActionView) -> ActionView {
    match a {
        TransformationActionView::Remove => ActionView::Remove,
        TransformationActionView::Replace(t) => ActionView::Replace(spec_parse_template(t)->0),
    }
}

/// Whether a transformation step compiles against `cfg`: every materialized
/// filter definition is well-formed and the action compiles.
pub open spec fn step_ok(cfg: ConfigView, st: TransformationView) -> bool {
    &&& forall|i: int|
        0 <= i < resolved_filters(cfg, st.filters).len() ==> ranges_all_valid(
            #[trigger] resolved_filters(cfg, st.filters)[i],
        )
    &&& action_ok(st.action)
}

/// The error a failing step reports: filters are compiled before the
/// action, so a malformed range wins over a bad template.
pub open spec fn step_error(cfg: ConfigView, st: TransformationView) -> EngineError {
    if exists|i: int|
        0 <= i < resolved_filters(cfg, st.filters).len() && !ranges_all_valid(
            #[trigger] resolved_filters(cfg, st.filters)[i],
        ) {
        EngineError::InvalidCharacterRange
    } else {
        EngineError::PatternSyntax
    }
}

/// Compiling the step reaches no invalid code point: every materialized
/// definition preceded only by well-formed definitions compiles without
/// reaching one.
pub open spec fn step_panic_free(cfg: ConfigView, st: TransformationView) -> bool {
    forall|k: int|
        0 <= k < resolved_filters(cfg, st.filters).len() && (forall|m: int|
            0 <= m < k ==> ranges_all_valid(#[trigger] resolved_filters(cfg, st.filters)[m]))
            ==> ranges_panic_free(#[trigger] resolved_filters(cfg, st.filters)[k])
}

/// The abstract value of a [`SimpleTransformation`].
pub struct SimpleTransformationView {
    pub filters: Seq<Seq<CharFilterComponent>>,
    pub action: ActionView,
}

/// The compiled form of a step that compiles against `cfg`.
pub open spec fn compiled_step(cfg: ConfigView, st: TransformationView) -> SimpleTransformationView {
    SimpleTransformationView {
        filters: resolved_filters(cfg, st.filters).map_values(
            |rs: Seq<CharacterRange>| compile_filter_def(rs),
        ),
        action: compiled_action(st.action),
    }
}

/// Whether any of the step's filters matches `c`.
pub open spec fn any_filter_matches(fs: Seq<Seq<CharFilterComponent>>, c: char) -> bool {
    exists|i: int| 0 <= i < fs.len() && filter_matches(fs[i], c)
}

/// What a step turns one character into: the action's contribution when a
/// filter matches, the character itself otherwise.
pub open spec fn spec_transform_char(t: SimpleTransformationView, c: char) -> Seq<char> {
    if any_filter_matches(t.filters, c) {
        match apply_action(t.action, c) {
            Some(s) => s,
            None => Seq::empty(),
        }
    } else {
        seq![c]
    }
}

/// What a step turns a text into: each character's image, concatenated.
pub open spec fn spec_transform_text(t: SimpleTransformationView, s: Seq<char>) -> Seq<char>
    decreases s.len(),
{
    if s.len() == 0 {
        Seq::empty()
    } else {
        spec_transform_char(t, s[0]) + spec_transform_text(t, s.drop_first())
    }
}

proof fn lemma_transform_text_step(t: SimpleTransformationView, s: Seq<char>, i: int)
    requires
        0 <= i < s.len(),
    ensures
        spec_transform_text(t, s.skip(i)) == spec_transform_char(t, s[i]) + spec_transform_text(
            t,
            s.skip(i + 1),
        ),
{
    assert(s.skip(i).drop_first() =~= s.skip(i + 1));
    assert(s.skip(i)[0] == s[i]);
}

proof fn lemma_resolved_filters_step(cfg: ConfigView, wfs: Seq<WrappedFilterView>, i: int)
    requires
        0 <= i < wfs.len(),
    ensures
        resolved_filters(cfg, wfs.skip(i)) == (match wfs[i] {
            WrappedFilterView::Reference(n) => match spec_lookup_filter(cfg.filters, n) {
                Some(v) => seq![v] + resolved_filters(cfg, wfs.skip(i + 1)),
                None => resolved_filters(cfg, wfs.skip(i + 1)),
            },
            WrappedFilterView::Value(v) => seq![v] + resolved_filters(cfg, wfs.skip(i + 1)),
        }),
{
    assert(wfs.skip(i).drop_first() =~= wfs.skip(i + 1));
    assert(wfs.skip(i)[0] == wfs[i]);
}

proof fn lemma_step_head_panic_free(
    cfg: ConfigView,
    st: TransformationView,
    done: Seq<Seq<CharacterRange>>,
    def: Seq<CharacterRange>,
    rest: Seq<Seq<CharacterRange>>,
)
    requires
        step_panic_free(cfg, st),
        resolved_filters(cfg, st.filters) == done + (seq![def] + rest),
        forall|m: int| 0 <= m < done.len() ==> ranges_all_valid(#[trigger] done[m]),
    ensures
        ranges_panic_free(def),
{
    let full = resolved_filters(cfg, st.filters);
    assert(full[done.len() as int] == def);
    assert(forall|m: int| 0 <= m < done.len() ==> #[trigger] full[m] == done[m]);
    assert(ranges_panic_free(full[done.len() as int]));
}

proof fn lemma_step_head_invalid(
    cfg: ConfigView,
    st: TransformationView,
    done: Seq<Seq<CharacterRange>>,
    def: Seq<CharacterRange>,
    rest: Seq<Seq<CharacterRange>>,
)
    requires
        resolved_filters(cfg, st.filters) == done + (seq![def] + rest),
        !ranges_all_valid(def),
    ensures
        !step_ok(cfg, st),
        step_error(cfg, st) == EngineError::InvalidCharacterRange,
{
    let full = resolved_filters(cfg, st.filters);
    assert(full[done.len() as int] == def);
}

proof fn lemma_step_defs_all_valid(
    cfg: ConfigView,
    st: TransformationView,
    done: Seq<Seq<CharacterRange>>,
)
    requires
        resolved_filters(cfg, st.filters) == done,
        forall|m: int| 0 <= m < done.len() ==> ranges_all_valid(#[trigger] done[m]),
    ensures
        forall|k: int|
            0 <= k < resolved_filters(cfg, st.filters).len() ==> ranges_all_valid(
                #[trigger] resolved_filters(cfg, st.filters)[k],
            ),
        !(exists|k: int|
            0 <= k < resolved_filters(cfg, st.filters).len() && !ranges_all_valid(
                #[trigger] resolved_filters(cfg, st.filters)[k],
            )),
{
}

/// One compiled transformation step: a set of character filters paired with
/// one action, applied to every character any filter matches.
#[derive(Debug, Clone, PartialEq)]
pub struct SimpleTransformation {
    filters: Vec<CharFilter>,
    action: SimpleTransformationAction,
}

impl View for SimpleTransformation {
    type V = SimpleTransformationView;

    closed spec fn view(&self) -> SimpleTransformationView {
        SimpleTransformationView { filters: self.filters.deep_view(), action: self.action@ }
    }
}

impl DeepView for SimpleTransformation {
    type V = SimpleTransformationView;

    open spec fn deep_view(&self) -> SimpleTransformationView {
        self.view()
    }
}

impl SimpleTransformation {
    /// Compiles one transformation step against the configuration.
    #[verifier::rlimit(100)]
    #[verifier::loop_isolation(false)]
    pub fn new(config: &Config, trafo: &Transformation) -> (r: Result<
        SimpleTransformation,
        EngineError,
    >)
        requires
            step_panic_free(config@, trafo@),
        ensures
            match r {
                Ok(t) => {
                    &&& step_ok(config@, trafo@)
                    &&& t@ == compiled_step(config@, trafo@)
                },
                Err(e) => {
                    &&& !step_ok(config@, trafo@)
                    &&& e == step_error(config@, trafo@)
                },
            },
    {
        let ghost cfg = config@;
        let ghost wfs = trafo@.filters;
        let ghost full_defs = resolved_filters(cfg, wfs);
        let trafo_filters = trafo.filters();
        let mut filters: Vec<CharFilter> = Vec::new();
        let ghost mut done: Seq<Seq<CharacterRange>> = Seq::empty();
        let mut i: usize = 0;
        proof {
            assert(wfs.skip(0) =~= wfs);
            assert(done + resolved_filters(cfg, wfs.skip(0)) =~= full_defs);
        }
        while i < trafo_filters.len()
            invariant
                i <= trafo_filters.len(),
                cfg == config@,
                trafo_filters.deep_view() == wfs,
                full_defs == resolved_filters(cfg, wfs),
                step_panic_free(cfg, trafo@),
                trafo@.filters == wfs,
                full_defs == done + resolved_filters(cfg, wfs.skip(i as int)),
                filters@.len() == done.len(),
                forall|j: int| 0 <= j < done.len() ==> #[trigger] filters@[j]@
                    == compile_filter_def(done[j]),
                forall|j: int| 0 <= j < done.len() ==> ranges_all_valid(#[trigger] done[j]),
            decreases trafo_filters.len() - i,
        {
            proof {
                lemma_resolved_filters_step(cfg, wfs, i as int);
                assert(trafo_filters.deep_view()[i as int] == wfs[i as int]);
                assert(trafo_filters@[i as int]@ == wfs[i as int]);
            }
            let filter_config = trafo_filters[i].character_filter(config);
            match filter_config {
                Some(filter_config) => {
                    let ghost def = filter_config@;
                    let ghost rest = resolved_filters(cfg, wfs.skip(i as int + 1));
                    proof {
                        match wfs[i as int] {
                            WrappedFilterView::Reference(n) => {
                                assert(spec_lookup_filter(cfg.filters, n) == Some(def));
                            },
                            WrappedFilterView::Value(v) => {
                                assert(def == v);
                            },
                        }
                        assert(resolved_filters(cfg, wfs.skip(i as int)) == seq![def] + rest);
                        lemma_step_head_panic_free(cfg, trafo@, done, def, rest);
                    }
                    let filter = match CharFilter::from_config(&filter_config) {
                        Ok(f) => f,
                        Err(e) => {
                            proof {
                                lemma_step_head_invalid(cfg, trafo@, done, def, rest);
                            }
                            return Err(e);
                        },
                    };
                    filters.push(filter);
                    proof {
                        done = done.push(def);
                        assert(full_defs =~= done + rest);
                    }
                },
                None => {
                    proof {
                        assert(full_defs =~= done + resolved_filters(cfg, wfs.skip(i as int + 1)));
                    }
                },
            }
            i += 1;
        }
        proof {
            assert(wfs.skip(trafo_filters.len() as int) =~= Seq::<WrappedFilterView>::empty());
            assert(full_defs =~= done);
            lemma_step_defs_all_valid(cfg, trafo@, done);
        }
        let action = match SimpleTransformationAction::from_config(trafo.action()) {
            Ok(a) => a,
            Err(e) => {
                proof {
                    assert(step_error(cfg, trafo@) == EngineError::PatternSyntax);
                }
                return Err(e);
            },
        };
        let r = SimpleTransformation { filters, action };
        proof {
            assert(r@.filters =~= full_defs.map_values(
                |rs: Seq<CharacterRange>| compile_filter_def(rs),
            ));
        }
        Ok(r)
    }

    /// Whether any of the step's filters matches `ch`; filters are tested
    /// in declaration order and testing stops at the first match.
    pub fn matches_any(&self, ch: char) -> (r: bool)
        ensures
            r == any_filter_matches(self@.filters, ch),
    {
        let mut i: usize = 0;
        while i < self.filters.len()
            invariant
                i <= self.filters.len(),
                forall|j: int| 0 <= j < i ==> !filter_matches(#[trigger] self@.filters[j], ch),
            decreases self.filters.len() - i,
        {
            if self.filters[i].matches(ch) {
                proof {
                    assert(filter_matches(self@.filters[i as int], ch));
                }
                return true;
            }
            i += 1;
        }
        false
    }

    /// Rewrites `text`: every character matched by some filter is replaced
    /// by the action's contribution (nothing for `Remove`), every other
    /// character passes through unchanged.
    pub fn execute(&self, text: &str) -> (r: String)
        ensures
            r@ == spec_transform_text(self@, text@),
    {
        let ghost t = self@;
        let cs = str_to_chars(text);
        let mut out: Vec<char> = Vec::new();
        let mut i: usize = 0;
        proof {
            assert(text@.skip(0) =~= text@);
            assert(out@ + spec_transform_text(t, text@.skip(0)) =~= spec_transform_text(t, text@));
        }
        while i < cs.len()
            invariant
                i <= cs.len(),
                cs@ == text@,
                t == self@,
                spec_transform_text(t, text@) == out@ + spec_transform_text(
                    t,
                    text@.skip(i as int),
                ),
            decreases cs.len() - i,
        {
            proof {
                lemma_transform_text_step(t, text@, i as int);
            }
            let ghost pre_out = out@;
            let ch = cs[i];
            if self.matches_any(ch) {
                match self.action.execute_chars(ch) {
                    Some(replacement) => {
                        let mut fragment = replacement;
                        out.append(&mut fragment);
                    },
                    None => {},
                }
            } else {
                out.push(ch);
            }
            proof {
                assert(out@ =~= pre_out + spec_transform_char(t, text@[i as int]));
                assert((pre_out + spec_transform_char(t, text@[i as int])) + spec_transform_text(
                    t,
                    text@.skip(i as int + 1),
                ) =~= pre_out + (spec_transform_char(t, text@[i as int]) + spec_transform_text(
                    t,
                    text@.skip(i as int + 1),
                )));
            }
            i += 1;
        }
        proof {
            assert(spec_transform_text(t, text@.skip(cs.len() as int)) =~= Seq::<char>::empty());
            assert(out@ + spec_transform_text(t, text@.skip(cs.len() as int)) =~= out@);
        }
        chars_to_string(&out)
    }
}

/// Whether every step of the profile compiles against `cfg`.
pub open spec fn profile_steps_ok(cfg: ConfigView, steps: Seq<TransformationView>) -> bool {
    forall|k: int| 0 <= k < steps.len() ==> step_ok(cfg, #[trigger] steps[k])
}

/// Compiling the profile reaches no invalid code point: every step that is
/// preceded only by compilable steps compiles without reaching one.
pub open spec fn profile_panic_free(cfg: ConfigView, steps: Seq<TransformationView>) -> bool {
    forall|k: int|
        0 <= k < steps.len() && (forall|m: int| 0 <= m < k ==> step_ok(cfg, #[trigger] steps[m]))
            ==> step_panic_free(cfg, #[trigger] steps[k])
}

/// What a profile turns a text into: its steps' images, folded in order,
/// each step re-scanning the previous step's whole output.
pub open spec fn spec_transform_profile(ts: Seq<SimpleTransformationView>, s: Seq<char>) -> Seq<
    char,
>
    decreases ts.len(),
{
    if ts.len() == 0 {
        s
    } else {
        spec_transform_profile(ts.drop_first(), spec_transform_text(ts[0], s))
    }
}

proof fn lemma_transform_profile_step(ts: Seq<SimpleTransformationView>, s: Seq<char>, i: int)
    requires
        0 <= i < ts.len(),
    ensures
        spec_transform_profile(ts.skip(i), s) == spec_transform_profile(
            ts.skip(i + 1),
            spec_transform_text(ts[i], s),
        ),
{
    assert(ts.skip(i).drop_first() =~= ts.skip(i + 1));
    assert(ts.skip(i)[0] == ts[i]);
}

proof fn lemma_no_match_step_preserves(t: SimpleTransformationView, s: Seq<char>)
    requires
        forall|c: char| !any_filter_matches(t.filters, c),
    ensures
        spec_transform_text(t, s) == s,
    decreases s.len(),
{
    if s.len() == 0 {
        assert(spec_transform_text(t, s) =~= s);
    } else {
        lemma_no_match_step_preserves(t, s.drop_first());
        assert(spec_transform_char(t, s[0]) == seq![s[0]]);
        assert(seq![s[0]] + s.drop_first() =~= s);
    }
}

/// A profile composed solely of steps whose action replaces a matched
/// character through the compiled `{ident}` template, over filters that
/// match no character, leaves every text unchanged.
pub proof fn lemma_identity_profile_preserves_text(ts: Seq<SimpleTransformationView>, s: Seq<char>)
    requires
        forall|k: int|
            0 <= k < ts.len() ==> (#[trigger] ts[k]).action == ActionView::Replace(
                seq![PatternView::Literal(Seq::<char>::empty()), PatternView::Identity],
            ),
        forall|k: int, c: char|
            0 <= k < ts.len() ==> !#[trigger] any_filter_matches(ts[k].filters, c),
    ensures
        spec_transform_profile(ts, s) == s,
    decreases ts.len(),
{
    if ts.len() == 0 {
    } else {
        lemma_no_match_step_preserves(ts[0], s);
        assert(forall|k: int| 0 <= k < ts.drop_first().len() ==> #[trigger] ts.drop_first()[k]
            == ts[k + 1]);
        lemma_identity_profile_preserves_text(ts.drop_first(), s);
    }
}

/// A compiled profile: an ordered pipeline of transformation steps.
#[derive(Debug, Clone, PartialEq)]
pub struct TextTransformation {
    transformations: Vec<SimpleTransformation>,
}

impl View for TextTransformation {
    type V = Seq<SimpleTransformationView>;

    closed spec fn view(&self) -> Seq<SimpleTransformationView> {
        self.transformations.deep_view()
    }
}

impl TextTransformation {
    /// Compiles every step of a profile against the configuration, in
    /// order, stopping at the first failing step.
    pub fn new(config: &Config, trafo_profile: &TransformationProfile) -> (r: Result<
        TextTransformation,
        EngineError,
    >)
        requires
            profile_panic_free(config@, trafo_profile@.transformations),
        ensures
            match r {
                Ok(t) => {
                    &&& profile_steps_ok(config@, trafo_profile@.transformations)
                    &&& t@ == trafo_profile@.transformations.map_values(
                        |st: TransformationView| compiled_step(config@, st),
                    )
                },
                Err(e) => exists|k: int|
                    {
                        &&& 0 <= k < trafo_profile@.transformations.len()
                        &&& (forall|m: int|
                            0 <= m < k ==> step_ok(
                                config@,
                                #[trigger] trafo_profile@.transformations[m],
                            ))
                        &&& !step_ok(config@, trafo_profile@.transformations[k])
                        &&& e == step_error(config@, #[trigger] trafo_profile@.transformations[k])
                    },
            },
    {
        let ghost cfg = config@;
        let ghost steps = trafo_profile@.transformations;
        let step_configs = trafo_profile.transformations();
        let mut transformations: Vec<SimpleTransformation> = Vec::new();
        let mut i: usize = 0;
        while i < step_configs.len()
            invariant
                i <= step_configs.len(),
                step_configs.deep_view() == steps,
                steps == trafo_profile@.transformations,
                profile_panic_free(cfg, steps),
                cfg == config@,
                transformations@.len() == i,
                forall|m: int| 0 <= m < i ==> step_ok(cfg, #[trigger] steps[m]),
                forall|m: int| 0 <= m < i ==> #[trigger] transformations@[m]@ == compiled_step(
                    cfg,
                    steps[m],
                ),
            decreases step_configs.len() - i,
        {
            proof {
                assert(step_configs.deep_view()[i as int] == steps[i as int]);
                assert(step_configs@[i as int]@ == steps[i as int]);
                assert(step_panic_free(cfg, steps[i as int]));
            }
            let trafo = match SimpleTransformation::new(config, &step_configs[i]) {
                Ok(t) => t,
                Err(e) => {
                    proof {
                        assert(!step_ok(cfg, steps[i as int]) && e == step_error(
                            cfg,
                            steps[i as int],
                        ));
                    }
                    return Err(e);
                },
            };
            transformations.push(trafo);
            i += 1;
        }
        let r = TextTransformation { transformations };
        proof {
            assert(r@ =~= steps.map_values(|st: TransformationView| compiled_step(cfg, st)));
        }
        Ok(r)
    }

    /// Applies the profile: folds every step over `text`, in declaration
    /// order. A profile with no steps returns the text unchanged.
    pub fn execute(&self, text: &str) -> (r: String)
        ensures
            r@ == spec_transform_profile(self@, text@),
    {
        let ghost ts = self@;
        let mut current: String = text.to_owned();
        let mut i: usize = 0;
        proof {
            assert(ts.skip(0) =~= ts);
        }
        while i < self.transformations.len()
            invariant
                i <= self.transformations.len(),
                ts == self@,
                spec_transform_profile(ts, text@) == spec_transform_profile(
                    ts.skip(i as int),
                    current@,
                ),
            decreases self.transformations.len() - i,
        {
            proof {
                lemma_transform_profile_step(ts, current@, i as int);
            }
            current = self.transformations[i].execute(current.as_str());
            i += 1;
        }
        current
    }
}

/// A profile descriptor paired with its compiled pipeline.
#[derive(Debug, Clone, PartialEq)]
pub struct TransformationProfileInfo {
    pub profile: TransformationProfile,
    pub transformation: TextTransformation,
}

impl TransformationProfileInfo {
    /// Compiles `profile` against the configuration and keeps the
    /// descriptor beside the result.
    pub fn new(config: &Config, profile: &TransformationProfile) -> (r: Result<
        TransformationProfileInfo,
        EngineError,
    >)
        requires
            profile_panic_free(config@, profile@.transformations),
        ensures
            match r {
                Ok(info) => {
                    &&& info.profile@ == profile@
                    &&& profile_steps_ok(config@, profile@.transformations)
                    &&& info.transformation@ == profile@.transformations.map_values(
                        |st: TransformationView| compiled_step(config@, st),
                    )
                },
                Err(e) => exists|k: int|
                    {
                        &&& 0 <= k < profile@.transformations.len()
                        &&& (forall|m: int|
                            0 <= m < k ==> step_ok(config@, #[trigger] profile@.transformations[m]))
                        &&& !step_ok(config@, profile@.transformations[k])
                        &&& e == step_error(config@, #[trigger] profile@.transformations[k])
                    },
            },
    {
        let transformation = match TextTransformation::new(config, profile) {
            Ok(t) => t,
            Err(e) => {
                return Err(e);
            },
        };
        Ok(
            TransformationProfileInfo {
                profile: crate::config::duplicate_profile(profile),
                transformation,
            },
        )
    }

    /// The profile's name.
    pub fn name(&self) -> (r: &str)
        ensures
            r@ == self.profile@.name,
    {
        self.profile.name()
    }
}

/// The abstract value of a [`TransformationProfileInfo`].
pub struct ProfileInfoView {
    pub profile: TransformationProfileView,
    pub transformation: Seq<SimpleTransformationView>,
}

impl View for TransformationProfileInfo {
    type V = ProfileInfoView;

    open spec fn view(&self) -> ProfileInfoView {
        ProfileInfoView { profile: self.profile@, transformation: self.transformation@ }
    }
}

impl DeepView for TransformationProfileInfo {
    type V = ProfileInfoView;

    open spec fn deep_view(&self) -> ProfileInfoView {
        self.view()
    }
}

/// Whether a profile compiles against `cfg`: every one of its steps does.
pub open spec fn profile_ok(cfg: ConfigView, p: TransformationProfileView) -> bool {
    profile_steps_ok(cfg, p.transformations)
}

/// Compiles every profile of the configuration, in declaration order,
/// stopping at the first profile that fails.
pub fn compile_profiles(config: &Config) -> (r: Result<Vec<TransformationProfileInfo>, EngineError>)
    requires
        forall|k: int|
            0 <= k < config@.profiles.len() && (forall|m: int|
                0 <= m < k ==> profile_ok(config@, #[trigger] config@.profiles[m]))
                ==> profile_panic_free(config@, (#[trigger] config@.profiles[k]).transformations),
    ensures
        match r {
            Ok(infos) => {
                &&& infos@.len() == config@.profiles.len()
                &&& forall|k: int|
                    0 <= k < infos@.len() ==> profile_ok(config@, #[trigger] config@.profiles[k])
                &&& forall|k: int|
                    0 <= k < infos@.len() ==> (#[trigger] infos@[k]@).profile
                        == config@.profiles[k] && infos@[k]@.transformation
                        == config@.profiles[k].transformations.map_values(
                        |st: TransformationView| compiled_step(config@, st),
                    )
            },
            Err(e) => exists|j: int|
                {
                    &&& 0 <= j < config@.profiles.len()
                    &&& (forall|m: int|
                        0 <= m < j ==> profile_ok(config@, #[trigger] config@.profiles[m]))
                    &&& !profile_ok(config@, config@.profiles[j])
                    &&& exists|k: int|
                        {
                            &&& 0 <= k < (#[trigger] config@.profiles[j]).transformations.len()
                            &&& (forall|m: int|
                                0 <= m < k ==> step_ok(
                                    config@,
                                    #[trigger] config@.profiles[j].transformations[m],
                                ))
                            &&& !step_ok(config@, config@.profiles[j].transformations[k])
                            &&& e == step_error(
                                config@,
                                #[trigger] config@.profiles[j].transformations[k],
                            )
                        }
                },
        },
{
    let ghost cfg = config@;
    let ghost ps = config@.profiles;
    let profiles = config.profiles();
    let mut infos: Vec<TransformationProfileInfo> = Vec::new();
    let mut i: usize = 0;
    while i < profiles.len()
        invariant
            i <= profiles.len(),
            cfg == config@,
            ps == config@.profiles,
            profiles.deep_view() == ps,
            forall|k: int|
                0 <= k < ps.len() && (forall|m: int|
                    0 <= m < k ==> profile_ok(cfg, #[trigger] ps[m])) ==> profile_panic_free(
                    cfg,
                    (#[trigger] ps[k]).transformations,
                ),
            infos@.len() == i,
            forall|m: int| 0 <= m < i ==> profile_ok(cfg, #[trigger] ps[m]),
            forall|m: int|
                0 <= m < i ==> (#[trigger] infos@[m]@).profile == ps[m] && infos@[m]@.transformation
                    == ps[m].transformations.map_values(
                    |st: TransformationView| compiled_step(cfg, st),
                ),
        decreases profiles.len() - i,
    {
        proof {
            assert(profiles.deep_view()[i as int] == ps[i as int]);
            assert(profiles@[i as int]@ == ps[i as int]);
            assert(profile_panic_free(cfg, ps[i as int].transformations));
        }
        let info = match TransformationProfileInfo::new(config, &profiles[i]) {
            Ok(info) => info,
            Err(e) => {
                proof {
                    assert(!profile_ok(cfg, ps[i as int]));
                }
                return Err(e);
            },
        };
        infos.push(info);
        i += 1;
    }
    Ok(infos)
}

/// The first compiled profile carrying `name`, if any.
pub open spec fn spec_find_profile(infos: Seq<ProfileInfoView>, name: Seq<char>) -> Option<
    ProfileInfoView,
>
    decreases infos.len(),
{
    if infos.len() == 0 {
        None
    } else if infos[0].profile.name == name {
        Some(infos[0])
    } else {
        spec_find_profile(infos.drop_first(), name)
    }
}

proof fn lemma_find_profile_step(infos: Seq<ProfileInfoView>, i: int, name: Seq<char>)
    requires
        0 <= i < infos.len(),
    ensures
        spec_find_profile(infos.skip(i), name) == if infos[i].profile.name == name {
            Some(infos[i])
        } else {
            spec_find_profile(infos.skip(i + 1), name)
        },
{
    assert(infos.skip(i).drop_first() =~= infos.skip(i + 1));
    assert(infos.skip(i)[0] == infos[i]);
}

/// The first compiled profile whose name equals `name`.
pub fn select_profile<'a>(
    profiles: &'a Vec<TransformationProfileInfo>,
    name: &str,
) -> (r: Option<&'a TransformationProfileInfo>)
    ensures
        match r {
            Some(info) => spec_find_profile(profiles.deep_view(), name@) == Some(info@),
            None => spec_find_profile(profiles.deep_view(), name@) is None,
        },
{
    let ghost infos = profiles.deep_view();
    let mut i: usize = 0;
    proof {
        assert(infos.skip(0) =~= infos);
    }
    while i < profiles.len()
        invariant
            i <= profiles.len(),
            infos == profiles.deep_view(),
            spec_find_profile(infos, name@) == spec_find_profile(infos.skip(i as int), name@),
        decreases profiles.len() - i,
    {
        proof {
            lemma_find_profile_step(infos, i as int, name@);
            assert(profiles.deep_view()[i as int] == infos[i as int]);
            assert(profiles@[i as int]@ == infos[i as int]);
        }
        if crate::chars::str_eq(profiles[i].name(), name) {
            return Some(&profiles[i]);
        }
        i += 1;
    }
    None
}

} // verus!
