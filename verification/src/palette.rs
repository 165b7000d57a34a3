//! The service's handlers: rendering a generated theme as one hex string,
//! the palette request handler, the greeting handler, and the error adapter
//! that turns every failure into the same kind of reply.
use crate::color::{all_hex, lemma_hex6_shape, parse_color, push_hex6, spec_hex6, PaletteError};
use crate::theme::{
    build_theme, default_accent_colors, parse_theme_type, spec_default_accents,
    spec_parse_theme_type, theme_of, AccentRoles, GeneratedTheme, ThemeType, ThemeView,
    ACCENT_COLORS, SCHEME_ROLES,
};
use material_colors::color::Argb;
use vstd::prelude::*;
use vstd::string::StringExecFns;

verus! {

/// The hex rendering of one mode's role variants of a custom color: color,
/// color-container, on-color, on-color-container, in that order.
pub open spec fn accent_hex(a: AccentRoles) -> Seq<char> {
    spec_hex6(a.color) + spec_hex6(a.color_container) + spec_hex6(a.on_color) + spec_hex6(
        a.on_color_container,
    )
}

/// The concatenated hex rendering of a scheme's colors, in role order.
pub open spec fn scheme_hex(s: Seq<Argb>) -> Seq<char>
    decreases s.len(),
{
    if s.len() == 0 {
        Seq::empty()
    } else {
        spec_hex6(s[0]) + scheme_hex(s.drop_first())
    }
}

/// The concatenated hex rendering of the custom colors' role variants.
pub open spec fn accents_hex(s: Seq<AccentRoles>) -> Seq<char>
    decreases s.len(),
{
    if s.len() == 0 {
        Seq::empty()
    } else {
        accent_hex(s[0]) + accents_hex(s.drop_first())
    }
}

/// What the service renders of a theme for one mode: every scheme color, then
/// every custom color's four role variants, concatenated with no separator.
pub open spec fn render_of(t: ThemeView, mode: ThemeType) -> Seq<char> {
    match mode {
        ThemeType::Dark => scheme_hex(t.dark) + accents_hex(t.dark_accents),
        ThemeType::Light => scheme_hex(t.light) + accents_hex(t.light_accents),
    }
}

proof fn lemma_scheme_hex_snoc(s: Seq<Argb>, x: Argb)
    ensures
        scheme_hex(s.push(x)) == scheme_hex(s) + spec_hex6(x),
    decreases s.len(),
{
    let p = s.push(x);
    if s.len() == 0 {
        assert(p.drop_first() =~= Seq::<Argb>::empty());
        assert(scheme_hex(p.drop_first()) =~= Seq::<char>::empty());
        assert(scheme_hex(p) == spec_hex6(p[0]) + scheme_hex(p.drop_first()));
        assert(p[0] == x);
        assert(scheme_hex(p) =~= scheme_hex(s) + spec_hex6(x));
    } else {
        assert(p.drop_first() =~= s.drop_first().push(x));
        lemma_scheme_hex_snoc(s.drop_first(), x);
        assert(scheme_hex(p) == spec_hex6(p[0]) + scheme_hex(p.drop_first()));
        assert(p[0] == s[0]);
        assert(scheme_hex(s) == spec_hex6(s[0]) + scheme_hex(s.drop_first()));
        assert(scheme_hex(p) =~= scheme_hex(s) + spec_hex6(x));
    }
}

proof fn lemma_accents_hex_snoc(s: Seq<AccentRoles>, x: AccentRoles)
    ensures
        accents_hex(s.push(x)) == accents_hex(s) + accent_hex(x),
    decreases s.len(),
{
    let p = s.push(x);
    if s.len() == 0 {
        assert(p.drop_first() =~= Seq::<AccentRoles>::empty());
        assert(accents_hex(p.drop_first()) =~= Seq::<char>::empty());
        assert(accents_hex(p) == accent_hex(p[0]) + accents_hex(p.drop_first()));
        assert(p[0] == x);
        assert(accents_hex(p) =~= accents_hex(s) + accent_hex(x));
    } else {
        assert(p.drop_first() =~= s.drop_first().push(x));
        lemma_accents_hex_snoc(s.drop_first(), x);
        assert(accents_hex(p) == accent_hex(p[0]) + accents_hex(p.drop_first()));
        assert(p[0] == s[0]);
        assert(accents_hex(s) == accent_hex(s[0]) + accents_hex(s.drop_first()));
        assert(accents_hex(p) =~= accents_hex(s) + accent_hex(x));
    }
}

/// A rendered scheme is six hex digits per color.
pub proof fn lemma_scheme_hex_shape(s: Seq<Argb>)
    ensures
        scheme_hex(s).len() == 6 * s.len(),
        all_hex(scheme_hex(s)),
    decreases s.len(),
{
    if s.len() > 0 {
        lemma_hex6_shape(s[0]);
        lemma_scheme_hex_shape(s.drop_first());
    }
}

/// Rendered custom colors are twenty-four hex digits per color.
pub proof fn lemma_accents_hex_shape(s: Seq<AccentRoles>)
    ensures
        accents_hex(s).len() == 24 * s.len(),
        all_hex(accents_hex(s)),
    decreases s.len(),
{
    if s.len() > 0 {
        lemma_hex6_shape(s[0].color);
        lemma_hex6_shape(s[0].color_container);
        lemma_hex6_shape(s[0].on_color);
        lemma_hex6_shape(s[0].on_color_container);
        lemma_accents_hex_shape(s.drop_first());
    }
}

/// Renders a generated theme for one mode as a single hex string.
#[verifier::rlimit(50)]
pub fn render_palette(t: &GeneratedTheme, mode: ThemeType) -> (r: String)
    ensures
        r@ == render_of(t@, mode),
{
    let scheme: &Vec<Argb> = match mode {
        ThemeType::Dark => &t.dark,
        ThemeType::Light => &t.light,
    };
    let accents: &Vec<AccentRoles> = match mode {
        ThemeType::Dark => &t.dark_accents,
        ThemeType::Light => &t.light_accents,
    };
    let mut out = String::new();
    let mut i: usize = 0;
    while i < scheme.len()
        invariant
            i <= scheme@.len(),
            out@ == scheme_hex(scheme@.take(i as int)),
        decreases scheme@.len() - i,
    {
        push_hex6(&mut out, &scheme[i]);
        proof {
            assert(scheme@.take(i + 1 as int) =~= scheme@.take(i as int).push(scheme@[i as int]));
            lemma_scheme_hex_snoc(scheme@.take(i as int), scheme@[i as int]);
        }
        i = i + 1;
    }
    proof {
        assert(scheme@.take(scheme@.len() as int) =~= scheme@);
    }
    let mut j: usize = 0;
    while j < accents.len()
        invariant
            j <= accents@.len(),
            out@ == scheme_hex(scheme@) + accents_hex(accents@.take(j as int)),
        decreases accents@.len() - j,
    {
        let a = &accents[j];
        push_hex6(&mut out, &a.color);
        push_hex6(&mut out, &a.color_container);
        push_hex6(&mut out, &a.on_color);
        push_hex6(&mut out, &a.on_color_container);
        proof {
            assert(accents@.take(j + 1 as int) =~= accents@.take(j as int).push(
                accents@[j as int],
            ));
            lemma_accents_hex_snoc(accents@.take(j as int), accents@[j as int]);
            assert(out@ =~= scheme_hex(scheme@) + accents_hex(accents@.take(j + 1 as int)));
        }
        j = j + 1;
    }
    proof {
        assert(accents@.take(accents@.len() as int) =~= accents@);
        assert(out@ =~= render_of(t@, mode));
    }
    out
}

/// What a palette request yields: the theme token is checked first, then the
/// base color; a valid pair yields the rendering of the derived theme for the
/// requested mode, with the fixed accent colors along.
pub open spec fn spec_palette(base: Seq<char>, tt: Seq<char>) -> Result<Seq<char>, PaletteError> {
    match spec_parse_theme_type(tt) {
        Err(e) => Err(e),
        Ok(mode) => match crate::color::spec_parse_color(base) {
            Err(e) => Err(e),
            Ok(c) => Ok(render_of(theme_of(c, spec_default_accents()), mode)),
        },
    }
}

/// Handles one palette request: parses `theme_type` and `base_color`, derives
/// the theme for the base color with the fixed accent colors, and renders the
/// requested mode. A successful body is all hex digits and exactly six per
/// rendered color: the scheme's roles and four variants per accent color.
pub fn get_palette(base_color: &str, theme_type: &str) -> (r: Result<String, PaletteError>)
    ensures
        match r {
            Ok(s) => spec_palette(base_color@, theme_type@) == Ok::<Seq<char>, PaletteError>(s@)
                && s@.len() == 6 * (SCHEME_ROLES + 4 * ACCENT_COLORS) && all_hex(s@),
            Err(e) => spec_palette(base_color@, theme_type@) == Err::<Seq<char>, PaletteError>(e),
        },
{
    let mode = match parse_theme_type(theme_type) {
        Ok(m) => m,
        Err(e) => {
            return Err(e);
        },
    };
    let source = match parse_color(base_color) {
        Ok(c) => c,
        Err(e) => {
            return Err(e);
        },
    };
    let accents = default_accent_colors();
    let ghost old_accents = accents@;
    let theme = build_theme(source, accents);
    let rendered = render_palette(&theme, mode);
    proof {
        lemma_scheme_hex_shape(theme@.light);
        lemma_scheme_hex_shape(theme@.dark);
        lemma_accents_hex_shape(theme@.light_accents);
        lemma_accents_hex_shape(theme@.dark_accents);
        crate::color::lemma_all_hex_concat(
            scheme_hex(theme@.light),
            accents_hex(theme@.light_accents),
        );
        crate::color::lemma_all_hex_concat(
            scheme_hex(theme@.dark),
            accents_hex(theme@.dark_accents),
        );
        assert(old_accents.len() == spec_default_accents().len());
        assert(theme@ == theme_of(source, spec_default_accents()));
    }
    Ok(rendered)
}

/// The greeting handler: a liveness probe with no input and no failure mode.
pub fn hello_world() -> (r: &'static str)
    ensures
        r@ == "Hello, world!"@,
{
    "Hello, world!"
}

impl PaletteError {
    /// The human-readable message of an error.
    pub open spec fn spec_message(self) -> Seq<char> {
        match self {
            PaletteError::InvalidColor => "provided string was not RGB-like"@,
            PaletteError::InvalidThemeType => "unknown theme type, expected `Dark` or `Light`"@,
        }
    }

    /// Renders the error's message.
    pub fn message(&self) -> (r: String)
        ensures
            r@ == self.spec_message(),
    {
        match self {
            PaletteError::InvalidColor => String::from_str("provided string was not RGB-like"),
            PaletteError::InvalidThemeType => String::from_str(
                "unknown theme type, expected `Dark` or `Light`",
            ),
        }
    }
}

/// One reply of the service: a status code and a plain-text body.
pub struct HttpReply {
    pub status: u16,
    pub body: String,
}

/// The body every failure is reported with.
pub open spec fn spec_failure_body(e: PaletteError) -> Seq<char> {
    "Something went wrong: "@ + e.spec_message()
}

/// The error adapter: every failure becomes status 500 with a body that
/// starts with `Something went wrong: ` and carries the error's message.
pub fn error_reply(e: PaletteError) -> (r: HttpReply)
    ensures
        r.status == 500,
        r.body@ == spec_failure_body(e),
{
    let mut body = String::from_str("Something went wrong: ");
    let msg = e.message();
    body.append(msg.as_str());
    HttpReply { status: 500, body }
}

/// What the service replies to a palette request: 200 with the rendering on
/// success, 500 with the uniform failure body otherwise.
pub open spec fn spec_palette_reply(base: Seq<char>, tt: Seq<char>) -> (u16, Seq<char>) {
    match spec_palette(base, tt) {
        Ok(s) => (200u16, s),
        Err(e) => (500u16, spec_failure_body(e)),
    }
}

/// Handles a palette request end to end: the handler's result fed through the
/// error adapter.
pub fn palette_reply(base_color: &str, theme_type: &str) -> (r: HttpReply)
    ensures
        r.status == spec_palette_reply(base_color@, theme_type@).0,
        r.body@ == spec_palette_reply(base_color@, theme_type@).1,
        r.status == 200 || r.status == 500,
{
    match get_palette(base_color, theme_type) {
        Ok(body) => HttpReply { status: 200, body },
        Err(e) => error_reply(e),
    }
}

/// A palette body is hex digits only, whatever theme the library derived.
pub proof fn lemma_palette_all_hex(base: Seq<char>, tt: Seq<char>)
    requires
        spec_palette(base, tt) is Ok,
    ensures
        all_hex(spec_palette(base, tt)->Ok_0),
{
    let mode = spec_parse_theme_type(tt)->Ok_0;
    let c = crate::color::spec_parse_color(base)->Ok_0;
    let t = theme_of(c, spec_default_accents());
    lemma_scheme_hex_shape(t.light);
    lemma_scheme_hex_shape(t.dark);
    lemma_accents_hex_shape(t.light_accents);
    lemma_accents_hex_shape(t.dark_accents);
    crate::color::lemma_all_hex_concat(scheme_hex(t.light), accents_hex(t.light_accents));
    crate::color::lemma_all_hex_concat(scheme_hex(t.dark), accents_hex(t.dark_accents));
}

/// Determinism: two requests with the same `base_color` and `theme_type` get
/// byte-identical replies.
pub proof fn lemma_palette_deterministic(b1: Seq<char>, t1: Seq<char>, b2: Seq<char>, t2: Seq<char>)
    requires
        b1 == b2,
        t1 == t2,
    ensures
        spec_palette_reply(b1, t1) == spec_palette_reply(b2, t2),
{
}

/// A `base_color` that is no hex color is answered with the color error, for
/// any well-formed theme token.
pub proof fn lemma_invalid_color_rejected(base: Seq<char>, tt: Seq<char>)
    requires
        spec_parse_theme_type(tt) is Ok,
        crate::color::spec_parse_color(base) is Err,
    ensures
        spec_palette(base, tt) == Err::<Seq<char>, PaletteError>(PaletteError::InvalidColor),
        spec_palette_reply(base, tt).0 == 500,
{
}

/// A `theme_type` that is neither `Dark` nor `Light` is answered with the
/// theme error, whatever the base color says.
pub proof fn lemma_invalid_theme_rejected(base: Seq<char>, tt: Seq<char>)
    requires
        spec_parse_theme_type(tt) is Err,
    ensures
        spec_palette(base, tt) == Err::<Seq<char>, PaletteError>(PaletteError::InvalidThemeType),
        spec_palette_reply(base, tt).0 == 500,
{
}

} // verus!
