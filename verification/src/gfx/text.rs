//! Styled text: fragments that carry the style they were written in, rendered
//! to ANSI SGR escapes that name only the attributes that change from one
//! fragment to the next.

use crate::utils::strings::{decimal, push_decimal};
use vstd::prelude::*;
use vstd::std_specs::cmp::PartialEqSpecImpl;
use vstd::string::StringExecFns;

verus! {

/// A color as three bytes: red, green, blue.
pub type Rgb24 = (u8, u8, u8);

/// The markers a shell wants around bytes that take no room on the line:
/// the one that opens such a run and the one that closes it.
pub type NonPrintingWrappers = (&'static str, &'static str);

/// A terminal color: an index into the 256-color palette, or a direct color.
#[derive(Copy, Clone, Eq, Debug)]
pub enum TermColor {
    Palette(u8),
    Rgb(Rgb24),
}

impl PartialEq for TermColor {
    fn eq(&self, other: &Self) -> (r: bool) {
        match (*self, *other) {
            (TermColor::Palette(a), TermColor::Palette(b)) => a == b,
            (TermColor::Rgb(a), TermColor::Rgb(b)) => a.0 == b.0 && a.1 == b.1 && a.2 == b.2,
            _ => false,
        }
    }
}

impl PartialEqSpecImpl for TermColor {
    open spec fn obeys_eq_spec() -> bool {
        true
    }

    open spec fn eq_spec(&self, other: &Self) -> bool {
        *self == *other
    }
}

/// The attributes of a run of text. An unset color is the terminal's default.
#[derive(Copy, Clone, Eq, Debug)]
pub struct Style {
    pub fg: Option<TermColor>,
    pub bg: Option<TermColor>,
    pub bold: bool,
}

impl PartialEq for Style {
    fn eq(&self, other: &Self) -> (r: bool) {
        self.fg == other.fg && self.bg == other.bg && self.bold == other.bold
    }
}

impl PartialEqSpecImpl for Style {
    open spec fn obeys_eq_spec() -> bool {
        true
    }

    open spec fn eq_spec(&self, other: &Self) -> bool {
        *self == *other
    }
}

impl Style {
    /// The style with both colors unset and bold off.
    pub open spec fn plain() -> Style {
        Style { fg: None, bg: None, bold: false }
    }
}

impl Default for Style {
    fn default() -> (style: Self)
        ensures
            style == Style::plain(),
    {
        Style { fg: None, bg: None, bold: false }
    }
}

/// The SGR code that sets the foreground to `color`.
pub open spec fn fg_code(color: Option<TermColor>) -> Seq<char> {
    match color {
        Some(TermColor::Palette(i)) => if i <= 7 {
            decimal((30 + i) as nat)
        } else if i <= 15 {
            decimal((90 + (i - 8)) as nat)
        } else {
            "38;5;"@ + decimal(i as nat)
        },
        Some(TermColor::Rgb(c)) => "38;2;"@ + decimal(c.0 as nat) + ";"@ + decimal(c.1 as nat)
            + ";"@ + decimal(c.2 as nat),
        None => "39"@,
    }
}

/// The SGR code that sets the background to `color`.
pub open spec fn bg_code(color: Option<TermColor>) -> Seq<char> {
    match color {
        Some(TermColor::Palette(i)) => if i <= 7 {
            decimal((40 + i) as nat)
        } else if i <= 15 {
            decimal((100 + (i - 8)) as nat)
        } else {
            "48;5;"@ + decimal(i as nat)
        },
        Some(TermColor::Rgb(c)) => "48;2;"@ + decimal(c.0 as nat) + ";"@ + decimal(c.1 as nat)
            + ";"@ + decimal(c.2 as nat),
        None => "49"@,
    }
}

/// The SGR code that turns bold on or off.
pub open spec fn bold_code(on: bool) -> Seq<char> {
    if on {
        "1"@
    } else {
        "22"@
    }
}

/// The codes, with a semicolon between each two.
pub open spec fn join_codes(codes: Seq<Seq<char>>) -> Seq<char>
    decreases codes.len(),
{
    if codes.len() == 0 {
        Seq::empty()
    } else if codes.len() == 1 {
        codes[0]
    } else {
        join_codes(codes.drop_last()) + ";"@ + codes.last()
    }
}

/// The SGR escape that applies the codes.
pub open spec fn sgr(codes: Seq<Seq<char>>) -> Seq<char> {
    "\x1b["@ + join_codes(codes) + "m"@
}

/// The codes of all three attributes of `style`.
pub open spec fn full_codes(style: Style) -> Seq<Seq<char>> {
    seq![fg_code(style.fg), bg_code(style.bg), bold_code(style.bold)]
}

/// The codes of the attributes in which `to` differs from `from`, in the
/// order foreground, background, bold.
pub open spec fn changed_codes(from: Style, to: Style) -> Seq<Seq<char>> {
    (if from.fg != to.fg {
        seq![fg_code(to.fg)]
    } else {
        Seq::empty()
    }) + (if from.bg != to.bg {
        seq![bg_code(to.bg)]
    } else {
        Seq::empty()
    }) + (if from.bold != to.bold {
        seq![bold_code(to.bold)]
    } else {
        Seq::empty()
    })
}

/// The escape that takes a terminal from the style `from` to the style `to`.
/// With no style before, it sets all three attributes. With the same style
/// before, there is none.
pub open spec fn style_change(from: Option<Style>, to: Style) -> Option<Seq<char>> {
    match from {
        None => Some(sgr(full_codes(to))),
        Some(f) => if f == to {
            None
        } else {
            Some(sgr(changed_codes(f, to)))
        },
    }
}

/// `escape` between the shell's markers, if it has any.
pub open spec fn wrapped(escape: Seq<char>, wrappers: Option<NonPrintingWrappers>) -> Seq<char> {
    match wrappers {
        Some(w) => w.0@ + escape + w.1@,
        None => escape,
    }
}

/// What is written before a fragment of style `to` that follows one of style
/// `from`: the wrapped escape, or nothing where the style stays.
pub open spec fn style_escape(
    from: Option<Style>,
    to: Style,
    wrappers: Option<NonPrintingWrappers>,
) -> Seq<char> {
    match style_change(from, to) {
        Some(escape) => wrapped(escape, wrappers),
        None => Seq::empty(),
    }
}

/// The style a reference points to, if there is one.
pub open spec fn deref_style(style: Option<&Style>) -> Option<Style> {
    match style {
        Some(s) => Some(*s),
        None => None,
    }
}

pub fn encode_fg(color: &Option<TermColor>) -> (code: String)
    ensures
        code@ == fg_code(*color),
{
    let mut code = String::new();
    match color {
        Some(TermColor::Palette(i)) => {
            let i: u8 = *i;
            if i <= 7 {
                push_decimal(&mut code, 30 + i as u32);
            } else if i <= 15 {
                push_decimal(&mut code, 90 + (i as u32 - 8));
            } else {
                code.append("38;5;");
                push_decimal(&mut code, i as u32);
            }
        },
        Some(TermColor::Rgb(c)) => {
            code.append("38;2;");
            push_decimal(&mut code, c.0 as u32);
            code.append(";");
            push_decimal(&mut code, c.1 as u32);
            code.append(";");
            push_decimal(&mut code, c.2 as u32);
        },
        None => {
            code.append("39");
        },
    }
    code
}

pub fn encode_bg(color: &Option<TermColor>) -> (code: String)
    ensures
        code@ == bg_code(*color),
{
    let mut code = String::new();
    match color {
        Some(TermColor::Palette(i)) => {
            let i: u8 = *i;
            if i <= 7 {
                push_decimal(&mut code, 40 + i as u32);
            } else if i <= 15 {
                push_decimal(&mut code, 100 + (i as u32 - 8));
            } else {
                code.append("48;5;");
                push_decimal(&mut code, i as u32);
            }
        },
        Some(TermColor::Rgb(c)) => {
            code.append("48;2;");
            push_decimal(&mut code, c.0 as u32);
            code.append(";");
            push_decimal(&mut code, c.1 as u32);
            code.append(";");
            push_decimal(&mut code, c.2 as u32);
        },
        None => {
            code.append("49");
        },
    }
    code
}

pub fn encode_bold(on: bool) -> (code: &'static str)
    ensures
        code@ == bold_code(on),
{
    if on {
        "1"
    } else {
        "22"
    }
}

pub fn wrap_sgr(sgr: &str, wrappers: Option<NonPrintingWrappers>) -> (out: String)
    ensures
        out@ == wrapped(sgr@, wrappers),
{
    match wrappers {
        Some((start, end)) => {
            let mut out = String::from_str(start);
            out.append(sgr);
            out.append(end);
            out
        },
        None => String::from_str(sgr),
    }
}

/// The escape that applies `parts`, which holds one code for each attribute
/// to set.
fn encode_parts(parts: &Vec<String>) -> (out: String)
    ensures
        out@ == sgr(parts.deep_view()),
{
    let mut joined = String::new();
    let mut i: usize = 0;
    while i < parts.len()
        invariant
            i <= parts.len(),
            joined@ == join_codes(parts.deep_view().take(i as int)),
        decreases parts.len() - i,
    {
        proof {
            let next = parts.deep_view().take(i + 1);
            assert(next.drop_last() == parts.deep_view().take(i as int));
            assert(next.last() == parts[i as int]@);
        }
        if i > 0 {
            joined.append(";");
        }
        joined.append(parts[i].as_str());
        i += 1;
    }
    assert(parts.deep_view().take(parts.len() as int) == parts.deep_view());
    let mut out = String::from_str("\x1b[");
    out.append(joined.as_str());
    out.append("m");
    out
}

pub fn encode_style_full(style: &Style) -> (out: String)
    ensures
        out@ == sgr(full_codes(*style)),
{
    let mut parts: Vec<String> = Vec::new();
    parts.push(encode_fg(&style.fg));
    parts.push(encode_bg(&style.bg));
    parts.push(String::from_str(encode_bold(style.bold)));
    assert(parts.deep_view() == full_codes(*style));
    encode_parts(&parts)
}

pub fn encode_style_diff(from: &Style, to: &Style) -> (out: Option<String>)
    ensures
        out is Some <==> *from != *to,
        out matches Some(escape) ==> escape@ == sgr(changed_codes(*from, *to)),
{
    if *from == *to {
        return None;
    }
    let mut parts: Vec<String> = Vec::new();
    if from.fg != to.fg {
        parts.push(encode_fg(&to.fg));
    }
    assert(parts.deep_view() == changed_codes(*from, Style { bg: from.bg, bold: from.bold, ..*to }));
    if from.bg != to.bg {
        parts.push(encode_bg(&to.bg));
    }
    assert(parts.deep_view() == changed_codes(*from, Style { bold: from.bold, ..*to }));
    if from.bold != to.bold {
        parts.push(String::from_str(encode_bold(to.bold)));
    }
    assert(parts.deep_view() == changed_codes(*from, *to));
    Some(encode_parts(&parts))
}

pub fn encode_style(from: Option<&Style>, to: &Style, wrappers: Option<NonPrintingWrappers>) -> (out:
    Option<String>)
    ensures
        out is Some <==> style_change(deref_style(from), *to) is Some,
        out matches Some(escape) ==> escape@ == style_escape(deref_style(from), *to, wrappers),
{
    let escape = match from {
        Some(f) => encode_style_diff(f, to),
        None => Some(encode_style_full(to)),
    };
    match escape {
        Some(e) => Some(wrap_sgr(e.as_str(), wrappers)),
        None => None,
    }
}

/// `s` in bold, with a reset after it.
pub open spec fn bold_text(s: Seq<char>) -> Seq<char> {
    "\x1b[1m"@ + s + "\x1b[0m"@
}

/// `s` in green, with a reset after it.
pub open spec fn green_text(s: Seq<char>) -> Seq<char> {
    "\x1b[32m"@ + s + "\x1b[0m"@
}

pub fn bold(s: &str) -> (out: String)
    ensures
        out@ == bold_text(s@),
{
    let mut out = String::from_str("\x1b[1m");
    out.append(s);
    out.append("\x1b[0m");
    out
}

pub fn green(s: &str) -> (out: String)
    ensures
        out@ == green_text(s@),
{
    let mut out = String::from_str("\x1b[32m");
    out.append(s);
    out.append("\x1b[0m");
    out
}

/// A run of text with the style it was written in.
pub struct Fragment {
    text: String,
    style: Style,
}

/// A fragment as a value: its characters and its style.
pub ghost struct FragmentView {
    pub text: Seq<char>,
    pub style: Style,
}

impl View for Fragment {
    type V = FragmentView;

    closed spec fn view(&self) -> FragmentView {
        FragmentView { text: self.text@, style: self.style }
    }
}

/// The fragments of a vector as values, in order.
pub closed spec fn fragment_views(fragments: Seq<Fragment>) -> Seq<FragmentView> {
    Seq::new(fragments.len(), |i: int| fragments[i]@)
}

/// Collects fragments. A style set on the builder applies to the text that
/// is appended after it, never to what is already there.
pub struct TextBuilder {
    style: Style,
    fragments: Vec<Fragment>,
}

/// A builder as a value: the style that the next text will get, and the
/// fragments appended so far.
pub ghost struct TextBuilderView {
    pub style: Style,
    pub fragments: Seq<FragmentView>,
}

impl View for TextBuilder {
    type V = TextBuilderView;

    closed spec fn view(&self) -> TextBuilderView {
        TextBuilderView { style: self.style, fragments: fragment_views(self.fragments@) }
    }
}

impl Default for TextBuilder {
    fn default() -> (builder: Self)
        ensures
            builder@.style == Style::plain(),
            builder@.fragments == Seq::<FragmentView>::empty(),
    {
        TextBuilder { style: Style::default(), fragments: Vec::new() }
    }
}

impl TextBuilder {
    pub fn new() -> (builder: Self)
        ensures
            builder@.style == Style::plain(),
            builder@.fragments == Seq::<FragmentView>::empty(),
    {
        TextBuilder { style: Style::default(), fragments: Vec::new() }
    }

    pub fn fg(&mut self, color: Option<TermColor>) -> (ret: &mut Self)
        ensures
            ret@.style == (Style { fg: color, ..old(self)@.style }),
            ret@.fragments == old(self)@.fragments,
            *final(self) == *final(ret),
    {
        self.style.fg = color;
        self
    }

    pub fn bg(&mut self, color: Option<TermColor>) -> (ret: &mut Self)
        ensures
            ret@.style == (Style { bg: color, ..old(self)@.style }),
            ret@.fragments == old(self)@.fragments,
            *final(self) == *final(ret),
    {
        self.style.bg = color;
        self
    }

    pub fn bold(&mut self, on: bool) -> (ret: &mut Self)
        ensures
            ret@.style == (Style { bold: on, ..old(self)@.style }),
            ret@.fragments == old(self)@.fragments,
            *final(self) == *final(ret),
    {
        self.style.bold = on;
        self
    }

    pub fn text(&mut self, text: &str) -> (ret: &mut Self)
        ensures
            ret@.style == old(self)@.style,
            ret@.fragments == old(self)@.fragments.push(
                FragmentView { text: text@, style: old(self)@.style },
            ),
            *final(self) == *final(ret),
    {
        let fragment = Fragment { text: String::from_str(text), style: self.style };
        self.fragments.push(fragment);
        assert(fragment_views(self.fragments@) == fragment_views(old(self).fragments@).push(
            FragmentView { text: text@, style: old(self).style },
        ));
        self
    }

    pub fn build(&self) -> (styled: StyledText)
        ensures
            styled@ == self@.fragments,
    {
        let mut fragments: Vec<Fragment> = Vec::new();
        let mut i: usize = 0;
        while i < self.fragments.len()
            invariant
                i <= self.fragments.len(),
                fragments.len() == i,
                forall|j: int| 0 <= j < i ==> fragments[j]@ == self.fragments[j]@,
            decreases self.fragments.len() - i,
        {
            let fragment = &self.fragments[i];
            fragments.push(Fragment { text: fragment.text.clone(), style: fragment.style });
            i += 1;
        }
        assert(fragment_views(fragments@) =~= fragment_views(self.fragments@));
        StyledText { fragments }
    }
}

/// Fragments in the order in which they are written out.
pub struct StyledText {
    fragments: Vec<Fragment>,
}

impl View for StyledText {
    type V = Seq<FragmentView>;

    closed spec fn view(&self) -> Seq<FragmentView> {
        fragment_views(self.fragments@)
    }
}

/// The style of the fragment before the one at `i`, if there is one.
pub open spec fn style_before(fragments: Seq<FragmentView>, i: int) -> Option<Style> {
    if i <= 0 {
        None
    } else {
        Some(fragments[i - 1].style)
    }
}

/// What the first `n` fragments render to: for each, the escape that leads
/// from the style of the one before to its own, then its text.
pub open spec fn rendered_prefix(
    fragments: Seq<FragmentView>,
    n: nat,
    wrappers: Option<NonPrintingWrappers>,
) -> Seq<char>
    decreases n,
{
    if n == 0 {
        Seq::empty()
    } else {
        rendered_prefix(fragments, (n - 1) as nat, wrappers) + style_escape(
            style_before(fragments, n - 1),
            fragments[n - 1].style,
            wrappers,
        ) + fragments[n - 1].text
    }
}

/// What the fragments render to: nothing where there are none, else all of
/// them and one reset of all attributes at the end.
pub open spec fn rendered(fragments: Seq<FragmentView>, wrappers: Option<NonPrintingWrappers>) -> Seq<
    char,
> {
    if fragments.len() == 0 {
        Seq::empty()
    } else {
        rendered_prefix(fragments, fragments.len(), wrappers) + wrapped("\x1b[0m"@, wrappers)
    }
}

impl StyledText {
    pub fn render(&self, wrappers: Option<NonPrintingWrappers>) -> (out: String)
        ensures
            out@ == rendered(self@, wrappers),
    {
        let mut result = String::new();
        if self.fragments.len() == 0 {
            return result;
        }
        let mut i: usize = 0;
        while i < self.fragments.len()
            invariant
                i <= self.fragments.len(),
                result@ == rendered_prefix(self@, i as nat, wrappers),
            decreases self.fragments.len() - i,
        {
            let fragment = &self.fragments[i];
            let previous: Option<&Style> = if i == 0 {
                None
            } else {
                Some(&self.fragments[i - 1].style)
            };
            assert(deref_style(previous) == style_before(self@, i as int));
            assert(self@[i as int] == fragment@);
            if let Some(escape) = encode_style(previous, &fragment.style, wrappers) {
                result.append(escape.as_str());
            }
            result.append(fragment.text.as_str());
            i += 1;
        }
        let reset = wrap_sgr("\x1b[0m", wrappers);
        result.append(reset.as_str());
        result
    }
}

/// A fragment in the style of the one before it gets no escape: only its
/// text is written.
pub proof fn lemma_same_style_emits_nothing(
    fragments: Seq<FragmentView>,
    i: int,
    wrappers: Option<NonPrintingWrappers>,
)
    requires
        1 <= i < fragments.len(),
        fragments[i].style == fragments[i - 1].style,
    ensures
        style_change(Some(fragments[i - 1].style), fragments[i].style) is None,
        rendered_prefix(fragments, (i + 1) as nat, wrappers) == rendered_prefix(
            fragments,
            i as nat,
            wrappers,
        ) + fragments[i].text,
{
}

/// The first fragment is written after an escape that sets all three
/// attributes, whatever its style.
pub proof fn lemma_first_fragment_sets_all(
    fragments: Seq<FragmentView>,
    wrappers: Option<NonPrintingWrappers>,
)
    requires
        fragments.len() >= 1,
    ensures
        rendered_prefix(fragments, 1, wrappers) == wrapped(
            sgr(
                seq![
                    fg_code(fragments[0].style.fg),
                    bg_code(fragments[0].style.bg),
                    bold_code(fragments[0].style.bold),
                ],
            ),
            wrappers,
        ) + fragments[0].text,
{
    assert(rendered_prefix(fragments, 0, wrappers) == Seq::<char>::empty());
}

/// Where only bold differs between two styles, the escape from one to the
/// other holds the bold code and nothing else.
pub proof fn lemma_bold_change_emits_bold_only(from: Style, to: Style)
    requires
        from.fg == to.fg,
        from.bg == to.bg,
        from.bold != to.bold,
    ensures
        style_change(Some(from), to) == Some("\x1b["@ + bold_code(to.bold) + "m"@),
{
    assert(changed_codes(from, to) == seq![bold_code(to.bold)]);
}

} // verus!
