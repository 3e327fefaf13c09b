use vstd::prelude::*;

use crate::text::{decimal, digit_char, from_chars, push_decimal, push_str};

verus! {

/// The severity shown by a widget.
#[derive(PartialEq, Eq, Structural, Debug, Clone, Copy)]
pub enum State {
    Idle,
    Info,
    Warning,
    Critical,
}

/// How a widget spaces its text: `Normal` keeps a leading space where there is no
/// icon and a trailing space, `Inline` keeps only the trailing space, `Hidden`
/// keeps neither.
#[derive(PartialEq, Eq, Structural, Debug, Clone, Copy)]
pub enum Spacing {
    Normal,
    Inline,
    Hidden,
}

/// The process-wide colours, a (background, foreground) pair for each state.
#[derive(Clone, Debug)]
pub struct Theme {
    pub idle_bg: String,
    pub idle_fg: String,
    pub info_bg: String,
    pub info_fg: String,
    pub warning_bg: String,
    pub warning_fg: String,
    pub critical_bg: String,
    pub critical_fg: String,
}

/// The (background, foreground) colours of a state under a theme.
pub open spec fn colors_of(st: State, t: Theme) -> (Seq<char>, Seq<char>) {
    match st {
        State::Idle => (t.idle_bg@, t.idle_fg@),
        State::Info => (t.info_bg@, t.info_fg@),
        State::Warning => (t.warning_bg@, t.warning_fg@),
        State::Critical => (t.critical_bg@, t.critical_fg@),
    }
}

impl State {
    /// The (background, foreground) colours of this state under `theme`.
    pub fn theme_keys<'a>(&self, theme: &'a Theme) -> (r: (&'a String, &'a String))
        ensures
            (r.0@, r.1@) == colors_of(*self, *theme),
    {
        match self {
            State::Idle => (&theme.idle_bg, &theme.idle_fg),
            State::Info => (&theme.info_bg, &theme.info_fg),
            State::Warning => (&theme.warning_bg, &theme.warning_fg),
            State::Critical => (&theme.critical_bg, &theme.critical_fg),
        }
    }
}

/// What every widget shares: the theme and the icons by name.
#[derive(Clone, Debug)]
pub struct SharedConfig {
    pub theme: Theme,
    pub icons: Vec<(String, String)>,
}

/// The icon registered under `name`: the first entry with that name.
pub open spec fn icon_for(icons: Seq<(String, String)>, name: Seq<char>) -> Option<Seq<char>>
    decreases icons.len(),
{
    if icons.len() == 0 {
        None
    } else if icons[0].0@ == name {
        Some(icons[0].1@)
    } else {
        icon_for(icons.drop_first(), name)
    }
}

impl SharedConfig {
    /// The icon registered under `name`.
    pub fn get_icon(&self, name: &str) -> (r: Option<String>)
        ensures
            match r {
                Some(s) => icon_for(self.icons@, name@) == Some(s@),
                None => icon_for(self.icons@, name@) is None,
            },
    {
        let key = name.to_owned();
        let mut i: usize = 0;
        assert(self.icons@.subrange(0, self.icons@.len() as int) =~= self.icons@);
        while i < self.icons.len()
            invariant
                0 <= i <= self.icons@.len(),
                key@ == name@,
                icon_for(self.icons@, name@) == icon_for(
                    self.icons@.subrange(i as int, self.icons@.len() as int),
                    name@,
                ),
            decreases self.icons@.len() - i,
        {
            let ghost rest = self.icons@.subrange(i as int, self.icons@.len() as int);
            assert(rest[0] == self.icons@[i as int]);
            if self.icons[i].0 == key {
                return Some(self.icons[i].1.clone());
            }
            assert(rest.drop_first() =~= self.icons@.subrange(i + 1, self.icons@.len() as int));
            i = i + 1;
        }
        None
    }
}

/// A lower-case hexadecimal digit.
pub open spec fn hex_digit(d: nat) -> char {
    if d < 10 {
        digit_char(d)
    } else if d == 10 { 'a' }
    else if d == 11 { 'b' }
    else if d == 12 { 'c' }
    else if d == 13 { 'd' }
    else if d == 14 { 'e' }
    else { 'f' }
}

/// One character inside a JSON string literal: quote and backslash escaped,
/// the short escapes for backspace, form feed, line feed, carriage return and
/// tab, `\u00xx` for the other control characters, anything else as it is.
pub open spec fn json_escape(c: char) -> Seq<char> {
    if c == '"' {
        seq!['\\', '"']
    } else if c == '\\' {
        seq!['\\', '\\']
    } else if c == '\x08' {
        seq!['\\', 'b']
    } else if c == '\x0c' {
        seq!['\\', 'f']
    } else if c == '\n' {
        seq!['\\', 'n']
    } else if c == '\r' {
        seq!['\\', 'r']
    } else if c == '\t' {
        seq!['\\', 't']
    } else if (c as u32) < 0x20 {
        seq!['\\', 'u', '0', '0', hex_digit((c as u32 / 16) as nat), hex_digit((c as u32 % 16) as nat)]
    } else {
        seq![c]
    }
}

/// The escaped characters of a text.
pub open spec fn json_escaped(s: Seq<char>) -> Seq<char>
    decreases s.len(),
{
    if s.len() == 0 {
        Seq::empty()
    } else {
        json_escaped(s.drop_last()) + json_escape(s.last())
    }
}

/// The text of `s` as a JSON string literal, quotes included.
pub open spec fn json_string(s: Seq<char>) -> Seq<char> {
    seq!['"'] + json_escaped(s) + seq!['"']
}

/// Relies on serde_json's `Value::String` and its compact `Display`, which
/// writes the string between quotes with the escapes of `json_escape`.
#[verifier::external_body]
fn quote_json(s: &str) -> (r: String)
    ensures
        r@ == json_string(s@),
{
    serde_json::Value::String(s.to_string()).to_string()
}

/// The fields of a widget that its wire fragment depends on.
pub struct WidgetView {
    pub id: nat,
    pub content: Option<Seq<char>>,
    pub icon: Option<Seq<char>>,
    pub state: State,
    pub spacing: Spacing,
    pub config: SharedConfig,
}

/// The text a widget shows: its icon (or a space in `Normal` spacing, nothing
/// otherwise), its content, and a trailing space unless spacing is `Hidden`.
pub open spec fn full_text(w: WidgetView) -> Seq<char> {
    let lead = match w.icon {
        Some(i) => i,
        None => if w.spacing == Spacing::Normal {
            " "@
        } else {
            ""@
        },
    };
    let body = match w.content {
        Some(c) => c,
        None => ""@,
    };
    let trail = if w.spacing == Spacing::Hidden {
        ""@
    } else {
        " "@
    };
    lead + body + trail
}

/// The wire record of a widget: a JSON object with its keys in order.
pub open spec fn fragment(w: WidgetView) -> Seq<char> {
    let (bg, fg) = colors_of(w.state, w.config.theme);
    "{\"background\":"@ + json_string(bg) + ",\"color\":"@ + json_string(fg) + ",\"full_text\":"@
        + json_string(full_text(w)) + ",\"markup\":\"pango\",\"name\":"@ + decimal(w.id)
        + ",\"separator\":false,\"separator_block_width\":0}"@
}

/// A themed text fragment of one block, whose wire record is recomputed on
/// every change and kept ready for output.
#[derive(Clone, Debug)]
pub struct ButtonWidget {
    id: usize,
    content: Option<String>,
    icon: Option<String>,
    state: State,
    spacing: Spacing,
    cached_output: String,
    shared_config: SharedConfig,
}

impl View for ButtonWidget {
    type V = WidgetView;

    closed spec fn view(&self) -> WidgetView {
        WidgetView {
            id: self.id as nat,
            content: match self.content {
                Some(c) => Some(c@),
                None => None,
            },
            icon: match self.icon {
                Some(i) => Some(i@),
                None => None,
            },
            state: self.state,
            spacing: self.spacing,
            config: self.shared_config,
        }
    }
}

impl ButtonWidget {
    /// The cached record matches the current fields.
    pub closed spec fn wf(&self) -> bool {
        self.cached_output@ == fragment(self@)
    }

    /// The wire record of the current fields.
    fn compute(&self) -> (r: String)
        ensures
            r@ == fragment(self@),
    {
        let (bg, fg) = self.state.theme_keys(&self.shared_config.theme);
        let mut full: Vec<char> = Vec::new();
        match &self.icon {
            Some(i) => push_str(&mut full, i.as_str()),
            None => {
                if self.spacing == Spacing::Normal {
                    push_str(&mut full, " ");
                } else {
                    push_str(&mut full, "");
                }
            },
        }
        match &self.content {
            Some(c) => push_str(&mut full, c.as_str()),
            None => push_str(&mut full, ""),
        }
        if self.spacing == Spacing::Hidden {
            push_str(&mut full, "");
        } else {
            push_str(&mut full, " ");
        }
        assert(full@ =~= full_text(self@));
        let full_s = from_chars(&full);
        let mut out: Vec<char> = Vec::new();
        push_str(&mut out, "{\"background\":");
        push_str(&mut out, quote_json(bg.as_str()).as_str());
        push_str(&mut out, ",\"color\":");
        push_str(&mut out, quote_json(fg.as_str()).as_str());
        push_str(&mut out, ",\"full_text\":");
        push_str(&mut out, quote_json(full_s.as_str()).as_str());
        push_str(&mut out, ",\"markup\":\"pango\",\"name\":");
        push_decimal(&mut out, self.id as u64);
        push_str(&mut out, ",\"separator\":false,\"separator_block_width\":0}");
        assert(out@ =~= fragment(self@));
        from_chars(&out)
    }

    /// Recomputes the cached record from the current fields.
    fn update(&mut self)
        ensures
            final(self)@ == old(self)@,
            final(self).wf(),
    {
        self.cached_output = self.compute();
    }

    /// A widget of block `id` with no icon and no text, idle, in normal spacing.
    pub fn new(id: usize, shared_config: SharedConfig) -> (r: ButtonWidget)
        ensures
            r.wf(),
            r@ == (WidgetView {
                id: id as nat,
                content: None,
                icon: None,
                state: State::Idle,
                spacing: Spacing::Normal,
                config: shared_config,
            }),
    {
        let mut w = ButtonWidget {
            id,
            content: None,
            icon: None,
            state: State::Idle,
            spacing: Spacing::Normal,
            cached_output: String::new(),
            shared_config,
        };
        w.update();
        w
    }

    /// This widget with the icon registered under `name`, or none.
    pub fn with_icon(self, name: &str) -> (r: ButtonWidget)
        ensures
            r.wf(),
            r@ == (WidgetView { icon: icon_for(self@.config.icons@, name@), ..self@ }),
    {
        let mut w = self;
        w.set_icon(name);
        w
    }

    /// This widget with the content `content`.
    pub fn with_content(self, content: Option<String>) -> (r: ButtonWidget)
        ensures
            r.wf(),
            r@ == (WidgetView {
                content: match content {
                    Some(c) => Some(c@),
                    None => None,
                },
                ..self@
            }),
    {
        let mut w = self;
        w.content = content;
        w.update();
        w
    }

    /// This widget with the text `content`.
    pub fn with_text(self, content: &str) -> (r: ButtonWidget)
        ensures
            r.wf(),
            r@ == (WidgetView { content: Some(content@), ..self@ }),
    {
        let mut w = self;
        w.set_text(content.to_owned());
        w
    }

    /// This widget in the state `state`.
    pub fn with_state(self, state: State) -> (r: ButtonWidget)
        ensures
            r.wf(),
            r@ == (WidgetView { state, ..self@ }),
    {
        let mut w = self;
        w.set_state(state);
        w
    }

    /// This widget with the spacing `spacing`.
    pub fn with_spacing(self, spacing: Spacing) -> (r: ButtonWidget)
        ensures
            r.wf(),
            r@ == (WidgetView { spacing, ..self@ }),
    {
        let mut w = self;
        w.set_spacing(spacing);
        w
    }

    /// Sets the text and recomputes the record.
    pub fn set_text(&mut self, content: String)
        ensures
            final(self).wf(),
            final(self)@ == (WidgetView { content: Some(content@), ..old(self)@ }),
    {
        self.content = Some(content);
        self.update();
    }

    /// Sets the icon to the one registered under `name`, or none, and recomputes
    /// the record.
    pub fn set_icon(&mut self, name: &str)
        ensures
            final(self).wf(),
            final(self)@ == (WidgetView { icon: icon_for(old(self)@.config.icons@, name@), ..old(self)@ }),
    {
        self.icon = self.shared_config.get_icon(name);
        self.update();
    }

    /// Sets the state and recomputes the record.
    pub fn set_state(&mut self, state: State)
        ensures
            final(self).wf(),
            final(self)@ == (WidgetView { state, ..old(self)@ }),
    {
        self.state = state;
        self.update();
    }

    /// Sets the spacing and recomputes the record.
    pub fn set_spacing(&mut self, spacing: Spacing)
        ensures
            final(self).wf(),
            final(self)@ == (WidgetView { spacing, ..old(self)@ }),
    {
        self.spacing = spacing;
        self.update();
    }

    /// The cached wire record; nothing is recomputed.
    pub fn to_string(&self) -> (r: String)
        requires
            self.wf(),
        ensures
            r@ == fragment(self@),
    {
        self.cached_output.clone()
    }

    /// The cached wire record, borrowed.
    pub fn cached(&self) -> (r: &String)
        ensures
            self.wf() ==> r@ == fragment(self@),
    {
        &self.cached_output
    }
}

} // verus!
