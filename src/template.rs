use vstd::prelude::*;

use crate::text::{decimal, from_chars, push_decimal, push_str, slice_chars, to_chars};

verus! {

/// A value bound to a placeholder name.
pub enum Value {
    Integer(i64),
    Text(String),
}

impl Value {
    pub fn from_integer(n: i64) -> (r: Value)
        ensures
            r == Value::Integer(n),
    {
        Value::Integer(n)
    }

    pub fn from_string(s: String) -> (r: Value)
        ensures
            r == Value::Text(s),
    {
        Value::Text(s)
    }
}

/// The text of a value: an integer in decimal with a leading minus when negative.
pub open spec fn value_text(v: Value) -> Seq<char> {
    match v {
        Value::Integer(n) => if n < 0 {
            seq!['-'] + decimal((-n) as nat)
        } else {
            decimal(n as nat)
        },
        Value::Text(s) => s@,
    }
}

/// `n` spaces.
pub open spec fn spaces(n: nat) -> Seq<char> {
    Seq::new(n, |i: int| ' ')
}

/// The text of a value padded to at least `width` characters: integers are
/// aligned to the right, text to the left.
pub open spec fn padded_text(v: Value, width: nat) -> Seq<char> {
    let t = value_text(v);
    if t.len() >= width {
        t
    } else {
        match v {
            Value::Integer(_) => spaces((width - t.len()) as nat) + t,
            Value::Text(_) => t + spaces((width - t.len()) as nat),
        }
    }
}

/// One node of a parsed template, as a mathematical value.
pub enum PieceView {
    Literal(Seq<char>),
    Field(Seq<char>, nat),
}

/// One node of a parsed template: literal text, or a named placeholder with a
/// minimum width (zero when none was given).
pub enum Piece {
    Literal(String),
    Field { name: String, width: usize },
}

impl View for Piece {
    type V = PieceView;

    open spec fn view(&self) -> PieceView {
        match self {
            Piece::Literal(s) => PieceView::Literal(s@),
            Piece::Field { name, width } => PieceView::Field(name@, *width as nat),
        }
    }
}

/// A template, parsed once and immutable afterwards.
pub struct Template {
    pieces: Vec<Piece>,
}

impl View for Template {
    type V = Seq<PieceView>;

    closed spec fn view(&self) -> Seq<PieceView> {
        self.pieces@.map_values(|p: Piece| p@)
    }
}

/// The error of a template or a pattern that cannot be used.
#[derive(PartialEq, Eq, Structural, Debug, Clone, Copy)]
pub enum ConfigError {
    /// Unmatched braces or a malformed placeholder.
    Template,
    /// A pattern that does not compile.
    Pattern,
}

/// The error of rendering a template that names an absent binding.
#[derive(PartialEq, Eq, Structural, Debug, Clone, Copy)]
pub enum RenderError {
    MissingBinding,
}

pub open spec fn is_brace(c: char) -> bool {
    c == '{' || c == '}'
}

/// The first position at or after `from` that holds a brace, or the length of `s`.
pub open spec fn brace_at(s: Seq<char>, from: int) -> int
    decreases s.len() - from,
{
    if from < 0 || from >= s.len() {
        s.len() as int
    } else if is_brace(s[from]) {
        from
    } else {
        brace_at(s, from + 1)
    }
}

/// The first position that holds a colon, or the length of `s`.
pub open spec fn colon_at(s: Seq<char>, from: int) -> int
    decreases s.len() - from,
{
    if from < 0 || from >= s.len() {
        s.len() as int
    } else if s[from] == ':' {
        from
    } else {
        colon_at(s, from + 1)
    }
}

pub open spec fn is_name_char(c: char) -> bool {
    ('a' <= c <= 'z') || ('A' <= c <= 'Z') || ('0' <= c <= '9') || c == '_'
}

pub open spec fn is_digit(c: char) -> bool {
    '0' <= c <= '9'
}

/// The number that a run of decimal digits denotes.
pub open spec fn digits_value(d: Seq<char>) -> nat
    decreases d.len(),
{
    if d.len() == 0 {
        0
    } else {
        digits_value(d.drop_last()) * 10 + ((d.last() as nat) - ('0' as nat)) as nat
    }
}

/// The placeholder that the text between two braces denotes: a non-empty name of
/// letters, digits and underscores, optionally followed by a colon and a width in
/// decimal digits that fits in `usize`.
pub open spec fn field_of(body: Seq<char>) -> Option<PieceView> {
    let c = colon_at(body, 0);
    let name = body.subrange(0, c);
    if name.len() == 0 || !(forall|i: int| 0 <= i < name.len() ==> is_name_char(#[trigger] name[i])) {
        None
    } else if c == body.len() {
        Some(PieceView::Field(name, 0))
    } else {
        let d = body.subrange(c + 1, body.len() as int);
        if d.len() == 0 || !(forall|i: int| 0 <= i < d.len() ==> is_digit(#[trigger] d[i]))
            || digits_value(d) > usize::MAX {
            None
        } else {
            Some(PieceView::Field(name, digits_value(d)))
        }
    }
}

/// The pieces of the template text `s` from position `from` on: maximal literal
/// runs without braces, and `{...}` placeholders; `None` where the text is malformed.
pub open spec fn parse_from(s: Seq<char>, from: int) -> Option<Seq<PieceView>>
    decreases s.len() - from,
{
    if from < 0 || from >= s.len() {
        Some(Seq::empty())
    } else if s[from] == '}' {
        None
    } else if s[from] == '{' {
        let j = brace_at(s, from + 1);
        if j <= from || j >= s.len() || s[j] != '}' {
            None
        } else {
            match field_of(s.subrange(from + 1, j)) {
                None => None,
                Some(f) => match parse_from(s, j + 1) {
                    None => None,
                    Some(rest) => Some(seq![f] + rest),
                },
            }
        }
    } else {
        let k = brace_at(s, from);
        if k <= from || k > s.len() {
            None
        } else {
            match parse_from(s, k) {
                None => None,
                Some(rest) => Some(seq![PieceView::Literal(s.subrange(from, k))] + rest),
            }
        }
    }
}

/// The pieces of a template text, or `None` where it is malformed.
pub open spec fn parse_spec(s: Seq<char>) -> Option<Seq<PieceView>> {
    parse_from(s, 0)
}

/// The value bound to `name`: the first binding with that name.
pub open spec fn lookup(b: Seq<(Seq<char>, Value)>, name: Seq<char>) -> Option<Value>
    decreases b.len(),
{
    if b.len() == 0 {
        None
    } else if b[0].0 == name {
        Some(b[0].1)
    } else {
        lookup(b.drop_first(), name)
    }
}

/// The text of one piece under the bindings `b`.
pub open spec fn piece_text(p: PieceView, b: Seq<(Seq<char>, Value)>) -> Option<Seq<char>> {
    match p {
        PieceView::Literal(t) => Some(t),
        PieceView::Field(name, width) => match lookup(b, name) {
            None => None,
            Some(v) => Some(padded_text(v, width)),
        },
    }
}

/// The text of the first `n` pieces under the bindings `b`, or `None` where one
/// of them names an absent binding.
pub open spec fn render_upto(ps: Seq<PieceView>, b: Seq<(Seq<char>, Value)>, n: int) -> Option<Seq<char>>
    decreases n,
{
    if n <= 0 {
        Some(Seq::empty())
    } else {
        match render_upto(ps, b, n - 1) {
            None => None,
            Some(head) => match piece_text(ps[n - 1], b) {
                None => None,
                Some(t) => Some(head + t),
            },
        }
    }
}

/// Bindings as names and values.
pub open spec fn bindings_view(b: Seq<(String, Value)>) -> Seq<(Seq<char>, Value)> {
    b.map_values(|e: (String, Value)| (e.0@, e.1))
}

/// The text of a template under the bindings `b`.
pub open spec fn render_spec(ps: Seq<PieceView>, b: Seq<(Seq<char>, Value)>) -> Option<Seq<char>> {
    render_upto(ps, b, ps.len() as int)
}

} // verus!

verus! {

/// The pieces already parsed, put in front of what the rest parses to.
pub open spec fn prepend(done: Seq<PieceView>, rest: Option<Seq<PieceView>>) -> Option<Seq<PieceView>> {
    match rest {
        None => None,
        Some(r) => Some(done + r),
    }
}

proof fn lemma_brace_at_bounds(s: Seq<char>, from: int)
    requires
        0 <= from <= s.len(),
    ensures
        from <= brace_at(s, from) <= s.len(),
        brace_at(s, from) < s.len() ==> is_brace(s[brace_at(s, from)]),
        forall|k: int| from <= k < brace_at(s, from) ==> !is_brace(#[trigger] s[k]),
    decreases s.len() - from,
{
    if from < s.len() && !is_brace(s[from]) {
        lemma_brace_at_bounds(s, from + 1);
    }
}

proof fn lemma_colon_at_bounds(s: Seq<char>, from: int)
    requires
        0 <= from <= s.len(),
    ensures
        from <= colon_at(s, from) <= s.len(),
        colon_at(s, from) < s.len() ==> s[colon_at(s, from)] == ':',
        forall|k: int| from <= k < colon_at(s, from) ==> #[trigger] s[k] != ':',
    decreases s.len() - from,
{
    if from < s.len() && s[from] != ':' {
        lemma_colon_at_bounds(s, from + 1);
    }
}

proof fn lemma_digits_prefix(d: Seq<char>, k: int)
    requires
        0 <= k <= d.len(),
        forall|i: int| 0 <= i < d.len() ==> is_digit(#[trigger] d[i]),
    ensures
        digits_value(d.subrange(0, k)) <= digits_value(d),
    decreases d.len(),
{
    if k < d.len() {
        let p = d.drop_last();
        assert(p.subrange(0, k) =~= d.subrange(0, k));
        lemma_digits_prefix(p, k);
    } else {
        assert(d.subrange(0, k) =~= d);
    }
}

/// The first position at or after `from` that holds a brace, or the length of `s`.
fn find_brace(s: &Vec<char>, from: usize) -> (r: usize)
    requires
        from <= s@.len(),
    ensures
        r == brace_at(s@, from as int),
{
    proof {
        lemma_brace_at_bounds(s@, from as int);
    }
    let mut k: usize = from;
    while k < s.len() && s[k] != '{' && s[k] != '}'
        invariant
            from <= k <= brace_at(s@, from as int) <= s@.len(),
            brace_at(s@, from as int) < s@.len() ==> is_brace(s@[brace_at(s@, from as int)]),
        decreases s@.len() - k,
    {
        k = k + 1;
    }
    k
}

fn name_char(c: char) -> (r: bool)
    ensures
        r == is_name_char(c),
{
    ('a' <= c && c <= 'z') || ('A' <= c && c <= 'Z') || ('0' <= c && c <= '9') || c == '_'
}

/// The placeholder that `s` holds between `lo` and `hi`.
fn parse_field(s: &Vec<char>, lo: usize, hi: usize) -> (r: Option<Piece>)
    requires
        lo <= hi <= s@.len(),
    ensures
        match r {
            Some(p) => field_of(s@.subrange(lo as int, hi as int)) == Some(p@),
            None => field_of(s@.subrange(lo as int, hi as int)) is None,
        },
{
    let ghost body = s@.subrange(lo as int, hi as int);
    proof {
        lemma_colon_at_bounds(body, 0);
    }
    let mut c: usize = lo;
    while c < hi && s[c] != ':'
        invariant
            lo <= c <= hi <= s@.len(),
            body == s@.subrange(lo as int, hi as int),
            c - lo <= colon_at(body, 0) <= body.len(),
            colon_at(body, 0) < body.len() ==> body[colon_at(body, 0)] == ':',
        decreases hi - c,
    {
        c = c + 1;
    }
    if c < hi {
        assert(body[c - lo] == ':');
    }
    assert(c - lo == colon_at(body, 0));
    let ghost name = body.subrange(0, c - lo);
    assert(name =~= s@.subrange(lo as int, c as int));
    if c == lo {
        return None;
    }
    let mut i: usize = lo;
    while i < c
        invariant
            lo <= i <= c <= hi <= s@.len(),
            name == s@.subrange(lo as int, c as int),
            body == s@.subrange(lo as int, hi as int),
            c - lo == colon_at(body, 0),
            name == body.subrange(0, c - lo),
            forall|k: int| 0 <= k < i - lo ==> is_name_char(#[trigger] name[k]),
        decreases c - i,
    {
        if !name_char(s[i]) {
            assert(!is_name_char(name[i - lo]));
            return None;
        }
        i = i + 1;
    }
    let name_s = from_chars(&slice_chars(s, lo, c));
    if c == hi {
        return Some(Piece::Field { name: name_s, width: 0 });
    }
    let ghost d = body.subrange(c - lo + 1, body.len() as int);
    assert(d =~= s@.subrange(c + 1, hi as int));
    if c + 1 == hi {
        return None;
    }
    let mut v: usize = 0;
    let mut j: usize = c + 1;
    while j < hi
        invariant
            c + 1 <= j <= hi <= s@.len(),
            d == s@.subrange(c + 1, hi as int),
            body == s@.subrange(lo as int, hi as int),
            c - lo == colon_at(body, 0),
            c < hi,
            name == body.subrange(0, c - lo),
            name.len() > 0,
            d == body.subrange(c - lo + 1, body.len() as int),
            forall|k: int| 0 <= k < name.len() ==> is_name_char(#[trigger] name[k]),
            forall|k: int| 0 <= k < j - c - 1 ==> is_digit(#[trigger] d[k]),
            v == digits_value(d.subrange(0, j - c - 1)),
        decreases hi - j,
    {
        let ch = s[j];
        if !('0' <= ch && ch <= '9') {
            assert(!is_digit(d[j - c - 1]));
            return None;
        }
        let dv = (ch as u32 - '0' as u32) as usize;
        assert(d.subrange(0, j - c).drop_last() =~= d.subrange(0, j - c - 1));
        if v > (usize::MAX - dv) / 10 {
            proof {
                let p = d.subrange(0, j - c);
                assert(p.last() == ch);
                assert(digits_value(p) == v * 10 + dv);
                assert(v * 10 + dv > usize::MAX) by (nonlinear_arith)
                    requires
                        v > (usize::MAX - dv) / 10,
                        dv <= 9,
                ;
                if forall|k: int| 0 <= k < d.len() ==> is_digit(#[trigger] d[k]) {
                    lemma_digits_prefix(d, j - c);
                }
            }
            return None;
        }
        v = v * 10 + dv;
        j = j + 1;
    }
    assert(d.subrange(0, j - c - 1) =~= d);
    Some(Piece::Field { name: name_s, width: v })
}

} // verus!

verus! {

impl Template {
    /// Parses a template text: literal runs and `{name}` or `{name:width}`
    /// placeholders. Fails on unmatched braces and malformed placeholders.
    pub fn parse(text: &str) -> (r: Result<Template, ConfigError>)
        ensures
            match r {
                Ok(t) => parse_spec(text@) == Some(t@),
                Err(e) => parse_spec(text@) is None && e == ConfigError::Template,
            },
    {
        let s = to_chars(text);
        let mut out: Vec<Piece> = Vec::new();
        let mut i: usize = 0;
        while i < s.len()
            invariant
                s@ == text@,
                0 <= i <= s@.len(),
                parse_from(s@, 0) == prepend(out@.map_values(|p: Piece| p@), parse_from(s@, i as int)),
            decreases s@.len() - i,
        {
            let ghost before = out@.map_values(|p: Piece| p@);
            if s[i] == '}' {
                return Err(ConfigError::Template);
            } else if s[i] == '{' {
                proof {
                    lemma_brace_at_bounds(s@, i + 1);
                }
                let j = find_brace(&s, i + 1);
                if j >= s.len() || s[j] != '}' {
                    return Err(ConfigError::Template);
                }
                match parse_field(&s, i + 1, j) {
                    None => {
                        return Err(ConfigError::Template);
                    },
                    Some(p) => {
                        out.push(p);
                        proof {
                            assert(out@.map_values(|p: Piece| p@) =~= before.push(p@));
                            match parse_from(s@, j + 1) {
                                None => {},
                                Some(rest) => {
                                    assert(before.push(p@) + rest =~= before + (seq![p@] + rest));
                                },
                            }
                        }
                        i = j + 1;
                    },
                }
            } else {
                proof {
                    lemma_brace_at_bounds(s@, i as int);
                }
                let k = find_brace(&s, i);
                let lit = from_chars(&slice_chars(&s, i, k));
                let ghost p = Piece::Literal(lit);
                out.push(Piece::Literal(lit));
                proof {
                    assert(out@.map_values(|p: Piece| p@) =~= before.push(p@));
                    match parse_from(s@, k as int) {
                        None => {},
                        Some(rest) => {
                            assert(before.push(p@) + rest =~= before + (seq![p@] + rest));
                        },
                    }
                }
                i = k;
            }
        }
        proof {
            assert(out@.map_values(|p: Piece| p@) + Seq::<PieceView>::empty() =~= out@.map_values(|p: Piece| p@));
        }
        Ok(Template { pieces: out })
    }

    /// Renders the template under the bindings `b`; fails where a placeholder
    /// names a binding that `b` lacks.
    pub fn render(&self, b: &Vec<(String, Value)>) -> (r: Result<String, RenderError>)
        ensures
            match r {
                Ok(s) => render_spec(self@, bindings_view(b@)) == Some(s@),
                Err(e) => render_spec(self@, bindings_view(b@)) is None && e == RenderError::MissingBinding,
            },
    {
        let mut out: Vec<char> = Vec::new();
        let mut n: usize = 0;
        while n < self.pieces.len()
            invariant
                0 <= n <= self.pieces@.len(),
                self@ == self.pieces@.map_values(|p: Piece| p@),
                render_upto(self@, bindings_view(b@), n as int) == Some(out@),
            decreases self.pieces@.len() - n,
        {
            assert(self@[n as int] == self.pieces@[n as int]@);
            match &self.pieces[n] {
                Piece::Literal(t) => {
                    push_str(&mut out, t.as_str());
                },
                Piece::Field { name, width } => {
                    match lookup_binding(b, name) {
                        None => {
                            proof {
                                lemma_render_stays_none(self@, bindings_view(b@), n + 1, self@.len() as int);
                            }
                            return Err(RenderError::MissingBinding);
                        },
                        Some(v) => {
                            push_padded(&mut out, v, *width);
                        },
                    }
                },
            }
            n = n + 1;
        }
        Ok(from_chars(&out))
    }
}

proof fn lemma_render_stays_none(ps: Seq<PieceView>, b: Seq<(Seq<char>, Value)>, k: int, m: int)
    requires
        1 <= k <= m,
        render_upto(ps, b, k) is None,
    ensures
        render_upto(ps, b, m) is None,
    decreases m - k,
{
    if m > k {
        lemma_render_stays_none(ps, b, k, m - 1);
    }
}

/// The value bound to `name` in `b`: the first binding with that name.
fn lookup_binding<'a>(b: &'a Vec<(String, Value)>, name: &String) -> (r: Option<&'a Value>)
    ensures
        match r {
            Some(v) => lookup(bindings_view(b@), name@) == Some(*v),
            None => lookup(bindings_view(b@), name@) is None,
        },
{
    let ghost bv = bindings_view(b@);
    let mut i: usize = 0;
    assert(bv.subrange(0, bv.len() as int) =~= bv);
    while i < b.len()
        invariant
            0 <= i <= b@.len(),
            bv == bindings_view(b@),
            bv.len() == b@.len(),
            lookup(bv, name@) == lookup(bv.subrange(i as int, bv.len() as int), name@),
        decreases b@.len() - i,
    {
        let ghost rest = bv.subrange(i as int, bv.len() as int);
        assert(rest[0] == bv[i as int]);
        if b[i].0 == *name {
            return Some(&b[i].1);
        }
        assert(rest.drop_first() =~= bv.subrange(i + 1, bv.len() as int));
        i = i + 1;
    }
    None
}

/// Appends `n` spaces.
fn push_spaces(out: &mut Vec<char>, n: usize)
    ensures
        final(out)@ == old(out)@ + spaces(n as nat),
{
    let mut i: usize = 0;
    while i < n
        invariant
            0 <= i <= n,
            out@ == old(out)@ + spaces(i as nat),
        decreases n - i,
    {
        out.push(' ');
        i = i + 1;
        assert(out@ =~= old(out)@ + spaces(i as nat));
    }
}

/// Appends the text of a value.
pub fn push_value(out: &mut Vec<char>, v: &Value)
    ensures
        final(out)@ == old(out)@ + value_text(*v),
{
    match v {
        Value::Integer(n) => {
            if *n < 0 {
                out.push('-');
                let m: u64 = (0i128 - (*n as i128)) as u64;
                push_decimal(out, m);
                assert(final(out)@ =~= old(out)@ + value_text(*v));
            } else {
                push_decimal(out, *n as u64);
            }
        },
        Value::Text(s) => {
            push_str(out, s.as_str());
        },
    }
}

/// Appends the text of a value padded to at least `width` characters.
pub fn push_padded(out: &mut Vec<char>, v: &Value, width: usize)
    ensures
        final(out)@ == old(out)@ + padded_text(*v, width as nat),
{
    let mut t: Vec<char> = Vec::new();
    push_value(&mut t, v);
    assert(t@ =~= value_text(*v));
    if t.len() < width {
        match v {
            Value::Integer(_) => {
                push_spaces(out, width - t.len());
                push_chars(out, &t);
            },
            Value::Text(_) => {
                push_chars(out, &t);
                push_spaces(out, width - t.len());
            },
        }
        assert(final(out)@ =~= old(out)@ + padded_text(*v, width as nat));
    } else {
        push_chars(out, &t);
    }
}

/// Appends the characters of `t`.
fn push_chars(out: &mut Vec<char>, t: &Vec<char>)
    ensures
        final(out)@ == old(out)@ + t@,
{
    let mut i: usize = 0;
    while i < t.len()
        invariant
            0 <= i <= t@.len(),
            out@ == old(out)@ + t@.subrange(0, i as int),
        decreases t@.len() - i,
    {
        out.push(t[i]);
        i = i + 1;
    }
    assert(t@.subrange(0, i as int) =~= t@);
}

} // verus!

verus! {

/// Which of the three count-dependent variants applies.
#[derive(PartialEq, Eq, Structural, Debug, Clone, Copy)]
pub enum Arity {
    Zero,
    One,
    Many,
}

/// The variant for a count: zero for 0, one for 1, many for 2 and above.
pub open spec fn arity_of(n: nat) -> Arity {
    if n == 0 {
        Arity::Zero
    } else if n == 1 {
        Arity::One
    } else {
        Arity::Many
    }
}

/// Selects the variant for the count `n`.
pub fn select_arity(n: u64) -> (r: Arity)
    ensures
        r == arity_of(n as nat),
        (r == Arity::Zero) <==> n == 0,
        (r == Arity::One) <==> n == 1,
        (r == Arity::Many) <==> n >= 2,
{
    if n == 0 {
        Arity::Zero
    } else if n == 1 {
        Arity::One
    } else {
        Arity::Many
    }
}

/// Every count selects exactly one variant: zero iff the count is 0, one iff it
/// is 1, many iff it is 2 or more.
pub proof fn arity_is_exhaustive(n: nat)
    ensures
        (arity_of(n) == Arity::Zero) <==> n == 0,
        (arity_of(n) == Arity::One) <==> n == 1,
        (arity_of(n) == Arity::Many) <==> n >= 2,
        arity_of(n) == Arity::Zero || arity_of(n) == Arity::One || arity_of(n) == Arity::Many,
{
}

/// Rendering a parsed template is a function of the template text and the
/// bindings alone: two renderings of the same text under the same bindings give
/// the same output, character for character.
pub proof fn render_is_pure(t: Seq<char>, b: Seq<(Seq<char>, Value)>, p1: Seq<PieceView>, p2: Seq<PieceView>)
    requires
        parse_spec(t) == Some(p1),
        parse_spec(t) == Some(p2),
    ensures
        render_spec(p1, b) == render_spec(p2, b),
{
}

/// Three templates chosen by a count.
pub struct ArityVariants {
    pub zero: Template,
    pub one: Template,
    pub many: Template,
}

impl ArityVariants {
    /// The same template for every count.
    pub fn uniform(text: &str) -> (r: Result<ArityVariants, ConfigError>)
        ensures
            match r {
                Ok(v) => parse_spec(text@) == Some(v.zero@) && v.one@ == v.zero@ && v.many@ == v.zero@,
                Err(e) => parse_spec(text@) is None,
            },
    {
        let zero = Template::parse(text)?;
        let one = Template::parse(text)?;
        let many = Template::parse(text)?;
        Ok(ArityVariants { zero, one, many })
    }

    /// The template for the count `n`.
    pub fn pick(&self, n: u64) -> (r: &Template)
        ensures
            arity_of(n as nat) == Arity::Zero ==> r == &self.zero,
            arity_of(n as nat) == Arity::One ==> r == &self.one,
            arity_of(n as nat) == Arity::Many ==> r == &self.many,
    {
        match select_arity(n) {
            Arity::Zero => &self.zero,
            Arity::One => &self.one,
            Arity::Many => &self.many,
        }
    }

    /// Renders the variant for the count `n` under the bindings `b`.
    pub fn render_for(&self, n: u64, b: &Vec<(String, Value)>) -> (r: Result<String, RenderError>)
        ensures
            match r {
                Ok(s) => render_spec(self.pick_spec(n as nat)@, bindings_view(b@)) == Some(s@),
                Err(_) => render_spec(self.pick_spec(n as nat)@, bindings_view(b@)) is None,
            },
    {
        self.pick(n).render(b)
    }

    pub open spec fn pick_spec(&self, n: nat) -> &Template {
        match arity_of(n) {
            Arity::Zero => &self.zero,
            Arity::One => &self.one,
            Arity::Many => &self.many,
        }
    }
}

} // verus!
