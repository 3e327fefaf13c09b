use vstd::prelude::*;

use crate::text::{contains, contains_chars, from_chars, lines_of, matches_at, occurs_at, split_lines, to_chars};
use crate::template::is_digit;
use crate::registry::{ClickEvent, MouseButton};
use crate::scheduler::UpdatePolicy;
use crate::template::{ArityVariants, ConfigError, PieceView, Template, Value, bindings_view, parse_spec, render_spec};
use crate::widget::{ButtonWidget, SharedConfig, Spacing, State, WidgetView, icon_for};

verus! {

/// The marker of a line in the upgrade listing that names a pending update.
pub open spec fn upgradable_marker() -> Seq<char> {
    "[upgradable"@
}

pub open spec fn is_upgradable(line: Seq<char>) -> bool {
    contains(line, upgradable_marker())
}

/// The lines among the first `n` of `ls` that carry the upgradable marker, in order.
pub open spec fn upgradable_upto(ls: Seq<Seq<char>>, n: int) -> Seq<Seq<char>>
    decreases n,
{
    if n <= 0 {
        Seq::empty()
    } else if is_upgradable(ls[n - 1]) {
        upgradable_upto(ls, n - 1).push(ls[n - 1])
    } else {
        upgradable_upto(ls, n - 1)
    }
}

/// The lines of an upgrade listing that name a pending update, in order.
pub open spec fn upgradable_lines(listing: Seq<char>) -> Seq<Seq<char>> {
    upgradable_upto(lines_of(listing), lines_of(listing).len() as int)
}

/// The lines of `listing` that name a pending update.
pub fn pending_lines(listing: &str) -> (r: Vec<Vec<char>>)
    ensures
        r@.len() == upgradable_lines(listing@).len(),
        forall|i: int| 0 <= i < r@.len() ==> #[trigger] r@[i]@ == upgradable_lines(listing@)[i],
{
    let ls = split_lines(listing);
    let ghost lv = lines_of(listing@);
    let marker = to_chars("[upgradable");
    let mut r: Vec<Vec<char>> = Vec::new();
    let mut n: usize = 0;
    while n < ls.len()
        invariant
            0 <= n <= ls@.len(),
            ls@.len() == lv.len(),
            lv == lines_of(listing@),
            marker@ == upgradable_marker(),
            forall|i: int| 0 <= i < ls@.len() ==> #[trigger] ls@[i]@ == lv[i],
            r@.len() == upgradable_upto(lv, n as int).len(),
            forall|i: int| 0 <= i < r@.len() ==> #[trigger] r@[i]@ == upgradable_upto(lv, n as int)[i],
        decreases ls@.len() - n,
    {
        assert(ls@[n as int]@ == lv[n as int]);
        if contains_chars(&ls[n], &marker) {
            r.push(ls[n].clone());
            assert(r@[r@.len() - 1]@ == lv[n as int]);
        }
        n = n + 1;
    }
    r
}

/// The number of pending updates in an upgrade listing: the lines that carry
/// the upgradable marker.
pub fn get_update_count(updates: &str) -> (r: usize)
    ensures
        r == upgradable_lines(updates@).len(),
{
    pending_lines(updates).len()
}

/// The position of the last slash in `l` before `end`, if any.
pub open spec fn last_slash(l: Seq<char>, end: int) -> Option<int>
    decreases end,
{
    if end <= 0 || end > l.len() {
        None
    } else if l[end - 1] == '/' {
        Some(end - 1)
    } else {
        last_slash(l, end - 1)
    }
}

/// The package name of a listing line: everything before its last slash.
pub open spec fn package_name_of(l: Seq<char>) -> Option<Seq<char>> {
    match last_slash(l, l.len() as int) {
        Some(k) => Some(l.subrange(0, k)),
        None => None,
    }
}

proof fn lemma_last_slash_bounds(l: Seq<char>, end: int)
    requires
        0 <= end <= l.len(),
    ensures
        last_slash(l, end) matches Some(k) ==> 0 <= k < end,
    decreases end,
{
    if end > 0 && l[end - 1] != '/' {
        lemma_last_slash_bounds(l, end - 1);
    }
}

/// The package name of a listing line.
pub fn package_name(line: &Vec<char>) -> (r: Option<String>)
    ensures
        match r {
            Some(s) => package_name_of(line@) == Some(s@),
            None => package_name_of(line@) is None,
        },
{
    let mut end: usize = line.len();
    while end > 0 && line[end - 1] != '/'
        invariant
            0 <= end <= line@.len(),
            last_slash(line@, line@.len() as int) == last_slash(line@, end as int),
        decreases end,
    {
        end = end - 1;
    }
    if end == 0 {
        return None;
    }
    let mut name: Vec<char> = Vec::new();
    let mut i: usize = 0;
    while i < end - 1
        invariant
            0 <= i <= end - 1,
            end <= line@.len(),
            name@ == line@.subrange(0, i as int),
        decreases end - 1 - i,
    {
        name.push(line[i]);
        i = i + 1;
    }
    Some(from_chars(&name))
}

/// What a package lookup is not possible for.
#[derive(PartialEq, Eq, Structural, Debug, Clone, Copy)]
pub enum LookupError {
    /// A pending line without a package name.
    MissingPackageName,
}

/// The package names of the pending lines, in order, for the phased-update
/// lookup; fails where a pending line has no package name.
pub fn packages_to_check(updates: &str) -> (r: Result<Vec<String>, LookupError>)
    ensures
        match r {
            Ok(v) => v@.len() == upgradable_lines(updates@).len() && forall|i: int|
                0 <= i < v@.len() ==> package_name_of(upgradable_lines(updates@)[i]) == Some(
                    #[trigger] v@[i]@,
                ),
            Err(e) => exists|i: int|
                0 <= i < upgradable_lines(updates@).len() && #[trigger] package_name_of(
                    upgradable_lines(updates@)[i],
                ) is None,
        },
{
    let ls = pending_lines(updates);
    let ghost uv = upgradable_lines(updates@);
    let mut r: Vec<String> = Vec::new();
    let mut i: usize = 0;
    while i < ls.len()
        invariant
            0 <= i <= ls@.len(),
            uv == upgradable_lines(updates@),
            ls@.len() == uv.len(),
            forall|k: int| 0 <= k < ls@.len() ==> #[trigger] ls@[k]@ == uv[k],
            r@.len() == i,
            forall|k: int| 0 <= k < i ==> package_name_of(uv[k]) == Some(#[trigger] r@[k]@),
        decreases ls@.len() - i,
    {
        assert(ls@[i as int]@ == uv[i as int]);
        match package_name(&ls[i]) {
            None => {
                return Err(LookupError::MissingPackageName);
            },
            Some(name) => {
                r.push(name);
            },
        }
        i = i + 1;
    }
    Ok(r)
}

} // verus!

verus! {

/// The marker that opens a phased-rollout note, as in `(phased 45%)`.
pub open spec fn phased_open() -> Seq<char> {
    "(phased "@
}

/// The text that closes a phased-rollout note.
pub open spec fn phased_close() -> Seq<char> {
    "%)"@
}

/// The length of the run of decimal digits in `l` that starts at `from`.
pub open spec fn digits_len(l: Seq<char>, from: int) -> nat
    decreases l.len() - from,
{
    if from < 0 || from >= l.len() || !is_digit(l[from]) {
        0
    } else {
        1 + digits_len(l, from + 1)
    }
}

/// Whether a complete note `(phased <digits>%)` starts at `p` in `l`.
pub open spec fn phased_at(l: Seq<char>, p: int) -> bool {
    let d = p + phased_open().len();
    occurs_at(l, phased_open(), p) && digits_len(l, d) > 0 && occurs_at(
        l,
        phased_close(),
        d + digits_len(l, d),
    )
}

/// The start of the last complete note at or before `p`.
pub open spec fn last_phased(l: Seq<char>, p: int) -> Option<int>
    decreases p + 1,
{
    if p < 0 {
        None
    } else if phased_at(l, p) {
        Some(p)
    } else {
        last_phased(l, p - 1)
    }
}

/// The percentage digits of the last phased-rollout note in a line, if any.
pub open spec fn line_phase(l: Seq<char>) -> Option<Seq<char>> {
    match last_phased(l, l.len() as int) {
        Some(p) => {
            let d = p + phased_open().len();
            Some(l.subrange(d, d + digits_len(l, d)))
        },
        None => None,
    }
}

/// The phase of the first line from `i` on that has a note, if any.
pub open spec fn first_phase(ls: Seq<Seq<char>>, i: int) -> Option<Seq<char>>
    decreases ls.len() - i,
{
    if i < 0 || i >= ls.len() {
        None
    } else {
        match line_phase(ls[i]) {
            Some(d) => Some(d),
            None => first_phase(ls, i + 1),
        }
    }
}

/// Whether a package's policy output shows an update still being phased in:
/// the first line with a `(phased N%)` note has a percentage other than `100`.
pub open spec fn waiting_phased(policy: Seq<char>) -> bool {
    match first_phase(lines_of(policy), 0) {
        Some(d) => d != "100"@,
        None => false,
    }
}

fn digit_run(l: &Vec<char>, from: usize) -> (r: usize)
    ensures
        r == digits_len(l@, from as int),
        from <= l@.len() ==> from + r <= l@.len(),
{
    let mut k: usize = from;
    while k < l.len() && '0' <= l[k] && l[k] <= '9'
        invariant
            from <= k,
            from <= l@.len() ==> k <= l@.len(),
            digits_len(l@, from as int) == (k - from) + digits_len(l@, k as int),
        decreases l@.len() - k,
    {
        k = k + 1;
    }
    k - from
}

fn phased_here(l: &Vec<char>, p: usize, open: &Vec<char>, close: &Vec<char>) -> (r: bool)
    requires
        open@ == phased_open(),
        close@ == phased_close(),
        p <= l@.len(),
    ensures
        r == phased_at(l@, p as int),
        r ==> p + open@.len() <= l@.len(),
{
    if open.len() > l.len() - p {
        return false;
    }
    if !matches_at(l, open, p) {
        return false;
    }
    let d = p + open.len();
    let n = digit_run(l, d);
    if n == 0 {
        return false;
    }
    if close.len() > l.len() - (d + n) {
        return false;
    }
    matches_at(l, close, d + n)
}

/// The percentage digits of the last phased-rollout note in a line.
fn phase_of_line(l: &Vec<char>, open: &Vec<char>, close: &Vec<char>) -> (r: Option<Vec<char>>)
    requires
        open@ == phased_open(),
        close@ == phased_close(),
    ensures
        match r {
            Some(d) => line_phase(l@) == Some(d@),
            None => line_phase(l@) is None,
        },
{
    let mut p: usize = l.len();
    loop
        invariant
            0 <= p <= l@.len(),
            open@ == phased_open(),
            close@ == phased_close(),
            last_phased(l@, l@.len() as int) == last_phased(l@, p as int),
        decreases p,
    {
        let here = phased_here(l, p, open, close);
        if here {
            assert(p + open@.len() <= l@.len());
            assert(p + open.len() <= l.len());
            let d = p + open.len();
            let n = digit_run(l, d);
            assert(d + n <= l.len());
            let mut out: Vec<char> = Vec::new();
            let mut i: usize = d;
            while i < d + n
                invariant
                    d <= i <= d + n <= l@.len(),
                    d + n <= l.len(),
                    out@ == l@.subrange(d as int, i as int),
                decreases d + n - i,
            {
                out.push(l[i]);
                i = i + 1;
            }
            return Some(out);
        }
        if p == 0 {
            assert(last_phased(l@, -1) is None);
            return None;
        }
        p = p - 1;
    }
}

/// Whether a package's policy output shows an update still being phased in.
pub fn is_waiting_phased_update(policy: &str) -> (r: bool)
    ensures
        r == waiting_phased(policy@),
{
    let ls = split_lines(policy);
    let open = to_chars("(phased ");
    let close = to_chars("%)");
    let hundred = to_chars("100");
    let ghost lv = lines_of(policy@);
    let mut i: usize = 0;
    while i < ls.len()
        invariant
            0 <= i <= ls@.len(),
            lv == lines_of(policy@),
            ls@.len() == lv.len(),
            forall|k: int| 0 <= k < ls@.len() ==> #[trigger] ls@[k]@ == lv[k],
            open@ == phased_open(),
            close@ == phased_close(),
            hundred@ == "100"@,
            first_phase(lv, 0) == first_phase(lv, i as int),
        decreases ls@.len() - i,
    {
        assert(ls@[i as int]@ == lv[i as int]);
        match phase_of_line(&ls[i], &open, &close) {
            Some(d) => {
                let same = d.len() == hundred.len() && matches_at(&d, &hundred, 0);
                proof {
                    if d@.len() == hundred@.len() {
                        assert(d@.subrange(0, d@.len() as int) =~= d@);
                    }
                }
                return !same;
            },
            None => {},
        }
        i = i + 1;
    }
    false
}

/// The number of pending updates whose lookup shows no phasing in progress.
pub open spec fn count_not_waiting(policies: Seq<String>, n: int) -> nat
    decreases n,
{
    if n <= 0 {
        0
    } else {
        count_not_waiting(policies, n - 1) + if waiting_phased(policies[n - 1]@) {
            0nat
        } else {
            1nat
        }
    }
}

/// The number of pending updates, leaving out those still being phased in.
/// `policies` holds the policy output of each pending line's package, in the
/// order of `packages_to_check`; `None` where their number differs from the
/// number of pending lines.
pub fn get_update_count_ignore_waiting_phased(updates: &str, policies: &Vec<String>) -> (r: Option<usize>)
    ensures
        match r {
            Some(n) => policies@.len() == upgradable_lines(updates@).len() && n == count_not_waiting(
                policies@,
                policies@.len() as int,
            ),
            None => policies@.len() != upgradable_lines(updates@).len(),
        },
{
    if get_update_count(updates) != policies.len() {
        return None;
    }
    let mut n: usize = 0;
    let mut i: usize = 0;
    while i < policies.len()
        invariant
            0 <= i <= policies@.len(),
            n == count_not_waiting(policies@, i as int),
            n <= i,
        decreases policies@.len() - i,
    {
        if !is_waiting_phased_update(policies[i].as_str()) {
            n = n + 1;
        }
        i = i + 1;
    }
    Some(n)
}

} // verus!

verus! {

#[verifier::external_type_specification]
#[verifier::external_body]
pub struct ExRegex(regex::Regex);

#[verifier::external_type_specification]
#[verifier::external_body]
pub struct ExRegexError(regex::Error);

/// Whether a pattern text compiles as a regular expression.
pub uninterp spec fn regex_compiles(pattern: Seq<char>) -> bool;

/// Whether the regular expression of a pattern text matches somewhere in a text.
pub uninterp spec fn regex_is_match(pattern: Seq<char>, text: Seq<char>) -> bool;

/// Relies on `regex::Regex::new`: whether it succeeds depends on the pattern alone.
#[verifier::external_body]
fn compile_regex(src: &str) -> (r: Result<regex::Regex, regex::Error>)
    ensures
        r is Ok <==> regex_compiles(src@),
{
    regex::Regex::new(src)
}

/// A compiled regular expression together with the text it was compiled from.
pub struct Pattern {
    source: String,
    re: regex::Regex,
}

impl View for Pattern {
    type V = Seq<char>;

    closed spec fn view(&self) -> Seq<char> {
        self.source@
    }
}

/// Relies on `regex::Regex::is_match` on the expression that `Pattern::new`
/// compiled from the pattern's text.
#[verifier::external_body]
fn pattern_is_match(p: &Pattern, text: &str) -> (r: bool)
    ensures
        r == regex_is_match(p@, text@),
{
    p.re.is_match(text)
}

impl Pattern {
    /// Compiles `src`; fails where it is not a valid regular expression.
    pub fn new(src: &str) -> (r: Result<Pattern, crate::template::ConfigError>)
        ensures
            match r {
                Ok(p) => regex_compiles(src@) && p@ == src@,
                Err(e) => !regex_compiles(src@) && e == crate::template::ConfigError::Pattern,
            },
    {
        match compile_regex(src) {
            Ok(re) => Ok(Pattern { source: src.to_owned(), re }),
            Err(_) => Err(crate::template::ConfigError::Pattern),
        }
    }

    /// Whether the pattern matches somewhere in `text`.
    pub fn is_match(&self, text: &str) -> (r: bool)
        ensures
            r == regex_is_match(self@, text@),
    {
        pattern_is_match(self, text)
    }
}

/// Whether some line of `listing` matches the pattern text `p`.
pub open spec fn some_line_matches(listing: Seq<char>, p: Seq<char>) -> bool {
    exists|i: int| 0 <= i < lines_of(listing).len() && regex_is_match(p, #[trigger] lines_of(listing)[i])
}

fn any_line_matches(updates: &str, regex: &Pattern) -> (r: bool)
    ensures
        r == some_line_matches(updates@, regex@),
{
    let ls = split_lines(updates);
    let ghost lv = lines_of(updates@);
    let mut i: usize = 0;
    while i < ls.len()
        invariant
            0 <= i <= ls@.len(),
            lv == lines_of(updates@),
            ls@.len() == lv.len(),
            forall|k: int| 0 <= k < ls@.len() ==> #[trigger] ls@[k]@ == lv[k],
            forall|k: int| 0 <= k < i ==> !regex_is_match(regex@, #[trigger] lv[k]),
        decreases ls@.len() - i,
    {
        assert(ls@[i as int]@ == lv[i as int]);
        let line = from_chars(&ls[i]);
        if regex.is_match(line.as_str()) {
            return true;
        }
        i = i + 1;
    }
    false
}

/// Whether some line of the listing matches the warning pattern.
pub fn has_warning_update(updates: &str, regex: &Pattern) -> (r: bool)
    ensures
        r == some_line_matches(updates@, regex@),
{
    any_line_matches(updates, regex)
}

/// Whether some line of the listing matches the critical pattern.
pub fn has_critical_update(updates: &str, regex: &Pattern) -> (r: bool)
    ensures
        r == some_line_matches(updates@, regex@),
{
    any_line_matches(updates, regex)
}

/// The state for a number of pending updates: idle when there are none, else
/// critical before warning before info.
pub open spec fn severity_of(count: nat, warning: bool, critical: bool) -> State {
    if count == 0 {
        State::Idle
    } else if critical {
        State::Critical
    } else if warning {
        State::Warning
    } else {
        State::Info
    }
}

/// The state for a number of pending updates and the pattern results.
pub fn severity(count: usize, warning: bool, critical: bool) -> (r: State)
    ensures
        r == severity_of(count as nat, warning, critical),
{
    if count == 0 {
        State::Idle
    } else if critical {
        State::Critical
    } else if warning {
        State::Warning
    } else {
        State::Info
    }
}

/// A critical match wins over a warning match whenever there is something to
/// update.
pub proof fn critical_takes_precedence(count: nat, warning: bool)
    requires
        count > 0,
    ensures
        severity_of(count, warning, true) == State::Critical,
{
}

} // verus!

verus! {

/// The options of the package-update block.
#[derive(Clone, Debug)]
pub struct AptConfig {
    /// Seconds between two checks.
    pub interval: u64,
    /// The template for two or more pending updates.
    pub format: Option<String>,
    /// The template for exactly one pending update.
    pub format_singular: Option<String>,
    /// The template for no pending update.
    pub format_up_to_date: Option<String>,
    /// A pattern that puts the block in the warning state when a line matches.
    pub warning_updates_regex: Option<String>,
    /// A pattern that puts the block in the critical state when a line matches.
    pub critical_updates_regex: Option<String>,
    /// Leave updates that are still being phased in out of the count.
    pub ignore_waiting_phased_updates: bool,
}

impl Default for AptConfig {
    fn default() -> (r: AptConfig)
        ensures
            r.interval == 600,
            r.format is None,
            r.format_singular is None,
            r.format_up_to_date is None,
            r.warning_updates_regex is None,
            r.critical_updates_regex is None,
            !r.ignore_waiting_phased_updates,
    {
        AptConfig {
            interval: 600,
            format: None,
            format_singular: None,
            format_up_to_date: None,
            warning_updates_regex: None,
            critical_updates_regex: None,
            ignore_waiting_phased_updates: false,
        }
    }
}

/// The template text used where none is configured.
pub open spec fn default_format() -> Seq<char> {
    "{count:1}"@
}

/// The template text that a configured option stands for.
pub open spec fn format_text(o: Option<String>) -> Seq<char> {
    match o {
        Some(s) => s@,
        None => default_format(),
    }
}

/// Whether an optional pattern compiles.
pub open spec fn pattern_ok(o: Option<String>) -> bool {
    match o {
        Some(s) => regex_compiles(s@),
        None => true,
    }
}

/// The package-update block: counts the pending updates of a listing, shows
/// the count through the template for its arity, and sets its state by the
/// configured patterns.
pub struct Apt {
    output: ButtonWidget,
    update_interval: u64,
    formats: ArityVariants,
    warning_updates_regex: Option<Pattern>,
    critical_updates_regex: Option<Pattern>,
    config_path: String,
    ignore_waiting_phased_updates: bool,
}

/// The parts of the block that its behaviour depends on.
pub struct AptView {
    pub output: WidgetView,
    pub interval: u64,
    pub format: Seq<PieceView>,
    pub format_singular: Seq<PieceView>,
    pub format_up_to_date: Seq<PieceView>,
    pub warning: Option<Seq<char>>,
    pub critical: Option<Seq<char>>,
    pub config_path: Seq<char>,
    pub ignore_waiting_phased_updates: bool,
}

pub open spec fn pattern_view(p: Option<Pattern>) -> Option<Seq<char>> {
    match p {
        Some(p) => Some(p@),
        None => None,
    }
}

impl View for Apt {
    type V = AptView;

    closed spec fn view(&self) -> AptView {
        AptView {
            output: self.output@,
            interval: self.update_interval,
            format: self.formats.many@,
            format_singular: self.formats.one@,
            format_up_to_date: self.formats.zero@,
            warning: pattern_view(self.warning_updates_regex),
            critical: pattern_view(self.critical_updates_regex),
            config_path: self.config_path@,
            ignore_waiting_phased_updates: self.ignore_waiting_phased_updates,
        }
    }
}

/// Why an update cycle of the block failed.
#[derive(PartialEq, Eq, Structural, Debug, Clone, Copy)]
pub enum UpdateError {
    /// The phased-update lookups do not match the pending lines.
    Lookup,
    /// The template names a binding other than `count`.
    Render,
}

/// The template for a count.
pub open spec fn variant_for(v: AptView, count: nat) -> Seq<PieceView> {
    if count == 0 {
        v.format_up_to_date
    } else if count == 1 {
        v.format_singular
    } else {
        v.format
    }
}

/// The count as the integer bound to `count`.
pub open spec fn count_value(count: nat) -> i64 {
    if count <= i64::MAX {
        count as i64
    } else {
        i64::MAX
    }
}

/// The bindings that the templates are rendered under.
pub open spec fn count_bindings(count: nat) -> Seq<(Seq<char>, Value)> {
    seq![("count"@, Value::Integer(count_value(count)))]
}

/// The number of pending updates that the block shows for a listing, or `None`
/// where the phased-update lookups do not match its pending lines.
pub open spec fn shown_count(v: AptView, listing: Seq<char>, policies: Seq<String>) -> Option<nat> {
    if !v.ignore_waiting_phased_updates {
        Some(upgradable_lines(listing).len())
    } else if policies.len() == upgradable_lines(listing).len() {
        Some(count_not_waiting(policies, policies.len() as int))
    } else {
        None
    }
}

/// What one update cycle of the block does on a listing and its lookups. On
/// success the widget shows the rendered variant for the count, in the state
/// that the count and the patterns give, and the block asks to wake after its
/// interval. On failure the block is unchanged: `Lookup` exactly when the
/// lookups do not match the pending lines, `Render` when the variant names an
/// absent binding.
pub open spec fn update_outcome(
    before: AptView,
    after: AptView,
    updates: Seq<char>,
    policies: Seq<String>,
    r: Result<UpdatePolicy, UpdateError>,
) -> bool {
    match r {
        Ok(p) => {
            &&& shown_count(before, updates, policies) matches Some(c)
            &&& render_spec(variant_for(before, c), count_bindings(c)) matches Some(text)
            &&& p == UpdatePolicy::After(before.interval)
            &&& after == (AptView {
                output: WidgetView {
                    content: Some(text),
                    state: severity_of(
                        c,
                        pattern_hits(before.warning, updates),
                        pattern_hits(before.critical, updates),
                    ),
                    ..before.output
                },
                ..before
            })
        },
        Err(e) => {
            &&& after == before
            &&& (e == UpdateError::Lookup) == (shown_count(before, updates, policies) is None)
            &&& e == UpdateError::Render ==> (shown_count(before, updates, policies) matches Some(c)
                && render_spec(variant_for(before, c), count_bindings(c)) is None)
        },
    }
}

/// An update cycle is a function of the block, the listing and the lookups:
/// two cycles from the same block on the same inputs end with the same result
/// and the same block, so the text they render is identical.
pub proof fn update_is_deterministic(
    before: AptView,
    after1: AptView,
    after2: AptView,
    updates: Seq<char>,
    policies: Seq<String>,
    r1: Result<UpdatePolicy, UpdateError>,
    r2: Result<UpdatePolicy, UpdateError>,
)
    requires
        update_outcome(before, after1, updates, policies, r1),
        update_outcome(before, after2, updates, policies, r2),
    ensures
        r1 == r2,
        after1 == after2,
{
}

pub open spec fn pattern_hits(p: Option<Seq<char>>, listing: Seq<char>) -> bool {
    match p {
        Some(p) => some_line_matches(listing, p),
        None => false,
    }
}

fn pattern_hit(p: &Option<Pattern>, listing: &str) -> (r: bool)
    ensures
        r == pattern_hits(pattern_view(*p), listing@),
{
    match p {
        Some(p) => any_line_matches(listing, p),
        None => false,
    }
}

fn parse_option(o: &Option<String>) -> (r: Result<Template, ConfigError>)
    ensures
        match r {
            Ok(t) => parse_spec(format_text(*o)) == Some(t@),
            Err(e) => parse_spec(format_text(*o)) is None,
        },
{
    match o {
        Some(s) => Template::parse(s.as_str()),
        None => Template::parse("{count:1}"),
    }
}

fn compile_option(o: &Option<String>) -> (r: Result<Option<Pattern>, ConfigError>)
    ensures
        match r {
            Ok(p) => pattern_ok(*o) && pattern_view(p) == (match *o {
                Some(s) => Some(s@),
                None => None,
            }),
            Err(e) => !pattern_ok(*o),
        },
{
    match o {
        Some(s) => {
            let p = Pattern::new(s.as_str())?;
            Ok(Some(p))
        },
        None => Ok(None),
    }
}

impl Apt {
    /// The block `id` under `block_config`; `config_path` is the package
    /// manager's configuration file that the lookups use. Fails where a template
    /// is malformed or a pattern does not compile.
    pub fn new(id: usize, block_config: AptConfig, shared_config: SharedConfig, config_path: String) -> (r: Result<Apt, ConfigError>)
        ensures
            match r {
                Ok(a) => a.wf()
                    && parse_spec(format_text(block_config.format)) == Some(a@.format)
                    && parse_spec(format_text(block_config.format_singular)) == Some(a@.format_singular)
                    && parse_spec(format_text(block_config.format_up_to_date)) == Some(a@.format_up_to_date)
                    && pattern_ok(block_config.warning_updates_regex)
                    && pattern_ok(block_config.critical_updates_regex)
                    && a@.interval == block_config.interval
                    && a@.output == (WidgetView {
                        id: id as nat,
                        content: None,
                        icon: icon_for(shared_config.icons@, "update"@),
                        state: State::Idle,
                        spacing: Spacing::Normal,
                        config: shared_config,
                    })
                    && a@.warning == (match block_config.warning_updates_regex {
                        Some(s) => Some(s@),
                        None => None,
                    })
                    && a@.critical == (match block_config.critical_updates_regex {
                        Some(s) => Some(s@),
                        None => None,
                    })
                    && a@.config_path == config_path@
                    && a@.ignore_waiting_phased_updates == block_config.ignore_waiting_phased_updates,
                Err(_) => parse_spec(format_text(block_config.format)) is None
                    || parse_spec(format_text(block_config.format_singular)) is None
                    || parse_spec(format_text(block_config.format_up_to_date)) is None
                    || !pattern_ok(block_config.warning_updates_regex)
                    || !pattern_ok(block_config.critical_updates_regex),
            },
    {
        let output = ButtonWidget::new(id, shared_config).with_icon("update");
        let many = parse_option(&block_config.format)?;
        let one = parse_option(&block_config.format_singular)?;
        let zero = parse_option(&block_config.format_up_to_date)?;
        let warning = compile_option(&block_config.warning_updates_regex)?;
        let critical = compile_option(&block_config.critical_updates_regex)?;
        Ok(Apt {
            output,
            update_interval: block_config.interval,
            formats: ArityVariants { zero, one, many },
            warning_updates_regex: warning,
            critical_updates_regex: critical,
            config_path,
            ignore_waiting_phased_updates: block_config.ignore_waiting_phased_updates,
        })
    }

    /// The widget cache is consistent.
    pub closed spec fn wf(&self) -> bool {
        self.output.wf()
    }

    /// A stable label of the block kind.
    pub fn name(&self) -> (r: &'static str)
        ensures
            r@ == "apt"@,
    {
        "apt"
    }

    /// The block's widgets, in order.
    pub fn widgets(&self) -> (r: Vec<&ButtonWidget>)
        ensures
            r@.len() == 1,
            r@[0]@ == self@.output,
            self.wf() ==> r@[0].wf(),
    {
        vec![&self.output]
    }

    /// The package manager's configuration file.
    pub fn config_path(&self) -> (r: &String)
        ensures
            r@ == self@.config_path,
    {
        &self.config_path
    }

    /// Whether phased-update lookups are needed before an update cycle.
    pub fn needs_phased_lookup(&self) -> (r: bool)
        ensures
            r == self@.ignore_waiting_phased_updates,
    {
        self.ignore_waiting_phased_updates
    }

    /// One update cycle on a fresh listing. `policies` holds the lookup output
    /// of each pending package when phased updates are left out (else it is not
    /// read). On success the widget shows the count through the template for
    /// its arity, in the state that the count and the patterns give, and the
    /// block asks to wake after its interval; on failure nothing changes.
    pub fn update(&mut self, updates: &str, policies: &Vec<String>) -> (r: Result<UpdatePolicy, UpdateError>)
        requires
            old(self).wf(),
        ensures
            final(self).wf(),
            update_outcome(old(self)@, final(self)@, updates@, policies@, r),
    {
        let count: usize = if self.ignore_waiting_phased_updates {
            match get_update_count_ignore_waiting_phased(updates, policies) {
                Some(c) => c,
                None => {
                    return Err(UpdateError::Lookup);
                },
            }
        } else {
            get_update_count(updates)
        };
        let value: i64 = if (count as u128) <= 0x7fff_ffff_ffff_ffffu128 {
            count as i64
        } else {
            i64::MAX
        };
        let key = "count".to_owned();
        let mut bindings: Vec<(String, Value)> = Vec::new();
        bindings.push((key, Value::Integer(value)));
        proof {
            assert(bindings_view(bindings@)[0] == count_bindings(count as nat)[0]);
            assert(bindings_view(bindings@) =~= count_bindings(count as nat));
        }
        let warning = pattern_hit(&self.warning_updates_regex, updates);
        let critical = pattern_hit(&self.critical_updates_regex, updates);
        let text = match self.formats.render_for(count as u64, &bindings) {
            Ok(t) => t,
            Err(_) => {
                return Err(UpdateError::Render);
            },
        };
        self.output.set_text(text);
        self.output.set_state(severity(count, warning, critical));
        Ok(UpdatePolicy::After(self.update_interval))
    }

    /// Whether a click asks for an immediate update: a left click does.
    pub fn click(&self, event: &ClickEvent) -> (r: bool)
        ensures
            r == (event.button == MouseButton::Left),
    {
        event.button == MouseButton::Left
    }
}

} // verus!
