//! Theme and language preferences read from the service's settings file: a
//! minimal reader of two-level YAML maps, and the events that follow them.

use vstd::prelude::*;
use crate::launch::{nonblank, nonblank_setting};
use crate::process::or_else;
use crate::text::{
    chars_of, ends_with, is_whitespace, is_ws, lead_count, line_at, line_end, lines, lines_from,
    lemma_lines_after_line, lemma_lines_concat, opt_view, range_starts_with, skip_front, starts_with, trim, trim_by, trim_range, trim_start,
    Strip,
};

verus! {

/// The theme the shell follows: `"system"`, `"light"`, `"dark"`, or the id of a
/// custom theme, passed through as it stands.
pub struct ThemePreference {
    pub preference: String,
}

/// The language the shell follows: `"zh"`, `"en"`, or empty when unset (the page then
/// falls back to the browser's language).
pub struct LocalePreference {
    pub preference: String,
}

/// A line that starts a top-level section: it is not empty and does not begin
/// with whitespace.
pub open spec fn is_top_level(raw: Seq<char>) -> bool {
    raw.len() > 0 && !is_ws(raw[0])
}

/// The value of an entry line `key: value`: the text after the colon, trimmed of
/// whitespace and then of quotes.
pub open spec fn entry_value(line: Seq<char>, key: Seq<char>) -> Seq<char> {
    trim_by(trim(line.skip(key.len() + 1int)), Strip::Quotes)
}

/// Reads `lines` in order. A top-level line opens the section it names (when it
/// starts with `section:`) or closes it (otherwise); inside the section, the first
/// indented line `key: value` with a non-empty value gives the result.
pub open spec fn scan(
    lines: Seq<Seq<char>>,
    in_section: bool,
    section: Seq<char>,
    key: Seq<char>,
) -> Option<Seq<char>>
    decreases lines.len(),
{
    if lines.len() == 0 {
        None
    } else {
        let raw = lines[0];
        let line = trim_start(raw);
        if is_top_level(raw) {
            scan(lines.drop_first(), starts_with(line, section.push(':')), section, key)
        } else if in_section && starts_with(line, key.push(':')) && entry_value(line, key).len()
            > 0 {
            Some(entry_value(line, key))
        } else {
            scan(lines.drop_first(), in_section, section, key)
        }
    }
}

/// The value under `section:` → `key:` in the settings text `content`.
pub open spec fn find_value(content: Seq<char>, section: Seq<char>, key: Seq<char>) -> Option<
    Seq<char>,
> {
    scan(lines(content), false, section, key)
}

/// Reads the value of `key` inside the top-level `section` of a YAML text, such as
/// `preference` under `ui-theme:`. Quotes around the value are dropped; an empty
/// value counts as absent.
pub fn parse_value(content: &str, section: &str, key: &str) -> (res: Option<String>)
    ensures
        opt_view(res) == find_value(content@, section@, key@),
{
    let v = chars_of(content);
    let mut sec = chars_of(section);
    sec.push(':');
    let mut k = chars_of(key);
    k.push(':');
    let n = v.len();
    let mut i: usize = 0;
    let mut in_section = false;
    while i < n
        invariant
            n == v.len(),
            i <= n,
            v@ == content@,
            sec@ == section@.push(':'),
            k@ == key@.push(':'),
            find_value(content@, section@, key@) == scan(
                lines_from(v@, i as nat),
                in_section,
                section@,
                key@,
            ),
        decreases n - i,
    {
        let mut e = i;
        while e < n && v[e] != '\n'
            invariant
                i <= e <= n,
                n == v.len(),
                line_end(v@, i as nat) == line_end(v@, e as nat),
            decreases n - e,
        {
            e = e + 1;
        }
        let le = if e < n && e > i && v[e - 1] == '\r' {
            e - 1
        } else {
            e
        };
        let next = if e < n {
            e + 1
        } else {
            n
        };
        let ghost raw = v@.subrange(i as int, le as int);
        let ghost rest = lines_from(v@, next as nat);
        proof {
            assert(line_at(v@, i as nat) == raw);
            assert(lines_from(v@, i as nat) == seq![raw] + rest);
            assert((seq![raw] + rest).drop_first() =~= rest);
            assert((seq![raw] + rest)[0] == raw);
        }
        if le > i && !is_whitespace(v[i]) {
            proof {
                assert(trim_start(raw) == raw) by {
                    assert(lead_count(raw, Strip::Whitespace) == 0);
                    assert(raw.skip(0) =~= raw);
                }
            }
            in_section = range_starts_with(&v, i, le, &sec);
        } else {
            let t = skip_front(&v, i, le, Strip::Whitespace);
            if in_section && range_starts_with(&v, t, le, &k) {
                let vs = t + k.len();
                proof {
                    assert(trim_start(raw).skip(key@.len() + 1int) =~= v@.subrange(
                        vs as int,
                        le as int,
                    ));
                }
                let (a, b) = trim_range(&v, vs, le, Strip::Whitespace);
                let (c, d) = trim_range(&v, a, b, Strip::Quotes);
                if c < d {
                    let found = String::from_str(content.substring_char(c, d));
                    return Some(found);
                }
            }
        }
        i = next;
    }
    None
}

/// Whether two optional texts are the same.
pub(crate) fn same_text(a: &Option<String>, b: &Option<String>) -> (res: bool)
    ensures
        res == (opt_view(*a) == opt_view(*b)),
{
    match a {
        Some(x) => match b {
            Some(y) => {
                let eq = x.eq(y);
                eq
            },
            None => false,
        },
        None => b.is_none(),
    }
}

/// The value under `section:` → `preference:` in the settings text, when it was read.
pub open spec fn read_preference(content: Option<Seq<char>>, section: Seq<char>) -> Option<
    Seq<char>,
> {
    match content {
        Some(c) => find_value(c, section, "preference"@),
        None => None,
    }
}

/// The view of an optional text slice.
pub open spec fn opt_str_view(o: Option<&str>) -> Option<Seq<char>> {
    match o {
        Some(s) => Some(s@),
        None => None,
    }
}

/// One step of following a preference: `last` is what was seen before, `now` what the
/// settings hold. When they differ, `now` is remembered and an event carries it (or
/// `unset` when the preference is absent); otherwise nothing changes and nothing is
/// sent. The result is what is remembered and the event.
pub open spec fn follow(last: Option<Seq<char>>, now: Option<Seq<char>>, unset: Seq<char>) -> (
    Option<Seq<char>>,
    Option<Seq<char>>,
) {
    if now == last {
        (last, None)
    } else {
        (
            now,
            Some(
                match now {
                    Some(v) => v,
                    None => unset,
                },
            ),
        )
    }
}

/// The view of an optional theme event.
pub open spec fn theme_event_view(e: Option<ThemePreference>) -> Option<Seq<char>> {
    match e {
        Some(t) => Some(t.preference@),
        None => None,
    }
}

/// The view of an optional language event.
pub open spec fn locale_event_view(e: Option<LocalePreference>) -> Option<Seq<char>> {
    match e {
        Some(l) => Some(l.preference@),
        None => None,
    }
}

/// The follower sends a preference only when it changed: reading the same settings
/// again sends nothing and remembers the same value.
pub proof fn law_follow_quiet_on_repeat(
    last: Option<Seq<char>>,
    now: Option<Seq<char>>,
    unset: Seq<char>,
)
    ensures
        follow(follow(last, now, unset).0, now, unset) == (follow(last, now, unset).0, None::<
            Seq<char>,
        >),
        follow(last, now, unset).0 == now,
        follow(last, now, unset).1 is Some <==> now != last,
{
}

/// Follows one preference: compares the reading with what was seen and returns the
/// event to send, if any.
pub(crate) fn follow_step(last: &mut Option<String>, now: Option<String>, unset: &str) -> (res: Option<String>)
    ensures
        (opt_view(*final(last)), opt_view(res)) == follow(opt_view(*old(last)), opt_view(now), unset@),
{
    if same_text(last, &now) {
        return None;
    }
    let value = match &now {
        Some(v) => v.clone(),
        None => String::from_str(unset),
    };
    *last = now;
    Some(value)
}

/// What the follower of the settings last saw of the theme and the language.
pub struct PrefsWatch {
    pub last_theme: Option<String>,
    pub last_locale: Option<String>,
}

impl PrefsWatch {
    /// Nothing seen yet.
    pub fn new() -> (res: Self)
        ensures
            res.last_theme is None,
            res.last_locale is None,
    {
        PrefsWatch { last_theme: None, last_locale: None }
    }

    /// Takes one reading of the settings file (`None` when it could not be read) and
    /// returns the events to send: the theme when it changed (`"system"` when unset)
    /// and the language when it changed (empty when unset).
    pub fn observe(&mut self, content: Option<&str>) -> (res: (
        Option<ThemePreference>,
        Option<LocalePreference>,
    ))
        ensures
            (opt_view(final(self).last_theme), theme_event_view(res.0)) == follow(
                opt_view(old(self).last_theme),
                read_preference(opt_str_view(content), "ui-theme"@),
                "system"@,
            ),
            (opt_view(final(self).last_locale), locale_event_view(res.1)) == follow(
                opt_view(old(self).last_locale),
                read_preference(opt_str_view(content), "locale"@),
                ""@,
            ),
    {
        let theme = match content {
            Some(c) => parse_value(c, "ui-theme", "preference"),
            None => None,
        };
        let locale = match content {
            Some(c) => parse_value(c, "locale", "preference"),
            None => None,
        };
        let theme_event = match follow_step(&mut self.last_theme, theme, "system") {
            Some(preference) => Some(ThemePreference { preference }),
            None => None,
        };
        let locale_event = match follow_step(&mut self.last_locale, locale, "") {
            Some(preference) => Some(LocalePreference { preference }),
            None => None,
        };
        (theme_event, locale_event)
    }
}

/// A plain file name: not empty, not `.` or `..`, without separators or drive colons.
pub open spec fn plain_name(s: Seq<char>) -> bool {
    &&& s.len() > 0
    &&& s != "."@
    &&& s != ".."@
    &&& forall|i: int| 0 <= i < s.len() ==> #[trigger] s[i] != '/' && s[i] != '\\' && s[i] != ':'
}

/// A Windows verbatim path (`\\?\…`), which joining normalizes.
pub open spec fn verbatim(s: Seq<char>) -> bool {
    starts_with(s, seq!['\\', '\\', '?', '\\'])
}

/// A path separator on some platform: `/` everywhere, `\` on Windows.
pub open spec fn is_separator(c: char) -> bool {
    c == '/' || c == '\\'
}

/// A base after which joining adds no separator: it is empty, ends in a separator, or
/// is a bare Windows drive such as `C:`.
pub open spec fn needs_no_separator(base: Seq<char>) -> bool {
    ||| base.len() == 0
    ||| is_separator(base.last())
    ||| (base.len() == 2 && base[1] == ':')
}

/// What may stand between `base` and a joined name: nothing, `/` or `\`; nothing only
/// where `base` needs no separator.
pub open spec fn join_separator(base: Seq<char>, sep: Seq<char>) -> bool {
    ||| sep.len() == 0 && needs_no_separator(base)
    ||| sep == seq!['/']
    ||| sep == seq!['\\']
}

/// What joining the plain name `child` onto `base` gives: a text ending in `child`;
/// exactly `base` then `child` when `base` is empty or ends in `/` and is not verbatim
/// (on every platform);
/// unless `base` is verbatim, it is `base`, then nothing, `/` or `\` (nothing only where
/// `base` is empty, ends in a separator or is a bare drive), then `child`.
pub open spec fn joined(base: Seq<char>, child: Seq<char>, res: Seq<char>) -> bool {
    &&& ends_with(res, child)
    &&& !verbatim(base) && (base.len() == 0 || base.last() == '/') ==> res == base + child
    &&& !verbatim(base) ==> exists|sep: Seq<char>| join_separator(base, sep) && res == base + sep + child
}

proof fn lemma_plain_names()
    ensures
        plain_name(".dsh"@),
        plain_name("settings.yaml"@),
{
    reveal_strlit(".dsh");
    reveal_strlit("settings.yaml");
    reveal_strlit(".");
    reveal_strlit("..");
    let a = ".dsh"@;
    let b = "settings.yaml"@;
    assert(a =~= seq!['.', 'd', 's', 'h']);
    assert(b =~= seq!['s', 'e', 't', 't', 'i', 'n', 'g', 's', '.', 'y', 'a', 'm', 'l']);
    assert forall|i: int| 0 <= i < a.len() implies #[trigger] a[i] != '/' && a[i] != '\\' && a[i]
        != ':' by {
        assert(0 <= i < 4);
    }
    assert forall|i: int| 0 <= i < b.len() implies #[trigger] b[i] != '/' && b[i] != '\\' && b[i]
        != ':' by {
        assert(0 <= i < 13);
    }
}

/// `Path::join` of the plain file name `child` onto `base`, as text. The separator is
/// the platform's (`/`, or `\` on Windows) and is left out where `base` is empty, ends
/// in a separator or is a bare drive; which of `/` and `\` it is, is left to the
/// platform. What a verbatim `base` turns into is left unsaid.
#[verifier::external_body]
fn join_path(base: &str, child: &str) -> (res: String)
    requires
        plain_name(child@),
    ensures
        joined(base@, child@, res@),
{
    std::path::Path::new(base).join(child).to_string_lossy().into_owned()
}

/// The home of the service's settings: `DSH_HOME` when it is set and not blank, else
/// `.dsh` in the user's home directory (`USERPROFILE`, else `HOME`), if one is known.
pub fn dsh_home(dsh_home_var: Option<String>, userprofile: Option<String>, home: Option<String>) -> (res:
    Option<String>)
    ensures
        nonblank(opt_view(dsh_home_var)) is Some ==> opt_view(res) == opt_view(dsh_home_var),
        nonblank(opt_view(dsh_home_var)) is None ==> match or_else(
            opt_view(userprofile),
            opt_view(home),
        ) {
            Some(user) => res matches Some(r) && joined(user, ".dsh"@, r@),
            None => res is None,
        },
{
    if nonblank_setting(&dsh_home_var).is_some() {
        return dsh_home_var;
    }
    let user = match userprofile {
        Some(u) => Some(u),
        None => home,
    };
    match user {
        Some(u) => {
            proof {
                lemma_plain_names();
            }
            Some(join_path(u.as_str(), ".dsh"))
        },
        None => None,
    }
}

/// The service's settings file in its home `dsh_home`.
pub fn settings_path(dsh_home: Option<String>) -> (res: Option<String>)
    ensures
        match opt_view(dsh_home) {
            Some(h) => res matches Some(r) && joined(h, "settings.yaml"@, r@),
            None => res is None,
        },
{
    match dsh_home {
        Some(h) => {
            proof {
                lemma_plain_names();
            }
            Some(join_path(h.as_str(), "settings.yaml"))
        },
        None => None,
    }
}

/// Whether the reader is inside `section` after reading `lines` without a result,
/// starting with `in_section`.
pub open spec fn section_after(lines: Seq<Seq<char>>, in_section: bool, section: Seq<char>) -> bool
    decreases lines.len(),
{
    if lines.len() == 0 {
        in_section
    } else if is_top_level(lines[0]) {
        section_after(lines.drop_first(), starts_with(trim_start(lines[0]), section.push(':')), section)
    } else {
        section_after(lines.drop_first(), in_section, section)
    }
}

proof fn lemma_scan_concat(
    x: Seq<Seq<char>>,
    y: Seq<Seq<char>>,
    in_section: bool,
    section: Seq<char>,
    key: Seq<char>,
)
    ensures
        scan(x + y, in_section, section, key) == match scan(x, in_section, section, key) {
            Some(v) => Some(v),
            None => scan(y, section_after(x, in_section, section), section, key),
        },
    decreases x.len(),
{
    if x.len() == 0 {
        assert(x + y =~= y);
    } else {
        assert((x + y)[0] == x[0]);
        assert((x + y).drop_first() =~= x.drop_first() + y);
        let next = if is_top_level(x[0]) {
            starts_with(trim_start(x[0]), section.push(':'))
        } else {
            in_section
        };
        lemma_scan_concat(x.drop_first(), y, next, section, key);
    }
}

proof fn lemma_all_whitespace_trims_away(s: Seq<char>)
    requires
        forall|k: int| 0 <= k < s.len() ==> is_ws(s[k]),
    ensures
        lead_count(s, Strip::Whitespace) == s.len(),
        trim_start(s).len() == 0,
    decreases s.len(),
{
    if s.len() > 0 {
        assert forall|k: int| 0 <= k < s.drop_first().len() implies is_ws(s.drop_first()[k]) by {
            assert(s.drop_first()[k] == s[k + 1]);
        }
        lemma_all_whitespace_trims_away(s.drop_first());
    }
}

proof fn lemma_blank_line_skipped(
    blank: Seq<char>,
    rest: Seq<Seq<char>>,
    in_section: bool,
    section: Seq<char>,
    key: Seq<char>,
)
    requires
        forall|k: int| 0 <= k < blank.len() ==> is_ws(blank[k]),
    ensures
        scan(seq![blank] + rest, in_section, section, key) == scan(rest, in_section, section, key),
{
    lemma_all_whitespace_trims_away(blank);
    let ls = seq![blank] + rest;
    assert(ls[0] == blank);
    assert(ls.drop_first() =~= rest);
    assert(!starts_with(trim_start(blank), key.push(':')));
}

/// A blank line, or one of whitespace only, neither opens nor closes a section nor gives
/// a value: putting one in at the start of a line leaves what is found unchanged.
pub proof fn law_blank_line_ignored(
    before: Seq<char>,
    blank: Seq<char>,
    after: Seq<char>,
    section: Seq<char>,
    key: Seq<char>,
)
    requires
        before.len() == 0 || before.last() == '\n',
        forall|k: int| 0 <= k < blank.len() ==> is_ws(blank[k]) && blank[k] != '\n',
    ensures
        find_value(before + blank + seq!['\n'] + after, section, key) == find_value(
            before + after,
            section,
            key,
        ),
{
    let b = blank + seq!['\n'] + after;
    assert(before + blank + seq!['\n'] + after =~= before + b);
    lemma_lines_concat(before, b);
    lemma_lines_concat(before, after);
    lemma_lines_after_line(blank, after);
    let line = line_at(b, 0);
    assert forall|k: int| 0 <= k < line.len() implies is_ws(line[k]) by {
        assert(line[k] == blank[k]);
    }
    let st = section_after(lines(before), false, section);
    lemma_scan_concat(lines(before), lines(b), false, section, key);
    lemma_scan_concat(lines(before), lines(after), false, section, key);
    lemma_blank_line_skipped(line, lines(after), st, section, key);
}

proof fn lemma_scan_outside_section(ls: Seq<Seq<char>>, section: Seq<char>, key: Seq<char>)
    requires
        forall|i: int| 0 <= i < ls.len() ==> !is_top_level(#[trigger] ls[i]),
    ensures
        scan(ls, false, section, key) is None,
    decreases ls.len(),
{
    if ls.len() > 0 {
        assert forall|i: int| 0 <= i < ls.drop_first().len() implies !is_top_level(
            #[trigger] ls.drop_first()[i],
        ) by {
            assert(ls.drop_first()[i] == ls[i + 1]);
        }
        lemma_scan_outside_section(ls.drop_first(), section, key);
    }
}

/// A top-level line that does not name `section` closes it: when nothing was found
/// before it, the indented lines that follow it (up to the next top-level line) are
/// never read, so nothing is found after it either.
pub proof fn law_other_section_closes(
    before: Seq<char>,
    head: Seq<char>,
    body: Seq<char>,
    section: Seq<char>,
    key: Seq<char>,
)
    requires
        before.len() == 0 || before.last() == '\n',
        find_value(before, section, key) is None,
        is_top_level(head),
        !starts_with(head, section.push(':')),
        forall|k: int| 0 <= k < head.len() ==> head[k] != '\n',
        forall|i: int| 0 <= i < lines(body).len() ==> !is_top_level(#[trigger] lines(body)[i]),
    ensures
        find_value(before + head + seq!['\n'] + body, section, key) is None,
{
    let b = head + seq!['\n'] + body;
    assert(before + head + seq!['\n'] + body =~= before + b);
    lemma_lines_concat(before, b);
    lemma_lines_after_line(head, body);
    let line = line_at(b, 0);
    // The line read is `head`, or `head` without a final '\r': still top-level, and
    // still not naming the section.
    assert(line.len() > 0 && line[0] == head[0]) by {
        if head.len() == 1 && head.last() == '\r' {
            assert(is_ws(head[0]));
        }
    }
    assert(lead_count(line, Strip::Whitespace) == 0);
    assert(trim_start(line) =~= line);
    let p = section.push(':');
    if starts_with(line, p) {
        assert(line.take(p.len() as int) =~= head.take(p.len() as int));
    }
    let st = section_after(lines(before), false, section);
    lemma_scan_concat(lines(before), lines(b), false, section, key);
    let ls = seq![line] + lines(body);
    assert(ls[0] == line);
    assert(ls.drop_first() =~= lines(body));
    lemma_scan_outside_section(lines(body), section, key);
}

/// The events of a follower over successive readings `readings`, starting from `last`.
pub open spec fn follow_rounds(
    last: Option<Seq<char>>,
    readings: Seq<Option<Seq<char>>>,
    unset: Seq<char>,
) -> Seq<Option<Seq<char>>>
    decreases readings.len(),
{
    if readings.len() == 0 {
        seq![]
    } else {
        let (seen, event) = follow(last, readings[0], unset);
        seq![event] + follow_rounds(seen, readings.drop_first(), unset)
    }
}

/// The reading before round `i`: `last` for the first round.
pub open spec fn previous_reading(
    last: Option<Seq<char>>,
    readings: Seq<Option<Seq<char>>>,
    i: int,
) -> Option<Seq<char>> {
    if i == 0 {
        last
    } else {
        readings[i - 1]
    }
}

/// Over any number of rounds, a follower (a new one remembers nothing, `last == None`)
/// sends one event per round at most: in round `i` it sends the reading (or `unset`
/// when absent) exactly when the reading differs from the one before.
pub proof fn law_follow_every_round(
    last: Option<Seq<char>>,
    readings: Seq<Option<Seq<char>>>,
    unset: Seq<char>,
)
    ensures
        follow_rounds(last, readings, unset).len() == readings.len(),
        forall|i: int|
            0 <= i < readings.len() ==> #[trigger] follow_rounds(last, readings, unset)[i] == (if readings[i]
                != previous_reading(last, readings, i) {
                Some(
                    match readings[i] {
                        Some(v) => v,
                        None => unset,
                    },
                )
            } else {
                None
            }),
    decreases readings.len(),
{
    if readings.len() > 0 {
        let rest = readings.drop_first();
        law_follow_every_round(readings[0], rest, unset);
        let rounds = follow_rounds(last, readings, unset);
        assert forall|i: int| 0 <= i < readings.len() implies #[trigger] rounds[i] == (if readings[i]
            != previous_reading(last, readings, i) {
            Some(
                match readings[i] {
                    Some(v) => v,
                    None => unset,
                },
            )
        } else {
            None
        }) by {
            if i > 0 {
                assert(rounds[i] == follow_rounds(readings[0], rest, unset)[i - 1]);
                assert(rest[i - 1] == readings[i]);
                assert(previous_reading(readings[0], rest, i - 1) == readings[i - 1]);
            }
        }
    }
}

} // verus!
