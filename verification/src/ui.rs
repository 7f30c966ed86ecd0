//! The computations behind the overlays: where they go on the screen and
//! what text they show. Drawing itself is left to the terminal front end.

use vstd::prelude::*;
use vstd::string::*;

use ratatui::layout::Constraint::Percentage;
use ratatui::layout::{Direction as LayoutDirection, Layout, Rect};

use crate::app::Role;
use crate::stream::without_nul;
use crate::text::{from_chars, push_char, to_chars, trim_seq, trimmed};

verus! {

/// A rectangle of terminal cells.
#[derive(Debug, Clone, Copy, PartialEq, Eq, Structural)]
pub struct Area {
    pub x: u16,
    pub y: u16,
    pub width: u16,
    pub height: u16,
}

/// The rectangle at (`x`, `y`) of the given size, shrunk so that it does
/// not reach past the largest coordinate (as `ratatui::layout::Rect::new`).
pub open spec fn area_spec(x: u16, y: u16, width: u16, height: u16) -> Area {
    Area {
        x,
        y,
        width: if width > u16::MAX - x {
            (u16::MAX - x) as u16
        } else {
            width
        },
        height: if height > u16::MAX - y {
            (u16::MAX - y) as u16
        } else {
            height
        },
    }
}

/// Builds the rectangle at (`x`, `y`) of the given size, clamped to the
/// coordinate range.
pub fn new_area(x: u16, y: u16, width: u16, height: u16) -> (r: Area)
    ensures
        r == area_spec(x, y, width, height),
{
    let max_width = u16::MAX - x;
    let max_height = u16::MAX - y;
    Area {
        x,
        y,
        width: if width > max_width {
            max_width
        } else {
            width
        },
        height: if height > max_height {
            max_height
        } else {
            height
        },
    }
}

/// A rectangle as (x, y, width, height).
pub open spec fn cells(a: Area) -> (u16, u16, u16, u16) {
    (a.x, a.y, a.width, a.height)
}

/// Direction in which a layout splits a rectangle.
#[derive(Debug, Clone, Copy, PartialEq, Eq, Structural)]
pub enum Direction {
    Horizontal,
    Vertical,
}

/// The three parts of `area` that a ratatui layout gives for three
/// percentage constraints, split vertically or horizontally.
pub uninterp spec fn percent_split(
    area: (u16, u16, u16, u16),
    vertical: bool,
    percents: (u16, u16, u16),
) -> ((u16, u16, u16, u16), (u16, u16, u16, u16), (u16, u16, u16, u16));

/// A part of a split lies inside the split area: a vertical split keeps
/// the area's columns and a horizontal split keeps its rows.
pub open spec fn part_inside(
    area: (u16, u16, u16, u16),
    vertical: bool,
    p: (u16, u16, u16, u16),
) -> bool {
    if vertical {
        p.0 == area.0 && p.2 == area.2 && area.1 <= p.1 && p.1 + p.3 <= area.1 + area.3
    } else {
        p.1 == area.1 && p.3 == area.3 && area.0 <= p.0 && p.0 + p.2 <= area.0 + area.2
    }
}

/// Splits `area` into three parts by the percentages in `p`
/// (`ratatui::layout::Layout::split` with three `Constraint::Percentage`).
/// Stated: the three parts are the named split of the area, direction and
/// percentages, and each part lies inside the area (ratatui builds each
/// part from the area's other coordinates and two solver values that its
/// required constraints keep within the area). Not stated: how the solver
/// rounds. The solver's failure, on which the call panics, needs a required
/// constraint to be rejected; percentage constraints are not required ones.
#[verifier::external_body]
fn split_by_percent(area: (u16, u16, u16, u16), direction: Direction, p: (u16, u16, u16)) -> (r: (
    (u16, u16, u16, u16),
    (u16, u16, u16, u16),
    (u16, u16, u16, u16),
))
    ensures
        r == percent_split(area, direction == Direction::Vertical, p),
        part_inside(area, direction == Direction::Vertical, r.0),
        part_inside(area, direction == Direction::Vertical, r.1),
        part_inside(area, direction == Direction::Vertical, r.2),
{
    let dir = match direction {
        Direction::Horizontal => LayoutDirection::Horizontal,
        Direction::Vertical => LayoutDirection::Vertical,
    };
    let whole = Rect { x: area.0, y: area.1, width: area.2, height: area.3 };
    let constraints = [Percentage(p.0), Percentage(p.1), Percentage(p.2)];
    let parts = Layout::default().direction(dir).constraints(constraints).split(whole);
    let cell = |r: Rect| (r.x, r.y, r.width, r.height);
    (cell(parts[0]), cell(parts[1]), cell(parts[2]))
}

/// The rectangle given as (x, y, width, height).
pub open spec fn area_of(t: (u16, u16, u16, u16)) -> Area {
    Area { x: t.0, y: t.1, width: t.2, height: t.3 }
}

/// The middle part of a three-way split with `percent` in the middle and
/// the rest shared equally on both sides.
pub open spec fn middle_part(area: Area, vertical: bool, percent: u16) -> (u16, u16, u16, u16) {
    let side = ((100 - percent) / 2) as u16;
    percent_split(cells(area), vertical, (side, percent, side)).1
}

/// The rectangle centred in `r` that takes `percent_x` percent of its
/// width and `percent_y` percent of its height, as the layout solver
/// computes it (the copy-mode overlay).
pub fn centered_rect(percent_x: u16, percent_y: u16, r: Area) -> (c: Area)
    requires
        percent_x <= 100,
        percent_y <= 100,
    ensures
        cells(c) == middle_part(area_of(middle_part(r, true, percent_y)), false, percent_x),
        r.x <= c.x,
        c.x + c.width <= r.x + r.width,
        r.y <= c.y,
        c.y + c.height <= r.y + r.height,
{
    let side_y = (100 - percent_y) / 2;
    let rows = split_by_percent((r.x, r.y, r.width, r.height), Direction::Vertical, (side_y, percent_y, side_y));
    let side_x = (100 - percent_x) / 2;
    let cols = split_by_percent(rows.1, Direction::Horizontal, (side_x, percent_x, side_x));
    let (x, y, width, height) = cols.1;
    Area { x, y, width, height }
}

/// The rectangle of the given size centred in `area`, clipped to it (the
/// effort-slider overlay).
pub open spec fn centered_box_spec(width: u16, height: u16, area: Area) -> Area {
    area_spec(
        (area.x + area.width.saturating_sub(width) / 2) as u16,
        (area.y + area.height.saturating_sub(height) / 2) as u16,
        if width < area.width {
            width
        } else {
            area.width
        },
        if height < area.height {
            height
        } else {
            area.height
        },
    )
}

/// Centres a box of the given size in `area`, clipped to it.
pub fn centered_box(width: u16, height: u16, area: Area) -> (r: Area)
    requires
        area.x + area.width.saturating_sub(width) / 2 <= u16::MAX,
        area.y + area.height.saturating_sub(height) / 2 <= u16::MAX,
    ensures
        r == centered_box_spec(width, height, area),
{
    let x = area.x + area.width.saturating_sub(width) / 2;
    let y = area.y + area.height.saturating_sub(height) / 2;
    new_area(x, y, if width < area.width {
        width
    } else {
        area.width
    }, if height < area.height {
        height
    } else {
        area.height
    })
}


/// What copy mode copies.
#[derive(Debug, Clone, Copy, PartialEq, Eq, Structural)]
pub enum CopyScope {
    /// The entire raw message content.
    Message,
    /// Only the last fenced code block in the message.
    CodeBlock,
}

/// The name of a copy scope, as copy mode shows it.
pub fn scope_label(scope: CopyScope) -> (r: &'static str)
    ensures
        r@ == match scope {
            CopyScope::Message => "message"@,
            CopyScope::CodeBlock => "code block"@,
        },
{
    match scope {
        CopyScope::Message => "message",
        CopyScope::CodeBlock => "code block",
    }
}

/// The icon copy mode shows before a message of the given role.
pub fn role_icon(role: Role) -> (r: &'static str)
    ensures
        r@ == match role {
            Role::User => "›"@,
            Role::Assistant => "◆"@,
            Role::System => "·"@,
        },
{
    match role {
        Role::User => "›",
        Role::Assistant => "◆",
        Role::System => "·",
    }
}

/// `t` without one carriage return at its end.
pub open spec fn strip_cr(t: Seq<char>) -> Seq<char> {
    if t.len() > 0 && t.last() == '\r' {
        t.drop_last()
    } else {
        t
    }
}

/// The lines of the rest of a text `s` when the current line so far is
/// `cur`: each line feed ends a line (and a carriage return just before
/// it is dropped); a last line without line feed counts when non-empty.
pub open spec fn lines_from(s: Seq<char>, cur: Seq<char>) -> Seq<Seq<char>>
    decreases s.len(),
{
    if s.len() == 0 {
        if cur.len() == 0 {
            Seq::<Seq<char>>::empty()
        } else {
            seq![cur]
        }
    } else if s[0] == '\n' {
        seq![strip_cr(cur)] + lines_from(s.drop_first(), Seq::<char>::empty())
    } else {
        lines_from(s.drop_first(), cur.push(s[0]))
    }
}

/// The lines of a text (`str::lines`).
pub open spec fn text_lines(s: Seq<char>) -> Seq<Seq<char>> {
    lines_from(s, Seq::<char>::empty())
}

/// The values of a list of character vectors.
pub open spec fn char_rows(v: Seq<Vec<char>>) -> Seq<Seq<char>> {
    v.map_values(|r: Vec<char>| r@)
}

/// The lines of a text, as character vectors.
pub fn split_lines(v: &[char]) -> (r: Vec<Vec<char>>)
    ensures
        char_rows(r@) == text_lines(v@),
{
    let mut r: Vec<Vec<char>> = Vec::new();
    let mut cur: Vec<char> = Vec::new();
    let mut i: usize = 0;
    assert(v@.skip(0) =~= v@);
    while i < v.len()
        invariant
            i <= v@.len(),
            char_rows(r@) + lines_from(v@.skip(i as int), cur@) == text_lines(v@),
        decreases v@.len() - i,
    {
        let ghost rows = char_rows(r@);
        let ghost rest = v@.skip(i as int);
        let ghost old_cur = cur@;
        assert(rest.drop_first() =~= v@.skip(i + 1));
        assert(rest[0] == v@[i as int]);
        if v[i] == '\n' {
            let n = cur.len();
            let line = if n > 0 && cur[n - 1] == '\r' {
                let mut l: Vec<char> = Vec::new();
                let mut j: usize = 0;
                while j + 1 < n
                    invariant
                        n == cur@.len(),
                        n > 0,
                        j < n,
                        l@ == cur@.take(j as int),
                    decreases n - j,
                {
                    l.push(cur[j]);
                    assert(cur@.take(j + 1) =~= cur@.take(j as int).push(cur@[j as int]));
                    j = j + 1;
                }
                assert(l@ =~= strip_cr(cur@));
                l
            } else {
                cur
            };
            r.push(line);
            cur = Vec::new();
            assert(char_rows(r@) =~= rows + seq![strip_cr(old_cur)]);
            assert(char_rows(r@) + lines_from(v@.skip(i + 1), cur@) =~= rows + lines_from(rest, old_cur));
        } else {
            cur.push(v[i]);
        }
        i = i + 1;
    }
    let ghost rows = char_rows(r@);
    assert(v@.skip(i as int) =~= Seq::<char>::empty());
    if cur.len() > 0 {
        r.push(cur);
        assert(char_rows(r@) =~= rows + seq![cur@]);
    } else {
        assert(rows + Seq::<Seq<char>>::empty() =~= rows);
    }
    r
}


/// The first line with something other than whitespace on it, or nothing.
pub open spec fn first_content_line(ls: Seq<Seq<char>>) -> Seq<char>
    decreases ls.len(),
{
    if ls.len() == 0 {
        Seq::<char>::empty()
    } else if trim_seq(ls[0]).len() > 0 {
        ls[0]
    } else {
        first_content_line(ls.drop_first())
    }
}

/// At most the first `n` elements of `s`.
pub open spec fn at_most<A>(s: Seq<A>, n: nat) -> Seq<A> {
    if s.len() > n {
        s.take(n as int)
    } else {
        s
    }
}

/// Characters of a message preview in copy mode.
pub const PREVIEW_CHARS: usize = 80;

/// The preview copy mode shows of a message: its first line that is not
/// blank, without NUL characters, cut to eighty characters.
pub open spec fn preview_spec(content: Seq<char>) -> Seq<char> {
    at_most(without_nul(first_content_line(text_lines(content))), PREVIEW_CHARS as nat)
}

/// The preview of a message's content and the number of its lines, as
/// copy mode lists them.
pub fn message_preview(content: &str) -> (r: (String, usize))
    ensures
        r.0@ == preview_spec(content@),
        r.1 == text_lines(content@).len(),
{
    let v = to_chars(content);
    let lines = split_lines(v.as_slice());
    let ghost ls = char_rows(lines@);
    let mut i: usize = 0;
    assert(ls.skip(0) =~= ls);
    let mut found: Option<usize> = None;
    while i < lines.len() && found.is_none()
        invariant
            i <= lines@.len(),
            ls == char_rows(lines@),
            found matches Some(k) ==> k < lines@.len() && lines@[k as int]@ == first_content_line(ls),
            found is None ==> first_content_line(ls.skip(i as int)) == first_content_line(ls),
        decreases lines@.len() - i + (if found is None { 1int } else { 0int }),
    {
        assert(ls.skip(i as int).drop_first() =~= ls.skip(i + 1));
        assert(ls.skip(i as int)[0] == lines@[i as int]@);
        let t = trimmed(lines[i].as_slice());
        if !t.as_str().is_empty() {
            found = Some(i);
        } else {
            i = i + 1;
        }
    }
    let mut out: Vec<char> = Vec::new();
    let ghost line: Seq<char> = match found {
        Some(k) => lines@[k as int]@,
        None => Seq::<char>::empty(),
    };
    assert(line == first_content_line(ls)) by {
        if found is None {
            assert(ls.skip(i as int) =~= Seq::<Seq<char>>::empty());
        }
    }
    let empty: Vec<char> = Vec::new();
    let src: &Vec<char> = match found {
        Some(k) => &lines[k],
        None => &empty,
    };
    let mut j: usize = 0;
    while j < src.len() && out.len() < PREVIEW_CHARS
        invariant
            j <= src@.len(),
            src@ == line,
            out@ == at_most(without_nul(src@.take(j as int)), PREVIEW_CHARS as nat),
            out@.len() <= PREVIEW_CHARS,
        decreases src@.len() - j,
    {
        assert(src@.take(j + 1).drop_last() =~= src@.take(j as int));
        if src[j] != '\0' {
            out.push(src[j]);
        }
        j = j + 1;
        assert(out@ =~= at_most(without_nul(src@.take(j as int)), PREVIEW_CHARS as nat));
    }
    proof {
        lemma_at_most_without_nul(src@, j as int);
    }
    (from_chars(out.as_slice()), lines.len())
}

/// Once eighty characters are kept, later characters change nothing.
proof fn lemma_at_most_without_nul(s: Seq<char>, j: int)
    requires
        0 <= j <= s.len(),
        j < s.len() ==> at_most(without_nul(s.take(j)), PREVIEW_CHARS as nat).len()
            >= PREVIEW_CHARS,
    ensures
        at_most(without_nul(s.take(j)), PREVIEW_CHARS as nat) == at_most(
            without_nul(s),
            PREVIEW_CHARS as nat,
        ),
    decreases s.len() - j,
{
    if j == s.len() {
        assert(s.take(j) =~= s);
    } else {
        lemma_without_nul_prefix(s, j);
        lemma_at_most_without_nul(s, s.len() as int);
        let a = without_nul(s.take(j));
        let b = without_nul(s);
        assert(a.len() >= PREVIEW_CHARS);
        assert(b.take(a.len() as int) == a);
        assert(at_most(a, PREVIEW_CHARS as nat) =~= at_most(b, PREVIEW_CHARS as nat));
    }
}

/// Dropping NUL characters of a prefix gives a prefix of the result.
proof fn lemma_without_nul_prefix(s: Seq<char>, j: int)
    requires
        0 <= j <= s.len(),
    ensures
        without_nul(s.take(j)).len() <= without_nul(s).len(),
        without_nul(s).take(without_nul(s.take(j)).len() as int) == without_nul(s.take(j)),
    decreases s.len() - j,
{
    if j < s.len() {
        lemma_without_nul_prefix(s, j + 1);
        assert(s.take(j + 1).drop_last() =~= s.take(j));
        let a = without_nul(s.take(j));
        let b = without_nul(s.take(j + 1));
        let c = without_nul(s);
        assert(b.take(a.len() as int) =~= a);
        assert(c.take(a.len() as int) =~= c.take(b.len() as int).take(a.len() as int));
    } else {
        assert(s.take(j) =~= s);
        assert(without_nul(s).take(without_nul(s).len() as int) =~= without_nul(s));
    }
}


/// The look of a piece of the effort slider.
#[derive(Debug, Clone, Copy, PartialEq, Eq, Structural)]
pub enum SliderLook {
    /// The line between two levels.
    Separator,
    /// Part of the selected level.
    Selected,
    /// Part of a level that is not selected.
    Unselected,
}

/// One piece of text of the effort slider.
#[derive(Debug)]
pub struct SliderSpan {
    pub text: String,
    pub look: SliderLook,
}

/// The names of the effort levels, lowest first.
pub open spec fn level_name(i: int) -> Seq<char> {
    if i == 0 {
        "low"@
    } else if i == 1 {
        "medium"@
    } else {
        "high"@
    }
}

/// The level that the slider shows as selected: `level`, at most two.
pub open spec fn selected_level(level: u8) -> int {
    if level < 2 {
        level as int
    } else {
        2
    }
}

/// The pieces the slider shows for level `i`, given the selected level.
pub open spec fn level_spans(i: int, selected: int) -> Seq<(Seq<char>, SliderLook)> {
    let look = if i == selected {
        SliderLook::Selected
    } else {
        SliderLook::Unselected
    };
    let head: Seq<(Seq<char>, SliderLook)> = if i > 0 {
        seq![(" ── "@, SliderLook::Separator)]
    } else {
        Seq::empty()
    };
    head + seq![
        (if i == selected {
            "●"@
        } else {
            "○"@
        }, look),
        (seq![' '] + level_name(i) + seq![' '], look),
    ]
}

/// The pieces of the slider: each level in turn, separated, with the
/// selected one marked.
pub open spec fn slider_spec(level: u8) -> Seq<(Seq<char>, SliderLook)> {
    let sel = selected_level(level);
    level_spans(0, sel) + level_spans(1, sel) + level_spans(2, sel)
}

/// The pieces of text and their looks, as values.
pub open spec fn span_views(v: Seq<SliderSpan>) -> Seq<(Seq<char>, SliderLook)> {
    v.map_values(|s: SliderSpan| (s.text@, s.look))
}

/// Appends the pieces of level `i`.
fn push_level(spans: &mut Vec<SliderSpan>, i: usize, name: &str, selected: usize)
    requires
        i < 3,
        name@ == level_name(i as int),
    ensures
        span_views(final(spans)@) == span_views(old(spans)@) + level_spans(i as int, selected as int),
{
    let look = if i == selected {
        SliderLook::Selected
    } else {
        SliderLook::Unselected
    };
    let ghost start = span_views(old(spans)@);
    let ghost head: Seq<(Seq<char>, SliderLook)> = if i > 0 {
        seq![(" ── "@, SliderLook::Separator)]
    } else {
        Seq::empty()
    };
    if i > 0 {
        spans.push(SliderSpan { text: String::from_str(" ── "), look: SliderLook::Separator });
    }
    assert(span_views(spans@) =~= start + head);
    let marker = if i == selected {
        String::from_str("●")
    } else {
        String::from_str("○")
    };
    let ghost marker_text = marker@;
    spans.push(SliderSpan { text: marker, look });
    assert(span_views(spans@) =~= start + head + seq![(marker_text, look)]);
    let mut label = String::new();
    push_char(&mut label, ' ');
    label.append(name);
    push_char(&mut label, ' ');
    let ghost label_text = label@;
    spans.push(SliderSpan { text: label, look });
    assert(span_views(spans@) =~= start + head + seq![(marker_text, look)] + seq![(label_text, look)]);
    assert(label_text =~= seq![' '] + level_name(i as int) + seq![' ']);
    assert(head + seq![(marker_text, look), (label_text, look)] =~= level_spans(i as int, selected as int));
    assert(span_views(spans@) =~= start + level_spans(i as int, selected as int));
}

/// The pieces of text of the effort slider at `level`.
pub fn effort_slider(level: u8) -> (r: Vec<SliderSpan>)
    ensures
        span_views(r@) == slider_spec(level),
{
    let selected: usize = if level < 2 {
        level as usize
    } else {
        2
    };
    let mut spans: Vec<SliderSpan> = Vec::new();
    push_level(&mut spans, 0, "low", selected);
    push_level(&mut spans, 1, "medium", selected);
    push_level(&mut spans, 2, "high", selected);
    assert(Seq::<(Seq<char>, SliderLook)>::empty() + level_spans(0, selected as int) =~= level_spans(0, selected as int));
    spans
}

/// Width of the effort slider overlay.
pub const EFFORT_WIDTH: u16 = 40;

/// Height of the effort slider overlay.
pub const EFFORT_HEIGHT: u16 = 5;

/// Where the file list pops up in `area` for `n` entries: above the input
/// line, two columns in, at most sixty wide, with room for ten entries and
/// at least three rows.
pub open spec fn file_popup_spec(n: nat, area: Area) -> Area {
    let items: nat = if n < 10 {
        n
    } else {
        10
    };
    let height: u16 = if items + 2 > 3 {
        (items + 2) as u16
    } else {
        3
    };
    let width: u16 = if area.width < 60 {
        area.width
    } else {
        60
    };
    area_spec(2, area.height.saturating_sub((height + 4) as u16), width, height)
}

/// The rectangle of the file list for `n` entries.
pub fn file_popup_area(n: usize, area: Area) -> (r: Area)
    ensures
        r == file_popup_spec(n as nat, area),
{
    let items: u16 = if n < 10 {
        n as u16
    } else {
        10
    };
    let height: u16 = if items + 2 > 3 {
        items + 2
    } else {
        3
    };
    let width: u16 = if area.width < 60 {
        area.width
    } else {
        60
    };
    new_area(2, area.height.saturating_sub(height + 4), width, height)
}

/// The title of the file list: scanning or done.
pub fn file_popup_title(loading: bool) -> (r: &'static str)
    ensures
        r@ == if loading {
            " Scanning… "@
        } else {
            " Files "@
        },
{
    if loading {
        " Scanning… "
    } else {
        " Files "
    }
}

/// The line the file list shows for a path.
pub fn file_item(path: &str) -> (r: String)
    ensures
        r@ == seq![' '] + path@,
{
    let mut r = String::new();
    push_char(&mut r, ' ');
    r.append(path);
    r
}

/// The one-row bar of the reverse history search, two rows above the
/// bottom of `area`.
pub open spec fn search_bar_spec(area: Area) -> Area {
    area_spec(area.x, area.y.saturating_add(area.height.saturating_sub(2)), area.width, 1)
}

/// The rectangle of the reverse history search bar.
pub fn search_bar_area(area: Area) -> (r: Area)
    ensures
        r == search_bar_spec(area),
{
    new_area(area.x, area.y.saturating_add(area.height.saturating_sub(2)), area.width, 1)
}

/// The history entry that the search shows: the matched one, or nothing.
pub open spec fn search_preview_spec(history: Seq<String>, match_index: Option<usize>) -> Seq<char> {
    match match_index {
        Some(i) => if i < history.len() {
            history[i as int]@
        } else {
            Seq::<char>::empty()
        },
        None => Seq::<char>::empty(),
    }
}

/// The text the search bar shows after its prompt: the matched entry.
pub fn search_preview(history: &[String], match_index: Option<usize>) -> (r: String)
    ensures
        r@ == search_preview_spec(history@, match_index),
{
    match match_index {
        Some(i) => if i < history.len() {
            history[i].clone()
        } else {
            String::new()
        },
        None => String::new(),
    }
}

} // verus!
