//! Layout of the input editor: how the typed text wraps into visual rows and
//! where the cursor is drawn.

use vstd::prelude::*;

use crate::screen::{inner_rect, inner_spec, Rect};
use crate::state::{agent_matches, App, ChatMode};
use crate::text::{chars_of, lemma_split_nl_len, lowercase, split_lines, split_nl, string_of};
use crate::types::Agent;
use crate::view::{decimal, decimal_chars, fg, fg_style, lines_v, push_line, span, span_v, StyledLine, StyledSpan, ThemeColor};

verus! {

/// One visual row of the editor: the characters `start..end` of the input.
#[derive(Debug, Clone, Copy, PartialEq, Eq, Structural)]
pub struct VisualRow {
    pub start: usize,
    pub end: usize,
}

/// The editor's rows and the cursor's row and column.
#[derive(Debug)]
pub struct EditorLayout {
    pub rows: Vec<VisualRow>,
    pub cursor_row: usize,
    pub cursor_col: usize,
}

/// The rows of one logical line of `n` characters starting at input index `o`,
/// wrapped at width `w`: `n / w + 1` rows of `w` characters, the last one
/// holding the rest (empty when `n` is a multiple of `w`, so that a cursor at
/// the end of a full row has a row to sit on).
pub open spec fn line_chunks(o: int, n: int, w: int) -> Seq<(int, int)> {
    Seq::new(
        (n / w + 1) as nat,
        |k: int|
            (o + k * w, o + if k * w + w <= n {
                k * w + w
            } else {
                n
            }),
    )
}

/// Index in the input of the first character of line `i`.
pub open spec fn line_start(lines: Seq<Seq<char>>, i: int) -> int
    decreases i,
{
    if i <= 0 {
        0
    } else {
        line_start(lines, i - 1) + lines[i - 1].len() + 1
    }
}

/// The rows of the first `i` lines.
pub open spec fn rows_upto(lines: Seq<Seq<char>>, i: int, w: int) -> Seq<(int, int)>
    decreases i,
{
    if i <= 0 {
        Seq::empty()
    } else {
        rows_upto(lines, i - 1, w) + line_chunks(line_start(lines, i - 1), lines[i - 1].len() as int, w)
    }
}

/// The editor's rows for `text` at width `w`.
pub open spec fn layout_rows(text: Seq<char>, w: int) -> Seq<(int, int)> {
    rows_upto(split_nl(text), split_nl(text).len() as int, w)
}

/// The view of a row.
pub open spec fn row_view(r: VisualRow) -> (int, int) {
    (r.start as int, r.end as int)
}

proof fn lemma_chunk_bounds(n: int, w: int, k: int)
    requires
        n >= 0,
        w >= 1,
        0 <= k <= n / w,
    ensures
        k * w <= n,
        (k + 1) * w == k * w + w,
        n / w <= n,
{
    assert(n / w <= n) by (nonlinear_arith)
        requires
            n >= 0,
            w >= 1,
    ;
    assert(k * w <= (n / w) * w) by (nonlinear_arith)
        requires
            0 <= k <= n / w,
            w >= 1,
    ;
    assert((n / w) * w <= n) by (nonlinear_arith)
        requires
            n >= 0,
            w >= 1,
    ;
    assert((k + 1) * w == k * w + w) by (nonlinear_arith);
}

proof fn lemma_line_start_mono(lines: Seq<Seq<char>>, i: int, j: int)
    requires
        0 <= i <= j <= lines.len(),
    ensures
        line_start(lines, i) <= line_start(lines, j),
        i < j ==> line_start(lines, i) + lines[i].len() < line_start(lines, j),
    decreases j - i,
{
    if i < j {
        lemma_line_start_mono(lines, i, j - 1);
        if i < j - 1 {
            lemma_line_start_mono(lines, i, j - 1);
        }
    }
}

/// Text length of the first `i` lines with their newlines.
proof fn lemma_line_start_total(s: Seq<char>)
    ensures
        line_start(split_nl(s), split_nl(s).len() as int) == s.len() + 1,
    decreases s.len(),
{
    lemma_split_nl_len(s);
    if s.len() > 0 {
        let t = s.drop_last();
        let p = split_nl(t);
        lemma_split_nl_len(t);
        lemma_line_start_total(t);
        let q = split_nl(s);
        if s.last() == '\n' {
            assert(q == p.push(Seq::<char>::empty()));
            lemma_line_start_prefix(p, q, p.len() as int);
            assert(line_start(q, q.len() as int) == line_start(q, p.len() as int) + q[p.len() as int].len() + 1);
        } else {
            assert(q == p.update(p.len() - 1, p.last().push(s.last())));
            lemma_line_start_prefix(p, q, p.len() - 1);
            assert(line_start(q, q.len() as int) == line_start(q, q.len() - 1) + q[q.len() - 1].len() + 1);
            assert(line_start(p, p.len() as int) == line_start(p, p.len() - 1) + p[p.len() - 1].len() + 1);
        }
    } else {
        let q = split_nl(s);
        assert(line_start(q, 1) == line_start(q, 0) + q[0].len() + 1);
    }
}

proof fn lemma_line_start_prefix(p: Seq<Seq<char>>, q: Seq<Seq<char>>, i: int)
    requires
        0 <= i <= p.len(),
        i <= q.len(),
        forall|j: int| 0 <= j < i ==> #[trigger] p[j] == q[j],
    ensures
        line_start(p, i) == line_start(q, i),
    decreases i,
{
    if i > 0 {
        lemma_line_start_prefix(p, q, i - 1);
    }
}

/// The cursor at character index `cursor` of `text` (clamped to its end) lies on
/// row `row`, column `col` of the editor's rows at width `w`: within its line,
/// one row per `w` characters.
pub open spec fn cursor_placed(text: Seq<char>, w: int, cursor: int, row: int, col: int) -> bool {
    let lines = split_nl(text);
    let c = if cursor <= text.len() {
        cursor
    } else {
        text.len() as int
    };
    exists|i: int|
        0 <= i < lines.len() && line_start(lines, i) <= c <= line_start(lines, i) + lines[i].len()
            && row == rows_upto(lines, i, w).len() + (c - line_start(lines, i)) / w && col == (c
            - line_start(lines, i)) % w
}

/// Splits `text` into the editor's rows at width `w` and places the cursor at
/// character index `cursor` (clamped to the end of the text).
pub fn editor_layout(text: &[char], w: usize, cursor: usize) -> (r: EditorLayout)
    requires
        w >= 1,
        text@.len() + 1 < usize::MAX,
    ensures
        r.rows@.map_values(|x: VisualRow| row_view(x)) == layout_rows(text@, w as int),
        cursor_placed(text@, w as int, cursor as int, r.cursor_row as int, r.cursor_col as int),
{
    let lines = split_lines(text);
    let ghost ls = split_nl(text@);
    proof {
        lemma_split_nl_len(text@);
        assert(lines@.len() == ls.len());
        assert forall|j: int| 0 <= j < ls.len() implies #[trigger] ls[j] == lines@[j]@ by {}
        lemma_line_start_total(text@);
    }
    let c = if cursor <= text.len() {
        cursor
    } else {
        text.len()
    };
    let mut rows: Vec<VisualRow> = Vec::new();
    let mut offset: usize = 0;
    let mut cursor_row: usize = 0;
    let mut cursor_col: usize = 0;
    let mut found = false;
    let mut i: usize = 0;
    while i < lines.len()
        invariant
            lines@.len() == ls.len(),
            forall|j: int| 0 <= j < ls.len() ==> #[trigger] ls[j] == lines@[j]@,
            line_start(ls, ls.len() as int) == text@.len() + 1,
            0 <= i <= lines@.len(),
            w >= 1,
            text@.len() + 1 < usize::MAX,
            c <= text@.len(),
            offset == line_start(ls, i as int),
            rows@.len() <= offset,
            rows@.map_values(|x: VisualRow| row_view(x)) == rows_upto(ls, i as int, w as int),
            found ==> exists|j: int|
                0 <= j < i && line_start(ls, j) <= c <= line_start(ls, j) + ls[j].len()
                    && cursor_row == rows_upto(ls, j, w as int).len() + (c - line_start(ls, j)) / (
                w as int) && cursor_col == (c - line_start(ls, j)) % (w as int),
            !found ==> c >= offset,
        decreases lines@.len() - i,
    {
        proof {
            lemma_line_start_mono(ls, i as int, ls.len() as int);
        }
        let n = lines[i].len();
        proof {
            lemma_chunk_bounds(n as int, w as int, 0);
        }
        let ghost before = rows@.map_values(|x: VisualRow| row_view(x));
        let ghost chunks = line_chunks(offset as int, n as int, w as int);
        if !found && c <= offset + n {
            found = true;
            cursor_row = rows.len() + (c - offset) / w;
            cursor_col = (c - offset) % w;
            assert(rows@.len() == before.len());
        }
        let count = n / w + 1;
        let mut k: usize = 0;
        while k < count
            invariant
                w >= 1,
                count == n / w + 1,
                k <= count,
                offset + n < usize::MAX,
                rows@.len() == before.len() + k,
                before.len() <= offset,
                rows@.map_values(|x: VisualRow| row_view(x)) == before + chunks.take(k as int),
                chunks == line_chunks(offset as int, n as int, w as int),
            decreases count - k,
        {
            proof {
                lemma_chunk_bounds(n as int, w as int, k as int);
            }
            let start = k * w;
            let end = if w <= n - start {
                start + w
            } else {
                n
            };
            let ghost prev = rows@;
            let row = VisualRow { start: offset + start, end: offset + end };
            rows.push(row);
            proof {
                assert(chunks[k as int] == row_view(row));
                assert(chunks.take(k + 1) == chunks.take(k as int).push(chunks[k as int]));
                assert(rows@ == prev.push(row));
                assert(rows@.map_values(|x: VisualRow| row_view(x)) =~= prev.map_values(
                    |x: VisualRow| row_view(x),
                ).push(row_view(row)));
            }
            k = k + 1;
        }
        assert(chunks.take(count as int) == chunks);
        offset = offset + n + 1;
        i = i + 1;
    }
    EditorLayout { rows, cursor_row, cursor_col }
}

// ───────────────────────── the editor box ─────────────────────────

/// The editor's title: the abort hint while busy, else the prompt, naming the
/// mode unless it is Build.
pub open spec fn editor_title(app: App) -> Seq<char> {
    if app.session_busy_spec() {
        " Abort (Ctrl+C) "@
    } else {
        match app.chat_mode {
            ChatMode::Build => " > "@,
            ChatMode::Plan => " Plan > "@,
        }
    }
}

/// The label shown in paste mode.
pub open spec fn paste_label(n: nat) -> Seq<char> {
    "[Pasted "@ + decimal(n) + " lines]"@
}

/// What the editor box holds.
pub enum EditorBody {
    /// The session works: a hint instead of the input.
    Busy,
    /// Paste mode: the label instead of the pasted text.
    Pasted { label: String },
    /// The input, wrapped into rows, with the cursor's row and column.
    Text { layout: EditorLayout },
}

/// What the editor box shows.
pub struct EditorView {
    pub busy: bool,
    pub title: String,
    pub body: EditorBody,
    /// Where the terminal cursor goes.
    pub cursor: CursorSpot,
}

/// Where the terminal cursor goes.
#[derive(Debug, Clone, Copy, PartialEq, Eq, Structural)]
pub enum CursorSpot {
    /// At this cell.
    At(u16, u16),
    /// Nowhere: its cell lies outside the box.
    Outside,
    /// Its cell cannot be computed: the coordinates overflow 16 bits.
    Overflow,
    /// Nowhere: the box shows no input.
    Hidden,
}

/// The terminal cursor at column `dx` and row `dy` of `inner`.
pub open spec fn cursor_in(inner: Rect, dx: int, dy: int) -> CursorSpot {
    if !cursor_fits(inner, dx, dy) {
        CursorSpot::Overflow
    } else if dx < inner.width && dy < inner.height {
        CursorSpot::At((inner.x + dx) as u16, (inner.y + dy) as u16)
    } else {
        CursorSpot::Outside
    }
}

/// The sums that place the cursor fit in 16 bits.
pub open spec fn cursor_fits(inner: Rect, dx: int, dy: int) -> bool {
    &&& inner.x + dx <= u16::MAX
    &&& inner.y + dy <= u16::MAX
    &&& inner.x + inner.width <= u16::MAX
    &&& inner.y + inner.height <= u16::MAX
}

fn place_cursor(inner: Rect, dx: u16, dy: u16) -> (r: CursorSpot)
    ensures
        r == cursor_in(inner, dx as int, dy as int),
{
    if inner.x as u32 + dx as u32 > 65535 || inner.y as u32 + dy as u32 > 65535 || inner.x as u32
        + inner.width as u32 > 65535 || inner.y as u32 + inner.height as u32 > 65535 {
        return CursorSpot::Overflow;
    }
    let cx = inner.x + dx;
    let cy = inner.y + dy;
    if cx < inner.x + inner.width && cy < inner.y + inner.height {
        CursorSpot::At(cx, cy)
    } else {
        CursorSpot::Outside
    }
}

/// The editor box for `app` in `area`: busy hint, paste label, or the wrapped
/// input with the cursor.
pub fn editor_view(app: &App, area: Rect) -> (v: EditorView)
    requires
        app.input_text@.len() + 1 < usize::MAX,
    ensures
        ({
                &&& v.busy == app.session_busy_spec()
                &&& v.title@ == editor_title(*app)
                &&& if app.session_busy_spec() {
                    v.body is Busy && v.cursor is Hidden
                } else if app.paste_line_count is Some {
                    let label = paste_label(app.paste_line_count->0 as nat);
                    &&& v.body matches EditorBody::Pasted { label: l } && l@ == label
                    &&& v.cursor == cursor_in(inner_spec(area), (label.len() as u16) as int, 0)
                } else {
                    let w: int = if area.width >= 3 {
                        area.width - 2
                    } else {
                        1
                    };
                    &&& v.body matches EditorBody::Text { layout }
                        && layout.rows@.map_values(|x: VisualRow| row_view(x)) == layout_rows(
                        app.input_text@,
                        w,
                    )
                        && cursor_placed(
                        app.input_text@,
                        w,
                        app.input_cursor as int,
                        layout.cursor_row as int,
                        layout.cursor_col as int,
                    ) && v.cursor == cursor_in(
                        inner_spec(area),
                        (layout.cursor_col as u16) as int,
                        (layout.cursor_row as u16) as int,
                    )
                }
        }),
{
    let busy = app.is_session_busy();
    let title = if busy {
        string_of(&chars_of(" Abort (Ctrl+C) "))
    } else {
        match app.chat_mode {
            ChatMode::Build => string_of(&chars_of(" > ")),
            ChatMode::Plan => string_of(&chars_of(" Plan > ")),
        }
    };
    if busy {
        return EditorView { busy, title, body: EditorBody::Busy, cursor: CursorSpot::Hidden };
    }
    let inner = inner_rect(area);
    if let Some(n) = app.paste_line_count {
        let mut label = chars_of("[Pasted ");
        crate::text::extend(&mut label, &decimal_chars(n as u64));
        crate::text::extend(&mut label, &chars_of(" lines]"));
        let len = #[verifier::truncate] (label.len() as u16);
        let cursor = place_cursor(inner, len, 0);
        return EditorView { busy, title, body: EditorBody::Pasted { label: string_of(&label) }, cursor };
    }
    let w: usize = if area.width >= 3 {
        (area.width - 2) as usize
    } else {
        1
    };
    let text = chars_of(app.input_text.as_str());
    let layout = editor_layout(&text, w, app.input_cursor);
    let col = #[verifier::truncate] (layout.cursor_col as u16);
    let row = #[verifier::truncate] (layout.cursor_row as u16);
    let cursor = place_cursor(inner, col, row);
    EditorView { busy, title, body: EditorBody::Text { layout }, cursor }
}

/// What the agent autocomplete shows above the editor.
pub struct AgentPopup {
    pub area: Rect,
    pub items: Vec<StyledLine>,
    pub selected: usize,
}

/// An entry of the agent autocomplete: `@name` and the first thirty characters
/// of the description.
pub open spec fn agent_entry(a: Agent) -> Seq<(Seq<char>, crate::view::SpanStyle)> {
    let d = match a.description {
        Some(d) => d@,
        None => Seq::empty(),
    };
    seq![
        (" @"@ + a.name@ + " "@, fg_style(ThemeColor::Accent)),
        (if d.len() > 30 {
            d.take(30)
        } else {
            d
        }, fg_style(ThemeColor::Muted)),
    ]
}

/// The agent autocomplete for the editor box at `area`: shown while open and
/// some agent matches; at most six entries, in a box up to forty columns wide
/// just above the editor.
pub fn agent_popup(app: &App, area: Rect) -> (r: Option<AgentPopup>)
    requires
        area.x < u16::MAX,
    ensures
        ({
            let agents = app.agents@.filter(agent_matches(lowercase(app.agent_autocomplete_filter@)));
            if app.agent_autocomplete_visible && agents.len() > 0 {
                let n = if agents.len() < 6 {
                    agents.len()
                } else {
                    6
                };
                let h = n + 2;
                let w = if area.width >= 2 {
                    area.width - 2
                } else {
                    0
                };
                &&& r matches Some(p)
                &&& p.area == Rect {
                    x: (area.x + 1) as u16,
                    y: (if area.y >= h {
                        area.y - h
                    } else {
                        0
                    }) as u16,
                    width: (if w < 40 {
                        w
                    } else {
                        40
                    }) as u16,
                    height: h as u16,
                }
                &&& lines_v(p.items@) == agents.take(n as int).map_values(|a: Agent| agent_entry(a))
                &&& p.selected == crate::dialog_view::clamp_selection(
                    app.agent_autocomplete_selected,
                    n as nat,
                )
            } else {
                r is None
            }
        }),
{
    if !app.agent_autocomplete_visible {
        return None;
    }
    let agents = app.filtered_agents();
    let ghost av = app.agents@.filter(agent_matches(lowercase(app.agent_autocomplete_filter@)));
    assert(agents@.len() == agents@.map_values(|a: &Agent| *a).len());
    if agents.len() == 0 {
        return None;
    }
    let n: usize = if agents.len() < 6 {
        agents.len()
    } else {
        6
    };
    let h = n as u16 + 2;
    let width = if area.width.saturating_sub(2) < 40 {
        area.width.saturating_sub(2)
    } else {
        40
    };
    let rect = Rect { x: area.x + 1, y: area.y.saturating_sub(h), width, height: h };
    let mut out: Vec<StyledLine> = Vec::new();
    let ghost f = |a: Agent| agent_entry(a);
    assert(lines_v(out@) =~= av.take(0).map_values(f));
    for i in 0..n
        invariant
            n <= agents@.len(),
            av == app.agents@.filter(agent_matches(lowercase(app.agent_autocomplete_filter@))),
            agents@.map_values(|a: &Agent| *a) == av,
            f == (|a: Agent| agent_entry(a)),
            lines_v(out@) == av.take(i as int).map_values(f),
    {
        let a = agents[i];
        assert(*a == av[i as int]);
        let mut name = chars_of(" @");
        crate::text::extend(&mut name, &chars_of(a.name.as_str()));
        crate::text::extend(&mut name, &chars_of(" "));
        let d = match &a.description {
            Some(d) => chars_of(d.as_str()),
            None => Vec::new(),
        };
        let shown = if d.len() > 30 {
            crate::text::slice(&d, 0, 30)
        } else {
            d
        };
        let mut v: Vec<StyledSpan> = Vec::new();
        v.push(span(string_of(&name), fg(ThemeColor::Accent)));
        v.push(span(string_of(&shown), fg(ThemeColor::Muted)));
        assert(v@.map_values(|x: StyledSpan| span_v(x)) =~= f(av[i as int]));
        push_line(&mut out, v);
        assert(av.take(i + 1).map_values(f) =~= av.take(i as int).map_values(f).push(
            f(av[i as int]),
        ));
    }
    let selected = crate::dialog_view::clamped_selection(app.agent_autocomplete_selected, n);
    Some(AgentPopup { area: rect, items: out, selected })
}

} // verus!
