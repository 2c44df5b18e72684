//! The terminal page: a tab for each service, and the screen of the one in front.
use vstd::prelude::*;

use crate::app::State;
use crate::model::StateView;
use crate::service::ServiceKind;
use crate::terminal::{CellRun, GridSnapshot, RunView, row_views, run_views};
use crate::text::{decimal, decimal_digits, texts};
use crate::theme::{
    CARD_BORDER, TERM_DEFAULT, TERM_MUTED, TERM_RED, TEXT, TEXT_MUTED, Color, dot, dot_color, hex,
    hex_color,
};
use crate::ui::{Button, ButtonView, Label, LabelView, Look, Press, label_views};

verus! {

/// How many error notices the page shows.
pub const NOTICES_SHOWN: usize = 5;

/// The tab of a service.
#[derive(Debug)]
pub struct Tab {
    pub kind: ServiceKind,
    /// The colour of the dot.
    pub dot: Color,
    pub name: Label,
    pub active: bool,
}

/// What a [`Tab`] holds.
pub struct TabView {
    pub kind: ServiceKind,
    pub dot: Color,
    pub name: LabelView,
    pub active: bool,
}

impl View for Tab {
    type V = TabView;

    open spec fn view(&self) -> TabView {
        TabView { kind: self.kind, dot: self.dot, name: self.name@, active: self.active }
    }
}

/// What is below the tabs.
#[derive(Debug)]
pub enum Body {
    /// The service has never shown anything.
    Waiting(Label),
    /// The rows of the front terminal's snapshot, if there is one, with notices over them.
    Screen { rows: Vec<Vec<CellRun>>, notices: Vec<Label> },
}

/// What a [`Body`] holds.
#[verifier::ext_equal]
pub enum BodyView {
    Waiting(LabelView),
    Screen { rows: Seq<Seq<RunView>>, notices: Seq<LabelView> },
}

impl View for Body {
    type V = BodyView;

    open spec fn view(&self) -> BodyView {
        match self {
            Body::Waiting(label) => BodyView::Waiting(label@),
            Body::Screen { rows, notices } => BodyView::Screen {
                rows: row_views(rows@),
                notices: label_views(notices@),
            },
        }
    }
}

/// The terminal page.
#[derive(Debug)]
pub struct TerminalPage {
    pub tabs: Vec<Tab>,
    pub clear: Button,
    pub body: Body,
}

/// What a [`TerminalPage`] holds.
#[verifier::ext_equal]
pub struct TerminalPageView {
    pub tabs: Seq<TabView>,
    pub clear: ButtonView,
    pub body: BodyView,
}

impl View for TerminalPage {
    type V = TerminalPageView;

    open spec fn view(&self) -> TerminalPageView {
        TerminalPageView {
            tabs: self.tabs@.map_values(|tab: Tab| tab@),
            clear: self.clear@,
            body: self.body@,
        }
    }
}

/// The tab of a service.
pub open spec fn tab_shown<H>(s: StateView<H>, kind: ServiceKind) -> TabView {
    TabView {
        kind,
        dot: dot(s.status[kind.slot()], hex_color(CARD_BORDER)),
        name: LabelView {
            text: kind.label_text(),
            color: Color::Gray(
                if kind == s.active_terminal {
                    TEXT
                } else {
                    TEXT_MUTED
                },
            ),
        },
        active: kind == s.active_terminal,
    }
}

/// The newest error notices, with a line above them that counts the older ones.
pub open spec fn notices_shown(errors: Seq<Seq<char>>) -> Seq<LabelView> {
    let extra = if errors.len() > NOTICES_SHOWN {
        errors.len() - NOTICES_SHOWN
    } else {
        0
    };
    (if extra > 0 {
        seq![
            LabelView {
                text: "… 另有 "@ + decimal_digits(extra as nat) + " 条更早的错误"@,
                color: hex_color(TERM_MUTED),
            },
        ]
    } else {
        Seq::empty()
    }) + errors.skip(extra).map_values(
        |text: Seq<char>| LabelView { text, color: hex_color(TERM_RED) },
    )
}

/// What is below the tabs in a state.
pub open spec fn body_shown<H>(s: StateView<H>) -> BodyView {
    let slot = s.active_terminal.slot();
    if s.grids[slot] is None && s.terminals[slot] is None {
        BodyView::Waiting(LabelView { text: "等待输出…"@, color: hex_color(TERM_MUTED) })
    } else {
        BodyView::Screen {
            rows: match s.grids[slot] {
                Some(grid) => grid.rows,
                None => Seq::empty(),
            },
            notices: notices_shown(s.errors[slot]),
        }
    }
}

/// The line that a row is drawn as: its runs, and for a row without any a blank that keeps its
/// height.
pub open spec fn line_drawn(row: Seq<RunView>) -> Seq<RunView> {
    if row.len() == 0 {
        seq![
            RunView {
                text: seq![' '],
                fg: hex_color(TERM_DEFAULT),
                bg: None,
                bold: false,
                underline: false,
            },
        ]
    } else {
        row
    }
}

/// The terminal page in a state.
pub open spec fn terminal_shown<H>(s: StateView<H>) -> TerminalPageView {
    TerminalPageView {
        tabs: seq![
            tab_shown(s, ServiceKind::Mysql),
            tab_shown(s, ServiceKind::Auth),
            tab_shown(s, ServiceKind::World),
        ],
        clear: ButtonView {
            label: "清空"@,
            look: Look::Outline,
            press: Some(Press::Clear(s.active_terminal)),
        },
        body: body_shown(s),
    }
}

fn tab_button<H>(state: &State<H>, kind: ServiceKind) -> (result: Tab)
    ensures
        result@ == tab_shown(state@, kind),
{
    let active = kind == state.active_terminal;
    Tab {
        kind,
        dot: dot_color(state.status[kind.index()], hex(CARD_BORDER)),
        name: Label {
            text: kind.label().to_string(),
            color: Color::Gray(
                if active {
                    TEXT
                } else {
                    TEXT_MUTED
                },
            ),
        },
        active,
    }
}

/// The newest error notices.
fn error_notices(errors: &Vec<String>) -> (result: Vec<Label>)
    ensures
        label_views(result@) == notices_shown(texts(errors@)),
{
    let extra: usize = errors.len().saturating_sub(NOTICES_SHOWN);
    let mut labels: Vec<Label> = Vec::new();
    if extra > 0 {
        let mut text = "… 另有 ".to_string();
        text.append(decimal(extra as u64).as_str());
        text.append(" 条更早的错误");
        labels.push(Label { text, color: hex(TERM_MUTED) });
    }
    let ghost head = label_views(labels@);
    let ghost shown = |text: Seq<char>| LabelView { text, color: hex_color(TERM_RED) };
    let ghost rest = texts(errors@).skip(extra as int).map_values(shown);
    assert(head + rest =~= notices_shown(texts(errors@)));
    let mut i: usize = extra;
    assert(label_views(labels@) =~= head + rest.take(0));
    while i < errors.len()
        invariant
            extra <= i <= errors.len(),
            shown == (|text: Seq<char>| LabelView { text, color: hex_color(TERM_RED) }),
            rest == texts(errors@).skip(extra as int).map_values(shown),
            label_views(labels@) == head + rest.take(i - extra),
        decreases errors.len() - i,
    {
        let ghost before = labels@;
        labels.push(Label { text: errors[i].clone(), color: hex(TERM_RED) });
        proof {
            assert(rest.take(i + 1 - extra) =~= rest.take(i - extra).push(rest[i - extra]));
            assert(label_views(labels@) =~= label_views(before).push(rest[i - extra]));
            assert(label_views(labels@) =~= head + rest.take(i + 1 - extra));
        }
        i += 1;
    }
    assert(rest.take(rest.len() as int) =~= rest);
    labels
}

fn copied_row(row: &Vec<CellRun>) -> (result: Vec<CellRun>)
    ensures
        run_views(result@) == run_views(row@),
{
    let mut runs: Vec<CellRun> = Vec::new();
    let mut i: usize = 0;
    while i < row.len()
        invariant
            i <= row.len(),
            run_views(runs@) == run_views(row@).take(i as int),
        decreases row.len() - i,
    {
        let run = &row[i];
        let ghost before = runs@;
        runs.push(
            CellRun {
                text: run.text.clone(),
                fg: run.fg,
                bg: run.bg,
                bold: run.bold,
                underline: run.underline,
            },
        );
        assert(run_views(runs@) =~= run_views(before).push(row@[i as int]@));
        assert(run_views(row@).take(i + 1) =~= run_views(row@).take(i as int).push(
            run_views(row@)[i as int],
        ));
        i += 1;
    }
    assert(run_views(row@).take(row@.len() as int) =~= run_views(row@));
    runs
}

/// The rows of a snapshot.
fn copied_rows(grid: &GridSnapshot) -> (result: Vec<Vec<CellRun>>)
    ensures
        row_views(result@) == grid@.rows,
{
    let mut rows: Vec<Vec<CellRun>> = Vec::new();
    let mut i: usize = 0;
    while i < grid.rows.len()
        invariant
            i <= grid.rows.len(),
            row_views(rows@) == row_views(grid.rows@).take(i as int),
        decreases grid.rows.len() - i,
    {
        let row = copied_row(&grid.rows[i]);
        let ghost before = rows@;
        rows.push(row);
        assert(row_views(rows@) =~= row_views(before).push(run_views(row@)));
        assert(row_views(grid.rows@).take(i + 1) =~= row_views(grid.rows@).take(i as int).push(
            row_views(grid.rows@)[i as int],
        ));
        i += 1;
    }
    assert(row_views(grid.rows@).take(grid.rows@.len() as int) =~= row_views(grid.rows@));
    rows
}

/// The runs that a row is drawn with.
pub fn draw_line(row: Vec<CellRun>) -> (result: Vec<CellRun>)
    ensures
        run_views(result@) == line_drawn(run_views(row@)),
{
    if row.len() == 0 {
        let blank = CellRun {
            text: " ".to_string(),
            fg: hex(TERM_DEFAULT),
            bg: None,
            bold: false,
            underline: false,
        };
        let line: Vec<CellRun> = vec![blank];
        proof {
            reveal_strlit(" ");
            assert(" "@ =~= seq![' ']);
            assert(run_views(line@) =~= line_drawn(run_views(row@)));
        }
        line
    } else {
        row
    }
}

/// The rows that the page shows are those of the front terminal's snapshot, however many notices
/// there are, and each of them is drawn as a line that is not empty.
pub proof fn rows_do_not_depend_on_notices<H>(s: StateView<H>, t: StateView<H>)
    requires
        s.active_terminal == t.active_terminal,
        s.grids == t.grids,
        s.terminals == t.terminals,
    ensures
        match (body_shown(s), body_shown(t)) {
            (BodyView::Screen { rows, .. }, BodyView::Screen { rows: others, .. }) => rows
                == others && forall|i: int|
                0 <= i < rows.len() ==> (#[trigger] line_drawn(rows[i])).len() > 0,
            (BodyView::Waiting(label), BodyView::Waiting(other)) => label == other,
            _ => false,
        },
{
}

/// What the terminal page shows.
pub fn view<H>(state: &State<H>) -> (result: TerminalPage)
    ensures
        result@ == terminal_shown(state@),
{
    let idx: usize = state.active_terminal.index();
    let tabs: Vec<Tab> = vec![
        tab_button(state, ServiceKind::Mysql),
        tab_button(state, ServiceKind::Auth),
        tab_button(state, ServiceKind::World),
    ];
    let clear = Button {
        label: "清空",
        look: Look::Outline,
        press: Some(Press::Clear(state.active_terminal)),
    };
    let body = if state.grids[idx].is_none() && state.terminals[idx].is_none() {
        Body::Waiting(Label { text: "等待输出…".to_string(), color: hex(TERM_MUTED) })
    } else {
        let rows: Vec<Vec<CellRun>> = match &state.grids[idx] {
            Some(grid) => copied_rows(grid),
            None => Vec::new(),
        };
        assert(state.grids[idx as int] is None ==> row_views(rows@) =~= Seq::empty());
        Body::Screen { rows, notices: error_notices(&state.errors[idx]) }
    };
    let page = TerminalPage { tabs, clear, body };
    assert(page@.tabs =~= terminal_shown(state@).tabs);
    page
}

/// The terminal page has a tab for each service, marks the one in front, and clears that one. Until
/// a service has shown anything the page waits for it.
pub proof fn tabs_mark_the_front_terminal<H>(s: StateView<H>, kind: ServiceKind)
    requires
        kind != ServiceKind::Client,
    ensures
        ({
            let page = terminal_shown(s);
            let tab = page.tabs[kind.slot()];
            let front = s.active_terminal.slot();
            &&& page.tabs.len() == 3
            &&& tab.kind == kind
            &&& tab.name.text == kind.label_text()
            &&& tab.active <==> kind == s.active_terminal
            &&& tab.name.color == Color::Gray(
                if tab.active {
                    TEXT
                } else {
                    TEXT_MUTED
                },
            )
            &&& tab.dot == dot(s.status[kind.slot()], hex_color(CARD_BORDER))
            &&& page.clear.press == Some(Press::Clear(s.active_terminal))
            &&& page.clear.label == "清空"@
            &&& page.body matches BodyView::Waiting(label) ==> label.text == "等待输出…"@
            &&& page.body is Waiting <==> s.grids[front] is None && s.terminals[front] is None
            &&& page.body matches BodyView::Screen { rows, .. } ==> rows == match s.grids[front] {
                Some(grid) => grid.rows,
                None => Seq::empty(),
            }
            &&& page.body matches BodyView::Screen { notices, .. } ==> notices == notices_shown(
                s.errors[front],
            )
        }),
{
}

/// Of the notices the newest five are shown, oldest first, after a line that tells how many more
/// there are if there are any. Up to five are shown as they are.
pub proof fn newest_notices_are_shown(errors: Seq<Seq<char>>, i: int)
    requires
        0 <= i < errors.len(),
    ensures
        ({
            let shown = notices_shown(errors);
            let label = |text: Seq<char>| LabelView { text, color: hex_color(TERM_RED) };
            &&& errors.len() <= 5 ==> shown.len() == errors.len() && shown[i] == label(errors[i])
            &&& errors.len() > 5 ==> shown.len() == 6 && shown[0] == (LabelView {
                text: "… 另有 "@ + decimal_digits((errors.len() - 5) as nat)
                    + " 条更早的错误"@,
                color: hex_color(TERM_MUTED),
            })
            &&& errors.len() > 5 && i >= errors.len() - 5 ==> shown[i - (errors.len() - 5) + 1]
                == label(errors[i])
        }),
{
}

/// A row without runs is drawn as one space, and every other row as it is.
pub proof fn empty_rows_keep_their_height(row: Seq<RunView>)
    ensures
        row.len() > 0 ==> line_drawn(row) == row,
        row.len() == 0 ==> line_drawn(row).len() == 1 && line_drawn(row)[0].text == seq![' ']
            && line_drawn(row)[0].bg is None && !line_drawn(row)[0].bold
            && !line_drawn(row)[0].underline,
{
}

} // verus!
