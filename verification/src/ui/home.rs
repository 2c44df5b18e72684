//! The home page: a card for each program, and buttons for all services at once.
use vstd::prelude::*;

use crate::app::{EffectView, Message, State};
use crate::config::first_unset_is_none_iff_all_set;
use crate::laws::sound;
use crate::model::{StateView, start_all, start_service, step};
use crate::service::{ServiceKind, Status};
use crate::terminal::TermHandle;
use crate::text::{decimal, decimal_digits};
use crate::theme::{TEXT, TEXT_MUTED, Color, dot, dot_color};
use crate::ui::{Button, ButtonView, Label, LabelView, Look, Press, button_views};

verus! {

/// The card of a program.
#[derive(Debug)]
pub struct Card {
    pub kind: ServiceKind,
    /// The colour of the dot.
    pub dot: Color,
    pub name: Label,
    pub path: Label,
    /// Not shown for the game client, whose process is its own.
    pub status: Option<Label>,
    pub actions: Vec<Button>,
}

/// What a [`Card`] holds.
#[verifier::ext_equal]
pub struct CardView {
    pub kind: ServiceKind,
    pub dot: Color,
    pub name: LabelView,
    pub path: LabelView,
    pub status: Option<LabelView>,
    pub actions: Seq<ButtonView>,
}

impl View for Card {
    type V = CardView;

    open spec fn view(&self) -> CardView {
        CardView {
            kind: self.kind,
            dot: self.dot,
            name: self.name@,
            path: self.path@,
            status: match self.status {
                Some(status) => Some(status@),
                None => None,
            },
            actions: button_views(self.actions@),
        }
    }
}

/// The home page.
#[derive(Debug)]
pub struct HomePage {
    pub start: Button,
    pub stop: Button,
    pub running: Label,
    pub cards: Vec<Card>,
}

/// What a [`HomePage`] holds.
#[verifier::ext_equal]
pub struct HomePageView {
    pub start: ButtonView,
    pub stop: ButtonView,
    pub running: LabelView,
    pub cards: Seq<CardView>,
}

impl View for HomePage {
    type V = HomePageView;

    open spec fn view(&self) -> HomePageView {
        HomePageView {
            start: self.start@,
            stop: self.stop@,
            running: self.running@,
            cards: self.cards@.map_values(|card: Card| card@),
        }
    }
}

/// The start button. It is off without a path.
pub open spec fn start_shown(kind: ServiceKind, path: Seq<char>) -> ButtonView {
    ButtonView {
        label: "启动"@,
        look: Look::Accent,
        press: if path.len() > 0 {
            Some(Press::Start(kind))
        } else {
            None
        },
    }
}

pub open spec fn stop_shown(kind: ServiceKind) -> ButtonView {
    ButtonView { label: "停止"@, look: Look::Danger, press: Some(Press::Stop(kind)) }
}

pub open spec fn restart_shown(kind: ServiceKind) -> ButtonView {
    ButtonView { label: "重启"@, look: Look::Outline, press: Some(Press::Restart(kind)) }
}

/// The buttons on the card of a program.
pub open spec fn actions_shown(kind: ServiceKind, status: Status, path: Seq<char>) -> Seq<ButtonView> {
    if kind == ServiceKind::Client || status == Status::Stopped || status == Status::Error {
        seq![start_shown(kind, path)]
    } else if status == Status::Waiting {
        seq![stop_shown(kind)]
    } else {
        seq![stop_shown(kind), restart_shown(kind)]
    }
}

/// The card of a program.
pub open spec fn card_shown<H>(s: StateView<H>, kind: ServiceKind) -> CardView {
    let status = s.status[kind.slot()];
    let color = dot(status, Color::Gray(TEXT_MUTED));
    let path = s.config.path(kind);
    CardView {
        kind,
        dot: color,
        name: LabelView { text: kind.label_text(), color: Color::Gray(TEXT) },
        path: LabelView {
            text: if path.len() == 0 {
                "未配置路径"@
            } else {
                path
            },
            color: Color::Gray(TEXT_MUTED),
        },
        status: if kind == ServiceKind::Client {
            None
        } else {
            Some(LabelView { text: status.shown_text(), color })
        },
        actions: actions_shown(kind, status, path),
    }
}

/// How many programs run.
pub open spec fn running_count(status: Seq<Status>) -> nat {
    status.filter(|status: Status| status == Status::Running).len()
}

/// The home page in a state.
pub open spec fn home_shown<H>(s: StateView<H>) -> HomePageView {
    HomePageView {
        start: ButtonView {
            label: "一键启动"@,
            look: Look::Accent,
            press: if !s.sequence_active && s.config.has_path(ServiceKind::Mysql)
                && s.config.has_path(ServiceKind::Auth) && s.config.has_path(ServiceKind::World) {
                Some(Press::StartAll)
            } else {
                None
            },
        },
        stop: ButtonView {
            label: "一键停止"@,
            look: Look::Danger,
            press: if !s.sequence_active && exists|i: int|
                0 <= i < s.status.len() && (#[trigger] s.status[i]).operational() {
                Some(Press::StopAll)
            } else {
                None
            },
        },
        running: LabelView {
            text: "运行中服务: "@ + decimal_digits(running_count(s.status)) + "/3"@,
            color: Color::Gray(TEXT_MUTED),
        },
        cards: seq![
            card_shown(s, ServiceKind::Mysql),
            card_shown(s, ServiceKind::Auth),
            card_shown(s, ServiceKind::World),
            card_shown(s, ServiceKind::Client),
        ],
    }
}

fn start_button(kind: ServiceKind, path: &str) -> (result: Button)
    ensures
        result@ == start_shown(kind, path@),
{
    Button {
        label: "启动",
        look: Look::Accent,
        press: if path.is_empty() {
            None
        } else {
            Some(Press::Start(kind))
        },
    }
}

fn stop_button(kind: ServiceKind) -> (result: Button)
    ensures
        result@ == stop_shown(kind),
{
    Button { label: "停止", look: Look::Danger, press: Some(Press::Stop(kind)) }
}

fn service_card<H>(state: &State<H>, kind: ServiceKind) -> (result: Card)
    ensures
        result@ == card_shown(state@, kind),
{
    let status = state.status[kind.index()];
    let path = state.config.path_for(kind);
    let color = dot_color(status, Color::Gray(TEXT_MUTED));
    let mut actions: Vec<Button> = Vec::new();
    if kind == ServiceKind::Client {
        actions.push(start_button(kind, path));
    } else {
        match status {
            Status::Stopped | Status::Error => actions.push(start_button(kind, path)),
            Status::Running | Status::Starting | Status::Stopping => {
                actions.push(stop_button(kind));
                actions.push(
                    Button { label: "重启", look: Look::Outline, press: Some(Press::Restart(kind)) },
                );
            },
            Status::Waiting => actions.push(stop_button(kind)),
        }
    }
    assert(button_views(actions@) =~= actions_shown(kind, status, path@));
    Card {
        kind,
        dot: color,
        name: Label { text: kind.label().to_string(), color: Color::Gray(TEXT) },
        path: Label {
            text: if path.is_empty() {
                "未配置路径".to_string()
            } else {
                path.to_string()
            },
            color: Color::Gray(TEXT_MUTED),
        },
        status: if kind == ServiceKind::Client {
            None
        } else {
            Some(Label { text: status.text().to_string(), color })
        },
        actions,
    }
}

fn one_click_start<H>(state: &State<H>) -> (result: Button)
    ensures
        result@ == home_shown(state@).start,
{
    let busy = state.sequence_active;
    let ready = state.config.path_set(ServiceKind::Mysql) && state.config.path_set(
        ServiceKind::Auth,
    ) && state.config.path_set(ServiceKind::World);
    Button {
        label: "一键启动",
        look: Look::Accent,
        press: if busy || !ready {
            None
        } else {
            Some(Press::StartAll)
        },
    }
}

fn one_click_stop<H>(state: &State<H>) -> (result: Button)
    ensures
        result@ == home_shown(state@).stop,
{
    let any_running = state.status[0].is_operational() || state.status[1].is_operational()
        || state.status[2].is_operational() || state.status[3].is_operational();
    assert(any_running == exists|i: int|
        0 <= i < state@.status.len() && (#[trigger] state@.status[i]).operational()) by {
        let status = state@.status;
        assert(status.len() == 4);
        assert(any_running == (status[0].operational() || status[1].operational()
            || status[2].operational() || status[3].operational()));
    }
    Button {
        label: "一键停止",
        look: Look::Danger,
        press: if state.sequence_active || !any_running {
            None
        } else {
            Some(Press::StopAll)
        },
    }
}

/// The number of programs that run.
fn count_running(status: &[Status; 4]) -> (result: u32)
    ensures
        result == running_count(status@),
{
    let mut count: u32 = 0;
    let mut i: usize = 0;
    let ghost runs = |status: Status| status == Status::Running;
    assert(status@.take(0).filter(runs) =~= Seq::empty()) by {
        reveal(Seq::filter);
    }
    while i < 4
        invariant
            i <= 4,
            count <= i,
            runs == (|status: Status| status == Status::Running),
            count == status@.take(i as int).filter(runs).len(),
        decreases 4 - i,
    {
        proof {
            let next = status@.take(i + 1);
            assert(next.drop_last() =~= status@.take(i as int));
            reveal(Seq::filter);
        }
        if status[i] == Status::Running {
            count += 1;
        }
        i += 1;
    }
    assert(status@.take(4) =~= status@);
    count
}

/// What the home page shows.
pub fn view<H>(state: &State<H>) -> (result: HomePage)
    ensures
        result@ == home_shown(state@),
{
    let mut text = "运行中服务: ".to_string();
    text.append(decimal(count_running(&state.status) as u64).as_str());
    text.append("/3");
    let cards: Vec<Card> = vec![
        service_card(state, ServiceKind::Mysql),
        service_card(state, ServiceKind::Auth),
        service_card(state, ServiceKind::World),
        service_card(state, ServiceKind::Client),
    ];
    let page = HomePage {
        start: one_click_start(state),
        stop: one_click_stop(state),
        running: Label { text, color: Color::Gray(TEXT_MUTED) },
        cards,
    };
    assert(page@.cards =~= home_shown(state@).cards);
    page
}

/// Starting everything is offered only while it goes ahead: MySQL is then wanted and waited for.
pub proof fn start_all_is_offered_when_it_works<H>(s: StateView<H>, screen: Option<TermHandle>)
    requires
        sound(s),
        home_shown(s).start.press is Some,
    ensures
        ({
            let started = step(s, Message::StartAll, screen);
            &&& started.effects == seq![EffectView::WaitMysqlReady]
            &&& started.state.wants(ServiceKind::Mysql)
            &&& started.state.sequence_active
        }),
{
    reveal(step);
    reveal(start_all);
    let services = ServiceKind::SERVICES@;
    first_unset_is_none_iff_all_set(s.config, services);
    assert forall|i: int| 0 <= i < services.len() implies s.config.has_path(
        #[trigger] services[i],
    ) by {
        assert(i == 0 || i == 1 || i == 2);
    }
}

/// A start button that is on starts its service.
pub proof fn start_is_offered_when_it_works<H>(
    s: StateView<H>,
    kind: ServiceKind,
    screen: Option<TermHandle>,
)
    requires
        sound(s),
        kind.is_service(),
        start_shown(kind, s.config.path(kind)).press is Some,
    ensures
        ({
            let started = step(s, Message::StartService(kind), screen).state;
            &&& started.wants(kind)
            &&& started.status[kind.slot()] == Status::Starting
        }),
{
    reveal(step);
    reveal(start_service);
}

/// The card of a program offers exactly what can be done with it: to start it if it has a path and
/// is stopped or has failed, which for the game client is always, to stop it if it is anything
/// else, and to restart it as well if it runs or is on its way in or out.
pub proof fn cards_offer_what_can_be_done<H>(s: StateView<H>, kind: ServiceKind)
    ensures
        ({
            let card = home_shown(s).cards[kind.slot()];
            let status = s.status[kind.slot()];
            let path = s.config.path(kind);
            let down = kind == ServiceKind::Client || status == Status::Stopped || status
                == Status::Error;
            &&& home_shown(s).cards.len() == 4
            &&& card.kind == kind
            &&& card.name.text == kind.label_text()
            &&& path.len() > 0 ==> card.path.text == path
            &&& path.len() == 0 ==> card.path.text == "未配置路径"@
            &&& card.dot == dot(status, Color::Gray(TEXT_MUTED))
            &&& kind == ServiceKind::Client ==> card.status is None
            &&& kind != ServiceKind::Client ==> card.status == Some(
                LabelView { text: status.shown_text(), color: card.dot },
            )
            &&& down ==> card.actions.len() == 1 && card.actions[0].label == "启动"@
                && card.actions[0].press == if path.len() > 0 {
                Some(Press::Start(kind))
            } else {
                None
            }
            &&& !down ==> card.actions[0].label == "停止"@
            &&& !down && status == Status::Waiting ==> card.actions.len() == 1
                && card.actions[0].press == Some(Press::Stop(kind))
            &&& !down && status != Status::Waiting ==> card.actions.len() == 2
                && card.actions[0].press == Some(Press::Stop(kind)) && card.actions[1].press
                == Some(Press::Restart(kind)) && card.actions[1].label == "重启"@
        }),
{
}

/// Starting everything is offered exactly while it is not under way and every service has a path,
/// and stopping everything exactly while it is not under way and some program runs or is on its way
/// in or out. How many programs run is told.
pub proof fn all_at_once_is_offered_when_it_makes_sense<H>(s: StateView<H>)
    requires
        s.status.len() == 4,
    ensures
        ({
            let page = home_shown(s);
            let goes = |i: int|
                s.status[i] == Status::Starting || s.status[i] == Status::Running || s.status[i]
                    == Status::Stopping;
            let one = |i: int|
                if s.status[i] == Status::Running {
                    1int
                } else {
                    0
                };
            &&& page.start.label == "一键启动"@
            &&& page.stop.label == "一键停止"@
            &&& page.start.press == if !s.sequence_active && s.config.has_path(ServiceKind::Mysql)
                && s.config.has_path(ServiceKind::Auth) && s.config.has_path(ServiceKind::World) {
                Some(Press::StartAll)
            } else {
                None
            }
            &&& page.stop.press == if !s.sequence_active && (goes(0) || goes(1) || goes(2) || goes(
                3,
            )) {
                Some(Press::StopAll)
            } else {
                None
            }
            &&& page.running.text == "运行中服务: "@ + decimal_digits(
                (one(0) + one(1) + one(2) + one(3)) as nat,
            ) + "/3"@
        }),
{
    let status = s.status;
    let runs = |status: Status| status == Status::Running;
    assert(status.drop_last().drop_last().drop_last().drop_last() =~= Seq::empty());
    reveal_with_fuel(Seq::filter, 5);
    let any = exists|i: int| 0 <= i < status.len() && (#[trigger] status[i]).operational();
    assert(any == (status[0].operational() || status[1].operational() || status[2].operational()
        || status[3].operational()));
}

} // verus!
